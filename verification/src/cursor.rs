//! A read position in a byte buffer, and the big-endian integers and
//! length-prefixed vectors that the TLS grammar is made of.

use vstd::prelude::*;
use vstd::slice::slice_subrange;

verus! {

/// The 16-bit number with high byte `hi` and low byte `lo`.
pub open spec fn be16(hi: u8, lo: u8) -> u16 {
    (hi as int * 256 + lo as int) as u16
}

/// The 24-bit number with the given bytes, most significant first.
pub open spec fn be24(b0: u8, b1: u8, b2: u8) -> u32 {
    (b0 as int * 65536 + b1 as int * 256 + b2 as int) as u32
}

/// A vector with a length prefix of `width` bytes (big-endian) at the start
/// of `s`: its content and what follows it. `None` when `s` is shorter than
/// the prefix, or than the length that the prefix declares.
pub open spec fn prefixed(s: Seq<u8>, width: int) -> Option<(Seq<u8>, Seq<u8>)>
    recommends
        width == 1 || width == 2,
{
    if s.len() < width {
        None
    } else {
        let n = if width == 1 {
            s[0] as int
        } else {
            be16(s[0], s[1]) as int
        };
        if s.len() < width + n {
            None
        } else {
            Some((s.subrange(width, width + n), s.skip(width + n)))
        }
    }
}

/// Combines two bytes into a 16-bit number, high byte first.
pub fn u16_from_be(hi: u8, lo: u8) -> (n: u16)
    ensures
        n == be16(hi, lo),
{
    (hi as u16) * 256 + (lo as u16)
}

/// The bytes of a buffer that have not been read yet.
pub struct Cursor<'a> {
    rest: &'a [u8],
}

impl<'a> View for Cursor<'a> {
    type V = Seq<u8>;

    /// The unread bytes.
    closed spec fn view(&self) -> Seq<u8> {
        self.rest@
    }
}

impl<'a> Cursor<'a> {
    /// A cursor at the start of `data`.
    pub fn new(data: &'a [u8]) -> (c: Self)
        ensures
            c@ == data@,
    {
        Cursor { rest: data }
    }

    /// Whether every byte has been read.
    pub fn is_empty(&self) -> (r: bool)
        ensures
            r == (self@.len() == 0),
    {
        self.rest.len() == 0
    }

    /// The unread bytes; the cursor stays where it is.
    pub fn remaining(&self) -> (r: &'a [u8])
        ensures
            r@ == self@,
    {
        self.rest
    }

    /// Reads the next `n` bytes. When fewer are left, nothing is returned and
    /// the cursor moves to the end.
    pub fn take(&mut self, n: usize) -> (r: Option<&'a [u8]>)
        ensures
            match r {
                Some(bytes) => n <= old(self)@.len() && bytes@ == old(self)@.take(n as int)
                    && final(self)@ == old(self)@.skip(n as int),
                None => n > old(self)@.len() && final(self)@ == Seq::<u8>::empty(),
            },
    {
        let len = self.rest.len();
        if n <= len {
            let bytes = slice_subrange(self.rest, 0, n);
            self.rest = slice_subrange(self.rest, n, len);
            Some(bytes)
        } else {
            self.rest = slice_subrange(self.rest, len, len);
            None
        }
    }

    /// Reads one byte.
    pub fn read_u8(&mut self) -> (r: Option<u8>)
        ensures
            match r {
                Some(b) => old(self)@.len() >= 1 && b == old(self)@[0] && final(self)@ == old(
                    self,
                )@.skip(1),
                None => old(self)@.len() == 0 && final(self)@ == Seq::<u8>::empty(),
            },
    {
        match self.take(1) {
            Some(bytes) => Some(bytes[0]),
            None => None,
        }
    }

    /// Reads a big-endian 16-bit number.
    pub fn read_u16(&mut self) -> (r: Option<u16>)
        ensures
            match r {
                Some(n) => old(self)@.len() >= 2 && n == be16(old(self)@[0], old(self)@[1])
                    && final(self)@ == old(self)@.skip(2),
                None => old(self)@.len() < 2 && final(self)@ == Seq::<u8>::empty(),
            },
    {
        match self.take(2) {
            Some(bytes) => Some(u16_from_be(bytes[0], bytes[1])),
            None => None,
        }
    }

    /// Reads a big-endian 24-bit number into the low bits of a `u32`.
    pub fn read_u24(&mut self) -> (r: Option<u32>)
        ensures
            match r {
                Some(n) => old(self)@.len() >= 3 && n == be24(
                    old(self)@[0],
                    old(self)@[1],
                    old(self)@[2],
                ) && final(self)@ == old(self)@.skip(3),
                None => old(self)@.len() < 3 && final(self)@ == Seq::<u8>::empty(),
            },
    {
        match self.take(3) {
            Some(bytes) => Some(
                (bytes[0] as u32) * 65536 + (bytes[1] as u32) * 256 + (bytes[2] as u32),
            ),
            None => None,
        }
    }

    /// Reads a vector with a one-byte length prefix.
    pub fn read_vec8(&mut self) -> (r: Option<&'a [u8]>)
        ensures
            match r {
                Some(bytes) => prefixed(old(self)@, 1) == Some((bytes@, final(self)@)),
                None => prefixed(old(self)@, 1) is None && final(self)@ == Seq::<u8>::empty(),
            },
    {
        match self.read_u8() {
            Some(n) => self.take(n as usize),
            None => None,
        }
    }

    /// Reads a vector with a two-byte length prefix.
    pub fn read_vec16(&mut self) -> (r: Option<&'a [u8]>)
        ensures
            match r {
                Some(bytes) => prefixed(old(self)@, 2) == Some((bytes@, final(self)@)),
                None => prefixed(old(self)@, 2) is None && final(self)@ == Seq::<u8>::empty(),
            },
    {
        match self.read_u16() {
            Some(n) => self.take(n as usize),
            None => None,
        }
    }
}

} // verus!
