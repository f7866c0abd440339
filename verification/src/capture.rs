//! The framing of a capture: the bytes of one connection are read in chunks
//! until a read no longer fills the buffer, and become one capture record.

use crate::request::{Request, RequestView};
use vstd::prelude::*;

verus! {

/// The size of the buffer that each read fills at most.
pub const BUFFER_SIZE: usize = 1024;

/// The bytes read from a connection so far, and the time at which it was
/// accepted.
pub struct Capture {
    timestamp: u128,
    body: Vec<u8>,
}

/// What a `Capture` holds, as a mathematical value.
pub struct CapturedView {
    pub timestamp: u128,
    pub body: Seq<u8>,
}

impl View for Capture {
    type V = CapturedView;

    closed spec fn view(&self) -> CapturedView {
        CapturedView { timestamp: self.timestamp, body: self.body@ }
    }
}

/// The response written to every connection once its bytes are captured.
pub open spec fn acknowledgment_text() -> Seq<char> {
    "HTTP/1.1 200 OK\r\n\r\n"@
}

impl Capture {
    /// A capture for a connection accepted at `timestamp`, in milliseconds
    /// since the epoch, with nothing read yet.
    pub fn new(timestamp: u128) -> (capture: Self)
        ensures
            capture@ == (CapturedView { timestamp, body: Seq::empty() }),
    {
        Capture { timestamp, body: Vec::new() }
    }

    /// Takes the outcome of one read, and says whether to read again. The
    /// bytes of a read are added to those before. A read that filled the
    /// buffer may have more behind it; a shorter one ends the message. A read
    /// that failed adds nothing and is tried again. A message whose length
    /// is a multiple of the buffer size therefore ends only with the read
    /// behind it, which may wait for the peer.
    pub fn read(&mut self, outcome: Option<&[u8]>) -> (again: bool)
        ensures
            final(self)@ == (CapturedView {
                timestamp: old(self)@.timestamp,
                body: old(self)@.body + match outcome {
                    Some(chunk) => chunk@,
                    None => Seq::empty(),
                },
            }),
            again == match outcome {
                Some(chunk) => chunk@.len() >= BUFFER_SIZE,
                None => true,
            },
    {
        match outcome {
            Some(chunk) => {
                let mut i: usize = 0;
                while i < chunk.len()
                    invariant
                        i <= chunk.len(),
                        self.timestamp == old(self).timestamp,
                        self.body@ == old(self).body@ + chunk@.take(i as int),
                    decreases chunk.len() - i,
                {
                    self.body.push(chunk[i]);
                    i += 1;
                }
                assert(chunk@.take(i as int) =~= chunk@);
                chunk.len() >= BUFFER_SIZE
            },
            None => {
                true
            },
        }
    }

    /// The capture record of everything read.
    pub fn finish(self) -> (record: Request)
        ensures
            record@ == (RequestView { timestamp: self@.timestamp, data: self@.body }),
    {
        Request::new(self.timestamp, self.body)
    }

    /// The response to write to the connection.
    pub fn acknowledgment() -> (text: String)
        ensures
            text@ == acknowledgment_text(),
    {
        String::from_str("HTTP/1.1 200 OK\r\n\r\n")
    }
}

} // verus!
