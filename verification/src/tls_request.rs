//! TLS records as they appear on the wire at the start of a TLS 1.3
//! handshake: the record header, the handshake header, and the body of a
//! ClientHello.

use crate::cursor::{be16, be24, prefixed, Cursor};
use crate::text::{decimal, pair_views, push_decimal};
use crate::tls_cipher_suite::{cipher_suite_of, CipherSuite};
use crate::tls_extension::{
    decode_extensions, extension_count, lemma_extensions_kept, rejected_codes,
    rejected_extensions,
    well_formed_extensions, Extension, ExtensionView,
};
use vstd::prelude::*;
use vstd::slice::slice_to_vec;

verus! {

/// A TLS record: its header, and the handshake it carries where one can be
/// decoded from the bytes behind the header.
#[derive(Debug, PartialEq)]
pub struct Record {
    pub content_type: RecordContentType,
    pub legacy_record_version: u16,
    pub length: u16,
    pub fragment: Option<Handshake>,
}

/// What a `Record` holds, as a mathematical value.
pub struct RecordView {
    pub content_type: RecordContentType,
    pub legacy_record_version: u16,
    pub length: u16,
    pub fragment: Option<HandshakeView>,
}

impl View for Record {
    type V = RecordView;

    open spec fn view(&self) -> RecordView {
        RecordView {
            content_type: self.content_type,
            legacy_record_version: self.legacy_record_version,
            length: self.length,
            fragment: match self.fragment {
                Some(h) => Some(h@),
                None => None,
            },
        }
    }
}

/// The content type of a record.
#[derive(Debug, PartialEq, Eq, Clone, Copy)]
pub enum RecordContentType {
    Invalid,
    ChangeCipherSpec,
    Alert,
    Handshake,
    ApplicationData,
}

/// The content type with the given code, if there is one.
pub open spec fn content_type_of(n: u8) -> Option<RecordContentType> {
    match n {
        0 => Some(RecordContentType::Invalid),
        20 => Some(RecordContentType::ChangeCipherSpec),
        21 => Some(RecordContentType::Alert),
        22 => Some(RecordContentType::Handshake),
        23 => Some(RecordContentType::ApplicationData),
        _ => None,
    }
}

impl RecordContentType {
    /// The content type with the given code, if there is one.
    pub fn new(n: &u8) -> (r: Option<Self>)
        ensures
            r == content_type_of(*n),
    {
        match *n {
            0 => Some(RecordContentType::Invalid),
            20 => Some(RecordContentType::ChangeCipherSpec),
            21 => Some(RecordContentType::Alert),
            22 => Some(RecordContentType::Handshake),
            23 => Some(RecordContentType::ApplicationData),
            _ => None,
        }
    }
}

/// A handshake message: its header, and its body where the bytes behind the
/// header decode as the body of a ClientHello.
#[derive(Debug, PartialEq)]
pub struct Handshake {
    pub msg_type: HandshakeType,
    pub length: u32,
    pub msg: Option<HandshakeMessage>,
}

/// What a `Handshake` holds, as a mathematical value.
pub struct HandshakeView {
    pub msg_type: HandshakeType,
    pub length: u32,
    pub msg: Option<HandshakeMessageView>,
}

impl View for Handshake {
    type V = HandshakeView;

    open spec fn view(&self) -> HandshakeView {
        HandshakeView {
            msg_type: self.msg_type,
            length: self.length,
            msg: match self.msg {
                Some(m) => Some(m@),
                None => None,
            },
        }
    }
}

/// The type of a handshake message.
#[derive(Debug, PartialEq, Eq, Clone, Copy)]
pub enum HandshakeType {
    ClientHello,
    ServerHello,
    NewSessionTicket,
    EndOfEarlyData,
    EncryptedExtensions,
    Certificate,
    CertificateRequest,
    CertificateVerify,
    Finished,
    KeyUpdate,
    MessageHash,
}

/// The handshake type with the given code, if there is one.
pub open spec fn handshake_type_of(n: u8) -> Option<HandshakeType> {
    match n {
        1 => Some(HandshakeType::ClientHello),
        2 => Some(HandshakeType::ServerHello),
        4 => Some(HandshakeType::NewSessionTicket),
        5 => Some(HandshakeType::EndOfEarlyData),
        8 => Some(HandshakeType::EncryptedExtensions),
        11 => Some(HandshakeType::Certificate),
        13 => Some(HandshakeType::CertificateRequest),
        15 => Some(HandshakeType::CertificateVerify),
        20 => Some(HandshakeType::Finished),
        24 => Some(HandshakeType::KeyUpdate),
        254 => Some(HandshakeType::MessageHash),
        _ => None,
    }
}

impl HandshakeType {
    /// The handshake type with the given code, if there is one.
    pub fn new(n: &u8) -> (r: Option<Self>)
        ensures
            r == handshake_type_of(*n),
    {
        match *n {
            1 => Some(HandshakeType::ClientHello),
            2 => Some(HandshakeType::ServerHello),
            4 => Some(HandshakeType::NewSessionTicket),
            5 => Some(HandshakeType::EndOfEarlyData),
            8 => Some(HandshakeType::EncryptedExtensions),
            11 => Some(HandshakeType::Certificate),
            13 => Some(HandshakeType::CertificateRequest),
            15 => Some(HandshakeType::CertificateVerify),
            20 => Some(HandshakeType::Finished),
            24 => Some(HandshakeType::KeyUpdate),
            254 => Some(HandshakeType::MessageHash),
            _ => None,
        }
    }
}

/// The body of a ClientHello.
#[derive(Debug, PartialEq)]
pub struct HandshakeMessage {
    pub legacy_version: u16,
    pub random: [u8; 32],
    pub legacy_session_id: Vec<u8>,
    pub cipher_suites: Vec<CipherSuite>,
    pub legacy_compression_methods: Vec<u8>,
    pub extensions: Vec<Extension>,
}

/// What a `HandshakeMessage` holds, as a mathematical value.
pub struct HandshakeMessageView {
    pub legacy_version: u16,
    pub random: Seq<u8>,
    pub legacy_session_id: Seq<u8>,
    pub cipher_suites: Seq<CipherSuite>,
    pub legacy_compression_methods: Seq<u8>,
    pub extensions: Seq<ExtensionView>,
}

/// The views of a sequence of extensions.
pub open spec fn extension_views(extensions: Seq<Extension>) -> Seq<ExtensionView> {
    Seq::new(extensions.len(), |i: int| extensions[i]@)
}

impl View for HandshakeMessage {
    type V = HandshakeMessageView;

    open spec fn view(&self) -> HandshakeMessageView {
        HandshakeMessageView {
            legacy_version: self.legacy_version,
            random: self.random@,
            legacy_session_id: self.legacy_session_id@,
            cipher_suites: self.cipher_suites@,
            legacy_compression_methods: self.legacy_compression_methods@,
            extensions: extension_views(self.extensions@),
        }
    }
}

/// The cipher suites that a list of two-byte codes names. A last odd byte
/// names nothing.
pub open spec fn decode_suites(list: Seq<u8>) -> Seq<CipherSuite> {
    Seq::new(
        (list.len() / 2) as nat,
        |k: int| cipher_suite_of(be16(list[2 * k], list[2 * k + 1])),
    )
}

/// The four vectors of a ClientHello body, each taken from behind its length
/// prefix: the session id (one byte of length), the cipher suites (two), the
/// compression methods (one) and the extensions (two). They follow two bytes
/// of version and 32 random bytes. `None` when `s` ends before any of these
/// does. Bytes behind the extensions are not looked at.
pub open spec fn hello_vectors(s: Seq<u8>) -> Option<(Seq<u8>, Seq<u8>, Seq<u8>, Seq<u8>)> {
    if s.len() < 34 {
        None
    } else {
        match prefixed(s.skip(34), 1) {
            None => None,
            Some((session_id, s1)) => match prefixed(s1, 2) {
                None => None,
                Some((suites, s2)) => match prefixed(s2, 1) {
                    None => None,
                    Some((compression, s3)) => match prefixed(s3, 2) {
                        None => None,
                        Some((extensions, _)) => Some(
                            (session_id, suites, compression, extensions),
                        ),
                    },
                },
            },
        }
    }
}

/// The ClientHello body that `s` starts with, or `None` when `s` ends before
/// the body does.
pub open spec fn decode_hello(s: Seq<u8>) -> Option<HandshakeMessageView> {
    match hello_vectors(s) {
        None => None,
        Some((session_id, suites, compression, extensions)) => Some(
            HandshakeMessageView {
                legacy_version: be16(s[0], s[1]),
                random: s.subrange(2, 34),
                legacy_session_id: session_id,
                cipher_suites: decode_suites(suites),
                legacy_compression_methods: compression,
                extensions: decode_extensions(extensions),
            },
        ),
    }
}

/// The handshake message that `s` starts with: one byte of type, three bytes
/// of length, then the body. `None` when `s` has fewer than four bytes or the
/// type is not known; a body that cannot be decoded is absent from the result.
pub open spec fn decode_handshake(s: Seq<u8>) -> Option<HandshakeView> {
    if s.len() < 4 {
        None
    } else {
        match handshake_type_of(s[0]) {
            None => None,
            Some(msg_type) => Some(
                HandshakeView {
                    msg_type,
                    length: be24(s[1], s[2], s[3]),
                    msg: decode_hello(s.skip(4)),
                },
            ),
        }
    }
}

/// The record that `s` starts with: one byte of content type, two bytes of
/// version, two bytes of length, then the fragment. `None` when `s` has fewer
/// than five bytes or the content type is not known; a handshake that cannot
/// be decoded is absent from the result.
pub open spec fn decode_record(s: Seq<u8>) -> Option<RecordView> {
    if s.len() < 5 {
        None
    } else {
        match content_type_of(s[0]) {
            None => None,
            Some(content_type) => Some(
                RecordView {
                    content_type,
                    legacy_record_version: be16(s[1], s[2]),
                    length: be16(s[3], s[4]),
                    fragment: decode_handshake(s.skip(5)),
                },
            ),
        }
    }
}

/// Whether `data` is a handshake record that holds a whole ClientHello with a
/// well-formed region of extensions.
pub open spec fn is_client_hello(data: Seq<u8>) -> bool {
    &&& data.len() >= 9
    &&& content_type_of(data[0]) == Some(RecordContentType::Handshake)
    &&& handshake_type_of(data[5]) == Some(HandshakeType::ClientHello)
    &&& match hello_vectors(data.skip(9)) {
        Some((_, _, _, extensions)) => well_formed_extensions(extensions),
        None => false,
    }
}

/// The region of extension records of a ClientHello record.
pub open spec fn hello_extensions(data: Seq<u8>) -> Seq<u8>
    recommends
        is_client_hello(data),
{
    match hello_vectors(data.skip(9)) {
        Some((_, _, _, extensions)) => extensions,
        None => Seq::empty(),
    }
}

/// A ClientHello record decodes down to its extensions, and its extension
/// list has one entry for each extension record but those with an unknown
/// type code. With no unknown type code it has as many entries as there are
/// records.
pub proof fn lemma_client_hello_extensions(data: Seq<u8>)
    requires
        is_client_hello(data),
    ensures
        decode_record(data) matches Some(record) && record.fragment matches Some(handshake)
            && handshake.msg matches Some(msg) && msg.extensions.len() == extension_count(
            hello_extensions(data),
        ) - rejected_codes(hello_extensions(data)).len(),
        rejected_codes(hello_extensions(data)).len() == 0 ==> decode_record(
            data,
        )->0.fragment->0.msg->0.extensions.len() == extension_count(hello_extensions(data)),
{
    assert(data.skip(5).skip(4) =~= data.skip(9));
    lemma_extensions_kept(hello_extensions(data));
}

/// Decoding has no hidden state: whatever two runs on the same bytes give,
/// they agree on whether there is a record and on everything it holds.
pub proof fn lemma_record_repeatable(data: Seq<u8>, first: Option<Record>, second: Option<Record>)
    requires
        Record::decoded_from(first, data),
        Record::decoded_from(second, data),
    ensures
        first is Some <==> second is Some,
        first is Some ==> first->0@ == second->0@,
{
}

impl Record {
    /// Whether `r` is what decoding `data` gives: the record that
    /// `decode_record` describes, or nothing where it describes none.
    pub open spec fn decoded_from(r: Option<Self>, data: Seq<u8>) -> bool {
        match r {
            Some(record) => decode_record(data) == Some(record@),
            None => decode_record(data) is None,
        }
    }

    /// Decodes a record from captured bytes. Fewer than five bytes, or an
    /// unknown content type, give nothing.
    pub fn new(data: &[u8]) -> (r: Option<Self>)
        ensures
            Self::decoded_from(r, data@),
            data@.len() < 5 ==> r is None,
            r is Some <==> data@.len() >= 5 && content_type_of(data@[0]) is Some,
    {
        let mut cursor = Cursor::new(data);
        let content_type = RecordContentType::new(&cursor.read_u8()?)?;
        let version = cursor.read_u16()?;
        let length = cursor.read_u16()?;
        proof {
            assert(data@.skip(1).skip(2).skip(2) =~= data@.skip(5));
        }
        let handshake = Handshake::new(cursor.remaining());
        Some(
            Record {
                content_type,
                legacy_record_version: version,
                length,
                fragment: handshake,
            },
        )
    }

    /// The properties of the record for display: its name and its length.
    pub fn properties(&self) -> (properties: Vec<(String, String)>)
        ensures
            pair_views(properties@) == seq![("record"@, "length="@ + decimal(self.length as nat))],
    {
        let mut properties: Vec<(String, String)> = Vec::new();
        let mut value = String::from_str("length=");
        push_decimal(&mut value, self.length as u128);
        properties.push((String::from_str("record"), value));
        properties
    }
}

impl Handshake {
    /// Decodes a handshake message from the bytes behind a record header.
    pub fn new(data: &[u8]) -> (r: Option<Self>)
        ensures
            match r {
                Some(handshake) => decode_handshake(data@) == Some(handshake@),
                None => decode_handshake(data@) is None,
            },
    {
        let mut cursor = Cursor::new(data);
        let msg_type = HandshakeType::new(&cursor.read_u8()?)?;
        let length = cursor.read_u24()?;
        proof {
            assert(data@.skip(1).skip(3) =~= data@.skip(4));
        }
        let msg = HandshakeMessage::new(cursor.remaining());
        Some(Handshake { msg_type, length, msg })
    }
}

impl HandshakeMessage {
    /// The errors of the extension records that `new` leaves out of the
    /// extensions of the same bytes, in order: the type code of each record
    /// of unknown type, `0` for one that cannot be decoded. It is for a
    /// caller that wants to report them. There is a list exactly where `new`
    /// gives a message.
    pub fn rejected_extensions(data: &[u8]) -> (r: Option<Vec<u16>>)
        ensures
            match r {
                Some(codes) => hello_vectors(data@) matches Some((_, _, _, extensions))
                    && codes@ == rejected_codes(extensions),
                None => hello_vectors(data@) is None,
            },
            r is Some <==> decode_hello(data@) is Some,
    {
        let mut cursor = Cursor::new(data);
        cursor.take(34)?;
        cursor.read_vec8()?;
        cursor.read_vec16()?;
        cursor.read_vec8()?;
        let region = cursor.read_vec16()?;
        Some(rejected_extensions(region))
    }

    /// Decodes the body of a ClientHello from the bytes behind a handshake
    /// header. Extension records that give an error are left out of the
    /// extensions; `rejected_extensions` gives their errors.
    pub fn new(data: &[u8]) -> (r: Option<Self>)
        ensures
            match r {
                Some(msg) => decode_hello(data@) == Some(msg@),
                None => decode_hello(data@) is None,
            },
    {
        let mut cursor = Cursor::new(data);
        let version = cursor.read_u16()?;
        let random_bytes = cursor.take(32)?;
        proof {
            assert(data@.skip(2).skip(32) =~= data@.skip(34));
            assert(data@.skip(2).take(32) =~= data@.subrange(2, 34));
        }
        let mut random: [u8; 32] = [0; 32];
        let mut i: usize = 0;
        while i < 32
            invariant
                i <= 32,
                random_bytes@.len() == 32,
                forall|k: int| 0 <= k < i ==> random@[k] == random_bytes@[k],
            decreases 32 - i,
        {
            random[i] = random_bytes[i];
            i += 1;
        }
        assert(random@ =~= random_bytes@);

        let session_id = cursor.read_vec8()?;
        let suite_bytes = cursor.read_vec16()?;
        let compression = cursor.read_vec8()?;
        let region = cursor.read_vec16()?;

        let mut cipher_suites: Vec<CipherSuite> = Vec::new();
        let mut j: usize = 0;
        while suite_bytes.len() - j >= 2
            invariant
                j % 2 == 0,
                j <= suite_bytes.len(),
                cipher_suites@.len() == j / 2,
                forall|k: int|
                    0 <= k < cipher_suites@.len() ==> cipher_suites@[k] == cipher_suite_of(
                        be16(suite_bytes@[2 * k], suite_bytes@[2 * k + 1]),
                    ),
            decreases suite_bytes.len() - j,
        {
            cipher_suites.push(CipherSuite::new(suite_bytes[j], suite_bytes[j + 1]));
            j = j + 2;
        }
        assert(cipher_suites@ =~= decode_suites(suite_bytes@));

        let mut extensions: Vec<Extension> = Vec::new();
        let mut records = Cursor::new(region);
        while !records.is_empty()
            invariant
                decode_extensions(region@) == extension_views(extensions@) + decode_extensions(
                    records@,
                ),
            decreases records@.len(),
        {
            if let Ok(extension) = Extension::new(&mut records) {
                extensions.push(extension);
            }
        }
        Some(
            HandshakeMessage {
                legacy_version: version,
                random,
                legacy_session_id: slice_to_vec(session_id),
                cipher_suites,
                legacy_compression_methods: slice_to_vec(compression),
                extensions,
            },
        )
    }
}

} // verus!
