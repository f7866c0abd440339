//! TLS handshake extensions: the registry of extension types, and the three
//! kinds whose data is decoded further.

use crate::cursor::{be16, prefixed, u16_from_be, Cursor};
use crate::text::{string_views, utf8_string};
use vstd::prelude::*;
use vstd::slice::{slice_subrange, slice_to_vec};
use vstd::utf8::{decode_utf8, valid_utf8};

verus! {

/// A handshake extension of a known type. Three kinds carry what their data
/// lists; of the others only the kind is kept.
#[derive(Debug, PartialEq)]
pub enum Extension {
    ServerName,
    MaxFragmentLength,
    StatusRequest,
    SupportedGroups(Vec<NamedGroup>),
    ECPointFormats,
    SignatureAlgorithms(Vec<SignatureScheme>),
    UseSRTP,
    Heartbeat,
    ApplicationLayerProtocolNegotiation(ALPN),
    SignedCertificateTimestamp,
    ClientCertificateType,
    ServerCertificateType,
    Padding,
    EncryptThenMAC,
    ExtendedMasterSecret,
    PreSharedKey,
    EarlyData,
    SupportedVersions,
    Cookie,
    PSKKeyExchangeModes,
    CertificateAuthorities,
    OIDFilters,
    PostHandshakeAuth,
    SignatureAlgorithmsCert,
    KeyShare,
}

/// What an `Extension` holds, as a mathematical value.
pub enum ExtensionView {
    ServerName,
    MaxFragmentLength,
    StatusRequest,
    SupportedGroups(Seq<NamedGroup>),
    ECPointFormats,
    SignatureAlgorithms(Seq<SignatureScheme>),
    UseSRTP,
    Heartbeat,
    ApplicationLayerProtocolNegotiation(Seq<Seq<char>>),
    SignedCertificateTimestamp,
    ClientCertificateType,
    ServerCertificateType,
    Padding,
    EncryptThenMAC,
    ExtendedMasterSecret,
    PreSharedKey,
    EarlyData,
    SupportedVersions,
    Cookie,
    PSKKeyExchangeModes,
    CertificateAuthorities,
    OIDFilters,
    PostHandshakeAuth,
    SignatureAlgorithmsCert,
    KeyShare,
}

impl View for Extension {
    type V = ExtensionView;

    open spec fn view(&self) -> ExtensionView {
        match self {
            Extension::ServerName => ExtensionView::ServerName,
            Extension::MaxFragmentLength => ExtensionView::MaxFragmentLength,
            Extension::StatusRequest => ExtensionView::StatusRequest,
            Extension::SupportedGroups(list) => ExtensionView::SupportedGroups(list@),
            Extension::ECPointFormats => ExtensionView::ECPointFormats,
            Extension::SignatureAlgorithms(list) => ExtensionView::SignatureAlgorithms(list@),
            Extension::UseSRTP => ExtensionView::UseSRTP,
            Extension::Heartbeat => ExtensionView::Heartbeat,
            Extension::ApplicationLayerProtocolNegotiation(alpn) => ExtensionView::ApplicationLayerProtocolNegotiation(alpn@),
            Extension::SignedCertificateTimestamp => ExtensionView::SignedCertificateTimestamp,
            Extension::ClientCertificateType => ExtensionView::ClientCertificateType,
            Extension::ServerCertificateType => ExtensionView::ServerCertificateType,
            Extension::Padding => ExtensionView::Padding,
            Extension::EncryptThenMAC => ExtensionView::EncryptThenMAC,
            Extension::ExtendedMasterSecret => ExtensionView::ExtendedMasterSecret,
            Extension::PreSharedKey => ExtensionView::PreSharedKey,
            Extension::EarlyData => ExtensionView::EarlyData,
            Extension::SupportedVersions => ExtensionView::SupportedVersions,
            Extension::Cookie => ExtensionView::Cookie,
            Extension::PSKKeyExchangeModes => ExtensionView::PSKKeyExchangeModes,
            Extension::CertificateAuthorities => ExtensionView::CertificateAuthorities,
            Extension::OIDFilters => ExtensionView::OIDFilters,
            Extension::PostHandshakeAuth => ExtensionView::PostHandshakeAuth,
            Extension::SignatureAlgorithmsCert => ExtensionView::SignatureAlgorithmsCert,
            Extension::KeyShare => ExtensionView::KeyShare,
        }
    }
}

/// The views of a sequence of byte vectors.
pub open spec fn byte_views(vectors: Seq<Vec<u8>>) -> Seq<Seq<u8>> {
    Seq::new(vectors.len(), |i: int| vectors[i]@)
}

/// The protocol names of an Application-Layer Protocol Negotiation extension.
#[derive(Debug, PartialEq)]
pub struct ALPN {
    pub protocol_name_list: Vec<String>,
}

impl View for ALPN {
    type V = Seq<Seq<char>>;

    open spec fn view(&self) -> Seq<Seq<char>> {
        string_views(self.protocol_name_list@)
    }
}

/// A signature scheme. A code outside the registry is kept as `Missing`.
#[derive(Debug, PartialEq, Eq, Clone, Copy)]
pub enum SignatureScheme {
    SHA1DSA,
    SHA224RSA,
    SHA224DSA,
    SHA224ECDSA,
    SHA256RSA,
    SHA256DSA,
    SHA256ECDSA,
    SHA384RSA,
    SHA384DSA,
    SHA384ECDSA,
    SHA512RSA,
    SHA512DSA,
    SHA512ECDSA,
    RSAPKCS1SHA256,
    RSAPKCS1SHA384,
    RSAPKCS1SHA512,
    ECDSASECP256R1SHA256,
    ECDSASECP384R1SHA384,
    ECDSASECP521R1SHA512,
    RSAPSSRSAESHA256,
    RSAPSSRSAESHA384,
    RSAPSSRSAESHA512,
    ED25519,
    ED448,
    RSAPSSPSSSHA256,
    RSAPSSPSSSHA384,
    RSAPSSPSSSHA512,
    RSAPKCS1SHA1,
    ECDSASHA1,
    PrivateUse,
    Missing(u16),
}

/// The signature scheme registered under `code`. Codes from `0xFE00` on are
/// for private use.
pub open spec fn signature_scheme_of(code: u16) -> SignatureScheme {
    if code >= 0xFE00 {
        SignatureScheme::PrivateUse
    } else {
        match code {
            0x0202 => SignatureScheme::SHA1DSA,
            0x0301 => SignatureScheme::SHA224RSA,
            0x0302 => SignatureScheme::SHA224DSA,
            0x0303 => SignatureScheme::SHA224ECDSA,
            0x0402 => SignatureScheme::SHA256DSA,
            0x0502 => SignatureScheme::SHA384DSA,
            0x0602 => SignatureScheme::SHA512DSA,
            0x0401 => SignatureScheme::RSAPKCS1SHA256,
            0x0501 => SignatureScheme::RSAPKCS1SHA384,
            0x0601 => SignatureScheme::RSAPKCS1SHA512,
            0x0403 => SignatureScheme::ECDSASECP256R1SHA256,
            0x0503 => SignatureScheme::ECDSASECP384R1SHA384,
            0x0603 => SignatureScheme::ECDSASECP521R1SHA512,
            0x0804 => SignatureScheme::RSAPSSRSAESHA256,
            0x0805 => SignatureScheme::RSAPSSRSAESHA384,
            0x0806 => SignatureScheme::RSAPSSRSAESHA512,
            0x0807 => SignatureScheme::ED25519,
            0x0808 => SignatureScheme::ED448,
            0x0809 => SignatureScheme::RSAPSSPSSSHA256,
            0x080A => SignatureScheme::RSAPSSPSSSHA384,
            0x080B => SignatureScheme::RSAPSSPSSSHA512,
            0x0201 => SignatureScheme::RSAPKCS1SHA1,
            0x0203 => SignatureScheme::ECDSASHA1,
            _ => SignatureScheme::Missing(code),
        }
    }
}

impl SignatureScheme {
    /// The signature scheme with the given code.
    pub fn new(n: u16) -> (scheme: Self)
        ensures
            scheme == signature_scheme_of(n),
    {
        if n >= 0xFE00 {
            SignatureScheme::PrivateUse
        } else {
            match n {
                0x0202 => SignatureScheme::SHA1DSA,
                0x0301 => SignatureScheme::SHA224RSA,
                0x0302 => SignatureScheme::SHA224DSA,
                0x0303 => SignatureScheme::SHA224ECDSA,
                0x0402 => SignatureScheme::SHA256DSA,
                0x0502 => SignatureScheme::SHA384DSA,
                0x0602 => SignatureScheme::SHA512DSA,
                0x0401 => SignatureScheme::RSAPKCS1SHA256,
                0x0501 => SignatureScheme::RSAPKCS1SHA384,
                0x0601 => SignatureScheme::RSAPKCS1SHA512,
                0x0403 => SignatureScheme::ECDSASECP256R1SHA256,
                0x0503 => SignatureScheme::ECDSASECP384R1SHA384,
                0x0603 => SignatureScheme::ECDSASECP521R1SHA512,
                0x0804 => SignatureScheme::RSAPSSRSAESHA256,
                0x0805 => SignatureScheme::RSAPSSRSAESHA384,
                0x0806 => SignatureScheme::RSAPSSRSAESHA512,
                0x0807 => SignatureScheme::ED25519,
                0x0808 => SignatureScheme::ED448,
                0x0809 => SignatureScheme::RSAPSSPSSSHA256,
                0x080A => SignatureScheme::RSAPSSPSSSHA384,
                0x080B => SignatureScheme::RSAPSSPSSSHA512,
                0x0201 => SignatureScheme::RSAPKCS1SHA1,
                0x0203 => SignatureScheme::ECDSASHA1,
                _ => SignatureScheme::Missing(n),
            }
        }
    }
}

/// A named group for key exchange. A code outside the registry is kept as
/// `Missing`.
#[derive(Debug, PartialEq, Eq, Clone, Copy)]
pub enum NamedGroup {
    SECP256R1,
    SECP384R1,
    SECP521R1,
    X25519,
    X448,
    FFDHE2048,
    FFDHE3072,
    FFDHE4096,
    FFDHE6144,
    FFDHE8192,
    FFDHEPrivateUse,
    ECDHEPrivateUse,
    Missing(u16),
}

/// The named group registered under `code`. Two ranges are for private use:
/// `0x01FC..=0x01FF` (finite field) and `0xFE00..=0xFEFF` (elliptic curve).
pub open spec fn named_group_of(code: u16) -> NamedGroup {
    if 0x01FC <= code <= 0x01FF {
        NamedGroup::FFDHEPrivateUse
    } else if 0xFE00 <= code <= 0xFEFF {
        NamedGroup::ECDHEPrivateUse
    } else {
        match code {
            0x0017 => NamedGroup::SECP256R1,
            0x0018 => NamedGroup::SECP384R1,
            0x0019 => NamedGroup::SECP521R1,
            0x001D => NamedGroup::X25519,
            0x001E => NamedGroup::X448,
            0x0100 => NamedGroup::FFDHE2048,
            0x0101 => NamedGroup::FFDHE3072,
            0x0102 => NamedGroup::FFDHE4096,
            0x0103 => NamedGroup::FFDHE6144,
            0x0104 => NamedGroup::FFDHE8192,
            _ => NamedGroup::Missing(code),
        }
    }
}

impl NamedGroup {
    /// The named group with the given code.
    pub fn new(n: u16) -> (group: Self)
        ensures
            group == named_group_of(n),
    {
        if 0x01FC <= n && n <= 0x01FF {
            NamedGroup::FFDHEPrivateUse
        } else if 0xFE00 <= n && n <= 0xFEFF {
            NamedGroup::ECDHEPrivateUse
        } else {
            match n {
                0x0017 => NamedGroup::SECP256R1,
                0x0018 => NamedGroup::SECP384R1,
                0x0019 => NamedGroup::SECP521R1,
                0x001D => NamedGroup::X25519,
                0x001E => NamedGroup::X448,
                0x0100 => NamedGroup::FFDHE2048,
                0x0101 => NamedGroup::FFDHE3072,
                0x0102 => NamedGroup::FFDHE4096,
                0x0103 => NamedGroup::FFDHE6144,
                0x0104 => NamedGroup::FFDHE8192,
                _ => NamedGroup::Missing(n),
            }
        }
    }
}

/// The codes of extension data that holds a list of two-byte codes behind a
/// two-byte length prefix: every code of the list, in order. A last odd byte
/// of the list is no code. `None` when the data is shorter than the prefix or
/// than the length it declares.
pub open spec fn decode_codes(data: Seq<u8>) -> Option<Seq<u16>> {
    match prefixed(data, 2) {
        None => None,
        Some((list, _)) => Some(
            Seq::new((list.len() / 2) as nat, |k: int| be16(list[2 * k], list[2 * k + 1])),
        ),
    }
}

/// The named groups that the data of a supported-groups extension lists.
pub open spec fn decode_named_groups(data: Seq<u8>) -> Option<Seq<NamedGroup>> {
    match decode_codes(data) {
        None => None,
        Some(codes) => Some(Seq::new(codes.len(), |k: int| named_group_of(codes[k]))),
    }
}

/// The signature schemes that the data of a signature-algorithms extension
/// lists.
pub open spec fn decode_signature_schemes(data: Seq<u8>) -> Option<Seq<SignatureScheme>> {
    match decode_codes(data) {
        None => None,
        Some(codes) => Some(Seq::new(codes.len(), |k: int| signature_scheme_of(codes[k]))),
    }
}

/// The protocol names read from offset `i` of a name list, up to its end.
/// Each name has a one-byte length prefix; one that is not well-formed UTF-8
/// is left out. `None` when a name runs past the end of the list.
pub open spec fn names_from(list: Seq<u8>, i: int) -> Option<Seq<Seq<char>>>
    decreases list.len() - i,
{
    if i < 0 || i >= list.len() {
        Some(Seq::empty())
    } else {
        let end = i + 1 + list[i] as int;
        if end > list.len() {
            None
        } else {
            let name = list.subrange(i + 1, end);
            match names_from(list, end) {
                None => None,
                Some(rest) => Some(
                    if valid_utf8(name) {
                        seq![decode_utf8(name)] + rest
                    } else {
                        rest
                    },
                ),
            }
        }
    }
}

/// The protocol names that the data of an ALPN extension lists: a name list
/// behind a two-byte length prefix.
pub open spec fn decode_alpn(data: Seq<u8>) -> Option<Seq<Seq<char>>> {
    match prefixed(data, 2) {
        None => None,
        Some((list, _)) => names_from(list, 0),
    }
}

/// The entries of a name list, from offset `i` on, that are left out of the
/// names because they are not well-formed UTF-8: their bytes, in order.
/// `None` when an entry runs past the end of the list.
pub open spec fn unnamed_from(list: Seq<u8>, i: int) -> Option<Seq<Seq<u8>>>
    decreases list.len() - i,
{
    if i < 0 || i >= list.len() {
        Some(Seq::empty())
    } else {
        let end = i + 1 + list[i] as int;
        if end > list.len() {
            None
        } else {
            let name = list.subrange(i + 1, end);
            match unnamed_from(list, end) {
                None => None,
                Some(rest) => Some(
                    if valid_utf8(name) {
                        rest
                    } else {
                        seq![name] + rest
                    },
                ),
            }
        }
    }
}

/// The entries that `decode_alpn` leaves out of the names of an ALPN
/// extension: `None` exactly where `decode_alpn` is.
pub open spec fn rejected_alpn(data: Seq<u8>) -> Option<Seq<Seq<u8>>> {
    match prefixed(data, 2) {
        None => None,
        Some((list, _)) => unnamed_from(list, 0),
    }
}

/// The extension of type `code` with the given data. The error is the code
/// itself where the type is not known, and `0` where the data of a known type
/// cannot be decoded.
pub open spec fn extension_of(code: u16, data: Seq<u8>) -> Result<ExtensionView, u16> {
    match code {
        0 => Ok(ExtensionView::ServerName),
        1 => Ok(ExtensionView::MaxFragmentLength),
        5 => Ok(ExtensionView::StatusRequest),
        10 => match decode_named_groups(data) {
            Some(groups) => Ok(ExtensionView::SupportedGroups(groups)),
            None => Err(0),
        },
        11 => Ok(ExtensionView::ECPointFormats),
        13 => match decode_signature_schemes(data) {
            Some(schemes) => Ok(ExtensionView::SignatureAlgorithms(schemes)),
            None => Err(0),
        },
        14 => Ok(ExtensionView::UseSRTP),
        15 => Ok(ExtensionView::Heartbeat),
        16 => match decode_alpn(data) {
            Some(names) => Ok(ExtensionView::ApplicationLayerProtocolNegotiation(names)),
            None => Err(0),
        },
        18 => Ok(ExtensionView::SignedCertificateTimestamp),
        19 => Ok(ExtensionView::ClientCertificateType),
        20 => Ok(ExtensionView::ServerCertificateType),
        21 => Ok(ExtensionView::Padding),
        22 => Ok(ExtensionView::EncryptThenMAC),
        23 => Ok(ExtensionView::ExtendedMasterSecret),
        41 => Ok(ExtensionView::PreSharedKey),
        42 => Ok(ExtensionView::EarlyData),
        43 => Ok(ExtensionView::SupportedVersions),
        44 => Ok(ExtensionView::Cookie),
        45 => Ok(ExtensionView::PSKKeyExchangeModes),
        47 => Ok(ExtensionView::CertificateAuthorities),
        48 => Ok(ExtensionView::OIDFilters),
        49 => Ok(ExtensionView::PostHandshakeAuth),
        50 => Ok(ExtensionView::SignatureAlgorithmsCert),
        51 => Ok(ExtensionView::KeyShare),
        _ => Err(code),
    }
}

/// Whether `s` starts with a whole extension record: two bytes of type, two
/// bytes of length, and as many bytes of data as the length declares.
pub open spec fn extension_complete(s: Seq<u8>) -> bool {
    s.len() >= 4 && s.len() >= 4 + be16(s[2], s[3])
}

/// The number of bytes of the extension record at the start of `s`.
pub open spec fn extension_size(s: Seq<u8>) -> int
    recommends
        extension_complete(s),
{
    4 + be16(s[2], s[3])
}

/// The result of decoding the extension record at the start of `s`; error
/// `0` when the record is cut short.
pub open spec fn decode_extension(s: Seq<u8>) -> Result<ExtensionView, u16> {
    if extension_complete(s) {
        extension_of(be16(s[0], s[1]), s.subrange(4, extension_size(s)))
    } else {
        Err(0)
    }
}

/// What is left of `s` after the extension record at its start: nothing when
/// the record is cut short.
pub open spec fn after_extension(s: Seq<u8>) -> Seq<u8> {
    if extension_complete(s) {
        s.skip(extension_size(s))
    } else {
        Seq::empty()
    }
}

/// The extensions decoded from a region of extension records, in order.
/// Records that give an error are left out; the records behind them are
/// still decoded.
pub open spec fn decode_extensions(s: Seq<u8>) -> Seq<ExtensionView>
    decreases s.len(),
{
    if s.len() == 0 {
        Seq::empty()
    } else {
        let rest = after_extension(s);
        let tail = if rest.len() < s.len() {
            decode_extensions(rest)
        } else {
            Seq::empty()
        };
        match decode_extension(s) {
            Ok(e) => seq![e] + tail,
            Err(_) => tail,
        }
    }
}

/// Whether `s` is made of whole extension records and nothing else, none of
/// them of a known type with data that cannot be decoded.
pub open spec fn well_formed_extensions(s: Seq<u8>) -> bool
    decreases s.len(),
{
    s.len() == 0 || (extension_complete(s) && decode_extension(s) != Err::<ExtensionView, u16>(0)
        && well_formed_extensions(after_extension(s)))
}

/// The number of whole extension records at the start of `s`.
pub open spec fn extension_count(s: Seq<u8>) -> nat
    decreases s.len(),
{
    if s.len() == 0 || !extension_complete(s) {
        0
    } else {
        1 + extension_count(after_extension(s))
    }
}

/// The errors of the records of a region that `decode_extensions` leaves
/// out, in order: the type code of a record of unknown type, and `0` for a
/// record that is cut short or has data that cannot be decoded.
pub open spec fn rejected_codes(s: Seq<u8>) -> Seq<u16>
    decreases s.len(),
{
    if s.len() == 0 {
        Seq::empty()
    } else {
        let rest = after_extension(s);
        let tail = if rest.len() < s.len() {
            rejected_codes(rest)
        } else {
            Seq::empty()
        };
        match decode_extension(s) {
            Ok(_) => tail,
            Err(code) => seq![code] + tail,
        }
    }
}

/// Of the records of a well-formed region, exactly those with an unknown type
/// code are missing from the decoded list: the list has one entry for every
/// other record, however many unknown ones stand between them, and the
/// rejected codes are the unknown type codes, none of them `0`. Where every
/// type code is known, the list has as many entries as the region has
/// records.
pub proof fn lemma_extensions_kept(s: Seq<u8>)
    requires
        well_formed_extensions(s),
    ensures
        decode_extensions(s).len() == extension_count(s) - rejected_codes(s).len(),
        rejected_codes(s).len() == 0 ==> decode_extensions(s).len() == extension_count(s),
        forall|k: int| 0 <= k < rejected_codes(s).len() ==> rejected_codes(s)[k] != 0,
    decreases s.len(),
{
    if s.len() > 0 {
        lemma_extensions_kept(after_extension(s));
    }
}

/// A whole extension record in front of a region adds its extension to the
/// front of what the region decodes to, or nothing where the record decodes
/// to an error. Either way the records behind it are decoded as they are
/// without it.
pub proof fn lemma_extension_then_rest(record: Seq<u8>, rest: Seq<u8>)
    requires
        extension_complete(record),
        extension_size(record) == record.len(),
    ensures
        decode_extensions(record + rest) == match decode_extension(record) {
            Ok(e) => seq![e] + decode_extensions(rest),
            Err(_) => decode_extensions(rest),
        },
        rejected_codes(record + rest) == match decode_extension(record) {
            Ok(_) => rejected_codes(rest),
            Err(code) => seq![code] + rejected_codes(rest),
        },
{
    let s = record + rest;
    assert(s[0] == record[0] && s[1] == record[1] && s[2] == record[2] && s[3] == record[3]);
    assert(s.subrange(4, extension_size(s)) =~= record.subrange(4, extension_size(record)));
    assert(after_extension(s) =~= rest);
}

/// In a well-formed region a record is rejected only for its type code: the
/// error is that code, and it is not `0`.
pub proof fn lemma_rejected_is_unknown(s: Seq<u8>)
    requires
        well_formed_extensions(s),
        s.len() > 0,
    ensures
        decode_extension(s) is Err ==> decode_extension(s) == Err::<ExtensionView, u16>(
            be16(s[0], s[1]),
        ) && be16(s[0], s[1]) != 0,
{
}

impl ALPN {
    /// Decodes the data of an ALPN extension: every name of the list, in
    /// order, but those that are not UTF-8, which `rejected_names` gives.
    pub fn new(data: &[u8]) -> (r: Option<Self>)
        ensures
            match r {
                Some(alpn) => decode_alpn(data@) == Some(alpn@),
                None => decode_alpn(data@) is None,
            },
    {
        let mut cursor = Cursor::new(data);
        let list = match cursor.read_vec16() {
            Some(list) => list,
            None => { return None; },
        };
        let mut names: Vec<String> = Vec::new();
        let mut i: usize = 0;
        while i < list.len()
            invariant
                i <= list.len(),
                decode_alpn(data@) == names_from(list@, 0),
                names_from(list@, 0) == match names_from(list@, i as int) {
                    None => None::<Seq<Seq<char>>>,
                    Some(rest) => Some(string_views(names@) + rest),
                },
            decreases list.len() - i,
        {
            let n: usize = list[i] as usize;
            if n > list.len() - i - 1 {
                return None;
            }
            let end: usize = i + 1 + n;
            let name = slice_subrange(list, i + 1, end);
            if let Some(s) = utf8_string(name) {
                names.push(s);
            }
            i = end;
        }
        Some(ALPN { protocol_name_list: names })
    }
}

impl ALPN {
    /// The entries of an ALPN extension that `new` leaves out of the names,
    /// for a caller that wants to report them.
    pub fn rejected_names(data: &[u8]) -> (r: Option<Vec<Vec<u8>>>)
        ensures
            match r {
                Some(entries) => rejected_alpn(data@) == Some(byte_views(entries@)),
                None => rejected_alpn(data@) is None,
            },
            r is Some <==> decode_alpn(data@) is Some,
    {
        let mut cursor = Cursor::new(data);
        let list = match cursor.read_vec16() {
            Some(list) => list,
            None => { return None; },
        };
        let mut entries: Vec<Vec<u8>> = Vec::new();
        let mut i: usize = 0;
        while i < list.len()
            invariant
                i <= list.len(),
                rejected_alpn(data@) == unnamed_from(list@, 0),
                decode_alpn(data@) == names_from(list@, 0),
                unnamed_from(list@, 0) == match unnamed_from(list@, i as int) {
                    None => None::<Seq<Seq<u8>>>,
                    Some(rest) => Some(byte_views(entries@) + rest),
                },
                names_from(list@, 0) is Some <==> names_from(list@, i as int) is Some,
            decreases list.len() - i,
        {
            let n: usize = list[i] as usize;
            if n > list.len() - i - 1 {
                return None;
            }
            let end: usize = i + 1 + n;
            let name = slice_subrange(list, i + 1, end);
            if utf8_string(name).is_none() {
                entries.push(slice_to_vec(name));
            }
            i = end;
        }
        Some(entries)
    }
}

/// The errors of the extension records of a region that are left out of the
/// decoded list, in order, for a caller that wants to report them.
pub fn rejected_extensions(region: &[u8]) -> (codes: Vec<u16>)
    ensures
        codes@ == rejected_codes(region@),
{
    let mut codes: Vec<u16> = Vec::new();
    let mut records = Cursor::new(region);
    while !records.is_empty()
        invariant
            rejected_codes(region@) == codes@ + rejected_codes(records@),
        decreases records@.len(),
    {
        if let Err(code) = Extension::new(&mut records) {
            codes.push(code);
        }
    }
    codes
}

impl Extension {
    /// Reads one extension record from the cursor. A record of a known type
    /// gives the extension. One of an unknown type gives its type code as the
    /// error, and the cursor stands behind the record all the same. A record
    /// that is cut short gives the error `0` and leaves nothing to read; data
    /// of a known type that cannot be decoded gives the error `0` too.
    pub fn new(data: &mut Cursor) -> (r: Result<Self, u16>)
        ensures
            match r {
                Ok(e) => decode_extension(old(data)@) == Ok::<ExtensionView, u16>(e@),
                Err(code) => decode_extension(old(data)@) == Err::<ExtensionView, u16>(code),
            },
            final(data)@ == after_extension(old(data)@),
    {
        let extension_type = match data.read_u16() {
            Some(t) => t,
            None => { return Err(0); },
        };
        let extension_data = match data.read_vec16() {
            Some(d) => d,
            None => { return Err(0); },
        };
        proof {
            let s = old(data)@;
            assert(s.skip(2).subrange(2, 2 + be16(s[2], s[3])) =~= s.subrange(
                4,
                extension_size(s),
            ));
        }
        match extension_type {
            0 => Ok(Extension::ServerName),
            1 => Ok(Extension::MaxFragmentLength),
            5 => Ok(Extension::StatusRequest),
            10 => match Self::parse_named_groups(extension_data) {
                Some(groups) => Ok(Extension::SupportedGroups(groups)),
                None => Err(0),
            },
            11 => Ok(Extension::ECPointFormats),
            13 => match Self::parse_signature_schemes(extension_data) {
                Some(schemes) => Ok(Extension::SignatureAlgorithms(schemes)),
                None => Err(0),
            },
            14 => Ok(Extension::UseSRTP),
            15 => Ok(Extension::Heartbeat),
            16 => match ALPN::new(extension_data) {
                Some(alpn) => Ok(Extension::ApplicationLayerProtocolNegotiation(alpn)),
                None => Err(0),
            },
            18 => Ok(Extension::SignedCertificateTimestamp),
            19 => Ok(Extension::ClientCertificateType),
            20 => Ok(Extension::ServerCertificateType),
            21 => Ok(Extension::Padding),
            22 => Ok(Extension::EncryptThenMAC),
            23 => Ok(Extension::ExtendedMasterSecret),
            41 => Ok(Extension::PreSharedKey),
            42 => Ok(Extension::EarlyData),
            43 => Ok(Extension::SupportedVersions),
            44 => Ok(Extension::Cookie),
            45 => Ok(Extension::PSKKeyExchangeModes),
            47 => Ok(Extension::CertificateAuthorities),
            48 => Ok(Extension::OIDFilters),
            49 => Ok(Extension::PostHandshakeAuth),
            50 => Ok(Extension::SignatureAlgorithmsCert),
            51 => Ok(Extension::KeyShare),
            _ => Err(extension_type),
        }
    }

    /// Decodes the data of a signature-algorithms extension.
    pub fn parse_signature_schemes(data: &[u8]) -> (r: Option<Vec<SignatureScheme>>)
        ensures
            match r {
                Some(schemes) => decode_signature_schemes(data@) == Some(schemes@),
                None => decode_signature_schemes(data@) is None,
            },
    {
        let mut cursor = Cursor::new(data);
        let list = match cursor.read_vec16() {
            Some(list) => list,
            None => { return None; },
        };
        let mut schemes: Vec<SignatureScheme> = Vec::new();
        let mut i: usize = 0;
        while list.len() - i >= 2
            invariant
                i % 2 == 0,
                i <= list.len(),
                prefixed(data@, 2) == Some((list@, cursor@)),
                schemes@.len() == i / 2,
                forall|k: int|
                    0 <= k < schemes@.len() ==> schemes@[k] == signature_scheme_of(
                        be16(list@[2 * k], list@[2 * k + 1]),
                    ),
            decreases list.len() - i,
        {
            schemes.push(SignatureScheme::new(u16_from_be(list[i], list[i + 1])));
            i = i + 2;
        }
        Some(schemes)
    }

    /// Decodes the data of a supported-groups extension.
    pub fn parse_named_groups(data: &[u8]) -> (r: Option<Vec<NamedGroup>>)
        ensures
            match r {
                Some(groups) => decode_named_groups(data@) == Some(groups@),
                None => decode_named_groups(data@) is None,
            },
    {
        let mut cursor = Cursor::new(data);
        let list = match cursor.read_vec16() {
            Some(list) => list,
            None => { return None; },
        };
        let mut groups: Vec<NamedGroup> = Vec::new();
        let mut i: usize = 0;
        while list.len() - i >= 2
            invariant
                i % 2 == 0,
                i <= list.len(),
                prefixed(data@, 2) == Some((list@, cursor@)),
                groups@.len() == i / 2,
                forall|k: int|
                    0 <= k < groups@.len() ==> groups@[k] == named_group_of(
                        be16(list@[2 * k], list@[2 * k + 1]),
                    ),
            decreases list.len() - i,
        {
            groups.push(NamedGroup::new(u16_from_be(list[i], list[i + 1])));
            i = i + 2;
        }
        Some(groups)
    }
}

} // verus!
