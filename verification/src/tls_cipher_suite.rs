//! The registry of TLS cipher suites.

use crate::cursor::{be16, u16_from_be};
use vstd::prelude::*;

verus! {

/// A cipher suite, named after its entry in the registry. A code that the
/// registry below does not hold is kept as `Unknown`.
#[derive(Debug, PartialEq, Eq, Clone, Copy)]
pub enum CipherSuite {
    TLSRSAWithAES128CBCSHA,
    TLSDHEDSSWithAES128CBCSHA,
    TLSDHERSAWithAES128CBCSHA,
    TLSDHAnonWithAES128CBCSHA,
    TLSRSAWithAES256CBCSHA,
    TLSDHEDSSWithAES256CBCSHA,
    TLSDHERSAWithAES256CBCSHA,
    TLSDHAnonWithAES256CBCSHA,
    TLSRSAWithAES128CBCSHA256,
    TLSRSAWithAES256CBCSHA256,
    TLSDHEDSSWithAES128CBCSHA256,
    TLSRSAWithCamellia128CBCSHA,
    TLSDHEDSSWithCamellia128CBCSHA,
    TLSDHERSAWithCamellia128CBCSHA,
    TLSDHanonWithCamellia128CBCSHA,
    TLSDHERSAWithAES128CBCSHA256,
    TLSDHEDSSWithAES256CBCSHA256,
    TLSDHERSAWithAES256CBCSHA256,
    TLSDHAnonWithAES128CBCSHA256,
    TLSDHAnonWithAES256CBCSHA256,
    TLSRSAWithCamellia256CBCSHA,
    TLSDHEDSSWithCamellia256CBCSHA,
    TLSDHERSAWithCamellia256CBCSHA,
    TLSDHanonWithCamellia256CBCSHA,
    TLSRSAWithSEEDCBCSHA,
    TLSDHEDSSWithSEEDCBCSHA,
    TLSDHERSAWithSEEDCBCSHA,
    TLSDHAnonWithSEEDCBCSHA,
    TLSRSAWithAES128GCMSHA256,
    TLSRSAWithAES256GCMSHA384,
    TLSDHERSAWithAES128GCMSHA256,
    TLSDHERSAWithAES256GCMSHA384,
    TLSDHEDSSWithAES128GCMSHA256,
    TLSDHEDSSWithAES256GCMSHA384,
    TLSDHanonWithAES128GCMSHA256,
    TLSDHanonWithAES256GCMSHA384,
    TLSRSAWithCamellia128CBCSHA256,
    TLSDHEDSSWithCamellia128CBCSHA256,
    TLSDHERSAWithCamellia128CBCSHA256,
    TLSDHanonWithCamellia128CBCSHA256,
    TLSRSAWithCamellia256CBCSHA256,
    TLSDHEDSSWithCamellia256CBCSHA256,
    TLSDHERSAWithCamellia256CBCSHA256,
    TLSDHanonWithCamellia256CBCSHA256,
    TLSEmptyRenegotiationInfoSCSV,
    TLSAES128GCMSHA256,
    TLSAES256GCMSHA384,
    TLSChaCha20Poly1305SHA256,
    TLSECDHEECDSAWithAES128CBCSHA,
    TLSECDHEECDSAWithAES256CBCSHA,
    TLSECDHERSAWithAES128CBCSHA,
    TLSECDHERSAWithAES256CBCSHA,
    TLSECDHAnonWithAES128CBCSHA,
    TLSECDHAnonWithAES256CBCSHA,
    TLSECDHEECDSAWithAES128CBCSHA256,
    TLSECDHEECDSAWithAES256CBCSHA384,
    TLSECDHERSAWithAES128CBCSHA256,
    TLSECDHERSAWithAES256CBCSHA384,
    TLSECDHEECDSAWithAES128GCMSHA256,
    TLSECDHEECDSAWithAES256GCMSHA384,
    TLSECDHERSAWithAES128GCMSHA256,
    TLSECDHERSAWithAES256GCMSHA384,
    TLSRSAWithARIA128GCMSHA256,
    TLSRSAWithARIA256GCMSHA384,
    TLSDHERSAWithARIA128GCMSHA256,
    TLSDHERSAWithARIA256GCMSHA384,
    TLSDHEDSSWithARIA128GCMSHA256,
    TLSDHEDSSWithARIA256GCMSHA384,
    TLSECDHEECDSAWithARIA128GCMSHA256,
    TLSECDHEECDSAWithARIA256GCMSHA384,
    TLSECDHERSAWithARIA128GCMSHA256,
    TLSECDHERSAWithARIA256GCMSHA384,
    TLSECDHEECDSAWithCamellia128CBCSHA256,
    TLSECDHEECDSAWithCamellia256CBCSHA384,
    TLSECDHERSAWithCamellia128CBCSHA256,
    TLSECDHERSAWithCamellia256CBCSHA384,
    TLSRSAWithAES128CCM,
    TLSRSAWithAES256CCM,
    TLSDHERSAWithAES128CCM,
    TLSDHERSAWithAES256CCM,
    TLSRSAWithAES128CCM8,
    TLSRSAWithAES256CCM8,
    TLSDHERSAWithAES128CCM8,
    TLSDHERSAWithAES256CCM8,
    TLSECDHEECDSAWithAES128CCM,
    TLSECDHEECDSAWithAES256CCM,
    TLSECDHEECDSAWithAES128CCM8,
    TLSECDHEECDSAWithAES256CCM8,
    TLSECDHERSAWithChaCha20Poly1305SHA256,
    TLSECDHEECDSAWithChaCha20Poly1305SHA256,
    TLSDHERSAWithChaCha20Poly1305SHA256,
    Unknown(u16),
}

/// The cipher suite registered under `code`.
pub open spec fn cipher_suite_of(code: u16) -> CipherSuite {
    match code {
        0x002F => CipherSuite::TLSRSAWithAES128CBCSHA,
        0x0032 => CipherSuite::TLSDHEDSSWithAES128CBCSHA,
        0x0033 => CipherSuite::TLSDHERSAWithAES128CBCSHA,
        0x0034 => CipherSuite::TLSDHAnonWithAES128CBCSHA,
        0x0035 => CipherSuite::TLSRSAWithAES256CBCSHA,
        0x0038 => CipherSuite::TLSDHEDSSWithAES256CBCSHA,
        0x0039 => CipherSuite::TLSDHERSAWithAES256CBCSHA,
        0x003A => CipherSuite::TLSDHAnonWithAES256CBCSHA,
        0x003C => CipherSuite::TLSRSAWithAES128CBCSHA256,
        0x003D => CipherSuite::TLSRSAWithAES256CBCSHA256,
        0x0040 => CipherSuite::TLSDHEDSSWithAES128CBCSHA256,
        0x0041 => CipherSuite::TLSRSAWithCamellia128CBCSHA,
        0x0044 => CipherSuite::TLSDHEDSSWithCamellia128CBCSHA,
        0x0045 => CipherSuite::TLSDHERSAWithCamellia128CBCSHA,
        0x0046 => CipherSuite::TLSDHanonWithCamellia128CBCSHA,
        0x0067 => CipherSuite::TLSDHERSAWithAES128CBCSHA256,
        0x006A => CipherSuite::TLSDHEDSSWithAES256CBCSHA256,
        0x006B => CipherSuite::TLSDHERSAWithAES256CBCSHA256,
        0x006C => CipherSuite::TLSDHAnonWithAES128CBCSHA256,
        0x006D => CipherSuite::TLSDHAnonWithAES256CBCSHA256,
        0x0084 => CipherSuite::TLSRSAWithCamellia256CBCSHA,
        0x0087 => CipherSuite::TLSDHEDSSWithCamellia256CBCSHA,
        0x0088 => CipherSuite::TLSDHERSAWithCamellia256CBCSHA,
        0x0089 => CipherSuite::TLSDHanonWithCamellia256CBCSHA,
        0x0096 => CipherSuite::TLSRSAWithSEEDCBCSHA,
        0x0099 => CipherSuite::TLSDHEDSSWithSEEDCBCSHA,
        0x009A => CipherSuite::TLSDHERSAWithSEEDCBCSHA,
        0x009B => CipherSuite::TLSDHAnonWithSEEDCBCSHA,
        0x009C => CipherSuite::TLSRSAWithAES128GCMSHA256,
        0x009D => CipherSuite::TLSRSAWithAES256GCMSHA384,
        0x009E => CipherSuite::TLSDHERSAWithAES128GCMSHA256,
        0x009F => CipherSuite::TLSDHERSAWithAES256GCMSHA384,
        0x00A2 => CipherSuite::TLSDHEDSSWithAES128GCMSHA256,
        0x00A3 => CipherSuite::TLSDHEDSSWithAES256GCMSHA384,
        0x00A6 => CipherSuite::TLSDHanonWithAES128GCMSHA256,
        0x00A7 => CipherSuite::TLSDHanonWithAES256GCMSHA384,
        0x00BA => CipherSuite::TLSRSAWithCamellia128CBCSHA256,
        0x00BD => CipherSuite::TLSDHEDSSWithCamellia128CBCSHA256,
        0x00BE => CipherSuite::TLSDHERSAWithCamellia128CBCSHA256,
        0x00BF => CipherSuite::TLSDHanonWithCamellia128CBCSHA256,
        0x00C0 => CipherSuite::TLSRSAWithCamellia256CBCSHA256,
        0x00C3 => CipherSuite::TLSDHEDSSWithCamellia256CBCSHA256,
        0x00C4 => CipherSuite::TLSDHERSAWithCamellia256CBCSHA256,
        0x00C5 => CipherSuite::TLSDHanonWithCamellia256CBCSHA256,
        0x00FF => CipherSuite::TLSEmptyRenegotiationInfoSCSV,
        0x1301 => CipherSuite::TLSAES128GCMSHA256,
        0x1302 => CipherSuite::TLSAES256GCMSHA384,
        0x1303 => CipherSuite::TLSChaCha20Poly1305SHA256,
        0xC009 => CipherSuite::TLSECDHEECDSAWithAES128CBCSHA,
        0xC00A => CipherSuite::TLSECDHEECDSAWithAES256CBCSHA,
        0xC013 => CipherSuite::TLSECDHERSAWithAES128CBCSHA,
        0xC014 => CipherSuite::TLSECDHERSAWithAES256CBCSHA,
        0xC018 => CipherSuite::TLSECDHAnonWithAES128CBCSHA,
        0xC019 => CipherSuite::TLSECDHAnonWithAES256CBCSHA,
        0xC023 => CipherSuite::TLSECDHEECDSAWithAES128CBCSHA256,
        0xC024 => CipherSuite::TLSECDHEECDSAWithAES256CBCSHA384,
        0xC027 => CipherSuite::TLSECDHERSAWithAES128CBCSHA256,
        0xC028 => CipherSuite::TLSECDHERSAWithAES256CBCSHA384,
        0xC02B => CipherSuite::TLSECDHEECDSAWithAES128GCMSHA256,
        0xC02C => CipherSuite::TLSECDHEECDSAWithAES256GCMSHA384,
        0xC02F => CipherSuite::TLSECDHERSAWithAES128GCMSHA256,
        0xC030 => CipherSuite::TLSECDHERSAWithAES256GCMSHA384,
        0xC050 => CipherSuite::TLSRSAWithARIA128GCMSHA256,
        0xC051 => CipherSuite::TLSRSAWithARIA256GCMSHA384,
        0xC052 => CipherSuite::TLSDHERSAWithARIA128GCMSHA256,
        0xC053 => CipherSuite::TLSDHERSAWithARIA256GCMSHA384,
        0xC056 => CipherSuite::TLSDHEDSSWithARIA128GCMSHA256,
        0xC057 => CipherSuite::TLSDHEDSSWithARIA256GCMSHA384,
        0xC05C => CipherSuite::TLSECDHEECDSAWithARIA128GCMSHA256,
        0xC05D => CipherSuite::TLSECDHEECDSAWithARIA256GCMSHA384,
        0xC060 => CipherSuite::TLSECDHERSAWithARIA128GCMSHA256,
        0xC061 => CipherSuite::TLSECDHERSAWithARIA256GCMSHA384,
        0xC072 => CipherSuite::TLSECDHEECDSAWithCamellia128CBCSHA256,
        0xC073 => CipherSuite::TLSECDHEECDSAWithCamellia256CBCSHA384,
        0xC076 => CipherSuite::TLSECDHERSAWithCamellia128CBCSHA256,
        0xC077 => CipherSuite::TLSECDHERSAWithCamellia256CBCSHA384,
        0xC09C => CipherSuite::TLSRSAWithAES128CCM,
        0xC09D => CipherSuite::TLSRSAWithAES256CCM,
        0xC09E => CipherSuite::TLSDHERSAWithAES128CCM,
        0xC09F => CipherSuite::TLSDHERSAWithAES256CCM,
        0xC0A0 => CipherSuite::TLSRSAWithAES128CCM8,
        0xC0A1 => CipherSuite::TLSRSAWithAES256CCM8,
        0xC0A2 => CipherSuite::TLSDHERSAWithAES128CCM8,
        0xC0A3 => CipherSuite::TLSDHERSAWithAES256CCM8,
        0xC0AC => CipherSuite::TLSECDHEECDSAWithAES128CCM,
        0xC0AD => CipherSuite::TLSECDHEECDSAWithAES256CCM,
        0xC0AE => CipherSuite::TLSECDHEECDSAWithAES128CCM8,
        0xC0AF => CipherSuite::TLSECDHEECDSAWithAES256CCM8,
        0xCCA8 => CipherSuite::TLSECDHERSAWithChaCha20Poly1305SHA256,
        0xCCA9 => CipherSuite::TLSECDHEECDSAWithChaCha20Poly1305SHA256,
        0xCCAA => CipherSuite::TLSDHERSAWithChaCha20Poly1305SHA256,
        _ => CipherSuite::Unknown(code),
    }
}

impl CipherSuite {
    /// The cipher suite whose two-byte code is `b0`, `b1`.
    pub fn new(b0: u8, b1: u8) -> (suite: Self)
        ensures
            suite == cipher_suite_of(be16(b0, b1)),
    {
        let code: u16 = u16_from_be(b0, b1);
        match code {
            0x002F => CipherSuite::TLSRSAWithAES128CBCSHA,
            0x0032 => CipherSuite::TLSDHEDSSWithAES128CBCSHA,
            0x0033 => CipherSuite::TLSDHERSAWithAES128CBCSHA,
            0x0034 => CipherSuite::TLSDHAnonWithAES128CBCSHA,
            0x0035 => CipherSuite::TLSRSAWithAES256CBCSHA,
            0x0038 => CipherSuite::TLSDHEDSSWithAES256CBCSHA,
            0x0039 => CipherSuite::TLSDHERSAWithAES256CBCSHA,
            0x003A => CipherSuite::TLSDHAnonWithAES256CBCSHA,
            0x003C => CipherSuite::TLSRSAWithAES128CBCSHA256,
            0x003D => CipherSuite::TLSRSAWithAES256CBCSHA256,
            0x0040 => CipherSuite::TLSDHEDSSWithAES128CBCSHA256,
            0x0041 => CipherSuite::TLSRSAWithCamellia128CBCSHA,
            0x0044 => CipherSuite::TLSDHEDSSWithCamellia128CBCSHA,
            0x0045 => CipherSuite::TLSDHERSAWithCamellia128CBCSHA,
            0x0046 => CipherSuite::TLSDHanonWithCamellia128CBCSHA,
            0x0067 => CipherSuite::TLSDHERSAWithAES128CBCSHA256,
            0x006A => CipherSuite::TLSDHEDSSWithAES256CBCSHA256,
            0x006B => CipherSuite::TLSDHERSAWithAES256CBCSHA256,
            0x006C => CipherSuite::TLSDHAnonWithAES128CBCSHA256,
            0x006D => CipherSuite::TLSDHAnonWithAES256CBCSHA256,
            0x0084 => CipherSuite::TLSRSAWithCamellia256CBCSHA,
            0x0087 => CipherSuite::TLSDHEDSSWithCamellia256CBCSHA,
            0x0088 => CipherSuite::TLSDHERSAWithCamellia256CBCSHA,
            0x0089 => CipherSuite::TLSDHanonWithCamellia256CBCSHA,
            0x0096 => CipherSuite::TLSRSAWithSEEDCBCSHA,
            0x0099 => CipherSuite::TLSDHEDSSWithSEEDCBCSHA,
            0x009A => CipherSuite::TLSDHERSAWithSEEDCBCSHA,
            0x009B => CipherSuite::TLSDHAnonWithSEEDCBCSHA,
            0x009C => CipherSuite::TLSRSAWithAES128GCMSHA256,
            0x009D => CipherSuite::TLSRSAWithAES256GCMSHA384,
            0x009E => CipherSuite::TLSDHERSAWithAES128GCMSHA256,
            0x009F => CipherSuite::TLSDHERSAWithAES256GCMSHA384,
            0x00A2 => CipherSuite::TLSDHEDSSWithAES128GCMSHA256,
            0x00A3 => CipherSuite::TLSDHEDSSWithAES256GCMSHA384,
            0x00A6 => CipherSuite::TLSDHanonWithAES128GCMSHA256,
            0x00A7 => CipherSuite::TLSDHanonWithAES256GCMSHA384,
            0x00BA => CipherSuite::TLSRSAWithCamellia128CBCSHA256,
            0x00BD => CipherSuite::TLSDHEDSSWithCamellia128CBCSHA256,
            0x00BE => CipherSuite::TLSDHERSAWithCamellia128CBCSHA256,
            0x00BF => CipherSuite::TLSDHanonWithCamellia128CBCSHA256,
            0x00C0 => CipherSuite::TLSRSAWithCamellia256CBCSHA256,
            0x00C3 => CipherSuite::TLSDHEDSSWithCamellia256CBCSHA256,
            0x00C4 => CipherSuite::TLSDHERSAWithCamellia256CBCSHA256,
            0x00C5 => CipherSuite::TLSDHanonWithCamellia256CBCSHA256,
            0x00FF => CipherSuite::TLSEmptyRenegotiationInfoSCSV,
            0x1301 => CipherSuite::TLSAES128GCMSHA256,
            0x1302 => CipherSuite::TLSAES256GCMSHA384,
            0x1303 => CipherSuite::TLSChaCha20Poly1305SHA256,
            0xC009 => CipherSuite::TLSECDHEECDSAWithAES128CBCSHA,
            0xC00A => CipherSuite::TLSECDHEECDSAWithAES256CBCSHA,
            0xC013 => CipherSuite::TLSECDHERSAWithAES128CBCSHA,
            0xC014 => CipherSuite::TLSECDHERSAWithAES256CBCSHA,
            0xC018 => CipherSuite::TLSECDHAnonWithAES128CBCSHA,
            0xC019 => CipherSuite::TLSECDHAnonWithAES256CBCSHA,
            0xC023 => CipherSuite::TLSECDHEECDSAWithAES128CBCSHA256,
            0xC024 => CipherSuite::TLSECDHEECDSAWithAES256CBCSHA384,
            0xC027 => CipherSuite::TLSECDHERSAWithAES128CBCSHA256,
            0xC028 => CipherSuite::TLSECDHERSAWithAES256CBCSHA384,
            0xC02B => CipherSuite::TLSECDHEECDSAWithAES128GCMSHA256,
            0xC02C => CipherSuite::TLSECDHEECDSAWithAES256GCMSHA384,
            0xC02F => CipherSuite::TLSECDHERSAWithAES128GCMSHA256,
            0xC030 => CipherSuite::TLSECDHERSAWithAES256GCMSHA384,
            0xC050 => CipherSuite::TLSRSAWithARIA128GCMSHA256,
            0xC051 => CipherSuite::TLSRSAWithARIA256GCMSHA384,
            0xC052 => CipherSuite::TLSDHERSAWithARIA128GCMSHA256,
            0xC053 => CipherSuite::TLSDHERSAWithARIA256GCMSHA384,
            0xC056 => CipherSuite::TLSDHEDSSWithARIA128GCMSHA256,
            0xC057 => CipherSuite::TLSDHEDSSWithARIA256GCMSHA384,
            0xC05C => CipherSuite::TLSECDHEECDSAWithARIA128GCMSHA256,
            0xC05D => CipherSuite::TLSECDHEECDSAWithARIA256GCMSHA384,
            0xC060 => CipherSuite::TLSECDHERSAWithARIA128GCMSHA256,
            0xC061 => CipherSuite::TLSECDHERSAWithARIA256GCMSHA384,
            0xC072 => CipherSuite::TLSECDHEECDSAWithCamellia128CBCSHA256,
            0xC073 => CipherSuite::TLSECDHEECDSAWithCamellia256CBCSHA384,
            0xC076 => CipherSuite::TLSECDHERSAWithCamellia128CBCSHA256,
            0xC077 => CipherSuite::TLSECDHERSAWithCamellia256CBCSHA384,
            0xC09C => CipherSuite::TLSRSAWithAES128CCM,
            0xC09D => CipherSuite::TLSRSAWithAES256CCM,
            0xC09E => CipherSuite::TLSDHERSAWithAES128CCM,
            0xC09F => CipherSuite::TLSDHERSAWithAES256CCM,
            0xC0A0 => CipherSuite::TLSRSAWithAES128CCM8,
            0xC0A1 => CipherSuite::TLSRSAWithAES256CCM8,
            0xC0A2 => CipherSuite::TLSDHERSAWithAES128CCM8,
            0xC0A3 => CipherSuite::TLSDHERSAWithAES256CCM8,
            0xC0AC => CipherSuite::TLSECDHEECDSAWithAES128CCM,
            0xC0AD => CipherSuite::TLSECDHEECDSAWithAES256CCM,
            0xC0AE => CipherSuite::TLSECDHEECDSAWithAES128CCM8,
            0xC0AF => CipherSuite::TLSECDHEECDSAWithAES256CCM8,
            0xCCA8 => CipherSuite::TLSECDHERSAWithChaCha20Poly1305SHA256,
            0xCCA9 => CipherSuite::TLSECDHEECDSAWithChaCha20Poly1305SHA256,
            0xCCAA => CipherSuite::TLSDHERSAWithChaCha20Poly1305SHA256,
            _ => CipherSuite::Unknown(code),
        }
    }
}

} // verus!
