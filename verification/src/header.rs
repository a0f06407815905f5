use vstd::prelude::*;

use crate::error::DecodeError;
use crate::source::{le32_at, ByteSource};
use crate::strings::{read_utf16_exact, spec_utf16_exact};

verus! {

/// The known prefetch format generations, in the order of their version
/// codes. The Windows 10 generation is recognized but never decoded: its
/// payload is LZXPRESS-compressed.
#[derive(Clone, Copy, Debug, PartialEq, Eq, Structural)]
pub enum PrefetchVersion {
    WindowsXP,
    WindowsVista,
    Windows8,
    Windows10,
}

/// The generation named by a raw version code: 0x11, 0x17, 0x1a and 0x30 are
/// known, everything else is not.
pub open spec fn spec_version_of_code(code: u32) -> Option<PrefetchVersion> {
    if code == 0x11 {
        Some(PrefetchVersion::WindowsXP)
    } else if code == 0x17 {
        Some(PrefetchVersion::WindowsVista)
    } else if code == 0x1a {
        Some(PrefetchVersion::Windows8)
    } else if code == 0x30 {
        Some(PrefetchVersion::Windows10)
    } else {
        None
    }
}

fn version_of_code(code: u32) -> (r: Option<PrefetchVersion>)
    ensures
        r == spec_version_of_code(code),
{
    match code {
        0x11 => Some(PrefetchVersion::WindowsXP),
        0x17 => Some(PrefetchVersion::WindowsVista),
        0x1a => Some(PrefetchVersion::Windows8),
        0x30 => Some(PrefetchVersion::Windows10),
        _ => None,
    }
}

/// Relies on str::from_utf8: `Some` exactly on a valid UTF-8 encoding, and
/// then the decoded text; validity and decoding are the ones vstd's UTF-8
/// model states.
#[verifier::external_body]
fn utf8_string(b: &Vec<u8>) -> (r: Option<String>)
    ensures
        r is Some <==> vstd::utf8::valid_utf8(b@),
        r matches Some(st) ==> st@ == vstd::utf8::decode_utf8(b@),
{
    match core::str::from_utf8(b.as_slice()) {
        Ok(st) => Some(st.to_string()),
        Err(_) => None,
    }
}

/// The fixed-position leading fields of a prefetch file, together with the
/// three coordinates later decoding steps seek to.
#[derive(Clone, Debug, PartialEq)]
pub struct PrefetchHeader {
    /// Format generation, from the version code at offset 0.
    pub version: PrefetchVersion,
    /// The four signature bytes at offset 4, decoded as UTF-8.
    pub signature: String,
    /// Declared file size, at offset 0xC.
    pub file_size: u32,
    /// Executable name: a fixed 60-byte UTF-16 field at offset 0x10, cut at
    /// its first null code unit.
    pub file_name: String,
    /// Hash value at offset 0x4C.
    pub hash: u32,
    /// Offset of the file-path list span, at 0x64.
    pub first_file_path_offset: u32,
    /// Byte size of the file-path list span, at 0x68.
    pub first_file_path_size: u32,
    /// Offset of the volume-information record, at 0x6C.
    pub volume_information_offset: u32,
}

/// The first failure a header decode runs into, if any: the fields are read
/// in the order version, signature, file size, executable name, hash, and
/// the three coordinates ending at offset 0x70.
pub open spec fn spec_header_error(s: Seq<u8>) -> Option<DecodeError> {
    if s.len() < 4 {
        Some(DecodeError::Truncated)
    } else if spec_version_of_code(le32_at(s, 0)) is None {
        Some(DecodeError::UnsupportedVersion)
    } else if s.len() < 8 {
        Some(DecodeError::Truncated)
    } else if !vstd::utf8::valid_utf8(s.subrange(4, 8)) {
        Some(DecodeError::MalformedSignature)
    } else if s.len() < 0x10 {
        Some(DecodeError::Truncated)
    } else {
        match spec_utf16_exact(s, 0x10, 60) {
            Err(e) => Some(e),
            Ok(_) => if s.len() < 0x70 {
                Some(DecodeError::Truncated)
            } else {
                None
            },
        }
    }
}

/// Every field of a decoded header, as a function of the bytes alone.
pub open spec fn spec_header_matches(h: PrefetchHeader, s: Seq<u8>) -> bool {
    &&& Some(h.version) == spec_version_of_code(le32_at(s, 0))
    &&& h.signature@ == vstd::utf8::decode_utf8(s.subrange(4, 8))
    &&& h.file_size == le32_at(s, 0xC)
    &&& Ok::<Seq<char>, DecodeError>(h.file_name@) == spec_utf16_exact(s, 0x10, 60)
    &&& h.hash == le32_at(s, 0x4C)
    &&& h.first_file_path_offset == le32_at(s, 0x64)
    &&& h.first_file_path_size == le32_at(s, 0x68)
    &&& h.volume_information_offset == le32_at(s, 0x6C)
}

impl PrefetchHeader {
    /// Decodes the leading header fields. The byte source may be positioned
    /// anywhere: every field sits at a fixed offset and is seeked to
    /// explicitly.
    pub fn from_reader(file: &mut ByteSource) -> (r: Result<PrefetchHeader, DecodeError>)
        ensures
            final(file).bytes() == old(file).bytes(),
            r is Ok <==> spec_header_error(old(file).bytes()) is None,
            r matches Ok(h) ==> spec_header_matches(h, old(file).bytes()),
            r matches Err(e) ==> Some(e) == spec_header_error(old(file).bytes()),
    {
        file.seek_to(0);
        let code = match file.read_u32_le() {
            Ok(c) => c,
            Err(e) => {
                return Err(e);
            },
        };
        let version = match version_of_code(code) {
            Some(v) => v,
            None => {
                return Err(DecodeError::UnsupportedVersion);
            },
        };
        let sig_bytes = match file.read_bytes(4) {
            Ok(b) => b,
            Err(e) => {
                return Err(e);
            },
        };
        let signature = match utf8_string(&sig_bytes) {
            Some(st) => st,
            None => {
                return Err(DecodeError::MalformedSignature);
            },
        };
        file.seek_to(0xC);
        let file_size = match file.read_u32_le() {
            Ok(v) => v,
            Err(e) => {
                return Err(e);
            },
        };
        file.seek_to(0x10);
        let file_name = match read_utf16_exact(file, 60) {
            Ok(n) => n,
            Err(e) => {
                return Err(e);
            },
        };
        let hash = match file.read_u32_le() {
            Ok(v) => v,
            Err(e) => {
                return Err(e);
            },
        };
        file.seek_to(0x64);
        let first_file_path_offset = match file.read_u32_le() {
            Ok(v) => v,
            Err(e) => {
                return Err(e);
            },
        };
        let first_file_path_size = match file.read_u32_le() {
            Ok(v) => v,
            Err(e) => {
                return Err(e);
            },
        };
        let volume_information_offset = match file.read_u32_le() {
            Ok(v) => v,
            Err(e) => {
                return Err(e);
            },
        };
        Ok(
            PrefetchHeader {
                version,
                signature,
                file_size,
                file_name,
                hash,
                first_file_path_offset,
                first_file_path_size,
                volume_information_offset,
            },
        )
    }
}

} // verus!
