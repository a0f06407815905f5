use vstd::prelude::*;

use crate::error::DecodeError;
use crate::fileinfo::{
    spec_file_information_error, spec_file_information_matches, spec_layout_of, FileInformation,
};
use crate::header::{
    spec_header_error, spec_header_matches, spec_version_of_code, PrefetchHeader, PrefetchVersion,
};
use crate::source::{le32_at, ByteSource};
use crate::strings::{read_folder_list, read_utf16_list, spec_folder_list, spec_utf16_list};
use crate::volume::{
    spec_volume_information_error, spec_volume_information_matches, VolumeInformation,
};

verus! {

/// The complete launch-history record of one prefetch file. Built in a
/// single decode pass, never mutated afterwards, and the exclusive owner of
/// its sub-records and path lists.
#[derive(Clone, Debug, PartialEq)]
pub struct Prefetch {
    pub header: PrefetchHeader,
    pub file_information: FileInformation,
    pub volume_information: VolumeInformation,
    /// The file paths the executable touched, in file order, duplicates kept.
    pub files: Vec<String>,
    /// The folder paths of the source volume, in file order, duplicates kept.
    pub volumes: Vec<String>,
}

/// Offset of the folder-path table: the volume record's own offset plus the
/// table offset the record holds, each read straight from the bytes.
pub open spec fn spec_folder_table_pos(s: Seq<u8>) -> int {
    le32_at(s, 0x6C) + le32_at(s, le32_at(s, 0x6C) as int + 28)
}

/// The first failure a whole decode runs into, if any, in the order the
/// assembler works: header, execution info, volume record, file-path list,
/// folder-path table.
pub open spec fn spec_prefetch_error(s: Seq<u8>) -> Option<DecodeError> {
    match spec_header_error(s) {
        Some(e) => Some(e),
        None => match spec_version_of_code(le32_at(s, 0)) {
            None => Some(DecodeError::UnsupportedVersion),
            Some(v) => match spec_file_information_error(s, v) {
                Some(e) => Some(e),
                None => match spec_volume_information_error(s, le32_at(s, 0x6C) as int) {
                    Some(e) => Some(e),
                    None => match spec_utf16_list(
                        s,
                        le32_at(s, 0x64) as int,
                        le32_at(s, 0x68) as int,
                    ) {
                        Err(e) => Some(e),
                        Ok(_) => match spec_folder_list(
                            s,
                            spec_folder_table_pos(s),
                            le32_at(s, le32_at(s, 0x6C) as int + 32) as int,
                        ) {
                            Err(e) => Some(e),
                            Ok(_) => None,
                        },
                    },
                },
            },
        },
    }
}

/// Every part of a decoded record, as a function of the bytes alone.
pub open spec fn spec_prefetch_matches(p: Prefetch, s: Seq<u8>) -> bool {
    &&& spec_header_matches(p.header, s)
    &&& spec_file_information_matches(p.file_information, s, p.header.version)
    &&& spec_volume_information_matches(p.volume_information, s, le32_at(s, 0x6C) as int)
    &&& Ok::<Seq<Seq<char>>, DecodeError>(p.files.deep_view()) == spec_utf16_list(
        s,
        le32_at(s, 0x64) as int,
        le32_at(s, 0x68) as int,
    )
    &&& Ok::<Seq<Seq<char>>, DecodeError>(p.volumes.deep_view()) == spec_folder_list(
        s,
        spec_folder_table_pos(s),
        le32_at(s, le32_at(s, 0x6C) as int + 32) as int,
    )
}

impl Prefetch {
    /// Decodes a whole prefetch file from a byte source, in one strictly
    /// sequential pass: header, execution info for the header's version, the
    /// volume record at the header's volume offset, the file-path list at the
    /// header's list offset, then the volume record's folder-path table. The
    /// first failing step aborts the decode with its error; the outcome is a
    /// function of the source's bytes alone.
    #[verifier::rlimit(60)]
    pub fn from_file(file: &mut ByteSource) -> (r: Result<Prefetch, DecodeError>)
        ensures
            final(file).bytes() == old(file).bytes(),
            r is Ok <==> spec_prefetch_error(old(file).bytes()) is None,
            r matches Ok(p) ==> spec_prefetch_matches(p, old(file).bytes()),
            r matches Err(e) ==> Some(e) == spec_prefetch_error(old(file).bytes()),
    {
        let ghost s = old(file).bytes();
        let header = match PrefetchHeader::from_reader(file) {
            Ok(h) => h,
            Err(e) => {
                return Err(e);
            },
        };
        let file_information = match FileInformation::from_reader(file, header.version) {
            Ok(fi) => fi,
            Err(e) => {
                return Err(e);
            },
        };
        file.seek_to(header.volume_information_offset as u64);
        let volume_information = match VolumeInformation::from_reader(file) {
            Ok(vi) => vi,
            Err(e) => {
                return Err(e);
            },
        };
        file.seek_to(header.first_file_path_offset as u64);
        let files = match read_utf16_list(file, header.first_file_path_size as u64) {
            Ok(v) => v,
            Err(e) => {
                return Err(e);
            },
        };
        let folder_pos: u64 = header.volume_information_offset as u64
            + volume_information.folder_path_offset as u64;
        file.seek_to(folder_pos);
        assert(folder_pos == spec_folder_table_pos(s));
        let volumes = match read_folder_list(file, volume_information.folder_path_count) {
            Ok(v) => v,
            Err(e) => {
                return Err(e);
            },
        };
        Ok(Prefetch { header, file_information, volume_information, files, volumes })
    }
}

/// For every recognized version code the decoder selects exactly that code's
/// layout-table row; the Windows 10 code is recognized by the header but,
/// the header once decoded, the whole decode refuses it as unsupported.
pub proof fn lemma_version_dispatch(s: Seq<u8>)
    requires
        s.len() >= 4,
    ensures
        le32_at(s, 0) == 0x11 ==> spec_version_of_code(le32_at(s, 0)) == Some(
            PrefetchVersion::WindowsXP,
        ) && spec_layout_of(PrefetchVersion::WindowsXP) == Some((0x78int, 0x90int)),
        le32_at(s, 0) == 0x17 ==> spec_version_of_code(le32_at(s, 0)) == Some(
            PrefetchVersion::WindowsVista,
        ) && spec_layout_of(PrefetchVersion::WindowsVista) == Some((0x80int, 0x98int)),
        le32_at(s, 0) == 0x1a ==> spec_version_of_code(le32_at(s, 0)) == Some(
            PrefetchVersion::Windows8,
        ) && spec_layout_of(PrefetchVersion::Windows8) == Some((0x80int, 0xD0int)),
        le32_at(s, 0) == 0x30 && spec_header_error(s) is None ==> spec_prefetch_error(s) == Some(
            DecodeError::UnsupportedVersion,
        ),
{
}

/// A byte buffer shorter than the 0x70-byte header span never decodes: one
/// under four bytes cannot even hold the version code and is reported as
/// truncated outright.
pub proof fn lemma_short_buffer_rejected(s: Seq<u8>)
    requires
        s.len() < 0x70,
    ensures
        spec_prefetch_error(s) is Some,
        s.len() < 4 ==> spec_prefetch_error(s) == Some(DecodeError::Truncated),
{
}

/// Decoding is a pure function of the bytes: two sources holding the same
/// bytes yield the same outcome, error and record alike.
pub proof fn lemma_decode_deterministic(s1: Seq<u8>, s2: Seq<u8>)
    requires
        s1 =~= s2,
    ensures
        spec_prefetch_error(s1) == spec_prefetch_error(s2),
        forall|p: Prefetch| spec_prefetch_matches(p, s1) == spec_prefetch_matches(p, s2),
{
    assert(s1 == s2);
}

/// Any two records decoded from the same bytes are field-for-field
/// identical: the contract of [`Prefetch::from_file`] pins every field, so
/// decoding holds no hidden state.
pub proof fn lemma_record_determined(p1: Prefetch, p2: Prefetch, s: Seq<u8>)
    requires
        spec_prefetch_matches(p1, s),
        spec_prefetch_matches(p2, s),
    ensures
        p1.header.version == p2.header.version,
        p1.header.signature@ == p2.header.signature@,
        p1.header.file_size == p2.header.file_size,
        p1.header.file_name@ == p2.header.file_name@,
        p1.header.hash == p2.header.hash,
        p1.header.first_file_path_offset == p2.header.first_file_path_offset,
        p1.header.first_file_path_size == p2.header.first_file_path_size,
        p1.header.volume_information_offset == p2.header.volume_information_offset,
        p1.file_information == p2.file_information,
        p1.volume_information == p2.volume_information,
        p1.files.deep_view() == p2.files.deep_view(),
        p1.volumes.deep_view() == p2.volumes.deep_view(),
{
}

} // verus!
