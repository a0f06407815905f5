use vstd::prelude::*;

use crate::error::DecodeError;
use crate::header::PrefetchVersion;
use crate::source::{le32_at, le64_at, ByteSource};
use crate::timestamp::{spec_timestamp_of_ticks, Timestamp};

verus! {

/// The layout table: byte offsets of the last-execution timestamp and of the
/// run count for each decodable generation, and `None` for the compressed
/// Windows 10 layout.
pub open spec fn spec_layout_of(v: PrefetchVersion) -> Option<(int, int)> {
    match v {
        PrefetchVersion::WindowsXP => Some((0x78int, 0x90int)),
        PrefetchVersion::WindowsVista => Some((0x80int, 0x98int)),
        PrefetchVersion::Windows8 => Some((0x80int, 0xD0int)),
        PrefetchVersion::Windows10 => None,
    }
}

fn layout_of(v: PrefetchVersion) -> (r: Option<(u64, u64)>)
    ensures
        r is Some <==> spec_layout_of(v) is Some,
        r matches Some(off) ==> spec_layout_of(v) == Some((off.0 as int, off.1 as int)),
{
    match v {
        PrefetchVersion::WindowsXP => Some((0x78, 0x90)),
        PrefetchVersion::WindowsVista => Some((0x80, 0x98)),
        PrefetchVersion::Windows8 => Some((0x80, 0xD0)),
        PrefetchVersion::Windows10 => None,
    }
}

/// An executable's launch history: when it last ran and how often.
#[derive(Clone, Copy, Debug, PartialEq, Eq, Structural)]
pub struct FileInformation {
    pub last_execution_time: Timestamp,
    pub number_of_execution: u32,
}

/// The first failure an execution-info decode runs into, if any: no layout
/// for the version, or a short read at either of the layout's two offsets.
pub open spec fn spec_file_information_error(s: Seq<u8>, v: PrefetchVersion) -> Option<
    DecodeError,
> {
    match spec_layout_of(v) {
        None => Some(DecodeError::UnsupportedVersion),
        Some(off) => if off.0 + 8 > s.len() {
            Some(DecodeError::Truncated)
        } else if off.1 + 4 > s.len() {
            Some(DecodeError::Truncated)
        } else {
            None
        },
    }
}

/// Both fields of a decoded execution info, as functions of the bytes and
/// the version alone: the timestamp from the eight bytes at the layout's
/// first offset, the run count from the four at its second.
pub open spec fn spec_file_information_matches(
    fi: FileInformation,
    s: Seq<u8>,
    v: PrefetchVersion,
) -> bool {
    match spec_layout_of(v) {
        None => false,
        Some(off) => {
            &&& fi.last_execution_time == spec_timestamp_of_ticks(le64_at(s, off.0))
            &&& fi.number_of_execution == le32_at(s, off.1)
        },
    }
}

impl FileInformation {
    /// Decodes the last-execution timestamp and the run count, seeking to the
    /// offsets the layout table gives for `version`; the compressed Windows 10
    /// layout is refused as unsupported.
    pub fn from_reader(file: &mut ByteSource, version: PrefetchVersion) -> (r: Result<
        FileInformation,
        DecodeError,
    >)
        ensures
            final(file).bytes() == old(file).bytes(),
            r is Ok <==> spec_file_information_error(old(file).bytes(), version) is None,
            r matches Ok(fi) ==> spec_file_information_matches(fi, old(file).bytes(), version),
            r matches Err(e) ==> Some(e) == spec_file_information_error(
                old(file).bytes(),
                version,
            ),
    {
        let (time_offset, count_offset) = match layout_of(version) {
            Some(off) => off,
            None => {
                return Err(DecodeError::UnsupportedVersion);
            },
        };
        file.seek_to(time_offset);
        let raw_time = match file.read_u64_le() {
            Ok(v) => v,
            Err(e) => {
                return Err(e);
            },
        };
        let last_execution_time = Timestamp::from_windows_ticks(raw_time);
        file.seek_to(count_offset);
        let number_of_execution = match file.read_u32_le() {
            Ok(v) => v,
            Err(e) => {
                return Err(e);
            },
        };
        Ok(FileInformation { last_execution_time, number_of_execution })
    }

    /// The instant the executable last ran.
    pub fn last_execution_time(&self) -> (r: Timestamp)
        ensures
            r == self.last_execution_time,
    {
        self.last_execution_time
    }

    /// How often the executable has run.
    pub fn number_of_execution(&self) -> (r: u32)
        ensures
            r == self.number_of_execution,
    {
        self.number_of_execution
    }
}

} // verus!
