use vstd::prelude::*;

use crate::error::DecodeError;
use crate::source::{le32_at, le64_at, ByteSource};
use crate::timestamp::{spec_timestamp_of_ticks, Timestamp};

verus! {

/// The 36-byte volume metadata record: creation time and serial number of
/// the source volume, and the pointer, size and count fields that drive the
/// reads that follow it. Every offset in it is relative to the record's own
/// start, not to the start of the file.
#[derive(Clone, Copy, Debug, PartialEq, Eq, Structural)]
pub struct VolumeInformation {
    /// Offset of the volume path, relative to this record.
    pub volume_path_offset: u32,
    /// Size of the volume path, in bytes.
    pub volume_path_size: u32,
    /// When the volume was created.
    pub volume_creation_date: Timestamp,
    /// The volume's serial number.
    pub volume_serial_number: u32,
    /// Offset of an auxiliary blob, relative to this record.
    pub blob1_offset: u32,
    /// Size of the auxiliary blob, in bytes.
    pub blob1_size: u32,
    /// Offset of the folder-path table, relative to this record.
    pub folder_path_offset: u32,
    /// How many length-prefixed strings the folder-path table holds.
    pub folder_path_count: u32,
}

/// The first failure a volume-info decode at offset `pos` runs into, if any:
/// only a short read, when under 36 bytes follow `pos`.
pub open spec fn spec_volume_information_error(s: Seq<u8>, pos: int) -> Option<DecodeError> {
    if pos + 36 > s.len() {
        Some(DecodeError::Truncated)
    } else {
        None
    }
}

/// Every field of a decoded volume record, as a function of the bytes and
/// the record's start offset alone.
pub open spec fn spec_volume_information_matches(
    vi: VolumeInformation,
    s: Seq<u8>,
    pos: int,
) -> bool {
    &&& vi.volume_path_offset == le32_at(s, pos)
    &&& vi.volume_path_size == le32_at(s, pos + 4)
    &&& vi.volume_creation_date == spec_timestamp_of_ticks(le64_at(s, pos + 8))
    &&& vi.volume_serial_number == le32_at(s, pos + 16)
    &&& vi.blob1_offset == le32_at(s, pos + 20)
    &&& vi.blob1_size == le32_at(s, pos + 24)
    &&& vi.folder_path_offset == le32_at(s, pos + 28)
    &&& vi.folder_path_count == le32_at(s, pos + 32)
}

impl VolumeInformation {
    /// Decodes the volume record at the source's current position, reading
    /// its nine little-endian fields in fixed order.
    pub fn from_reader(file: &mut ByteSource) -> (r: Result<VolumeInformation, DecodeError>)
        ensures
            final(file).bytes() == old(file).bytes(),
            r is Ok <==> spec_volume_information_error(
                old(file).bytes(),
                old(file).pos() as int,
            ) is None,
            r matches Ok(vi) ==> spec_volume_information_matches(
                vi,
                old(file).bytes(),
                old(file).pos() as int,
            ) && final(file).pos() == old(file).pos() + 36,
            r matches Err(e) ==> Some(e) == spec_volume_information_error(
                old(file).bytes(),
                old(file).pos() as int,
            ),
    {
        if !file.has_remaining(36) {
            return Err(DecodeError::Truncated);
        }
        let volume_path_offset = match file.read_u32_le() {
            Ok(v) => v,
            Err(e) => {
                return Err(e);
            },
        };
        let volume_path_size = match file.read_u32_le() {
            Ok(v) => v,
            Err(e) => {
                return Err(e);
            },
        };
        let raw_creation = match file.read_u64_le() {
            Ok(v) => v,
            Err(e) => {
                return Err(e);
            },
        };
        let volume_creation_date = Timestamp::from_windows_ticks(raw_creation);
        let volume_serial_number = match file.read_u32_le() {
            Ok(v) => v,
            Err(e) => {
                return Err(e);
            },
        };
        let blob1_offset = match file.read_u32_le() {
            Ok(v) => v,
            Err(e) => {
                return Err(e);
            },
        };
        let blob1_size = match file.read_u32_le() {
            Ok(v) => v,
            Err(e) => {
                return Err(e);
            },
        };
        let folder_path_offset = match file.read_u32_le() {
            Ok(v) => v,
            Err(e) => {
                return Err(e);
            },
        };
        let folder_path_count = match file.read_u32_le() {
            Ok(v) => v,
            Err(e) => {
                return Err(e);
            },
        };
        Ok(
            VolumeInformation {
                volume_path_offset,
                volume_path_size,
                volume_creation_date,
                volume_serial_number,
                blob1_offset,
                blob1_size,
                folder_path_offset,
                folder_path_count,
            },
        )
    }
}

} // verus!
