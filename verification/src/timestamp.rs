use vstd::prelude::*;

verus! {

/// Seconds between 1601-01-01 (the Windows epoch) and 1970-01-01 (the Unix
/// epoch), both midnight UTC.
pub const WINDOWS_TO_UNIX_EPOCH_SECONDS: i64 = 11_644_473_600;

/// An absolute UTC instant, as a count of whole seconds since the Unix epoch
/// (negative for instants before 1970) plus a sub-second remainder in
/// nanoseconds.
///
/// The representation spans far more than the full 64-bit Windows tick range,
/// so converting a raw prefetch timestamp never clamps and never fails; see
/// [`Timestamp::from_windows_ticks`].
#[derive(Clone, Copy, Debug, PartialEq, Eq, Structural)]
pub struct Timestamp {
    /// Whole seconds since 1970-01-01T00:00:00 UTC.
    pub unix_seconds: i64,
    /// Nanoseconds past `unix_seconds`; under one billion, and always a
    /// multiple of 100 when built from Windows ticks.
    pub subsec_nanos: u32,
}

/// The instant denoted by a count of 100-nanosecond intervals since the
/// Windows epoch, 1601-01-01T00:00:00 UTC.
pub open spec fn spec_timestamp_of_ticks(ticks: u64) -> Timestamp {
    Timestamp {
        unix_seconds: ((ticks / 10_000_000) - WINDOWS_TO_UNIX_EPOCH_SECONDS) as i64,
        subsec_nanos: ((ticks % 10_000_000) * 100) as u32,
    }
}

/// True when the sub-second part stays under one second.
pub open spec fn timestamp_well_formed(t: Timestamp) -> bool {
    t.subsec_nanos < 1_000_000_000
}

impl Timestamp {
    /// Decodes a raw 64-bit Windows epoch value: a count of 100-nanosecond
    /// ticks since 1601-01-01 UTC. Every tick count denotes an instant this
    /// representation holds exactly, so the conversion is total: the raw
    /// sentinel `0` decodes to the Windows epoch itself, and nothing is ever
    /// clamped.
    pub fn from_windows_ticks(ticks: u64) -> (r: Timestamp)
        ensures
            r == spec_timestamp_of_ticks(ticks),
            timestamp_well_formed(r),
    {
        let seconds_since_1601: u64 = ticks / 10_000_000;
        let subsec_nanos: u32 = ((ticks % 10_000_000) * 100) as u32;
        Timestamp {
            unix_seconds: seconds_since_1601 as i64 - WINDOWS_TO_UNIX_EPOCH_SECONDS,
            subsec_nanos,
        }
    }
}

/// A zero raw value, the pre-epoch sentinel many prefetch writers leave in
/// place, decodes to the well-defined instant 1601-01-01T00:00:00 UTC rather
/// than failing.
pub proof fn lemma_zero_ticks_decode()
    ensures
        spec_timestamp_of_ticks(0) == (Timestamp {
            unix_seconds: (-WINDOWS_TO_UNIX_EPOCH_SECONDS) as i64,
            subsec_nanos: 0,
        }),
{
}

} // verus!
