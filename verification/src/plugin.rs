use vstd::prelude::*;

verus! {

/// Marker value a plugin run yields on success: the decoded record itself
/// goes to the host that drove the run, which stores it beside the node the
/// bytes came from, so nothing is left to say here.
#[derive(Clone, Copy, Debug, PartialEq, Eq, Structural)]
pub struct Results {}

impl Default for Results {
    fn default() -> (r: Results)
        ensures
            r == (Results {  }),
    {
        Results {  }
    }
}

/// Handle a host framework instantiates to drive decodes. The host wiring —
/// looking a node up, opening its data, storing the record — stays outside
/// the verified core: the host hands [`crate::ByteSource::new`] the bytes and
/// calls [`crate::Prefetch::from_file`].
#[derive(Clone, Copy, Debug, PartialEq, Eq, Structural)]
pub struct PrefetchPlugin {}

impl Default for PrefetchPlugin {
    fn default() -> (r: PrefetchPlugin)
        ensures
            r == (PrefetchPlugin {  }),
    {
        PrefetchPlugin {  }
    }
}

} // verus!
