use vstd::prelude::*;

verus! {

/// The closed set of failures a decode can produce.
///
/// Every decoding step reports its error immediately and the whole decode
/// aborts: there is no partial record and no recovery.
#[derive(Clone, Copy, Debug, PartialEq, Eq, Structural)]
pub enum DecodeError {
    /// The four-byte version code is not a known layout, or names the
    /// compressed variant that this decoder recognizes but does not handle.
    UnsupportedVersion,
    /// The four signature bytes are not valid UTF-8.
    MalformedSignature,
    /// The byte source ended before a required field could be read in full.
    Truncated,
    /// A raw timestamp outside the representable range of [`crate::timestamp::Timestamp`].
    /// The representation covers every 64-bit tick count, so the decoders in
    /// this crate never produce it; it is part of the closed error set for
    /// callers that branch on failure categories.
    InvalidTimestamp,
    /// A UTF-16 field holds an unpaired surrogate or a truncated code unit.
    InvalidStringEncoding,
}

} // verus!
