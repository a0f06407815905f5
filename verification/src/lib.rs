//! Decoder for Windows Prefetch (`.pf`) files.
//!
//! A prefetch file records an executable's launch history: when it last ran,
//! how often, from which volume, and which file and folder paths it touched.
//! The decoder reads one in-memory byte source in a single pass of seeks and
//! exact-length reads, dispatches on the version code at the start of the
//! file, and either assembles a complete [`prefetch::Prefetch`] record or
//! reports the first [`error::DecodeError`] it runs into.

pub mod error;
pub mod fileinfo;
pub mod header;
pub mod plugin;
pub mod prefetch;
pub mod source;
pub mod strings;
pub mod timestamp;
pub mod volume;

pub use error::DecodeError;
pub use fileinfo::FileInformation;
pub use header::{PrefetchHeader, PrefetchVersion};
pub use plugin::{PrefetchPlugin, Results};
pub use prefetch::Prefetch;
pub use source::ByteSource;
pub use timestamp::Timestamp;
pub use volume::VolumeInformation;
