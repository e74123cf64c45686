//! Core of a directory-scanning WAV player: the shared sample queue that a
//! real-time output callback drains, the decode bridge that fills it after
//! validating the track's format, and the playback state machine that governs
//! pause/resume and circular track navigation.

use vstd::prelude::*;

pub mod buffer;
pub mod decode;
pub mod discovery;
pub mod player;

verus! {

/// Why a player operation could not proceed.
#[derive(Clone, Copy, Debug, PartialEq, Eq, Structural)]
pub enum PlayerError {
    /// Startup found no playable files; fatal to startup.
    DiscoveryEmpty,
    /// The decoder could not parse the file; the load is aborted.
    FormatError,
    /// The file's sample rate differs from the negotiated output rate; the
    /// load is aborted before any buffer mutation.
    SampleRateMismatch,
    /// The file's channel count differs from the negotiated output layout;
    /// the load is aborted before any buffer mutation.
    ChannelCountMismatch,
    /// The output sink rejected the configuration or could not be opened.
    DeviceError,
    /// The output host reported an asynchronous fault on a live stream.
    StreamRuntimeError,
}

} // verus!
