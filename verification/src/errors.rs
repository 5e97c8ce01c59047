//! Error taxonomy of the dispatch core.
//!
//! `ConfigError` is fatal: it aborts startup before any hotkey is registered.
//! `PlaybackError` is recovered locally per trigger: the slot whose playback
//! failed is re-armed afterwards so a later trigger can retry.

use vstd::prelude::*;

verus! {

/// A startup condition that forbids running: an out-of-range device selection,
/// or a clip list that does not fit the digit-row keyspace.
#[derive(Clone, Copy, Debug, PartialEq, Eq, Structural)]
pub enum ConfigError {
    /// The chosen device number is zero or exceeds the enumerated count.
    InvalidSelection,
    /// No audio resource was discovered; at least one clip is needed.
    NoResources,
    /// More than ten audio resources were discovered; only ten slots exist.
    TooManyResources,
}

/// A failure of one playback attempt. None of these is fatal: the control
/// loop reports the failure and keeps listening.
#[derive(Clone, Copy, Debug, PartialEq, Eq, Structural)]
pub enum PlaybackError {
    /// The resource path is missing or cannot be opened.
    ResourceUnreadable,
    /// The resource was opened but could not be decoded.
    UnsupportedFormat,
    /// The output sink or stream could not be built on the selected device.
    DeviceUnavailable,
}

} // verus!
