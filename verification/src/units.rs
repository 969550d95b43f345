//! Quantities that travel through a session unchanged.
//!
//! The controller never does arithmetic on a volume or on a point of the
//! timeline: it hands on what it was given. Both are therefore kept in an
//! exact, integer form, and whoever talks to the caller or to the pipeline
//! turns them into the number that side expects.

use vstd::prelude::*;

verus! {

/// The bit pattern of the single-precision number `1.0`.
pub const FULL_VOLUME_BITS: u32 = 0x3F80_0000;

/// A playback volume.
///
/// `bits` is the IEEE 754 single-precision bit pattern of a fraction between
/// `0.0` (silent) and `1.0` (full volume).
#[derive(Clone, Copy, Debug, PartialEq, Eq, Structural)]
pub struct Volume {
    pub bits: u32,
}

impl Volume {
    /// Full volume, the fraction `1.0`.
    pub fn full() -> (volume: Volume)
        ensures
            volume == (Volume { bits: FULL_VOLUME_BITS }),
    {
        Volume { bits: FULL_VOLUME_BITS }
    }
}

/// A position on, or a length of, the media timeline.
#[derive(Clone, Copy, Debug, PartialEq, Eq, Structural)]
pub enum MediaTime {
    /// Seconds, as the IEEE 754 double-precision bit pattern that a caller
    /// supplied.
    Seconds(u64),
    /// Whole nanoseconds, the unit in which the pipeline reports time.
    Nanoseconds(u64),
}

impl MediaTime {
    /// The start of the timeline.
    pub fn zero() -> (time: MediaTime)
        ensures
            time == MediaTime::Nanoseconds(0),
    {
        MediaTime::Nanoseconds(0)
    }
}

} // verus!
