//! The playback rate: track-time that passes per unit of wall-time.
//!
//! A rate is a binary64 number. This library carries it by its bit pattern
//! and never computes with it: scaling an elapsed time by a rate is
//! floating-point arithmetic, which the caller does, handing in the track-time
//! that came of it.

use vstd::prelude::*;

verus! {

/// The bit pattern of the rate 1.0.
pub const UNIT_RATE_BITS: u64 = 0x3ff0_0000_0000_0000;

/// A playback rate, as the bit pattern of a binary64 number.
#[derive(Clone, Copy, Debug, PartialEq, Eq, Structural)]
pub struct PlaybackRate {
    pub bits: u64,
}

impl PlaybackRate {
    /// The rate with the given binary64 bit pattern.
    pub fn from_bits(bits: u64) -> (rate: PlaybackRate)
        ensures
            rate.bits == bits,
    {
        PlaybackRate { bits }
    }

    /// The rate 1.0: track-time passes as fast as wall-time.
    pub fn unit() -> (rate: PlaybackRate)
        ensures
            rate.bits == UNIT_RATE_BITS,
    {
        PlaybackRate { bits: UNIT_RATE_BITS }
    }

    /// The binary64 bit pattern of the rate.
    pub fn to_bits(&self) -> (bits: u64)
        ensures
            bits == self.bits,
    {
        self.bits
    }
}

impl Default for PlaybackRate {
    fn default() -> (rate: PlaybackRate)
        ensures
            rate.bits == UNIT_RATE_BITS,
    {
        PlaybackRate::unit()
    }
}

} // verus!
