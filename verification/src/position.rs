//! The anchor of a playback position in wall-clock time, and the position that
//! follows from it once the track-time that has passed since is known.

use crate::integer::{clamp_i64, min_int};
use crate::playback_state::PlaybackState;
use crate::rate::{PlaybackRate, UNIT_RATE_BITS};
use vstd::prelude::*;

verus! {

/// A position in a track that was accurate at a known instant, and the rate at
/// which it advances. Times are in microseconds.
#[derive(Clone, Copy, Debug, PartialEq, Eq, Structural)]
pub struct PositionInfo {
    /// Track-time per wall-time.
    pub playback_rate: PlaybackRate,
    /// Wall-clock time, since the UNIX epoch, at which `pos_raw` was accurate.
    pub pos_last_update: i64,
    /// Position in the track at that instant.
    pub pos_raw: i64,
}

impl PositionInfo {
    /// The anchor before anything was reported: position zero at time zero,
    /// advancing at rate 1.0.
    pub open spec fn initial() -> PositionInfo {
        PositionInfo {
            playback_rate: PlaybackRate { bits: UNIT_RATE_BITS },
            pos_last_update: 0,
            pos_raw: 0,
        }
    }

    /// The position, `delta` being the track-time that has passed since the
    /// anchor was accurate: the wall-time passed, multiplied by the playback
    /// rate and rounded. Zero when stopped; the anchored position when paused;
    /// when playing the anchored position advanced by `delta`, or `duration`
    /// where that is less, kept within the range of a signed 64-bit integer.
    pub open spec fn position_with(self, state: PlaybackState, duration: int, delta: int) -> int {
        match state {
            PlaybackState::Stopped => 0,
            PlaybackState::Paused => self.pos_raw as int,
            PlaybackState::Playing => clamp_i64(min_int(duration, self.pos_raw + delta)),
        }
    }

    /// The anchor before anything was reported.
    pub fn new() -> (info: PositionInfo)
        ensures
            info == PositionInfo::initial(),
    {
        PositionInfo { playback_rate: PlaybackRate::unit(), pos_last_update: 0, pos_raw: 0 }
    }

    /// The position, `delta` being the track-time that has passed since the
    /// anchor was accurate.
    pub fn reconcile_with_delta(
        &self,
        state: PlaybackState,
        duration: i64,
        delta: i64,
    ) -> (position: i64)
        ensures
            position == self.position_with(state, duration as int, delta as int),
    {
        match state {
            PlaybackState::Stopped => 0,
            PlaybackState::Paused => self.pos_raw,
            PlaybackState::Playing => {
                let advanced: i128 = self.pos_raw as i128 + delta as i128;
                let capped: i128 = if (duration as i128) <= advanced {
                    duration as i128
                } else {
                    advanced
                };
                if capped < i64::MIN as i128 {
                    i64::MIN
                } else {
                    capped as i64
                }
            },
        }
    }
}

impl Default for PositionInfo {
    fn default() -> (info: PositionInfo)
        ensures
            info == PositionInfo::initial(),
    {
        PositionInfo::new()
    }
}

/// While playing, the position is the anchored position advanced by the
/// track-time passed, or the duration where that is less. This holds wherever
/// the advanced position is no less than the least signed 64-bit integer;
/// below that the position stays at that integer.
pub proof fn lemma_playing_position(info: PositionInfo, duration: i64, delta: int)
    requires
        info.pos_raw + delta >= i64::MIN,
    ensures
        info.position_with(PlaybackState::Playing, duration as int, delta) == min_int(
            duration as int,
            info.pos_raw + delta,
        ),
{
}

/// While playing, the position never passes the duration.
pub proof fn lemma_playing_position_is_capped(info: PositionInfo, duration: i64, delta: int)
    ensures
        info.position_with(PlaybackState::Playing, duration as int, delta) <= duration,
{
}

/// While playing, more track-time passed never gives an earlier position.
pub proof fn lemma_playing_position_monotonic(
    info: PositionInfo,
    duration: int,
    earlier: int,
    later: int,
)
    requires
        earlier <= later,
    ensures
        info.position_with(PlaybackState::Playing, duration, earlier) <= info.position_with(
            PlaybackState::Playing,
            duration,
            later,
        ),
{
}

/// While paused, the position is the anchored position, whatever time has
/// passed.
pub proof fn lemma_paused_position(info: PositionInfo, duration: int, delta: int)
    ensures
        info.position_with(PlaybackState::Paused, duration, delta) == info.pos_raw,
{
}

/// While stopped, the position is zero, whatever the anchor and the time
/// passed.
pub proof fn lemma_stopped_position(info: PositionInfo, duration: int, delta: int)
    ensures
        info.position_with(PlaybackState::Stopped, duration, delta) == 0,
{
}

/// With no track loaded, duration and anchored position both zero, the
/// position is zero in every state, whatever track-time has passed forwards.
pub proof fn lemma_nothing_loaded_position(info: PositionInfo, state: PlaybackState, delta: int)
    requires
        info.pos_raw == 0,
        delta >= 0,
    ensures
        info.position_with(state, 0, delta) == 0,
{
}

} // verus!
