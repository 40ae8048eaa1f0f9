//! The playback status under its earlier name, read leniently.

use crate::playback_state::PlaybackState;
use crate::text;
use vstd::prelude::*;
use vstd::string::*;

verus! {

/// What a player is doing.
#[derive(Clone, Copy, Debug, PartialEq, Eq, Structural)]
pub enum MediaStatus {
    Stopped,
    Paused,
    Playing,
}

impl MediaStatus {
    /// The playback state of the same name.
    pub open spec fn state(self) -> PlaybackState {
        match self {
            MediaStatus::Stopped => PlaybackState::Stopped,
            MediaStatus::Paused => PlaybackState::Paused,
            MediaStatus::Playing => PlaybackState::Playing,
        }
    }

    /// Reads a canonical token; any other text gives `Stopped`.
    pub fn from_str(s: &str) -> (status: MediaStatus)
        ensures
            status.state() == PlaybackState::parse_or_stopped(s@),
    {
        if text::equal(s, "stopped") {
            MediaStatus::Stopped
        } else if text::equal(s, "paused") {
            MediaStatus::Paused
        } else if text::equal(s, "playing") {
            MediaStatus::Playing
        } else {
            MediaStatus::Stopped
        }
    }

    /// Reads a canonical token from an owned string, as `from_str` does.
    pub fn from_string(s: String) -> (status: MediaStatus)
        ensures
            status.state() == PlaybackState::parse_or_stopped(s@),
    {
        MediaStatus::from_str(s.as_str())
    }

    /// The canonical token.
    pub fn as_str(&self) -> (token: &'static str)
        ensures
            token@ == self.state().token(),
    {
        match self {
            MediaStatus::Stopped => "stopped",
            MediaStatus::Paused => "paused",
            MediaStatus::Playing => "playing",
        }
    }

    /// The canonical token, as an owned string.
    pub fn to_string(&self) -> (token: String)
        ensures
            token@ == self.state().token(),
    {
        self.as_str().to_owned()
    }

    /// The playback state of the same name.
    pub fn to_state(&self) -> (state: PlaybackState)
        ensures
            state == self.state(),
    {
        match self {
            MediaStatus::Stopped => PlaybackState::Stopped,
            MediaStatus::Paused => PlaybackState::Paused,
            MediaStatus::Playing => PlaybackState::Playing,
        }
    }
}

} // verus!
