//! The three playback states and their lowercase tokens.

use crate::error::Error;
use crate::text;
use vstd::prelude::*;
use vstd::std_specs::convert::FromSpecImpl;
use vstd::string::*;

verus! {

/// The lowercase form of a text, as `str::to_lowercase` gives it.
pub uninterp spec fn lowercase(text: Seq<char>) -> Seq<char>;

/// `str::to_lowercase`: the text with each character replaced by its lowercase
/// form under the Unicode rules, which depend on the text alone.
#[verifier::external_body]
fn to_lowercase(text: &str) -> (lower: String)
    ensures
        lower@ == lowercase(text@),
{
    text.to_lowercase()
}

/// The code by which the session manager reports a session that plays.
pub const SESSION_STATUS_PLAYING: i32 = 4;

/// The code by which the session manager reports a session that is paused.
pub const SESSION_STATUS_PAUSED: i32 = 5;

/// What a player is doing.
#[derive(Clone, Copy, Debug, PartialEq, Eq, Structural)]
pub enum PlaybackState {
    Stopped,
    Paused,
    Playing,
}

impl PlaybackState {
    /// The canonical token of a state.
    pub open spec fn token(self) -> Seq<char> {
        match self {
            PlaybackState::Stopped => "stopped"@,
            PlaybackState::Paused => "paused"@,
            PlaybackState::Playing => "playing"@,
        }
    }

    /// The state that a token names, if it names one.
    pub open spec fn parse(text: Seq<char>) -> Option<PlaybackState> {
        if text == "stopped"@ {
            Some(PlaybackState::Stopped)
        } else if text == "paused"@ {
            Some(PlaybackState::Paused)
        } else if text == "playing"@ {
            Some(PlaybackState::Playing)
        } else {
            None
        }
    }

    /// The state that a token names; `Stopped` for any other text.
    pub open spec fn parse_or_stopped(text: Seq<char>) -> PlaybackState {
        match PlaybackState::parse(text) {
            Some(state) => state,
            None => PlaybackState::Stopped,
        }
    }

    /// The state behind a status code of the session manager: playing and
    /// paused have codes of their own, and every other code, those of a
    /// closed, opened or changing session too, stands for stopped.
    pub open spec fn of_session_status(code: i32) -> PlaybackState {
        if code == SESSION_STATUS_PLAYING {
            PlaybackState::Playing
        } else if code == SESSION_STATUS_PAUSED {
            PlaybackState::Paused
        } else {
            PlaybackState::Stopped
        }
    }

    /// The message of the error for an empty text.
    pub open spec fn empty_text_message() -> Seq<char> {
        "cannot parse playback state from empty string"@
    }

    /// The message of the error for a text that is no token.
    pub open spec fn unknown_text_message() -> Seq<char> {
        "cannot parse playback state"@
    }

    /// Reads a canonical token. Any other text is an error, the empty text
    /// with a message of its own.
    pub fn from_str(s: &str) -> (parsed: Result<PlaybackState, Error>)
        ensures
            match parsed {
                Ok(state) => PlaybackState::parse(s@) == Some(state),
                Err(error) => PlaybackState::parse(s@) is None && error@ == if s@.len() == 0 {
                    PlaybackState::empty_text_message()
                } else {
                    PlaybackState::unknown_text_message()
                },
            },
    {
        if text::equal(s, "stopped") {
            Ok(PlaybackState::Stopped)
        } else if text::equal(s, "paused") {
            Ok(PlaybackState::Paused)
        } else if text::equal(s, "playing") {
            Ok(PlaybackState::Playing)
        } else if s.is_empty() {
            Err(Error::new("cannot parse playback state from empty string"))
        } else {
            Err(Error::new("cannot parse playback state"))
        }
    }

    /// Reads a canonical token from an owned string, as `from_str` does.
    pub fn from_string(s: String) -> (parsed: Result<PlaybackState, Error>)
        ensures
            match parsed {
                Ok(state) => PlaybackState::parse(s@) == Some(state),
                Err(error) => PlaybackState::parse(s@) is None && error@ == if s@.len() == 0 {
                    PlaybackState::empty_text_message()
                } else {
                    PlaybackState::unknown_text_message()
                },
            },
    {
        PlaybackState::from_str(s.as_str())
    }

    /// Reads a canonical token; any other text gives `Stopped`.
    pub fn from_text(s: &str) -> (state: PlaybackState)
        ensures
            state == PlaybackState::parse_or_stopped(s@),
    {
        match PlaybackState::from_str(s) {
            Ok(state) => state,
            Err(_) => PlaybackState::Stopped,
        }
    }

    /// Reads the status that a player on the bus reports, in whatever case it
    /// is written: the text is put in lowercase and then read as a token, any
    /// other text giving `Stopped`.
    pub fn from_bus_status(status: &str) -> (state: PlaybackState)
        ensures
            state == PlaybackState::parse_or_stopped(lowercase(status@)),
    {
        let lower: String = to_lowercase(status);
        PlaybackState::from_text(lower.as_str())
    }

    /// The state behind a status code of the session manager.
    pub fn from_session_status(code: i32) -> (state: PlaybackState)
        ensures
            state == PlaybackState::of_session_status(code),
    {
        if code == SESSION_STATUS_PLAYING {
            PlaybackState::Playing
        } else if code == SESSION_STATUS_PAUSED {
            PlaybackState::Paused
        } else {
            PlaybackState::Stopped
        }
    }

    /// The canonical token.
    pub fn as_str(&self) -> (token: &'static str)
        ensures
            token@ == self.token(),
    {
        match self {
            PlaybackState::Stopped => "stopped",
            PlaybackState::Paused => "paused",
            PlaybackState::Playing => "playing",
        }
    }

    /// The canonical token, as an owned string.
    pub fn to_string(&self) -> (token: String)
        ensures
            token@ == self.token(),
    {
        self.as_str().to_owned()
    }
}

impl Default for PlaybackState {
    fn default() -> (state: PlaybackState)
        ensures
            state == PlaybackState::Stopped,
    {
        PlaybackState::Stopped
    }
}

impl std::str::FromStr for PlaybackState {
    type Err = Error;

    /// Reads a canonical token, as the method of the same name does.
    fn from_str(s: &str) -> (parsed: Result<PlaybackState, Error>)
        ensures
            match parsed {
                Ok(state) => PlaybackState::parse(s@) == Some(state),
                Err(error) => PlaybackState::parse(s@) is None && error@ == if s@.len() == 0 {
                    PlaybackState::empty_text_message()
                } else {
                    PlaybackState::unknown_text_message()
                },
            },
    {
        PlaybackState::from_str(s)
    }
}

impl<'a> From<&'a str> for PlaybackState {
    fn from(s: &'a str) -> (state: PlaybackState) {
        PlaybackState::from_text(s)
    }
}

impl<'a> FromSpecImpl<&'a str> for PlaybackState {
    open spec fn obeys_from_spec() -> bool {
        true
    }

    open spec fn from_spec(s: &'a str) -> PlaybackState {
        PlaybackState::parse_or_stopped(s@)
    }
}

impl From<String> for PlaybackState {
    fn from(s: String) -> (state: PlaybackState) {
        PlaybackState::from_text(s.as_str())
    }
}

impl FromSpecImpl<String> for PlaybackState {
    open spec fn obeys_from_spec() -> bool {
        true
    }

    open spec fn from_spec(s: String) -> PlaybackState {
        PlaybackState::parse_or_stopped(s@)
    }
}

/// The three tokens differ from one another.
pub proof fn lemma_tokens_distinct()
    ensures
        "stopped"@ != "paused"@,
        "stopped"@ != "playing"@,
        "paused"@ != "playing"@,
{
    reveal_strlit("stopped");
    reveal_strlit("paused");
    reveal_strlit("playing");
    assert("paused"@.len() == 6);
    assert("playing"@.len() == 7);
    assert("stopped"@[0] == 's');
    assert("playing"@[0] == 'p');
}

/// Reading the token of a state gives that state back.
pub proof fn lemma_parse_token(state: PlaybackState)
    ensures
        PlaybackState::parse(state.token()) == Some(state),
        PlaybackState::parse_or_stopped(state.token()) == state,
{
    lemma_tokens_distinct();
}

/// Reading one of the three tokens and writing the result gives the token
/// back.
pub proof fn lemma_token_round_trip(text: Seq<char>)
    requires
        text == "stopped"@ || text == "paused"@ || text == "playing"@,
    ensures
        PlaybackState::parse_or_stopped(text).token() == text,
{
}

/// A text that is none of the three tokens reads as `Stopped`, whatever it
/// holds.
pub proof fn lemma_unknown_text_is_stopped(text: Seq<char>)
    requires
        text != "stopped"@,
        text != "paused"@,
        text != "playing"@,
    ensures
        PlaybackState::parse(text) is None,
        PlaybackState::parse_or_stopped(text) == PlaybackState::Stopped,
{
}

} // verus!
