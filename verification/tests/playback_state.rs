use media_session::media_status::MediaStatus;
use media_session::{Error, PlaybackState};

#[test]
fn tokens_round_trip() {
    for token in ["stopped", "paused", "playing"] {
        assert_eq!(PlaybackState::from(token).to_string(), token);
        assert_eq!(PlaybackState::from(String::from(token)).as_str(), token);
    }
}

#[test]
fn states_round_trip() {
    for state in [PlaybackState::Stopped, PlaybackState::Paused, PlaybackState::Playing] {
        assert_eq!(PlaybackState::from(state.as_str()), state);
        assert!(matches!(PlaybackState::from_str(state.as_str()), Ok(read) if read == state));
    }
}

#[test]
fn from_str_reads_each_token() {
    assert!(matches!(PlaybackState::from_str("stopped"), Ok(PlaybackState::Stopped)));
    assert!(matches!(PlaybackState::from_str("paused"), Ok(PlaybackState::Paused)));
    assert!(matches!(PlaybackState::from_str("playing"), Ok(PlaybackState::Playing)));
}

#[test]
fn from_str_rejects_empty_text() {
    let error: Error = PlaybackState::from_str("").unwrap_err();
    assert_eq!(error.to_string(), "cannot parse playback state from empty string");
    assert_eq!(error.message(), "cannot parse playback state from empty string");
}

#[test]
fn from_str_rejects_unknown_text() {
    for text in ["Playing", "play", "playing ", "stoppe", "stoppedd", "pausedplaying", "é"] {
        let error: Error = PlaybackState::from_str(text).unwrap_err();
        assert_eq!(error.to_string(), "cannot parse playback state");
    }
}

#[test]
fn from_string_is_from_str() {
    assert!(matches!(
        PlaybackState::from_string(String::from("paused")),
        Ok(PlaybackState::Paused)
    ));
    let error: Error = PlaybackState::from_string(String::new()).unwrap_err();
    assert_eq!(error.to_string(), "cannot parse playback state from empty string");
    let error: Error = PlaybackState::from_string(String::from("nope")).unwrap_err();
    assert_eq!(error.to_string(), "cannot parse playback state");
}

#[test]
fn unknown_text_falls_back_to_stopped() {
    for text in ["", "Playing", "PAUSED", "unknown", "playing\n"] {
        assert_eq!(PlaybackState::from(text), PlaybackState::Stopped);
        assert_eq!(PlaybackState::from(String::from(text)), PlaybackState::Stopped);
        assert_eq!(PlaybackState::from_text(text), PlaybackState::Stopped);
    }
}

#[test]
fn default_state_is_stopped() {
    assert_eq!(PlaybackState::default(), PlaybackState::Stopped);
}

#[test]
fn bus_status_is_read_in_any_case() {
    assert_eq!(PlaybackState::from_bus_status("Playing"), PlaybackState::Playing);
    assert_eq!(PlaybackState::from_bus_status("PAUSED"), PlaybackState::Paused);
    assert_eq!(PlaybackState::from_bus_status("Stopped"), PlaybackState::Stopped);
    assert_eq!(PlaybackState::from_bus_status("playing"), PlaybackState::Playing);
    assert_eq!(PlaybackState::from_bus_status("Buffering"), PlaybackState::Stopped);
    assert_eq!(PlaybackState::from_bus_status(""), PlaybackState::Stopped);
}

#[test]
fn session_status_codes() {
    assert_eq!(PlaybackState::from_session_status(4), PlaybackState::Playing);
    assert_eq!(PlaybackState::from_session_status(5), PlaybackState::Paused);
    for code in [0, 1, 2, 3, 6, -1, i32::MAX, i32::MIN] {
        assert_eq!(PlaybackState::from_session_status(code), PlaybackState::Stopped);
    }
}

#[test]
fn media_status_reads_leniently() {
    assert_eq!(MediaStatus::from_str("stopped"), MediaStatus::Stopped);
    assert_eq!(MediaStatus::from_str("paused"), MediaStatus::Paused);
    assert_eq!(MediaStatus::from_str("playing"), MediaStatus::Playing);
    assert_eq!(MediaStatus::from_str(""), MediaStatus::Stopped);
    assert_eq!(MediaStatus::from_str("Playing"), MediaStatus::Stopped);
    assert_eq!(MediaStatus::from_string(String::from("playing")), MediaStatus::Playing);
    assert_eq!(MediaStatus::from_string(String::from("other")), MediaStatus::Stopped);
}

#[test]
fn media_status_writes_tokens() {
    assert_eq!(MediaStatus::Stopped.as_str(), "stopped");
    assert_eq!(MediaStatus::Paused.as_str(), "paused");
    assert_eq!(MediaStatus::Playing.as_str(), "playing");
    assert_eq!(MediaStatus::Playing.to_string(), "playing");
    assert_eq!(MediaStatus::Paused.to_state(), PlaybackState::Paused);
    assert_eq!(MediaStatus::Stopped.to_state(), PlaybackState::Stopped);
    assert_eq!(MediaStatus::Playing.to_state(), PlaybackState::Playing);
}

#[test]
fn error_keeps_its_message() {
    let error = Error::new("No active session");
    assert_eq!(error.message(), "No active session");
    assert_eq!(error.to_string(), "No active session");
    assert_eq!(Error::new("").message(), "");
}

#[test]
fn native_error_without_message_is_unknown() {
    assert_eq!(Error::from_native(None).message(), "Unknown error");
    assert_eq!(Error::from_native(Some("player gone")).message(), "player gone");
    assert_eq!(Error::from_native(Some("")).message(), "");
}

#[test]
fn parse_reads_tokens_strictly() {
    assert!(matches!("playing".parse::<PlaybackState>(), Ok(PlaybackState::Playing)));
    assert!(matches!("paused".parse::<PlaybackState>(), Ok(PlaybackState::Paused)));
    let error: Error = "Paused".parse::<PlaybackState>().unwrap_err();
    assert_eq!(error.message(), "cannot parse playback state");
}
