use media_session::bus::{
    in_player_namespace, select_player, BusSession, MetadataField, PropertyValue, TrackReport,
};
use media_session::controls::TransportCommand;
use media_session::{MediaInfo, PlaybackState};

fn names(list: &[&str]) -> Vec<String> {
    list.iter().map(|name| String::from(*name)).collect()
}

fn text(value: &str) -> PropertyValue {
    PropertyValue::Text(String::from(value))
}

fn track(art_url: &str) -> TrackReport {
    let mut report = TrackReport::new();
    report.set(MetadataField::Title, text("Song"));
    report.set(
        MetadataField::Artist,
        PropertyValue::TextList(names(&["First Artist", "Second Artist"])),
    );
    report.set(MetadataField::Album, text("Album"));
    report.set(MetadataField::AlbumArtist, text("Band"));
    report.set(MetadataField::Length, PropertyValue::Integer(300_000_000));
    report.set(MetadataField::ArtUrl, text(art_url));
    report.position = Some(60_000_000);
    report.status = Some(String::from("Playing"));
    report
}

fn nothing_playing(info: &MediaInfo) -> bool {
    *info == MediaInfo::new()
}

#[test]
fn player_namespace_is_a_prefix() {
    assert!(in_player_namespace("org.mpris.MediaPlayer2.vlc"));
    assert!(in_player_namespace("org.mpris.MediaPlayer2"));
    assert!(!in_player_namespace("org.mpris.MediaPlayer"));
    assert!(!in_player_namespace("org.freedesktop.DBus"));
    assert!(!in_player_namespace(":1.42"));
    assert!(!in_player_namespace(""));
    assert!(!in_player_namespace("x.org.mpris.MediaPlayer2"));
}

#[test]
fn first_player_in_listing_order_is_selected() {
    let listed = names(&[
        "org.freedesktop.DBus",
        ":1.7",
        "org.mpris.MediaPlayer2.vlc",
        "org.mpris.MediaPlayer2.spotify",
    ]);
    assert_eq!(select_player(&listed), Some(String::from("org.mpris.MediaPlayer2.vlc")));
    let listed = names(&["org.mpris.MediaPlayer2.spotify", "org.mpris.MediaPlayer2.vlc"]);
    assert_eq!(select_player(&listed), Some(String::from("org.mpris.MediaPlayer2.spotify")));
}

#[test]
fn no_player_is_selected_where_none_is_listed() {
    assert_eq!(select_player(&Vec::new()), None);
    assert_eq!(select_player(&names(&["org.freedesktop.DBus", ":1.7"])), None);
}

#[test]
fn new_session_holds_the_listed_player() {
    let session = BusSession::new(&names(&["a", "org.mpris.MediaPlayer2.vlc"]));
    assert_eq!(session.player(), Some(String::from("org.mpris.MediaPlayer2.vlc")));
    assert!(nothing_playing(&session.get_info()));
    let session = BusSession::new(&names(&["a"]));
    assert_eq!(session.player(), None);
    assert!(nothing_playing(&session.get_info()));
}

#[test]
fn discovery_replaces_a_player_that_differs() {
    let mut session = BusSession::new(&names(&["org.mpris.MediaPlayer2.vlc"]));
    assert!(!session.update_player(&names(&["org.mpris.MediaPlayer2.vlc"])));
    assert_eq!(session.player(), Some(String::from("org.mpris.MediaPlayer2.vlc")));
    assert!(session.update_player(&names(&["org.mpris.MediaPlayer2.mpv"])));
    assert_eq!(session.player(), Some(String::from("org.mpris.MediaPlayer2.mpv")));
}

#[test]
fn empty_discovery_keeps_the_held_player() {
    let mut session = BusSession::new(&names(&["org.mpris.MediaPlayer2.vlc"]));
    assert!(!session.update_player(&Vec::new()));
    assert!(!session.update_player(&names(&["org.freedesktop.DBus"])));
    assert_eq!(session.player(), Some(String::from("org.mpris.MediaPlayer2.vlc")));
}

#[test]
fn discovery_finds_a_player_that_came_late() {
    let mut session = BusSession::new(&Vec::new());
    assert_eq!(session.player(), None);
    assert!(session.update_player(&names(&["org.mpris.MediaPlayer2.vlc"])));
    assert_eq!(session.player(), Some(String::from("org.mpris.MediaPlayer2.vlc")));
}

#[test]
fn report_fills_the_snapshot() {
    let mut session = BusSession::new(&names(&["org.mpris.MediaPlayer2.vlc"]));
    let report = Some(track("file:///tmp/cover.png"));
    assert_eq!(session.cover_to_read(&report), Some(String::from("/tmp/cover.png")));
    session.update_info(report, Some(b"hello".to_vec()));
    let info = session.get_info();
    assert_eq!(info.title, "Song");
    assert_eq!(info.artist, "First Artist");
    assert_eq!(info.album_title, "Album");
    assert_eq!(info.album_artist, "Band");
    assert_eq!(info.duration, 300_000_000);
    assert_eq!(info.position, 60_000_000);
    assert_eq!(info.cover_b64, "aGVsbG8=");
    assert_eq!(info.cover_raw, b"hello".to_vec());
    assert_eq!(info.state, PlaybackState::Playing);
}

#[test]
fn missing_entries_leave_defaults() {
    let mut session = BusSession::new(&names(&["org.mpris.MediaPlayer2.vlc"]));
    let report = Some(TrackReport::new());
    assert_eq!(session.cover_to_read(&report), None);
    session.update_info(report, None);
    let info = session.get_info();
    assert_eq!(info.title, "");
    assert_eq!(info.artist, "");
    assert_eq!(info.album_title, "");
    assert_eq!(info.album_artist, "");
    assert_eq!(info.duration, 0);
    assert_eq!(info.position, 0);
    assert_eq!(info.cover_b64, "Missing");
    assert!(info.cover_raw.is_empty());
    assert_eq!(info.state, PlaybackState::Stopped);
}

#[test]
fn entries_of_another_kind_leave_defaults() {
    let mut session = BusSession::new(&names(&["org.mpris.MediaPlayer2.vlc"]));
    let mut report = TrackReport::new();
    report.set(MetadataField::Title, PropertyValue::Integer(3));
    report.set(MetadataField::Artist, PropertyValue::TextList(Vec::new()));
    report.set(MetadataField::Album, PropertyValue::TextList(names(&["x"])));
    report.set(MetadataField::AlbumArtist, PropertyValue::Other);
    report.set(MetadataField::Length, text("long"));
    report.set(MetadataField::ArtUrl, PropertyValue::Integer(1));
    report.status = Some(String::from("Rewinding"));
    session.update_info(Some(report), Some(vec![1, 2, 3]));
    let info = session.get_info();
    assert_eq!(info.title, "");
    assert_eq!(info.artist, "");
    assert_eq!(info.album_title, "");
    assert_eq!(info.album_artist, "");
    assert_eq!(info.duration, 0);
    assert_eq!(info.cover_b64, "Missing");
    assert!(info.cover_raw.is_empty());
    assert_eq!(info.state, PlaybackState::Stopped);
}

#[test]
fn single_artist_is_taken_as_it_is() {
    let mut session = BusSession::new(&names(&["org.mpris.MediaPlayer2.vlc"]));
    let mut report = TrackReport::new();
    report.set(MetadataField::Artist, text("Solo"));
    session.update_info(Some(report), None);
    assert_eq!(session.get_info().artist, "Solo");
}

#[test]
fn paused_status_is_read() {
    let mut session = BusSession::new(&names(&["org.mpris.MediaPlayer2.vlc"]));
    let mut report = TrackReport::new();
    report.status = Some(String::from("Paused"));
    session.update_info(Some(report), None);
    assert_eq!(session.get_info().state, PlaybackState::Paused);
}

#[test]
fn empty_or_foreign_art_url_is_no_cover() {
    for url in ["", "https://example.org/cover.png", "/tmp/cover.png"] {
        let mut session = BusSession::new(&names(&["org.mpris.MediaPlayer2.vlc"]));
        let report = Some(track(url));
        assert_eq!(session.cover_to_read(&report), None);
        session.update_info(report, Some(b"hello".to_vec()));
        let info = session.get_info();
        assert_eq!(info.cover_b64, "Missing");
        assert!(info.cover_raw.is_empty());
        assert_eq!(info.title, "Song");
    }
}

#[test]
fn unreadable_cover_does_not_fail_the_poll() {
    let mut session = BusSession::new(&names(&["org.mpris.MediaPlayer2.vlc"]));
    session.update_info(Some(track("file:///tmp/gone.png")), None);
    let info = session.get_info();
    assert_eq!(info.title, "Song");
    assert_eq!(info.cover_b64, "Missing");
    assert!(info.cover_raw.is_empty());
    // the failure is remembered too: the file is not read again
    assert_eq!(session.cover_to_read(&Some(track("file:///tmp/gone.png"))), None);
}

#[test]
fn same_art_is_read_once() {
    let mut session = BusSession::new(&names(&["org.mpris.MediaPlayer2.vlc"]));
    let mut reads = 0;
    for _ in 0..5 {
        let report = Some(track("file:///tmp/cover.png"));
        let file = match session.cover_to_read(&report) {
            Some(path) => {
                assert_eq!(path, "/tmp/cover.png");
                reads += 1;
                Some(b"hello".to_vec())
            }
            None => None,
        };
        session.update_info(report, file);
        let info = session.get_info();
        assert_eq!(info.cover_b64, "aGVsbG8=");
        assert_eq!(info.cover_raw, b"hello".to_vec());
    }
    assert_eq!(reads, 1);
}

#[test]
fn needless_reading_is_not_taken() {
    let mut session = BusSession::new(&names(&["org.mpris.MediaPlayer2.vlc"]));
    session.update_info(Some(track("file:///tmp/cover.png")), Some(b"hello".to_vec()));
    session.update_info(Some(track("file:///tmp/cover.png")), Some(b"other".to_vec()));
    assert_eq!(session.get_info().cover_b64, "aGVsbG8=");
}

#[test]
fn new_art_is_read_again() {
    let mut session = BusSession::new(&names(&["org.mpris.MediaPlayer2.vlc"]));
    session.update_info(Some(track("file:///tmp/a.png")), Some(b"hello".to_vec()));
    let report = Some(track("file:///tmp/b.png"));
    assert_eq!(session.cover_to_read(&report), Some(String::from("/tmp/b.png")));
    session.update_info(report, Some(vec![0]));
    assert_eq!(session.get_info().cover_b64, "AA==");
    let report = Some(track("file:///tmp/a.png"));
    assert_eq!(session.cover_to_read(&report), Some(String::from("/tmp/a.png")));
}

#[test]
fn failed_fetch_resets_the_snapshot() {
    let mut session = BusSession::new(&names(&["org.mpris.MediaPlayer2.vlc"]));
    session.update_info(Some(track("")), None);
    assert_eq!(session.get_info().title, "Song");
    assert_eq!(session.cover_to_read(&None), None);
    session.update_info(None, None);
    assert!(nothing_playing(&session.get_info()));
    assert_eq!(session.player(), Some(String::from("org.mpris.MediaPlayer2.vlc")));
}

#[test]
fn session_without_player_takes_no_report() {
    let mut session = BusSession::new(&Vec::new());
    let report = Some(track("file:///tmp/cover.png"));
    assert_eq!(session.cover_to_read(&report), None);
    session.update_info(report, Some(b"hello".to_vec()));
    assert!(nothing_playing(&session.get_info()));
    assert_eq!(session.player(), None);
}

#[test]
fn command_goes_to_the_held_player() {
    let session = BusSession::new(&names(&["org.mpris.MediaPlayer2.vlc"]));
    let call = session.command_call(TransportCommand::TogglePause).unwrap();
    assert_eq!(call.destination, "org.mpris.MediaPlayer2.vlc");
    assert_eq!(call.method, "PlayPause");
    let call = session.command_call(TransportCommand::Next).unwrap();
    assert_eq!(call.method, "Next");
}

#[test]
fn command_without_player_is_not_issued() {
    let session = BusSession::new(&names(&["org.freedesktop.DBus"]));
    for command in [
        TransportCommand::Play,
        TransportCommand::Pause,
        TransportCommand::TogglePause,
        TransportCommand::Stop,
        TransportCommand::Next,
        TransportCommand::Previous,
    ] {
        assert!(session.command_call(command).is_none());
    }
}

#[test]
fn metadata_keys() {
    assert_eq!(MetadataField::Title.key(), "xesam:title");
    assert_eq!(MetadataField::Artist.key(), "xesam:artist");
    assert_eq!(MetadataField::Album.key(), "xesam:album");
    assert_eq!(MetadataField::AlbumArtist.key(), "xesam:albumArtist");
    assert_eq!(MetadataField::Length.key(), "mpris:length");
    assert_eq!(MetadataField::ArtUrl.key(), "mpris:artUrl");
}

#[test]
fn property_values_are_read_by_kind() {
    assert_eq!(text("a").text(), Some(String::from("a")));
    assert_eq!(text("a").integer(), None);
    assert_eq!(text("a").first_text(), Some(String::from("a")));
    assert_eq!(PropertyValue::Integer(-4).integer(), Some(-4));
    assert_eq!(PropertyValue::Integer(-4).text(), None);
    assert_eq!(PropertyValue::Integer(-4).first_text(), None);
    assert_eq!(PropertyValue::TextList(names(&["x", "y"])).first_text(), Some(String::from("x")));
    assert_eq!(PropertyValue::TextList(names(&["x", "y"])).text(), None);
    assert_eq!(PropertyValue::TextList(Vec::new()).first_text(), None);
    assert_eq!(PropertyValue::Other.text(), None);
    assert_eq!(PropertyValue::Other.integer(), None);
    assert_eq!(PropertyValue::Other.first_text(), None);
}
