//! Following a media player on the desktop bus: which player is held, what it
//! last reported, and which cover file is to be read.
//!
//! The session decides; its caller talks to the bus and to the file system
//! and reports what it found.

use crate::controls::TransportCommand;
use crate::cover::{bytes_view, cover_path, cover_path_spec, text_view, CoverCache, CoverCacheView};
use crate::media_info::{MediaInfo, MediaInfoView};
use crate::playback_state::{lowercase, PlaybackState};
use crate::text;
use vstd::prelude::*;
use vstd::string::*;

verus! {

/// The prefix of the bus names that media players own.
pub open spec fn player_namespace() -> Seq<char> {
    "org.mpris.MediaPlayer2"@
}

/// The cover text of a track that has no cover.
pub open spec fn missing_cover() -> Seq<char> {
    "Missing"@
}

/// Whether a bus name belongs to a media player.
pub open spec fn is_player(name: Seq<char>) -> bool {
    player_namespace().is_prefix_of(name)
}

/// The player among the names on the bus: the first, in listing order, whose
/// name is in the players' namespace.
pub open spec fn select_player_spec(names: Seq<String>) -> Option<Seq<char>>
    decreases names.len(),
{
    if names.len() == 0 {
        None
    } else if is_player(names[0]@) {
        Some(names[0]@)
    } else {
        select_player_spec(names.drop_first())
    }
}

/// The player to hold after a discovery: the discovered one, and the one held
/// before where the discovery found none.
pub open spec fn resolve_player(
    held: Option<Seq<char>>,
    discovered: Option<Seq<char>>,
) -> Option<Seq<char>> {
    match discovered {
        Some(found) => Some(found),
        None => held,
    }
}

/// Whether a bus name belongs to a media player.
pub fn in_player_namespace(name: &str) -> (found: bool)
    ensures
        found == is_player(name@),
{
    text::starts_with(name, "org.mpris.MediaPlayer2")
}

/// The player among the names on the bus.
pub fn select_player(names: &Vec<String>) -> (selected: Option<String>)
    ensures
        text_view(selected) == select_player_spec(names@),
{
    let mut i: usize = 0;
    assert(names@.skip(0) =~= names@);
    while i < names.len()
        invariant
            i <= names.len(),
            select_player_spec(names@) == select_player_spec(names@.skip(i as int)),
        decreases names.len() - i,
    {
        let name: &String = &names[i];
        proof {
            assert(names@.skip(i as int)[0] == names@[i as int]);
            assert(names@.skip(i as int).drop_first() =~= names@.skip(i + 1));
        }
        if in_player_namespace(name.as_str()) {
            return Some(name.clone());
        }
        i = i + 1;
    }
    None
}

/// A value of a player's property, as far as a snapshot reads it.
pub enum PropertyValue {
    Text(String),
    Integer(i64),
    TextList(Vec<String>),
    /// No value, or one of another kind.
    Other,
}

impl PropertyValue {
    /// The text, where the value is one.
    pub open spec fn text_spec(self) -> Option<Seq<char>> {
        match self {
            PropertyValue::Text(text) => Some(text@),
            _ => None,
        }
    }

    /// The integer, where the value is one.
    pub open spec fn integer_spec(self) -> Option<i64> {
        match self {
            PropertyValue::Integer(number) => Some(number),
            _ => None,
        }
    }

    /// The first text of a list, or the text where the value is a single one.
    pub open spec fn first_text_spec(self) -> Option<Seq<char>> {
        match self {
            PropertyValue::TextList(texts) => if texts@.len() > 0 {
                Some(texts@[0]@)
            } else {
                None
            },
            PropertyValue::Text(text) => Some(text@),
            _ => None,
        }
    }

    /// The text, where the value is one.
    pub fn text(&self) -> (found: Option<String>)
        ensures
            text_view(found) == self.text_spec(),
    {
        match self {
            PropertyValue::Text(text) => Some(text.clone()),
            _ => None,
        }
    }

    /// The integer, where the value is one.
    pub fn integer(&self) -> (found: Option<i64>)
        ensures
            found == self.integer_spec(),
    {
        match self {
            PropertyValue::Integer(number) => Some(*number),
            _ => None,
        }
    }

    /// The first text of a list, or the text where the value is a single one.
    pub fn first_text(&self) -> (found: Option<String>)
        ensures
            text_view(found) == self.first_text_spec(),
    {
        match self {
            PropertyValue::TextList(texts) => {
                if texts.len() > 0 {
                    Some(texts[0].clone())
                } else {
                    None
                }
            },
            PropertyValue::Text(text) => Some(text.clone()),
            _ => None,
        }
    }
}

/// The entries of a player's metadata that a snapshot reads.
#[derive(Clone, Copy, Debug, PartialEq, Eq, Structural)]
pub enum MetadataField {
    Title,
    Artist,
    Album,
    AlbumArtist,
    Length,
    ArtUrl,
}

impl MetadataField {
    /// The key under which the metadata holds the entry.
    pub open spec fn key_spec(self) -> Seq<char> {
        match self {
            MetadataField::Title => "xesam:title"@,
            MetadataField::Artist => "xesam:artist"@,
            MetadataField::Album => "xesam:album"@,
            MetadataField::AlbumArtist => "xesam:albumArtist"@,
            MetadataField::Length => "mpris:length"@,
            MetadataField::ArtUrl => "mpris:artUrl"@,
        }
    }

    /// The key under which the metadata holds the entry.
    pub fn key(&self) -> (key: &'static str)
        ensures
            key@ == self.key_spec(),
    {
        match self {
            MetadataField::Title => "xesam:title",
            MetadataField::Artist => "xesam:artist",
            MetadataField::Album => "xesam:album",
            MetadataField::AlbumArtist => "xesam:albumArtist",
            MetadataField::Length => "mpris:length",
            MetadataField::ArtUrl => "mpris:artUrl",
        }
    }
}

/// What a player reported in one poll: the entries of its metadata, its
/// position and its status. An entry that the player does not have is `Other`;
/// a property that could not be fetched is `None`.
pub struct TrackReport {
    pub title: PropertyValue,
    pub artist: PropertyValue,
    pub album: PropertyValue,
    pub album_artist: PropertyValue,
    pub length: PropertyValue,
    pub art_url: PropertyValue,
    pub position: Option<i64>,
    pub status: Option<String>,
}

/// A text that may be absent, the absent one read as empty.
pub open spec fn text_or_empty(text: Option<Seq<char>>) -> Seq<char> {
    match text {
        Some(held) => held,
        None => Seq::empty(),
    }
}

impl TrackReport {
    /// A report in which the player has no entry and no property was fetched.
    pub fn new() -> (report: TrackReport)
        ensures
            report.title is Other,
            report.artist is Other,
            report.album is Other,
            report.album_artist is Other,
            report.length is Other,
            report.art_url is Other,
            report.position is None,
            report.status is None,
    {
        TrackReport {
            title: PropertyValue::Other,
            artist: PropertyValue::Other,
            album: PropertyValue::Other,
            album_artist: PropertyValue::Other,
            length: PropertyValue::Other,
            art_url: PropertyValue::Other,
            position: None,
            status: None,
        }
    }

    /// The report with one entry of the metadata replaced.
    pub open spec fn with_entry(self, field: MetadataField, value: PropertyValue) -> TrackReport {
        match field {
            MetadataField::Title => TrackReport { title: value, ..self },
            MetadataField::Artist => TrackReport { artist: value, ..self },
            MetadataField::Album => TrackReport { album: value, ..self },
            MetadataField::AlbumArtist => TrackReport { album_artist: value, ..self },
            MetadataField::Length => TrackReport { length: value, ..self },
            MetadataField::ArtUrl => TrackReport { art_url: value, ..self },
        }
    }

    /// Puts in the value that the metadata holds for `field`.
    pub fn set(&mut self, field: MetadataField, value: PropertyValue)
        ensures
            *final(self) == old(self).with_entry(field, value),
    {
        match field {
            MetadataField::Title => {
                self.title = value;
            },
            MetadataField::Artist => {
                self.artist = value;
            },
            MetadataField::Album => {
                self.album = value;
            },
            MetadataField::AlbumArtist => {
                self.album_artist = value;
            },
            MetadataField::Length => {
                self.length = value;
            },
            MetadataField::ArtUrl => {
                self.art_url = value;
            },
        }
    }

    /// The file that holds the cover of the reported track, if its art URL
    /// names one.
    pub open spec fn cover_file(self) -> Option<Seq<char>> {
        match self.art_url.text_spec() {
            Some(url) => cover_path_spec(url),
            None => None,
        }
    }

    /// The state that the reported status stands for: stopped where none was
    /// fetched.
    pub open spec fn state(self) -> PlaybackState {
        match self.status {
            Some(status) => PlaybackState::parse_or_stopped(lowercase(status@)),
            None => PlaybackState::Stopped,
        }
    }

    /// The snapshot of the reported track, with the cover that `covers`
    /// remembers. An entry that is absent, or of another kind than the field
    /// takes, leaves the field at its default; of several artists the first
    /// is taken.
    pub open spec fn info(self, covers: CoverCacheView) -> MediaInfoView {
        let cover = self.cover_file() is Some;
        MediaInfoView {
            title: text_or_empty(self.title.text_spec()),
            artist: text_or_empty(self.artist.first_text_spec()),
            album_title: text_or_empty(self.album.text_spec()),
            album_artist: text_or_empty(self.album_artist.text_spec()),
            duration: match self.length.integer_spec() {
                Some(length) => length as int,
                None => 0,
            },
            position: match self.position {
                Some(position) => position as int,
                None => 0,
            },
            cover_b64: match covers.b64 {
                Some(text) if cover => text,
                _ => missing_cover(),
            },
            cover_raw: match covers.raw {
                Some(bytes) if cover => bytes,
                _ => Seq::empty(),
            },
            state: self.state(),
        }
    }

    /// The file that holds the cover of the reported track.
    pub fn cover_file_path(&self) -> (path: Option<String>)
        ensures
            text_view(path) == self.cover_file(),
    {
        match &self.art_url {
            PropertyValue::Text(url) => cover_path(url.as_str()),
            _ => None,
        }
    }
}

/// A method call on the bus.
pub struct BusCall {
    /// The bus name of the player.
    pub destination: String,
    /// The method of the player interface.
    pub method: &'static str,
}

/// What a `BusSession` holds, as mathematical values.
pub struct BusView {
    /// The bus name of the held player.
    pub player: Option<Seq<char>>,
    /// The snapshot of the last poll, unless nothing was fetched.
    pub info: Option<MediaInfoView>,
    pub covers: CoverCacheView,
}

impl BusView {
    /// Whether a session without a player has no snapshot: there is nothing
    /// to poll.
    pub open spec fn consistent(self) -> bool {
        self.player is None ==> self.info is None
    }

    /// The session after the names on the bus were listed.
    pub open spec fn with_names(self, names: Seq<String>) -> BusView {
        BusView { player: resolve_player(self.player, select_player_spec(names)), ..self }
    }

    /// Whether listing the names put another player in place of the held one.
    pub open spec fn replaces_player(self, names: Seq<String>) -> bool {
        select_player_spec(names) is Some && select_player_spec(names) != self.player
    }

    /// The cover file that is to be read before `report` is taken in: the one
    /// of the reported track, unless it is the remembered one or no player is
    /// held.
    pub open spec fn cover_to_read(self, report: Option<TrackReport>) -> Option<Seq<char>> {
        match report {
            Some(track) if self.player is Some => match track.cover_file() {
                Some(path) if !self.covers.holds(path) => Some(path),
                _ => None,
            },
            _ => None,
        }
    }

    /// The remembered cover after `report` was taken in with what reading the
    /// cover file gave.
    pub open spec fn covers_after(self, track: TrackReport, file: Option<Seq<u8>>) -> CoverCacheView {
        match track.cover_file() {
            Some(path) if !self.covers.holds(path) => self.covers.remember(path, file),
            _ => self.covers,
        }
    }

    /// The session after a poll: `report` is what the player said, `None`
    /// where its properties could not be fetched, and `file` what reading the
    /// cover file gave. Without a player nothing changes; a failed fetch
    /// leaves no snapshot.
    pub open spec fn with_report(self, report: Option<TrackReport>, file: Option<Seq<u8>>) -> BusView {
        if self.player is None {
            self
        } else {
            match report {
                Some(track) => BusView {
                    info: Some(track.info(self.covers_after(track, file))),
                    covers: self.covers_after(track, file),
                    ..self
                },
                None => BusView { info: None, ..self },
            }
        }
    }

    /// The snapshot to show: that of the last poll, or of nothing playing.
    pub open spec fn snapshot(self) -> MediaInfoView {
        match self.info {
            Some(info) => info,
            None => MediaInfoView::empty(),
        }
    }
}

/// The view of a snapshot that may be absent.
pub open spec fn info_view(info: Option<MediaInfo>) -> Option<MediaInfoView> {
    match info {
        Some(held) => Some(held@),
        None => None,
    }
}

/// A player that is held, by its bus name, and the snapshot of its last poll.
struct HeldPlayer {
    name: String,
    info: Option<MediaInfo>,
}

/// The state of a backend that polls a media player on the bus.
pub struct BusSession {
    held: Option<HeldPlayer>,
    covers: CoverCache,
}

impl View for BusSession {
    type V = BusView;

    closed spec fn view(&self) -> BusView {
        BusView {
            player: match self.held {
                Some(player) => Some(player.name@),
                None => None,
            },
            info: match self.held {
                Some(player) => info_view(player.info),
                None => None,
            },
            covers: self.covers@,
        }
    }
}

impl BusSession {
    /// A session that holds the player among `names`, if there is one, and
    /// has not polled it yet.
    pub fn new(names: &Vec<String>) -> (session: BusSession)
        ensures
            session@ == (BusView {
                player: select_player_spec(names@),
                info: None,
                covers: CoverCacheView::empty(),
            }),
            session@.consistent(),
    {
        let held: Option<HeldPlayer> = match select_player(names) {
            Some(name) => Some(HeldPlayer { name, info: None }),
            None => None,
        };
        BusSession { held, covers: CoverCache::new() }
    }

    /// The bus name of the held player.
    pub fn player(&self) -> (name: Option<String>)
        ensures
            text_view(name) == self@.player,
    {
        match &self.held {
            Some(player) => Some(player.name.clone()),
            None => None,
        }
    }

    /// Takes in the names on the bus. The player among them is held from now
    /// on; where there is none, the one held before stays. Says whether the
    /// held player is another one than before.
    pub fn update_player(&mut self, names: &Vec<String>) -> (replaced: bool)
        ensures
            final(self)@ == old(self)@.with_names(names@),
            replaced == old(self)@.replaces_player(names@),
            final(self)@.consistent(),
    {
        let discovered: Option<String> = select_player(names);
        match discovered {
            Some(found) => {
                match self.held.take() {
                    Some(player) => {
                        let same: bool = text::equal(player.name.as_str(), found.as_str());
                        self.held = Some(HeldPlayer { name: found, info: player.info });
                        !same
                    },
                    None => {
                        self.held = Some(HeldPlayer { name: found, info: None });
                        true
                    },
                }
            },
            None => false,
        }
    }

    /// The cover file that the caller is to read before it hands in `report`.
    pub fn cover_to_read(&self, report: &Option<TrackReport>) -> (path: Option<String>)
        ensures
            text_view(path) == self@.cover_to_read(*report),
    {
        if self.held.is_none() {
            return None;
        }
        match report {
            Some(track) => {
                match track.cover_file_path() {
                    Some(path) => {
                        if self.covers.holds(path.as_str()) {
                            None
                        } else {
                            Some(path)
                        }
                    },
                    None => None,
                }
            },
            None => None,
        }
    }

    /// Takes in what a poll gave: the player's report, `None` where its
    /// properties could not be fetched, and the bytes of the cover file,
    /// `None` where it was not read or could not be.
    pub fn update_info(&mut self, report: Option<TrackReport>, file: Option<Vec<u8>>)
        ensures
            final(self)@ == old(self)@.with_report(report, bytes_view(file)),
            final(self)@.consistent(),
    {
        let player: HeldPlayer = match self.held.take() {
            Some(player) => player,
            None => {
                return ;
            },
        };
        let info: Option<MediaInfo> = match report {
            Some(track) => Some(self.snapshot_of(track, file)),
            None => None,
        };
        self.held = Some(HeldPlayer { name: player.name, info });
    }

    /// The snapshot of a reported track. Its cover is the remembered one
    /// where the track's cover file is the remembered source, and else what
    /// reading the file gave, which is remembered from then on.
    fn snapshot_of(&mut self, track: TrackReport, file: Option<Vec<u8>>) -> (info: MediaInfo)
        ensures
            final(self).covers@ == old(self)@.covers_after(track, bytes_view(file)),
            final(self).held == old(self).held,
            info@ == track.info(final(self).covers@),
    {
        let mut cover_b64: Option<String> = None;
        let mut cover_raw: Option<Vec<u8>> = None;
        match track.cover_file_path() {
            Some(source) => {
                if !self.covers.holds(source.as_str()) {
                    self.covers.remember(source.as_str(), file);
                }
                cover_b64 = self.covers.b64();
                cover_raw = self.covers.raw();
            },
            None => {},
        }
        let state: PlaybackState = match &track.status {
            Some(status) => PlaybackState::from_bus_status(status.as_str()),
            None => PlaybackState::Stopped,
        };
        MediaInfo {
            title: unwrap_text(track.title.text()),
            artist: unwrap_text(track.artist.first_text()),
            album_title: unwrap_text(track.album.text()),
            album_artist: unwrap_text(track.album_artist.text()),
            duration: match track.length.integer() {
                Some(length) => length,
                None => 0,
            },
            position: match track.position {
                Some(position) => position,
                None => 0,
            },
            cover_b64: match cover_b64 {
                Some(text) => text,
                None => "Missing".to_owned(),
            },
            cover_raw: match cover_raw {
                Some(bytes) => bytes,
                None => Vec::new(),
            },
            state,
        }
    }

    /// The snapshot of the last poll, or of nothing playing where there is
    /// none.
    pub fn get_info(&self) -> (info: MediaInfo)
        ensures
            info@ == self@.snapshot(),
            self@.player is None ==> info@ == MediaInfoView::empty(),
    {
        match &self.held {
            Some(player) => match &player.info {
                Some(info) => info.clone(),
                None => MediaInfo::new(),
            },
            None => MediaInfo::new(),
        }
    }

    /// The call that carries out `command`, if a player is held. With no
    /// player the command is not to be issued at all.
    pub fn command_call(&self, command: TransportCommand) -> (call: Option<BusCall>)
        ensures
            match call {
                Some(planned) => self@.player == Some(planned.destination@) && planned.method@
                    == command.bus_method_spec(),
                None => self@.player is None,
            },
    {
        match &self.held {
            Some(player) => Some(
                BusCall { destination: player.name.clone(), method: command.bus_method() },
            ),
            None => None,
        }
    }
}

/// Two polls in a row that report the same art read the cover file once: after
/// the first, nothing is to be read for the second, and the second leaves the
/// remembered cover and the snapshot as the first made them, whatever a
/// needless reading would have given.
pub proof fn lemma_same_art_is_read_once(
    session: BusView,
    track: TrackReport,
    file: Option<Seq<u8>>,
    again: Option<Seq<u8>>,
)
    requires
        session.player is Some,
    ensures
        session.with_report(Some(track), file).cover_to_read(Some(track)) is None,
        session.with_report(Some(track), file).with_report(Some(track), again)
            == session.with_report(Some(track), file),
{
}

/// A poll that reports art from another file than the remembered one has that
/// file read.
pub proof fn lemma_new_art_is_read(session: BusView, track: TrackReport, path: Seq<char>)
    requires
        session.player is Some,
        track.cover_file() == Some(path),
        !session.covers.holds(path),
    ensures
        session.cover_to_read(Some(track)) == Some(path),
{
}

/// A discovery that finds no player leaves the held one in place.
pub proof fn lemma_empty_discovery_keeps_player(session: BusView, names: Seq<String>)
    requires
        select_player_spec(names) is None,
    ensures
        session.with_names(names) == session,
        !session.replaces_player(names),
{
}

/// A discovery that finds a player holds it from then on.
pub proof fn lemma_discovery_holds_first_player(session: BusView, names: Seq<String>)
    requires
        select_player_spec(names) is Some,
    ensures
        session.with_names(names).player == select_player_spec(names),
{
}

/// The selected player is the first name in the players' namespace: a name in
/// the namespace is selected exactly if none before it is in the namespace.
pub proof fn lemma_select_player_is_first(names: Seq<String>, i: int)
    requires
        0 <= i < names.len(),
        is_player(names[i]@),
        forall|j: int| 0 <= j < i ==> !is_player(#[trigger] names[j]@),
    ensures
        select_player_spec(names) == Some(names[i]@),
    decreases i,
{
    if i > 0 {
        assert(!is_player(names[0]@));
        let rest = names.drop_first();
        assert(rest[i - 1] == names[i]);
        assert forall|j: int| 0 <= j < i - 1 implies !is_player(#[trigger] rest[j]@) by {
            assert(rest[j] == names[j + 1]);
        }
        lemma_select_player_is_first(rest, i - 1);
    }
}

/// No player is selected exactly where no name is in the players' namespace.
pub proof fn lemma_select_player_none(names: Seq<String>)
    ensures
        select_player_spec(names) is None <==> forall|j: int|
            0 <= j < names.len() ==> !is_player(#[trigger] names[j]@),
    decreases names.len(),
{
    if names.len() > 0 {
        let rest = names.drop_first();
        lemma_select_player_none(rest);
        if !is_player(names[0]@) {
            if select_player_spec(rest) is None {
                assert forall|j: int| 0 <= j < names.len() implies !is_player(
                    #[trigger] names[j]@,
                ) by {
                    if j > 0 {
                        assert(rest[j - 1] == names[j]);
                    }
                }
            } else {
                let j = choose|j: int| 0 <= j < rest.len() && is_player(#[trigger] rest[j]@);
                assert(rest[j] == names[j + 1]);
            }
        }
    }
}

/// A poll whose fetch failed leaves no snapshot: the session shows nothing
/// playing.
pub proof fn lemma_failed_fetch_shows_nothing(session: BusView, file: Option<Seq<u8>>)
    requires
        session.consistent(),
    ensures
        session.with_report(None, file).snapshot() == MediaInfoView::empty(),
        session.with_report(None, file).covers == session.covers,
{
}

/// Without a player the session shows nothing playing and takes in no report.
pub proof fn lemma_session_without_player_is_inert(
    session: BusView,
    report: Option<TrackReport>,
    file: Option<Seq<u8>>,
)
    requires
        session.consistent(),
        session.player is None,
    ensures
        session.snapshot() == MediaInfoView::empty(),
        session.with_report(report, file) == session,
        session.cover_to_read(report) is None,
{
}

/// The text, or the empty one where there is none.
fn unwrap_text(text: Option<String>) -> (held: String)
    ensures
        held@ == text_or_empty(text_view(text)),
{
    match text {
        Some(found) => found,
        None => String::new(),
    }
}

} // verus!
