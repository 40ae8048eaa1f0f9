//! The snapshot of what is playing.

use crate::playback_state::PlaybackState;
use crate::position::PositionInfo;
use vstd::prelude::*;
use vstd::string::*;

verus! {

/// What a `MediaInfo` holds, as mathematical values.
pub struct MediaInfoView {
    pub title: Seq<char>,
    pub artist: Seq<char>,
    pub album_title: Seq<char>,
    pub album_artist: Seq<char>,
    pub duration: int,
    pub position: int,
    pub cover_b64: Seq<char>,
    pub cover_raw: Seq<u8>,
    pub state: PlaybackState,
}

impl MediaInfoView {
    /// The fields that are written out where a snapshot is serialised, in
    /// their order: texts and integers only, the state as its token, and the
    /// raw cover left out.
    pub open spec fn written_fields(self) -> Seq<(Seq<char>, FieldValueView)> {
        seq![
            ("title"@, FieldValueView::Text(self.title)),
            ("artist"@, FieldValueView::Text(self.artist)),
            ("album_title"@, FieldValueView::Text(self.album_title)),
            ("album_artist"@, FieldValueView::Text(self.album_artist)),
            ("duration"@, FieldValueView::Integer(self.duration)),
            ("position"@, FieldValueView::Integer(self.position)),
            ("cover_b64"@, FieldValueView::Text(self.cover_b64)),
            ("state"@, FieldValueView::Text(self.state.token())),
        ]
    }

    /// The fields that are shown where a snapshot is printed for a person, in
    /// their order: of a cover only whether there is one.
    pub open spec fn shown_fields(self) -> Seq<(Seq<char>, FieldValueView)> {
        seq![
            ("title"@, FieldValueView::Text(self.title)),
            ("artist"@, FieldValueView::Text(self.artist)),
            ("album_title"@, FieldValueView::Text(self.album_title)),
            ("album_artist"@, FieldValueView::Text(self.album_artist)),
            ("duration"@, FieldValueView::Integer(self.duration)),
            ("position"@, FieldValueView::Integer(self.position)),
            ("state"@, FieldValueView::Text(self.state.token())),
            ("cover_b64"@, FieldValueView::Mark(presence_label(self.cover_b64.len() == 0))),
            ("cover_raw"@, FieldValueView::Mark(presence_label(self.cover_raw.len() == 0))),
        ]
    }

    /// The snapshot of nothing playing: empty texts, no cover, zero times,
    /// stopped.
    pub open spec fn empty() -> MediaInfoView {
        MediaInfoView {
            title: Seq::empty(),
            artist: Seq::empty(),
            album_title: Seq::empty(),
            album_artist: Seq::empty(),
            duration: 0,
            position: 0,
            cover_b64: Seq::empty(),
            cover_raw: Seq::empty(),
            state: PlaybackState::Stopped,
        }
    }

    /// The snapshot with its position brought up to date, `delta` being the
    /// track-time that has passed since `anchor` was accurate, and nothing
    /// else changed.
    pub open spec fn reconciled(self, anchor: PositionInfo, delta: int) -> MediaInfoView {
        MediaInfoView { position: anchor.position_with(self.state, self.duration, delta), ..self }
    }
}

/// What is playing: who and what, how long it is, where in it the player
/// stands, its cover art, and whether it plays. Times are in microseconds.
///
/// `position` is accurate only right after it was reconciled with a
/// `PositionInfo`; the other fields hold until the player reports a change.
#[derive(PartialEq, Eq)]
pub struct MediaInfo {
    pub title: String,
    pub artist: String,
    pub album_title: String,
    pub album_artist: String,
    pub duration: i64,
    pub position: i64,
    /// The cover art in base64, empty while none was computed.
    pub cover_b64: String,
    /// The cover art as it was read.
    pub cover_raw: Vec<u8>,
    pub state: PlaybackState,
}

impl View for MediaInfo {
    type V = MediaInfoView;

    open spec fn view(&self) -> MediaInfoView {
        MediaInfoView {
            title: self.title@,
            artist: self.artist@,
            album_title: self.album_title@,
            album_artist: self.album_artist@,
            duration: self.duration as int,
            position: self.position as int,
            cover_b64: self.cover_b64@,
            cover_raw: self.cover_raw@,
            state: self.state,
        }
    }
}

impl MediaInfo {
    /// The snapshot of nothing playing.
    pub fn new() -> (info: MediaInfo)
        ensures
            info@ == MediaInfoView::empty(),
    {
        MediaInfo {
            title: String::new(),
            artist: String::new(),
            album_title: String::new(),
            album_artist: String::new(),
            duration: 0,
            position: 0,
            cover_b64: String::new(),
            cover_raw: Vec::new(),
            state: PlaybackState::Stopped,
        }
    }

    /// Brings `position` up to date, `delta` being the track-time that has
    /// passed since `pos_info` was accurate.
    pub fn apply_position(&mut self, pos_info: &PositionInfo, delta: i64)
        ensures
            final(self)@ == old(self)@.reconciled(*pos_info, delta as int),
    {
        self.position = pos_info.reconcile_with_delta(self.state, self.duration, delta);
    }

    /// A copy with `position` brought up to date, `delta` being the track-time
    /// that has passed since `pos_info` was accurate.
    pub fn with_position_delta(&self, pos_info: &PositionInfo, delta: i64) -> (info: MediaInfo)
        ensures
            info@ == self@.reconciled(*pos_info, delta as int),
    {
        let mut info: MediaInfo = self.clone();
        info.apply_position(pos_info, delta);
        info
    }

    /// The fields that are written out where the snapshot is serialised.
    pub fn written_fields(&self) -> (fields: Vec<Field>)
        ensures
            fields@.map_values(|field: Field| field@) == self@.written_fields(),
    {
        let fields: Vec<Field> = vec![
            Field { name: "title", value: FieldValue::Text(self.title.clone()) },
            Field { name: "artist", value: FieldValue::Text(self.artist.clone()) },
            Field { name: "album_title", value: FieldValue::Text(self.album_title.clone()) },
            Field { name: "album_artist", value: FieldValue::Text(self.album_artist.clone()) },
            Field { name: "duration", value: FieldValue::Integer(self.duration) },
            Field { name: "position", value: FieldValue::Integer(self.position) },
            Field { name: "cover_b64", value: FieldValue::Text(self.cover_b64.clone()) },
            Field { name: "state", value: FieldValue::Text(self.state.to_string()) },
        ];
        assert(fields@.map_values(|field: Field| field@) =~= self@.written_fields());
        fields
    }

    /// The fields that are shown where the snapshot is printed for a person.
    pub fn shown_fields(&self) -> (fields: Vec<Field>)
        ensures
            fields@.map_values(|field: Field| field@) == self@.shown_fields(),
    {
        let fields: Vec<Field> = vec![
            Field { name: "title", value: FieldValue::Text(self.title.clone()) },
            Field { name: "artist", value: FieldValue::Text(self.artist.clone()) },
            Field { name: "album_title", value: FieldValue::Text(self.album_title.clone()) },
            Field { name: "album_artist", value: FieldValue::Text(self.album_artist.clone()) },
            Field { name: "duration", value: FieldValue::Integer(self.duration) },
            Field { name: "position", value: FieldValue::Integer(self.position) },
            Field { name: "state", value: FieldValue::Text(self.state.to_string()) },
            Field { name: "cover_b64", value: FieldValue::Mark(self.cover_b64_label()) },
            Field { name: "cover_raw", value: FieldValue::Mark(self.cover_raw_label()) },
        ];
        assert(fields@.map_values(|field: Field| field@) =~= self@.shown_fields());
        fields
    }

    /// How the raw cover shows in a summary: whether there is one, not what
    /// it holds.
    pub fn cover_raw_label(&self) -> (label: &'static str)
        ensures
            label@ == presence_label(self@.cover_raw.len() == 0),
    {
        if self.cover_raw.len() == 0 {
            "<none>"
        } else {
            "<...>"
        }
    }

    /// How the base64 cover shows in a summary: whether there is one, not what
    /// it holds.
    pub fn cover_b64_label(&self) -> (label: &'static str)
        ensures
            label@ == presence_label(self@.cover_b64.len() == 0),
    {
        if self.cover_b64.as_str().is_empty() {
            "<none>"
        } else {
            "<...>"
        }
    }
}

/// The value of a field of a snapshot that is written out or shown.
#[derive(Debug)]
pub enum FieldValue {
    Text(String),
    Integer(i64),
    /// A mark that stands in for a value that is not shown.
    Mark(&'static str),
}

/// The value of such a field, as a mathematical value.
pub enum FieldValueView {
    Text(Seq<char>),
    Integer(int),
    Mark(Seq<char>),
}

impl View for FieldValue {
    type V = FieldValueView;

    open spec fn view(&self) -> FieldValueView {
        match self {
            FieldValue::Text(text) => FieldValueView::Text(text@),
            FieldValue::Integer(number) => FieldValueView::Integer(*number as int),
            FieldValue::Mark(mark) => FieldValueView::Mark(mark@),
        }
    }
}

/// A field of a snapshot that is written out or shown: its name and its
/// value.
#[derive(Debug)]
pub struct Field {
    pub name: &'static str,
    pub value: FieldValue,
}

impl View for Field {
    type V = (Seq<char>, FieldValueView);

    open spec fn view(&self) -> (Seq<char>, FieldValueView) {
        (self.name@, self.value@)
    }
}

/// The mark that stands for a cover in a summary.
pub open spec fn presence_label(absent: bool) -> Seq<char> {
    if absent {
        "<none>"@
    } else {
        "<...>"@
    }
}

impl Clone for MediaInfo {
    fn clone(&self) -> (copy: MediaInfo)
        ensures
            copy@ == self@,
    {
        MediaInfo {
            title: self.title.clone(),
            artist: self.artist.clone(),
            album_title: self.album_title.clone(),
            album_artist: self.album_artist.clone(),
            duration: self.duration,
            position: self.position,
            cover_b64: self.cover_b64.clone(),
            cover_raw: self.cover_raw.clone(),
            state: self.state,
        }
    }
}

impl Default for MediaInfo {
    fn default() -> (info: MediaInfo)
        ensures
            info@ == MediaInfoView::empty(),
    {
        MediaInfo::new()
    }
}

} // verus!
