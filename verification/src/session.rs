//! Tracking the session manager's current session: which session is held and
//! under which event registrations, what it last reported, and what to do when
//! the manager or the session announces a change.
//!
//! The tracker decides; its caller talks to the session manager, carries out
//! the actions that the tracker hands back and reports what the manager said.

use crate::clock::{
    nt_ticks_to_unix_micros, ticks_to_micros, ticks_to_micros_spec, NT_UNIX_MICROSEC_DIFF,
};
use crate::cover::{base64_standard, encodable, encode_cover};
use crate::media_info::{MediaInfo, MediaInfoView};
use crate::playback_state::PlaybackState;
use crate::position::PositionInfo;
use crate::rate::PlaybackRate;
use vstd::prelude::*;
use vstd::string::*;

verus! {

/// The registrations of the three change notifications of one session.
#[derive(Clone, Copy, Debug, PartialEq, Eq, Structural)]
pub struct EventTokens {
    pub media_properties: i64,
    pub playback_info: i64,
    pub timeline_properties: i64,
}

/// A session that is held, and the registrations made with it.
#[derive(Clone, Copy, Debug, PartialEq, Eq, Structural)]
pub struct Subscription {
    /// The identifier under which the caller keeps the session's handle.
    pub session: u64,
    pub tokens: EventTokens,
}

/// The fields of a snapshot that one native query fills.
#[derive(Clone, Copy, Debug, PartialEq, Eq, Structural)]
pub enum FieldGroup {
    /// Title, artist, album, album artist and cover.
    MediaProperties,
    /// Playback state and rate.
    PlaybackInfo,
    /// Duration, position and the instant of the position.
    TimelineProperties,
}

/// What the session manager or a session announces.
#[derive(Clone, Copy, Debug, PartialEq, Eq, Structural)]
pub enum Notification {
    /// The manager's current session is another one, or none.
    CurrentSessionChanged,
    /// A session's fields of one group changed.
    FieldsChanged { session: u64, group: FieldGroup },
}

/// What the caller is to do after a notification.
#[derive(Clone, Copy, Debug, PartialEq, Eq, Structural)]
pub enum Action {
    Nothing,
    /// Remove the registrations of `unsubscribe`, if any; only then ask the
    /// manager for its current session, register with it and attach it.
    ReplaceSession { unsubscribe: Option<Subscription> },
    /// Query the fields of `group` from `session` and report them.
    Refresh { session: u64, group: FieldGroup },
}

/// The media properties that a session reported.
pub struct MediaProperties {
    pub title: String,
    pub artist: String,
    pub album_title: String,
    pub album_artist: String,
    /// The bytes of the thumbnail, unless reading it failed.
    pub thumbnail: Option<Vec<u8>>,
}

/// The playback info that a session reported.
#[derive(Clone, Copy, Debug, PartialEq, Eq, Structural)]
pub struct PlaybackReport {
    /// The status code.
    pub status: i32,
    /// The playback rate, unless the session gave none.
    pub rate: Option<PlaybackRate>,
}

/// The timeline properties that a session reported, in 100-nanosecond ticks.
#[derive(Clone, Copy, Debug, PartialEq, Eq, Structural)]
pub struct TimelineReport {
    /// The end of the track.
    pub end_time: i64,
    /// The position in the track.
    pub position: i64,
    /// The instant at which the position was accurate, counted from
    /// 1601-01-01.
    pub last_updated: i64,
}

/// What a `SessionTracker` holds, as mathematical values.
pub struct TrackerView {
    pub current: Option<Subscription>,
    pub info: MediaInfoView,
    pub anchor: PositionInfo,
}

impl TrackerView {
    /// The tracker without a session: nothing held, nothing known.
    pub open spec fn idle() -> TrackerView {
        TrackerView { current: None, info: MediaInfoView::empty(), anchor: PositionInfo::initial() }
    }

    /// Whether a tracker without a session knows nothing.
    pub open spec fn consistent(self) -> bool {
        self.current is None ==> self.info == MediaInfoView::empty() && self.anchor
            == PositionInfo::initial()
    }

    /// Whether `session` is the one held.
    pub open spec fn tracks(self, session: u64) -> bool {
        self.current matches Some(held) && held.session == session
    }

    /// The tracker after a notification. A change of the current session
    /// drops the held one and all that it reported; a change of fields leaves
    /// the tracker as it is.
    pub open spec fn notified(self, notification: Notification) -> TrackerView {
        match notification {
            Notification::CurrentSessionChanged => TrackerView::idle(),
            Notification::FieldsChanged { .. } => self,
        }
    }

    /// What the caller is to do after a notification. A change of the current
    /// session calls for the held registrations to be removed and the
    /// session replaced; a change of fields of the held session calls for
    /// that group alone to be queried; one of any other session for nothing.
    pub open spec fn action_on(self, notification: Notification) -> Action {
        match notification {
            Notification::CurrentSessionChanged => Action::ReplaceSession {
                unsubscribe: self.current,
            },
            Notification::FieldsChanged { session, group } => if self.tracks(session) {
                Action::Refresh { session, group }
            } else {
                Action::Nothing
            },
        }
    }

    /// The tracker after `subscription` was offered: it is held if no session
    /// was, and turned away otherwise.
    pub open spec fn attached(self, subscription: Subscription) -> TrackerView {
        if self.current is None {
            TrackerView { current: Some(subscription), ..self }
        } else {
            self
        }
    }

    /// The snapshot after media properties were reported. The cover changes
    /// only where a thumbnail came that can be encoded.
    pub open spec fn info_with_media(self, report: MediaProperties) -> MediaInfoView {
        let texts = MediaInfoView {
            title: report.title@,
            artist: report.artist@,
            album_title: report.album_title@,
            album_artist: report.album_artist@,
            ..self.info
        };
        match report.thumbnail {
            Some(bytes) if encodable(bytes@.len()) => MediaInfoView {
                cover_raw: bytes@,
                cover_b64: base64_standard(bytes@),
                ..texts
            },
            _ => texts,
        }
    }

    /// The tracker after `session` reported media properties, or failed to.
    /// A failure, and a report of a session that is not held, change nothing.
    pub open spec fn with_media_properties(
        self,
        session: u64,
        report: Option<MediaProperties>,
    ) -> TrackerView {
        match report {
            Some(properties) if self.tracks(session) => TrackerView {
                info: self.info_with_media(properties),
                ..self
            },
            _ => self,
        }
    }

    /// The tracker after `session` reported playback info, or failed to. The
    /// rate stays as it was where the report has none.
    pub open spec fn with_playback_info(
        self,
        session: u64,
        report: Option<PlaybackReport>,
    ) -> TrackerView {
        match report {
            Some(playback) if self.tracks(session) => TrackerView {
                info: MediaInfoView {
                    state: PlaybackState::of_session_status(playback.status),
                    ..self.info
                },
                anchor: match playback.rate {
                    Some(rate) => PositionInfo { playback_rate: rate, ..self.anchor },
                    None => self.anchor,
                },
                ..self
            },
            _ => self,
        }
    }

    /// The tracker after `session` reported timeline properties, or failed to.
    /// Ticks become microseconds, and the instant is moved to the UNIX epoch.
    pub open spec fn with_timeline_properties(
        self,
        session: u64,
        report: Option<TimelineReport>,
    ) -> TrackerView {
        match report {
            Some(timeline) if self.tracks(session) => TrackerView {
                info: MediaInfoView {
                    duration: ticks_to_micros_spec(timeline.end_time as int),
                    ..self.info
                },
                anchor: PositionInfo {
                    playback_rate: self.anchor.playback_rate,
                    pos_raw: ticks_to_micros_spec(timeline.position as int) as i64,
                    pos_last_update: (ticks_to_micros_spec(timeline.last_updated as int)
                        - NT_UNIX_MICROSEC_DIFF) as i64,
                },
                ..self
            },
            _ => self,
        }
    }

    /// The snapshot, `delta` being the track-time that has passed since the
    /// anchor was accurate.
    pub open spec fn snapshot(self, delta: int) -> MediaInfoView {
        self.info.reconciled(self.anchor, delta)
    }

    /// The session to which a transport command goes, if one is held.
    pub open spec fn command_target(self) -> Option<u64> {
        match self.current {
            Some(held) => Some(held.session),
            None => None,
        }
    }
}

/// The order in which a newly attached session is queried in full.
pub open spec fn full_refresh_spec() -> Seq<FieldGroup> {
    seq![FieldGroup::MediaProperties, FieldGroup::PlaybackInfo, FieldGroup::TimelineProperties]
}

/// The order in which a newly attached session is queried in full.
pub fn full_refresh() -> (groups: Vec<FieldGroup>)
    ensures
        groups@ == full_refresh_spec(),
{
    let groups: Vec<FieldGroup> = vec![
        FieldGroup::MediaProperties,
        FieldGroup::PlaybackInfo,
        FieldGroup::TimelineProperties,
    ];
    assert(groups@ =~= full_refresh_spec());
    groups
}

/// The state of a backend that follows the session manager's current session.
pub struct SessionTracker {
    current: Option<Subscription>,
    media_info: MediaInfo,
    pos_info: PositionInfo,
}

impl View for SessionTracker {
    type V = TrackerView;

    closed spec fn view(&self) -> TrackerView {
        TrackerView { current: self.current, info: self.media_info@, anchor: self.pos_info }
    }
}

impl SessionTracker {
    #[verifier::type_invariant]
    spec fn well_formed(self) -> bool {
        self@.consistent()
    }

    /// The tracker without a session.
    pub fn new() -> (tracker: SessionTracker)
        ensures
            tracker@ == TrackerView::idle(),
    {
        SessionTracker { current: None, media_info: MediaInfo::new(), pos_info: PositionInfo::new() }
    }

    /// The held session and its registrations, if a session is held.
    pub fn current(&self) -> (held: Option<Subscription>)
        ensures
            held == self@.current,
            self@.consistent(),
    {
        proof {
            use_type_invariant(self);
        }
        self.current
    }

    /// Lets go of the held session and of all that it reported, and hands back
    /// its registrations for the caller to remove.
    pub fn release(&mut self) -> (held: Option<Subscription>)
        ensures
            held == old(self)@.current,
            final(self)@ == TrackerView::idle(),
    {
        let held: Option<Subscription> = self.current;
        *self = SessionTracker::new();
        held
    }

    /// Takes in a notification and says what the caller is to do.
    pub fn notify(&mut self, notification: Notification) -> (action: Action)
        ensures
            final(self)@ == old(self)@.notified(notification),
            action == old(self)@.action_on(notification),
            final(self)@.consistent(),
    {
        proof {
            use_type_invariant(&*self);
        }
        match notification {
            Notification::CurrentSessionChanged => {
                let held: Option<Subscription> = self.release();
                Action::ReplaceSession { unsubscribe: held }
            },
            Notification::FieldsChanged { session, group } => {
                if self.tracks(session) {
                    Action::Refresh { session, group }
                } else {
                    Action::Nothing
                }
            },
        }
    }

    /// Whether `session` is the one held.
    pub fn tracks(&self, session: u64) -> (held: bool)
        ensures
            held == self@.tracks(session),
    {
        match self.current {
            Some(subscription) => subscription.session == session,
            None => false,
        }
    }

    /// Takes hold of a session with which the caller has registered, and says
    /// which field groups the caller is to query at once: all of them. A
    /// tracker that still holds a session turns the new one away: the held one
    /// is to be released, and its registrations removed, first.
    pub fn attach(&mut self, session: u64, tokens: EventTokens) -> (queries: Option<
        Vec<FieldGroup>,
    >)
        ensures
            match queries {
                Some(groups) => old(self)@.current is None && groups@ == full_refresh_spec(),
                None => old(self)@.current is Some,
            },
            final(self)@ == old(self)@.attached(Subscription { session, tokens }),
            final(self)@.consistent(),
    {
        proof {
            use_type_invariant(&*self);
        }
        if self.current.is_none() {
            self.current = Some(Subscription { session, tokens });
            Some(full_refresh())
        } else {
            None
        }
    }

    /// Takes in the media properties that `session` reported, `None` where
    /// the query failed.
    pub fn apply_media_properties(&mut self, session: u64, report: Option<MediaProperties>)
        ensures
            final(self)@ == old(self)@.with_media_properties(session, report),
            final(self)@.consistent(),
    {
        proof {
            use_type_invariant(&*self);
        }
        if !self.tracks(session) {
            return ;
        }
        match report {
            Some(properties) => {
                self.media_info.title = properties.title;
                self.media_info.artist = properties.artist;
                self.media_info.album_title = properties.album_title;
                self.media_info.album_artist = properties.album_artist;
                match properties.thumbnail {
                    Some(bytes) => {
                        match encode_cover(&bytes) {
                            Some(text) => {
                                self.media_info.cover_raw = bytes;
                                self.media_info.cover_b64 = text;
                            },
                            None => {},
                        }
                    },
                    None => {},
                }
            },
            None => {},
        }
    }

    /// Takes in the playback info that `session` reported, `None` where the
    /// query failed.
    pub fn apply_playback_info(&mut self, session: u64, report: Option<PlaybackReport>)
        ensures
            final(self)@ == old(self)@.with_playback_info(session, report),
            final(self)@.consistent(),
    {
        proof {
            use_type_invariant(&*self);
        }
        if !self.tracks(session) {
            return ;
        }
        match report {
            Some(playback) => {
                self.media_info.state = PlaybackState::from_session_status(playback.status);
                match playback.rate {
                    Some(rate) => {
                        self.pos_info = PositionInfo {
                            playback_rate: rate,
                            pos_last_update: self.pos_info.pos_last_update,
                            pos_raw: self.pos_info.pos_raw,
                        };
                    },
                    None => {},
                }
            },
            None => {},
        }
    }

    /// Takes in the timeline properties that `session` reported, `None` where
    /// the query failed.
    pub fn apply_timeline_properties(&mut self, session: u64, report: Option<TimelineReport>)
        ensures
            final(self)@ == old(self)@.with_timeline_properties(session, report),
            final(self)@.consistent(),
    {
        proof {
            use_type_invariant(&*self);
        }
        if !self.tracks(session) {
            return ;
        }
        match report {
            Some(timeline) => {
                self.media_info.duration = ticks_to_micros(timeline.end_time);
                self.pos_info = PositionInfo {
                    playback_rate: self.pos_info.playback_rate,
                    pos_raw: ticks_to_micros(timeline.position),
                    pos_last_update: nt_ticks_to_unix_micros(timeline.last_updated),
                };
            },
            None => {},
        }
    }

    /// The anchor of the position: what the caller scales the wall-time
    /// passed by, and counts it from.
    pub fn pos_info(&self) -> (anchor: PositionInfo)
        ensures
            anchor == self@.anchor,
    {
        self.pos_info
    }

    /// What the held session is doing: stopped where none is held.
    pub fn playback_state(&self) -> (state: PlaybackState)
        ensures
            state == self@.info.state,
            self@.current is None ==> state == PlaybackState::Stopped,
    {
        proof {
            use_type_invariant(self);
        }
        self.media_info.state
    }

    /// The snapshot, `delta` being the track-time that has passed since the
    /// anchor was accurate.
    pub fn get_info_with_delta(&self, delta: i64) -> (info: MediaInfo)
        ensures
            info@ == self@.snapshot(delta as int),
            self@.current is None ==> info@ == MediaInfoView::empty(),
    {
        proof {
            use_type_invariant(self);
        }
        self.media_info.with_position_delta(&self.pos_info, delta)
    }

    /// The session to which a transport command goes, if one is held. With no
    /// session the command is not to be issued at all.
    pub fn command_target(&self) -> (target: Option<u64>)
        ensures
            target == self@.command_target(),
    {
        match self.current {
            Some(held) => Some(held.session),
            None => None,
        }
    }
}

/// When the current session changes, the registrations of the session that
/// was held are handed back for removal and the tracker holds nothing; from
/// then until the next session's first report, the snapshot is that of
/// nothing playing, whatever the session before had reported.
pub proof fn lemma_session_change_discards_snapshot(
    tracker: TrackerView,
    next: Subscription,
    delta: int,
)
    ensures
        tracker.action_on(Notification::CurrentSessionChanged) == (Action::ReplaceSession {
            unsubscribe: tracker.current,
        }),
        tracker.notified(Notification::CurrentSessionChanged).current is None,
        tracker.notified(Notification::CurrentSessionChanged).snapshot(delta)
            == MediaInfoView::empty(),
        tracker.notified(Notification::CurrentSessionChanged).attached(next).current == Some(next),
        tracker.notified(Notification::CurrentSessionChanged).attached(next).snapshot(delta)
            == MediaInfoView::empty(),
{
}

/// A session is attached only where none is held: registrations are never
/// replaced without having been handed back first.
pub proof fn lemma_attach_needs_release(tracker: TrackerView, next: Subscription)
    requires
        tracker.current is Some,
    ensures
        tracker.attached(next) == tracker,
        tracker.notified(Notification::CurrentSessionChanged).attached(next).current == Some(next),
{
}

/// What a session reports after it was replaced changes nothing, and its
/// notifications call for nothing.
pub proof fn lemma_replaced_session_is_ignored(
    tracker: TrackerView,
    stale: u64,
    group: FieldGroup,
    media: Option<MediaProperties>,
    playback: Option<PlaybackReport>,
    timeline: Option<TimelineReport>,
)
    requires
        !tracker.tracks(stale),
    ensures
        tracker.action_on(Notification::FieldsChanged { session: stale, group }) == Action::Nothing,
        tracker.with_media_properties(stale, media) == tracker,
        tracker.with_playback_info(stale, playback) == tracker,
        tracker.with_timeline_properties(stale, timeline) == tracker,
{
}

/// A change of fields of the held session calls for the query of that group,
/// and of no other.
pub proof fn lemma_notification_refreshes_its_group(
    tracker: TrackerView,
    session: u64,
    group: FieldGroup,
)
    requires
        tracker.tracks(session),
    ensures
        tracker.action_on(Notification::FieldsChanged { session, group }) == (Action::Refresh {
            session,
            group,
        }),
        tracker.notified(Notification::FieldsChanged { session, group }) == tracker,
{
}

/// Without a session the tracker shows nothing playing at every instant, has
/// no target for a command, and takes in no report.
pub proof fn lemma_idle_tracker_is_inert(
    tracker: TrackerView,
    session: u64,
    group: FieldGroup,
    delta: int,
)
    requires
        tracker.consistent(),
        tracker.current is None,
    ensures
        tracker == TrackerView::idle(),
        tracker.snapshot(delta) == MediaInfoView::empty(),
        tracker.command_target() is None,
        tracker.action_on(Notification::FieldsChanged { session, group }) == Action::Nothing,
{
}

} // verus!
