//! The state mirror: the player's state as last reported, put together from
//! sparse change events.
//!
//! Every field holds the last value seen for it. An event touches the fields
//! that it mentions, and a station that starts to play or fails to resets the
//! fields that belong to the station left behind; no other field changes.

use crate::messages::{
    CurrentStation, PingTimes, PipelineState, PlayerStateDiff, StationError, TrackTags, Update,
};
use vstd::prelude::*;

verus! {

/// The player's state as last reported. A field that was never reported, or
/// was cleared, is `None`.
#[derive(Clone, Debug, PartialEq, Eq)]
pub struct PlayerStateMirror {
    pub pipeline_state: Option<PipelineState>,
    pub volume: Option<i32>,
    pub is_muted: Option<bool>,
    pub current_station: Option<CurrentStation>,
    pub current_track_index: Option<usize>,
    pub track_title: Option<String>,
    pub track_organisation: Option<String>,
    pub track_artist: Option<String>,
    pub track_album: Option<String>,
    /// In whole seconds.
    pub track_duration: Option<u64>,
    /// In whole seconds.
    pub track_position: Option<u64>,
    /// 0 to 100.
    pub buffering: Option<u8>,
    pub ping_times: Option<PingTimes>,
    /// In whole seconds.
    pub pause_before_playing: Option<u64>,
}

/// The fields of the mirror.
pub enum Field {
    PipelineState,
    Volume,
    IsMuted,
    CurrentStation,
    CurrentTrackIndex,
    TrackTitle,
    TrackOrganisation,
    TrackArtist,
    TrackAlbum,
    TrackDuration,
    TrackPosition,
    Buffering,
    PingTimes,
    PauseBeforePlaying,
}

/// Whether two mirrors hold the same value in a field.
pub open spec fn field_eq(a: PlayerStateMirror, b: PlayerStateMirror, field: Field) -> bool {
    match field {
        Field::PipelineState => a.pipeline_state == b.pipeline_state,
        Field::Volume => a.volume == b.volume,
        Field::IsMuted => a.is_muted == b.is_muted,
        Field::CurrentStation => a.current_station == b.current_station,
        Field::CurrentTrackIndex => a.current_track_index == b.current_track_index,
        Field::TrackTitle => a.track_title == b.track_title,
        Field::TrackOrganisation => a.track_organisation == b.track_organisation,
        Field::TrackArtist => a.track_artist == b.track_artist,
        Field::TrackAlbum => a.track_album == b.track_album,
        Field::TrackDuration => a.track_duration == b.track_duration,
        Field::TrackPosition => a.track_position == b.track_position,
        Field::Buffering => a.buffering == b.buffering,
        Field::PingTimes => a.ping_times == b.ping_times,
        Field::PauseBeforePlaying => a.pause_before_playing == b.pause_before_playing,
    }
}

/// Whether a tag of an event's tag set names a value or clears the field.
pub open spec fn tag_is_written(
    tags: Update<TrackTags>,
    tag: spec_fn(TrackTags) -> Option<String>,
) -> bool {
    match tags {
        Update::Unchanged => false,
        Update::Cleared => true,
        Update::Value(tags) => tag(tags) is Some,
    }
}

/// Whether the event mentions the field: sets it or clears it.
pub open spec fn mentions(event: PlayerStateDiff, field: Field) -> bool {
    match field {
        Field::PipelineState => event.pipeline_state.is_present(),
        Field::Volume => event.volume.is_present(),
        Field::IsMuted => event.is_muted.is_present(),
        Field::CurrentStation => event.current_station.is_present(),
        Field::CurrentTrackIndex => event.current_track_index.is_present(),
        Field::TrackTitle => tag_is_written(event.current_track_tags, |t: TrackTags| t.title),
        Field::TrackOrganisation => tag_is_written(
            event.current_track_tags,
            |t: TrackTags| t.organisation,
        ),
        Field::TrackArtist => tag_is_written(event.current_track_tags, |t: TrackTags| t.artist),
        Field::TrackAlbum => tag_is_written(event.current_track_tags, |t: TrackTags| t.album),
        Field::TrackDuration => event.track_duration.is_present(),
        Field::TrackPosition => event.track_position.is_present(),
        Field::Buffering => event.buffering.is_present(),
        Field::PingTimes => event.ping_times.is_present(),
        Field::PauseBeforePlaying => event.pause_before_playing.is_present(),
    }
}

/// What a newly reported station does to the fields of the station before.
pub enum StationReset {
    /// Nothing but the station itself changes.
    Nothing,
    /// A station starts to play or fails to: the first track, no tags yet.
    Track,
    /// No such station: the first track, no tags, no duration.
    TrackAndDuration,
}

/// What the event's station, if it has one, does to the other fields.
pub open spec fn station_reset(station: Update<CurrentStation>) -> StationReset {
    match station {
        Update::Value(CurrentStation::PlayingStation { .. }) => StationReset::Track,
        Update::Value(CurrentStation::FailedToPlayStation { error }) => if error
            is StationNotFound {
            StationReset::TrackAndDuration
        } else {
            StationReset::Track
        },
        _ => StationReset::Nothing,
    }
}

/// Whether the event's station resets the field.
pub open spec fn resets(event: PlayerStateDiff, field: Field) -> bool {
    match station_reset(event.current_station) {
        StationReset::Nothing => false,
        StationReset::Track => field is CurrentTrackIndex || field is TrackTitle
            || field is TrackOrganisation || field is TrackArtist || field is TrackAlbum,
        StationReset::TrackAndDuration => field is CurrentTrackIndex || field is TrackTitle
            || field is TrackOrganisation || field is TrackArtist || field is TrackAlbum
            || field is TrackDuration,
    }
}

/// Whether the event writes the field, by mentioning it or by a reset.
pub open spec fn writes(event: PlayerStateDiff, field: Field) -> bool {
    mentions(event, field) || resets(event, field)
}

/// A tag after an event's tag set: a named value replaces the old one, a
/// cleared tag set clears it, and a tag that the set leaves out stays.
pub open spec fn tag_applied(
    tags: Update<TrackTags>,
    tag: spec_fn(TrackTags) -> Option<String>,
    before: Option<String>,
) -> Option<String> {
    match tags {
        Update::Unchanged => before,
        Update::Cleared => None,
        Update::Value(tags) => if tag(tags) is Some {
            tag(tags)
        } else {
            before
        },
    }
}

/// The mirror after the event's station has reset what it resets.
pub open spec fn after_station(
    mirror: PlayerStateMirror,
    station: Update<CurrentStation>,
) -> PlayerStateMirror {
    let with_station = PlayerStateMirror {
        current_station: station.applied(mirror.current_station),
        ..mirror
    };
    match station_reset(station) {
        StationReset::Nothing => with_station,
        StationReset::Track => PlayerStateMirror {
            current_track_index: Some(0usize),
            track_title: None,
            track_organisation: None,
            track_artist: None,
            track_album: None,
            ..with_station
        },
        StationReset::TrackAndDuration => PlayerStateMirror {
            current_track_index: Some(0usize),
            track_title: None,
            track_organisation: None,
            track_artist: None,
            track_album: None,
            track_duration: None,
            ..with_station
        },
    }
}

/// The mirror after one event: first the station's resets, then every field
/// that the event mentions.
pub open spec fn applied(mirror: PlayerStateMirror, event: PlayerStateDiff) -> PlayerStateMirror {
    let reset = after_station(mirror, event.current_station);
    PlayerStateMirror {
        pipeline_state: event.pipeline_state.applied(reset.pipeline_state),
        volume: event.volume.applied(reset.volume),
        is_muted: event.is_muted.applied(reset.is_muted),
        current_station: reset.current_station,
        current_track_index: event.current_track_index.applied(reset.current_track_index),
        track_title: tag_applied(
            event.current_track_tags,
            |t: TrackTags| t.title,
            reset.track_title,
        ),
        track_organisation: tag_applied(
            event.current_track_tags,
            |t: TrackTags| t.organisation,
            reset.track_organisation,
        ),
        track_artist: tag_applied(
            event.current_track_tags,
            |t: TrackTags| t.artist,
            reset.track_artist,
        ),
        track_album: tag_applied(
            event.current_track_tags,
            |t: TrackTags| t.album,
            reset.track_album,
        ),
        track_duration: event.track_duration.applied(reset.track_duration),
        track_position: event.track_position.applied(reset.track_position),
        buffering: event.buffering.applied(reset.buffering),
        ping_times: event.ping_times.applied(reset.ping_times),
        pause_before_playing: event.pause_before_playing.applied(reset.pause_before_playing),
    }
}

/// The mirror after a sequence of events, applied in order.
pub open spec fn applied_all(
    mirror: PlayerStateMirror,
    events: Seq<PlayerStateDiff>,
) -> PlayerStateMirror
    decreases events.len(),
{
    if events.len() == 0 {
        mirror
    } else {
        applied(applied_all(mirror, events.drop_last()), events.last())
    }
}

/// An event leaves every field alone that it does not write.
pub proof fn lemma_unwritten_field_stays(
    mirror: PlayerStateMirror,
    event: PlayerStateDiff,
    field: Field,
)
    requires
        !writes(event, field),
    ensures
        field_eq(applied(mirror, event), mirror, field),
{
}

/// What an event writes to a field does not depend on what the mirror held
/// before: nothing of the old value is left.
pub proof fn lemma_written_field_is_new(
    mirror: PlayerStateMirror,
    other: PlayerStateMirror,
    event: PlayerStateDiff,
    field: Field,
)
    requires
        writes(event, field),
    ensures
        field_eq(applied(mirror, event), applied(other, event), field),
{
}

/// Last write wins: after any sequence of events, a field holds what the
/// last event that wrote it gave it, whatever came before that event.
pub proof fn lemma_field_is_from_last_write(
    mirror: PlayerStateMirror,
    other: PlayerStateMirror,
    events: Seq<PlayerStateDiff>,
    last_write: int,
    field: Field,
)
    requires
        0 <= last_write < events.len(),
        writes(events[last_write], field),
        forall|later: int| last_write < later < events.len() ==> !writes(events[later], field),
    ensures
        field_eq(applied_all(mirror, events), applied(other, events[last_write]), field),
    decreases events.len(),
{
    let before = applied_all(mirror, events.drop_last());
    if last_write == events.len() - 1 {
        lemma_written_field_is_new(before, other, events.last(), field);
    } else {
        let earlier = events.drop_last();
        assert forall|later: int| last_write < later < earlier.len() implies !writes(
            earlier[later],
            field,
        ) by {
            assert(earlier[later] == events[later]);
        }
        assert(earlier[last_write] == events[last_write]);
        lemma_field_is_from_last_write(mirror, other, earlier, last_write, field);
        lemma_unwritten_field_stays(before, events.last(), field);
    }
}

/// A value that an event names for a field is the value the mirror holds
/// after the event.
pub proof fn lemma_named_value_is_held(mirror: PlayerStateMirror, event: PlayerStateDiff)
    ensures
        event.pipeline_state is Value ==> applied(mirror, event).pipeline_state == Some(
            event.pipeline_state->Value_0,
        ),
        event.volume is Value ==> applied(mirror, event).volume == Some(event.volume->Value_0),
        event.is_muted is Value ==> applied(mirror, event).is_muted == Some(
            event.is_muted->Value_0,
        ),
        event.current_station is Value ==> applied(mirror, event).current_station == Some(
            event.current_station->Value_0,
        ),
        event.current_track_index is Value ==> applied(mirror, event).current_track_index
            == Some(event.current_track_index->Value_0),
        event.current_track_tags is Value ==> {
            let tags = event.current_track_tags->Value_0;
            &&& tags.title is Some ==> applied(mirror, event).track_title == tags.title
            &&& tags.organisation is Some ==> applied(mirror, event).track_organisation
                == tags.organisation
            &&& tags.artist is Some ==> applied(mirror, event).track_artist == tags.artist
            &&& tags.album is Some ==> applied(mirror, event).track_album == tags.album
        },
        event.track_duration is Value ==> applied(mirror, event).track_duration == Some(
            event.track_duration->Value_0,
        ),
        event.track_position is Value ==> applied(mirror, event).track_position == Some(
            event.track_position->Value_0,
        ),
        event.buffering is Value ==> applied(mirror, event).buffering == Some(
            event.buffering->Value_0,
        ),
        event.ping_times is Value ==> applied(mirror, event).ping_times == Some(
            event.ping_times->Value_0,
        ),
        event.pause_before_playing is Value ==> applied(mirror, event).pause_before_playing
            == Some(event.pause_before_playing->Value_0),
{
}

fn reset_of(station: &Update<CurrentStation>) -> (reset: StationReset)
    ensures
        reset == station_reset(*station),
{
    match station {
        Update::Value(CurrentStation::PlayingStation { .. }) => StationReset::Track,
        Update::Value(CurrentStation::FailedToPlayStation { error }) => match error {
            StationError::StationNotFound { .. } => StationReset::TrackAndDuration,
            _ => StationReset::Track,
        },
        _ => StationReset::Nothing,
    }
}

/// Whether an event writes the track's title, by naming or clearing it or
/// by a reset.
pub fn writes_title(event: &PlayerStateDiff) -> (written: bool)
    ensures
        written == writes(*event, Field::TrackTitle),
{
    let by_tags = match &event.current_track_tags {
        Update::Unchanged => false,
        Update::Cleared => true,
        Update::Value(tags) => tags.title.is_some(),
    };
    let by_station = match reset_of(&event.current_station) {
        StationReset::Nothing => false,
        _ => true,
    };
    by_tags || by_station
}

fn apply_tag(tag: Option<String>, field: &mut Option<String>)
    ensures
        *final(field) == (if tag is Some {
            tag
        } else {
            *old(field)
        }),
{
    match tag {
        Some(text) => {
            *field = Some(text);
        },
        None => {},
    }
}

impl PlayerStateMirror {
    /// The mirror before anything has been reported: every field unset.
    pub open spec fn new_spec() -> PlayerStateMirror {
        PlayerStateMirror {
            pipeline_state: None,
            volume: None,
            is_muted: None,
            current_station: None,
            current_track_index: None,
            track_title: None,
            track_organisation: None,
            track_artist: None,
            track_album: None,
            track_duration: None,
            track_position: None,
            buffering: None,
            ping_times: None,
            pause_before_playing: None,
        }
    }

    /// The mirror before anything has been reported: every field unset.
    pub fn new() -> (mirror: PlayerStateMirror)
        ensures
            mirror == PlayerStateMirror::new_spec(),
    {
        PlayerStateMirror {
            pipeline_state: None,
            volume: None,
            is_muted: None,
            current_station: None,
            current_track_index: None,
            track_title: None,
            track_organisation: None,
            track_artist: None,
            track_album: None,
            track_duration: None,
            track_position: None,
            buffering: None,
            ping_times: None,
            pause_before_playing: None,
        }
    }

    /// Merges one change event into the mirror. The event's error report is
    /// not part of the mirror and is left to the caller.
    pub fn apply(&mut self, event: PlayerStateDiff)
        ensures
            *final(self) == applied(*old(self), event),
    {
        let reset = reset_of(&event.current_station);
        event.current_station.apply(&mut self.current_station);
        match reset {
            StationReset::Nothing => {},
            StationReset::Track => {
                self.current_track_index = Some(0);
                self.track_title = None;
                self.track_organisation = None;
                self.track_artist = None;
                self.track_album = None;
            },
            StationReset::TrackAndDuration => {
                self.current_track_index = Some(0);
                self.track_title = None;
                self.track_organisation = None;
                self.track_artist = None;
                self.track_album = None;
                self.track_duration = None;
            },
        }
        assert(*self == after_station(*old(self), event.current_station));
        event.pipeline_state.apply(&mut self.pipeline_state);
        event.volume.apply(&mut self.volume);
        event.is_muted.apply(&mut self.is_muted);
        event.current_track_index.apply(&mut self.current_track_index);
        match event.current_track_tags {
            Update::Unchanged => {},
            Update::Cleared => {
                self.track_title = None;
                self.track_organisation = None;
                self.track_artist = None;
                self.track_album = None;
            },
            Update::Value(tags) => {
                apply_tag(tags.title, &mut self.track_title);
                apply_tag(tags.organisation, &mut self.track_organisation);
                apply_tag(tags.artist, &mut self.track_artist);
                apply_tag(tags.album, &mut self.track_album);
            },
        }
        event.track_duration.apply(&mut self.track_duration);
        event.track_position.apply(&mut self.track_position);
        event.buffering.apply(&mut self.buffering);
        event.ping_times.apply(&mut self.ping_times);
        event.pause_before_playing.apply(&mut self.pause_before_playing);
    }
}

} // verus!
