//! The display's state and what it shows: the mirror of the player, the
//! alert that may take the display over, and the scroll offsets of the two
//! texts that can be too long for their place.

use crate::alert::{
    station_error_state, station_error_text, version_mismatch_text, ErrorList, ErrorState,
};
use crate::composer::{
    assembleline2, format_indicator, format_station_label, format_track_position, has_prefix,
    indicator_text, line2_text, lowercased, position_text, station_label,
};
use crate::lcd::{
    gauge_cells, gauge_line, temperature_and_strength_text, volume_text,
    LINE1_DATA_CHAR_COUNT_USIZE, NUM_CHARACTERS_PER_LINE, VOLUME_CHAR_COUNT,
};
use crate::messages::{
    CurrentStation, Event, PingTimes, PipelineState, PlayerStateDiff, StationType, Track,
    Update,
};
use crate::mirror::{applied, writes, Field, PlayerStateMirror};
use crate::scroll::{next_offset, window, ScrollCursor};
use crate::text::{decimal, fitted, repeated};
use crate::translit::{fitted_codes, transliterated};
use vstd::prelude::*;
use vstd::string::*;
use vstd::utf8::*;

verus! {

/// Time after a change of station before the network indicator is shown, in
/// milliseconds.
pub const GRACE_PERIOD_MS: u64 = 6000;

/// Number of timer ticks after a change of station before texts scroll.
pub const TICKS_BEFORE_SCROLLING: u32 = 1;

/// A song title longer than this many bytes scrolls.
pub const SONG_TITLE_CELLS: usize = 40;

/// What shows while nothing is known of the player yet.
pub open spec fn unknown_state_text() -> Seq<char> {
    "Error state: unknown"@
}

/// What the display client knows and remembers.
pub struct DisplayState {
    /// The player's state as last reported.
    pub mirror: PlayerStateMirror,
    /// The alert that is active; under `NoError` the player's state shows.
    pub alert: ErrorState,
    /// The words that report the alert.
    pub alert_text: String,
    /// Where the window into the song title starts.
    pub song_title_cursor: ScrollCursor,
    /// Where the window into the text of line 2 starts.
    pub line2_cursor: ScrollCursor,
    /// Whether a station has played since the start.
    pub started_up: bool,
    /// Whether the indicator shows the temperature in place of the ping; it
    /// flips with every measurement that the indicator takes up.
    pub show_temperature: bool,
    /// Whether the last thing to come in for the status zone was a network
    /// measurement, after the grace period.
    pub indicator_active: bool,
    /// When the station last changed, in milliseconds of the caller's clock.
    pub station_changed_at_ms: u64,
    /// Timer ticks since the station last changed, counted up to the number
    /// at which scrolling begins.
    pub ticks_since_change: u32,
    /// The protocol version that this client expects of the player.
    pub expected_version: String,
}

/// What the sensors of the machine read.
pub struct Readings {
    /// Temperature of the processor in degrees Celsius.
    pub cpu_temperature: i32,
    /// Strength of the wireless signal as the system reports it.
    pub wifi_strength: String,
}

/// The four lines of the display in display codes.
pub struct Screen {
    pub line1: Vec<u8>,
    pub line2: Vec<u8>,
    pub line3: Vec<u8>,
    pub line4: Vec<u8>,
}

impl Screen {
    /// Every line has exactly twenty cells.
    pub open spec fn well_formed(self) -> bool {
        &&& self.line1@.len() == NUM_CHARACTERS_PER_LINE
        &&& self.line2@.len() == NUM_CHARACTERS_PER_LINE
        &&& self.line3@.len() == NUM_CHARACTERS_PER_LINE
        &&& self.line4@.len() == NUM_CHARACTERS_PER_LINE
    }

    /// All eighty cells, line after line.
    pub open spec fn cells(self) -> Seq<u8> {
        self.line1@ + self.line2@ + self.line3@ + self.line4@
    }
}

/// The text of an optional field, empty where the field is unset.
pub open spec fn text_of(field: Option<String>) -> Seq<char> {
    match field {
        Some(text) => text@,
        None => Seq::empty(),
    }
}

/// The number that a listener gives a track: one more than its index.
pub open spec fn track_number(index: Option<usize>) -> nat {
    match index {
        Some(i) => if i < usize::MAX {
            (i + 1) as nat
        } else {
            i as nat
        },
        None => 1,
    }
}

/// Number of tracks of a list that are there to be listened to.
pub open spec fn listenable_tracks(tracks: Seq<Track>) -> nat
    decreases tracks.len(),
{
    if tracks.len() == 0 {
        0
    } else {
        listenable_tracks(tracks.drop_last()) + (if tracks.last().is_notification {
            0nat
        } else {
            1nat
        })
    }
}

/// Number of tracks of the station that plays, zero without one.
pub open spec fn track_count(station: Option<CurrentStation>) -> nat {
    match station {
        Some(CurrentStation::PlayingStation { tracks: Some(tracks), .. }) => listenable_tracks(
            tracks@,
        ),
        _ => 0,
    }
}

/// The kind of the station that plays, if one does.
pub open spec fn source_type(station: Option<CurrentStation>) -> Option<StationType> {
    match station {
        Some(CurrentStation::PlayingStation { source_type, .. }) => Some(source_type),
        _ => None,
    }
}

/// The channel of the station that plays: its index, or two question marks
/// where it has none.
pub open spec fn channel_text(station: Option<CurrentStation>) -> Seq<char> {
    match station {
        Some(CurrentStation::PlayingStation { index: Some(index), .. }) => index@,
        _ => "??"@,
    }
}

/// The station's title as shown: without a leading `QUIET: ` in any mix of
/// cases.
pub open spec fn station_title_shown(station: Option<CurrentStation>) -> Seq<char> {
    match station {
        Some(CurrentStation::PlayingStation { title: Some(title), .. }) => if title@.len() >= 7
            && has_prefix(lowercased(title@), "quiet: "@) {
            title@.subrange(7, title@.len() as int)
        } else {
            title@
        },
        _ => Seq::empty(),
    }
}

/// The organisation as shown: behind the track's number from the second
/// track on.
pub open spec fn organisation_shown(mirror: PlayerStateMirror) -> Seq<char> {
    let organisation = text_of(mirror.track_organisation);
    match mirror.current_track_index {
        Some(index) => if index > 0 && organisation.len() > 0 {
            decimal(track_number(Some(index))) + " "@ + organisation
        } else {
            organisation
        },
        None => organisation,
    }
}

/// The whole text of line 2, of which the line shows a window.
pub open spec fn line2_source(mirror: PlayerStateMirror) -> Seq<char> {
    let text = line2_text(
        organisation_shown(mirror),
        station_title_shown(mirror.current_station),
        text_of(mirror.track_artist),
        text_of(mirror.track_album),
        match mirror.pause_before_playing {
            Some(seconds) => seconds,
            None => 0,
        },
    );
    if source_type(mirror.current_station) == Some(StationType::CD) && text.len() == 0 {
        "CD track "@ + decimal(track_number(mirror.current_track_index)) + " of "@ + decimal(
            track_count(mirror.current_station),
        )
    } else {
        text
    }
}

/// Whether line 1 shows the position counter: a station plays, position and
/// duration are known, and the first two seconds of the first track are over.
pub open spec fn counter_shown(mirror: PlayerStateMirror) -> bool {
    &&& source_type(mirror.current_station) is Some
    &&& mirror.pipeline_state == Some(PipelineState::Playing)
    &&& mirror.track_duration is Some
    &&& mirror.track_position is Some
    &&& (mirror.track_position->0 >= 2 || (mirror.current_track_index is Some
        && mirror.current_track_index->0 > 0))
}

/// The text of the data zone of line 1: the position counter, else the
/// station's label.
pub open spec fn data_zone_text(mirror: PlayerStateMirror) -> Seq<char> {
    if counter_shown(mirror) {
        position_text(
            track_number(mirror.current_track_index),
            mirror.track_position->0 as nat,
            mirror.track_duration->0 as nat,
        )
    } else {
        match source_type(mirror.current_station) {
            Some(kind) => station_label(kind, channel_text(mirror.current_station)),
            None => Seq::empty(),
        }
    }
}

/// Whether the status zone shows the network indicator: a measurement was
/// the last thing to come in for the zone, the player plays, and there is
/// something to say.
pub open spec fn indicator_shown(state: DisplayState, cpu_temperature: i32) -> bool {
    &&& state.indicator_active
    &&& state.mirror.pipeline_state == Some(PipelineState::Playing)
    &&& state.mirror.ping_times is Some
    &&& indicator_text(state.mirror.ping_times->0, state.show_temperature, cpu_temperature)
        is Some
}

/// What the status zone says of the player itself: the volume while it
/// plays, else the state of its pipeline.
pub open spec fn player_status_text(mirror: PlayerStateMirror) -> Seq<char> {
    volume_text(
        match mirror.pipeline_state {
            Some(state) => state,
            None => PipelineState::Null,
        },
        mirror.is_muted == Some(true),
        match mirror.volume {
            Some(volume) => volume,
            None => -1i32,
        },
    )
}

/// The text of the status zone of line 1: the network indicator, else the
/// volume or the state of the pipeline.
pub open spec fn status_zone_text(state: DisplayState, cpu_temperature: i32) -> Seq<char> {
    if indicator_shown(state, cpu_temperature) {
        indicator_text(state.mirror.ping_times->0, state.show_temperature, cpu_temperature)->0
    } else {
        player_status_text(state.mirror)
    }
}

/// Whether line 4 shows the buffering gauge: a station other than a disc
/// has played, its buffering is known, and the song title leaves the line free.
pub open spec fn gauge_shown(state: DisplayState) -> bool {
    &&& state.started_up
    &&& state.mirror.buffering is Some
    &&& source_type(state.mirror.current_station) != Some(StationType::CD)
    &&& encode_utf8(text_of(state.mirror.track_title)).len() <= NUM_CHARACTERS_PER_LINE
}

/// Line 1: the data zone and the status zone.
pub open spec fn line1_cells(state: DisplayState, cpu_temperature: i32) -> Seq<u8> {
    fitted(transliterated(data_zone_text(state.mirror)), LINE1_DATA_CHAR_COUNT_USIZE as nat)
        + fitted(
        transliterated(status_zone_text(state, cpu_temperature)),
        VOLUME_CHAR_COUNT as nat,
    )
}

/// Line 2: the window into its text.
pub open spec fn line2_cells(state: DisplayState) -> Seq<u8> {
    fitted(
        transliterated(window(line2_source(state.mirror), state.line2_cursor.offset)),
        NUM_CHARACTERS_PER_LINE as nat,
    )
}

/// Lines 3 and 4 as far as the song title fills them: the window into the
/// title over forty cells.
pub open spec fn title_cells(state: DisplayState) -> Seq<u8> {
    fitted(
        transliterated(window(text_of(state.mirror.track_title), state.song_title_cursor.offset)),
        SONG_TITLE_CELLS as nat,
    )
}

/// Line 3: the song title, or without one the sensors' readings once a
/// station has played.
pub open spec fn line3_cells(
    state: DisplayState,
    cpu_temperature: i32,
    wifi_strength: Seq<char>,
) -> Seq<u8> {
    if text_of(state.mirror.track_title).len() > 0 {
        title_cells(state).subrange(0, NUM_CHARACTERS_PER_LINE as int)
    } else if state.started_up {
        fitted(
            transliterated(temperature_and_strength_text(cpu_temperature, wifi_strength)),
            NUM_CHARACTERS_PER_LINE as nat,
        )
    } else {
        repeated(0x20u8, NUM_CHARACTERS_PER_LINE as nat)
    }
}

/// Line 4: the buffering gauge, or the second half of a long song title.
pub open spec fn line4_cells(state: DisplayState) -> Seq<u8> {
    if gauge_shown(state) {
        gauge_cells(state.mirror.buffering->0)
    } else if text_of(state.mirror.track_title).len() > 0 {
        title_cells(state).subrange(
            NUM_CHARACTERS_PER_LINE as int,
            SONG_TITLE_CELLS as int,
        )
    } else {
        repeated(0x20u8, NUM_CHARACTERS_PER_LINE as nat)
    }
}

/// The eighty cells of an alert: its words from the top left, filled with
/// spaces.
pub open spec fn alert_cells(alert_text: Seq<char>) -> Seq<u8> {
    fitted(transliterated(alert_text), (4 * NUM_CHARACTERS_PER_LINE) as nat)
}

/// What the display shows: under an alert its words alone, over all four
/// lines; else the four lines of the player's state.
pub open spec fn composed(
    state: DisplayState,
    cpu_temperature: i32,
    wifi_strength: Seq<char>,
) -> Seq<u8> {
    if state.alert != ErrorState::NoError {
        alert_cells(state.alert_text@)
    } else {
        line1_cells(state, cpu_temperature) + line2_cells(state) + line3_cells(
            state,
            cpu_temperature,
            wifi_strength,
        ) + line4_cells(state)
    }
}

/// The alert after a change event: a station that plays ends any alert, a
/// station that failed raises the alert of its failure, and without either
/// an error of the playback engine raises its own.
pub open spec fn alert_after(alert: ErrorState, diff: PlayerStateDiff) -> ErrorState {
    match diff.current_station {
        Update::Value(CurrentStation::PlayingStation { .. }) => ErrorState::NoError,
        Update::Value(CurrentStation::FailedToPlayStation { error }) => station_error_state(
            error,
        ),
        _ => if diff.latest_error is Value {
            ErrorState::GStreamerError
        } else {
            alert
        },
    }
}

/// The words of the alert after a change event.
pub open spec fn alert_text_after(alert_text: Seq<char>, diff: PlayerStateDiff) -> Seq<char> {
    match diff.current_station {
        Update::Value(CurrentStation::PlayingStation { .. }) => Seq::empty(),
        Update::Value(CurrentStation::FailedToPlayStation { error }) => station_error_text(error),
        _ => match diff.latest_error {
            Update::Value(text) => text@,
            _ => alert_text,
        },
    }
}

/// Whether a change event moves the window into the song title back to the
/// start: the station or the title changes, or an alert is raised.
pub open spec fn title_window_resets(diff: PlayerStateDiff) -> bool {
    diff.current_station.is_present() || writes(diff, Field::TrackTitle) || diff.latest_error
        is Value
}

/// Whether a change event moves the window into line 2 back to the start:
/// the station or a part of the line changes, or an alert is raised.
pub open spec fn line2_window_resets(diff: PlayerStateDiff) -> bool {
    diff.current_station.is_present() || diff.current_track_tags.is_present()
        || diff.current_track_index.is_present() || diff.pause_before_playing.is_present()
        || diff.latest_error is Value
}

/// Whether a change event has the status zone say anew what the player does:
/// the station, the volume, the mute flag or the state of the pipeline is
/// in the event.
pub open spec fn status_zone_rewritten(diff: PlayerStateDiff) -> bool {
    diff.current_station.is_present() || diff.volume.is_present() || diff.is_muted.is_present()
        || diff.pipeline_state.is_present()
}

/// Whether a change event brings a measurement that the network indicator
/// takes up: a station has played, the station does not change with this
/// event, and the grace period since its last change is over.
pub open spec fn indicator_advances(
    state: DisplayState,
    diff: PlayerStateDiff,
    now_ms: u64,
) -> bool {
    &&& diff.ping_times.is_present()
    &&& !diff.current_station.is_present()
    &&& state.started_up
    &&& now_ms >= state.station_changed_at_ms
    &&& now_ms - state.station_changed_at_ms > GRACE_PERIOD_MS
}

/// Whether `after` is the state that follows `before` on a change event.
pub open spec fn follows_change(
    before: DisplayState,
    diff: PlayerStateDiff,
    now_ms: u64,
    after: DisplayState,
) -> bool {
    &&& after.mirror == applied(before.mirror, diff)
    &&& after.alert == alert_after(before.alert, diff)
    &&& after.alert_text@ == alert_text_after(before.alert_text@, diff)
    &&& after.song_title_cursor.offset == (if title_window_resets(diff) {
        0
    } else {
        before.song_title_cursor.offset
    })
    &&& after.line2_cursor.offset == (if line2_window_resets(diff) {
        0
    } else {
        before.line2_cursor.offset
    })
    &&& after.started_up == (before.started_up || diff.current_station matches Update::Value(
        CurrentStation::PlayingStation { .. },
    ))
    &&& after.show_temperature == (if indicator_advances(before, diff, now_ms) {
        !before.show_temperature
    } else {
        before.show_temperature
    })
    &&& after.indicator_active == (if status_zone_rewritten(diff) {
        false
    } else {
        before.indicator_active || indicator_advances(before, diff, now_ms)
    })
    &&& after.station_changed_at_ms == (if diff.current_station.is_present() {
        now_ms
    } else {
        before.station_changed_at_ms
    })
    &&& after.ticks_since_change == (if diff.current_station.is_present() {
        0
    } else {
        before.ticks_since_change
    })
    &&& after.expected_version == before.expected_version
}

/// Whether `after` is the state that follows `before` when the player
/// announces its protocol version: the expected version changes nothing, any
/// other raises the alert for a version mismatch.
pub open spec fn follows_version(
    before: DisplayState,
    received: Seq<char>,
    after: DisplayState,
) -> bool {
    &&& after.mirror == before.mirror
    &&& after.started_up == before.started_up
    &&& after.show_temperature == before.show_temperature
    &&& after.indicator_active == before.indicator_active
    &&& after.station_changed_at_ms == before.station_changed_at_ms
    &&& after.ticks_since_change == before.ticks_since_change
    &&& after.expected_version == before.expected_version
    &&& if received == before.expected_version@ {
        &&& after.alert == before.alert
        &&& after.alert_text == before.alert_text
        &&& after.song_title_cursor.offset == before.song_title_cursor.offset
        &&& after.line2_cursor.offset == before.line2_cursor.offset
    } else {
        &&& after.alert == ErrorState::VersionMismatch
        &&& after.alert_text@ == version_mismatch_text(before.expected_version@, received)
        &&& after.song_title_cursor.offset == 0
        &&& after.line2_cursor.offset == 0
    }
}

/// Whether `after` is the state that follows `before` when the player logs
/// an error of its playback engine: the alert is raised and the windows
/// return to the start; nothing of the station changes.
pub open spec fn follows_engine_error(
    before: DisplayState,
    message: String,
    after: DisplayState,
) -> bool {
    &&& after.mirror == before.mirror
    &&& after.alert == ErrorState::GStreamerError
    &&& after.alert_text == message
    &&& after.song_title_cursor.offset == 0
    &&& after.line2_cursor.offset == 0
    &&& after.started_up == before.started_up
    &&& after.show_temperature == before.show_temperature
    &&& after.indicator_active == before.indicator_active
    &&& after.station_changed_at_ms == before.station_changed_at_ms
    &&& after.ticks_since_change == before.ticks_since_change
    &&& after.expected_version == before.expected_version
}

/// Whether `after` is the state that follows `before` on an event.
pub open spec fn follows_event(
    before: DisplayState,
    event: Event,
    now_ms: u64,
    after: DisplayState,
) -> bool {
    match event {
        Event::ProtocolVersion(received) => follows_version(before, received@, after),
        Event::LogMessage(message) => follows_engine_error(before, message, after),
        Event::PlayerStateChanged(diff) => follows_change(before, diff, now_ms, after),
    }
}

/// The offset of a window after a timer tick: one scroll step on where the
/// text is longer than its place, else as before.
pub open spec fn offset_after_tick(chars: Seq<char>, place: nat, offset: usize) -> int {
    if encode_utf8(chars).len() > place {
        next_offset(encode_utf8(chars), offset as int)
    } else {
        offset as int
    }
}

/// Whether `after` is the state that follows `before` on a timer tick.
/// Under an alert nothing moves. Else the first ticks after a change of
/// station are counted, and every later one scrolls the two windows.
pub open spec fn follows_tick(before: DisplayState, after: DisplayState) -> bool {
    &&& after.mirror == before.mirror
    &&& after.alert == before.alert
    &&& after.alert_text == before.alert_text
    &&& after.started_up == before.started_up
    &&& after.show_temperature == before.show_temperature
    &&& after.indicator_active == before.indicator_active
    &&& after.station_changed_at_ms == before.station_changed_at_ms
    &&& after.expected_version == before.expected_version
    &&& if before.alert != ErrorState::NoError {
        &&& after.ticks_since_change == before.ticks_since_change
        &&& after.song_title_cursor.offset == before.song_title_cursor.offset
        &&& after.line2_cursor.offset == before.line2_cursor.offset
    } else if before.ticks_since_change < TICKS_BEFORE_SCROLLING {
        &&& after.ticks_since_change == before.ticks_since_change + 1
        &&& after.song_title_cursor.offset == before.song_title_cursor.offset
        &&& after.line2_cursor.offset == before.line2_cursor.offset
    } else {
        &&& after.ticks_since_change == before.ticks_since_change
        &&& after.song_title_cursor.offset as int == offset_after_tick(
            text_of(before.mirror.track_title),
            SONG_TITLE_CELLS as nat,
            before.song_title_cursor.offset,
        )
        &&& after.line2_cursor.offset as int == offset_after_tick(
            line2_source(before.mirror),
            NUM_CHARACTERS_PER_LINE as nat,
            before.line2_cursor.offset,
        )
    }
}

/// Whether line 3 shows the sensors' readings: no alert, no song title, and
/// a station has played.
pub open spec fn sensors_line_shown(state: DisplayState) -> bool {
    &&& state.alert == ErrorState::NoError
    &&& text_of(state.mirror.track_title).len() == 0
    &&& state.started_up
}

/// Whether the status zone shows the processor's temperature.
pub open spec fn temperature_indicator_shown(state: DisplayState) -> bool {
    &&& state.alert == ErrorState::NoError
    &&& state.indicator_active
    &&& state.show_temperature
    &&& state.mirror.pipeline_state == Some(PipelineState::Playing)
    &&& state.mirror.ping_times matches Some(PingTimes::FinishedPingingRemote { .. })
}

/// Whether anything on the display comes from the sensors.
pub open spec fn readings_shown(state: DisplayState) -> bool {
    sensors_line_shown(state) || temperature_indicator_shown(state)
}

/// Where nothing on the display comes from the sensors, what they read
/// makes no difference to what is shown.
pub proof fn lemma_unshown_readings_make_no_difference(
    state: DisplayState,
    cpu_temperature: i32,
    wifi_strength: Seq<char>,
    other_temperature: i32,
    other_strength: Seq<char>,
)
    requires
        !readings_shown(state),
    ensures
        composed(state, cpu_temperature, wifi_strength) == composed(
            state,
            other_temperature,
            other_strength,
        ),
{
}

/// Whether both windows start at a place where a window can start: on
/// the first byte of a character of their text, and inside the text unless
/// at its start.
pub open spec fn windows_valid(state: DisplayState) -> bool {
    &&& state.song_title_cursor.valid_for(text_of(state.mirror.track_title))
    &&& state.line2_cursor.valid_for(line2_source(state.mirror))
}

/// An event leaves both windows where a window can start: a window whose
/// text may have changed is back at the start, and any other has the text it
/// had.
pub proof fn lemma_event_keeps_windows_valid(
    before: DisplayState,
    event: Event,
    now_ms: u64,
    after: DisplayState,
)
    requires
        follows_event(before, event, now_ms, after),
        windows_valid(before),
    ensures
        windows_valid(after),
{
    encode_utf8_valid_utf8(text_of(after.mirror.track_title));
    encode_utf8_valid_utf8(line2_source(after.mirror));
    assert(is_char_boundary(encode_utf8(text_of(after.mirror.track_title)), 0));
    assert(is_char_boundary(encode_utf8(line2_source(after.mirror)), 0));
    match event {
        Event::PlayerStateChanged(diff) => {
            if !title_window_resets(diff) {
                assert(after.mirror.track_title == before.mirror.track_title);
            }
            if !line2_window_resets(diff) {
                assert(after.mirror.track_organisation == before.mirror.track_organisation);
                assert(after.mirror.track_artist == before.mirror.track_artist);
                assert(after.mirror.track_album == before.mirror.track_album);
                assert(after.mirror.current_station == before.mirror.current_station);
                assert(after.mirror.current_track_index == before.mirror.current_track_index);
                assert(after.mirror.pause_before_playing == before.mirror.pause_before_playing);
                assert(line2_source(after.mirror) == line2_source(before.mirror));
            }
        },
        _ => {},
    }
}

/// A tick of the scroll timer leaves both windows where a window can start.
pub proof fn lemma_tick_keeps_windows_valid(before: DisplayState, after: DisplayState)
    requires
        follows_tick(before, after),
        windows_valid(before),
    ensures
        windows_valid(after),
{
    let title = encode_utf8(text_of(before.mirror.track_title));
    let line2 = encode_utf8(line2_source(before.mirror));
    encode_utf8_valid_utf8(text_of(before.mirror.track_title));
    encode_utf8_valid_utf8(line2_source(before.mirror));
    crate::scroll::lemma_next_offset_valid(title, before.song_title_cursor.offset as int);
    crate::scroll::lemma_next_offset_valid(line2, before.line2_cursor.offset as int);
}

/// An event that raises an alert, or replaces one alert by another, moves
/// both windows back to the start.
pub proof fn lemma_raised_alert_resets_windows(
    before: DisplayState,
    event: Event,
    now_ms: u64,
    after: DisplayState,
)
    requires
        follows_event(before, event, now_ms, after),
        after.alert != ErrorState::NoError,
        after.alert != before.alert,
    ensures
        after.song_title_cursor.offset == 0,
        after.line2_cursor.offset == 0,
{
}

/// An announced protocol version other than the expected one always leads
/// to the alert for a version mismatch, whatever the state was; the expected
/// one never changes the alert.
pub proof fn lemma_version_mismatch_raises_alert(
    before: DisplayState,
    received: String,
    now_ms: u64,
    after: DisplayState,
)
    requires
        follows_event(before, Event::ProtocolVersion(received), now_ms, after),
    ensures
        received@ != before.expected_version@ ==> after.alert == ErrorState::VersionMismatch
            && after.alert != ErrorState::NoError,
        received@ == before.expected_version@ ==> after.alert == before.alert,
{
}

fn field_text(field: &Option<String>) -> (text: &str)
    ensures
        text@ == text_of(*field),
{
    match field {
        Some(text) => text.as_str(),
        None => {
            proof {
                reveal_strlit("");
            }
            let empty = "";
            assert(empty@ =~= Seq::<char>::empty());
            empty
        },
    }
}

fn track_number_of(index: &Option<usize>) -> (number: u64)
    ensures
        number as nat == track_number(*index),
{
    match index {
        Some(i) => if *i < usize::MAX {
            (*i + 1) as u64
        } else {
            *i as u64
        },
        None => 1,
    }
}

fn count_listenable(tracks: &Vec<Track>) -> (count: usize)
    ensures
        count as nat == listenable_tracks(tracks@),
{
    let mut count: usize = 0;
    let mut i: usize = 0;
    assert(tracks@.subrange(0, 0) =~= Seq::<Track>::empty());
    while i < tracks.len()
        invariant
            i <= tracks.len(),
            count <= i,
            count as nat == listenable_tracks(tracks@.subrange(0, i as int)),
        decreases tracks.len() - i,
    {
        proof {
            let next = tracks@.subrange(0, i + 1);
            assert(next.drop_last() =~= tracks@.subrange(0, i as int));
            assert(next.last() == tracks@[i as int]);
        }
        if !tracks[i].is_notification {
            count += 1;
        }
        i += 1;
    }
    assert(tracks@.subrange(0, i as int) =~= tracks@);
    count
}

fn track_count_of(station: &Option<CurrentStation>) -> (count: usize)
    ensures
        count as nat == track_count(*station),
{
    match station {
        Some(CurrentStation::PlayingStation { tracks: Some(tracks), .. }) => count_listenable(
            tracks,
        ),
        _ => 0,
    }
}

fn source_type_of(station: &Option<CurrentStation>) -> (kind: Option<StationType>)
    ensures
        kind == source_type(*station),
{
    match station {
        Some(CurrentStation::PlayingStation { source_type, .. }) => Some(*source_type),
        _ => None,
    }
}

fn channel_of(station: &Option<CurrentStation>) -> (channel: &str)
    ensures
        channel@ == channel_text(*station),
{
    match station {
        Some(CurrentStation::PlayingStation { index: Some(index), .. }) => index.as_str(),
        _ => "??",
    }
}

fn station_title_of(station: &Option<CurrentStation>) -> (title: String)
    ensures
        title@ == station_title_shown(*station),
{
    match station {
        Some(CurrentStation::PlayingStation { title: Some(title), .. }) => {
            let len = title.as_str().unicode_len();
            if len >= 7 && crate::composer::lowercase_starts_with(title.as_str(), "quiet: ") {
                title.as_str().substring_char(7, len).to_string()
            } else {
                title.clone()
            }
        },
        _ => String::new(),
    }
}

fn organisation_of(mirror: &PlayerStateMirror) -> (text: String)
    ensures
        text@ == organisation_shown(*mirror),
{
    let organisation = field_text(&mirror.track_organisation);
    let numbered = match mirror.current_track_index {
        Some(index) => index > 0 && organisation.unicode_len() > 0,
        None => false,
    };
    let mut text = String::new();
    if numbered {
        crate::text::push_decimal(&mut text, track_number_of(&mirror.current_track_index));
        text.append(" ");
    }
    text.append(organisation);
    assert(text@ =~= organisation_shown(*mirror));
    text
}

/// Puts the whole text of line 2 together.
pub fn line2_source_of(mirror: &PlayerStateMirror) -> (text: String)
    ensures
        text@ == line2_source(*mirror),
{
    let pause = match mirror.pause_before_playing {
        Some(seconds) => seconds,
        None => 0,
    };
    let text = assembleline2(
        organisation_of(mirror),
        station_title_of(&mirror.current_station),
        field_text(&mirror.track_artist).to_string(),
        field_text(&mirror.track_album).to_string(),
        pause,
    );
    let is_disc = match source_type_of(&mirror.current_station) {
        Some(StationType::CD) => true,
        _ => false,
    };
    if is_disc && text.as_str().unicode_len() == 0 {
        let mut disc = String::new();
        disc.append("CD track ");
        crate::text::push_decimal(&mut disc, track_number_of(&mirror.current_track_index));
        disc.append(" of ");
        crate::text::push_decimal(&mut disc, track_count_of(&mirror.current_station) as u64);
        assert(disc@ =~= line2_source(*mirror));
        disc
    } else {
        text
    }
}

fn part_of(cells: &Vec<u8>, from: usize, to: usize) -> (part: Vec<u8>)
    requires
        from <= to <= cells@.len(),
    ensures
        part@ == cells@.subrange(from as int, to as int),
{
    let mut part: Vec<u8> = Vec::new();
    let mut i: usize = from;
    assert(part@ =~= cells@.subrange(from as int, from as int));
    while i < to
        invariant
            from <= i <= to,
            to <= cells@.len(),
            part@ == cells@.subrange(from as int, i as int),
        decreases to - i,
    {
        part.push(cells[i]);
        i += 1;
        assert(part@ =~= cells@.subrange(from as int, i as int));
    }
    part
}

fn blank_line() -> (cells: Vec<u8>)
    ensures
        cells@ == repeated(0x20u8, NUM_CHARACTERS_PER_LINE as nat),
{
    let mut cells: Vec<u8> = Vec::new();
    crate::text::push_spaces(&mut cells, NUM_CHARACTERS_PER_LINE);
    assert(cells@ =~= repeated(0x20u8, NUM_CHARACTERS_PER_LINE as nat));
    cells
}

fn is_present<T>(update: &Update<T>) -> (present: bool)
    ensures
        present == update.is_present(),
{
    match update {
        Update::Unchanged => false,
        _ => true,
    }
}

impl DisplayState {
    /// The state at the start: nothing is known of the player, and the
    /// display says so.
    pub fn new(expected_version: String) -> (state: DisplayState)
        ensures
            state.mirror == PlayerStateMirror::new_spec(),
            state.alert == ErrorState::NotKnown,
            state.alert_text@ == unknown_state_text(),
            state.song_title_cursor.offset == 0,
            state.line2_cursor.offset == 0,
            !state.started_up,
            !state.show_temperature,
            !state.indicator_active,
            state.station_changed_at_ms == 0,
            state.ticks_since_change == 0,
            state.expected_version == expected_version,
    {
        DisplayState {
            mirror: PlayerStateMirror::new(),
            alert: ErrorState::NotKnown,
            alert_text: "Error state: unknown".to_string(),
            song_title_cursor: ScrollCursor::new(),
            line2_cursor: ScrollCursor::new(),
            started_up: false,
            show_temperature: false,
            indicator_active: false,
            station_changed_at_ms: 0,
            ticks_since_change: 0,
            expected_version,
        }
    }

    /// Takes in one event of the player at the time `now_ms` of the caller's
    /// clock.
    pub fn on_event(&mut self, event: Event, now_ms: u64)
        ensures
            follows_event(*old(self), event, now_ms, *final(self)),
    {
        match event {
            Event::ProtocolVersion(received) => {
                let verdict = ErrorList::from_protocol_version(
                    self.expected_version.as_str(),
                    received.as_str(),
                );
                if verdict.errors_changed() {
                    self.alert = ErrorState::VersionMismatch;
                    self.alert_text = verdict.error_as_string().to_string();
                    self.song_title_cursor.reset();
                    self.line2_cursor.reset();
                }
            },
            Event::LogMessage(message) => {
                self.alert = ErrorState::GStreamerError;
                self.alert_text = message;
                self.song_title_cursor.reset();
                self.line2_cursor.reset();
            },
            Event::PlayerStateChanged(diff) => {
                self.on_change(diff, now_ms);
            },
        }
    }

    /// Takes in one change event at the time `now_ms` of the caller's clock.
    pub fn on_change(&mut self, diff: PlayerStateDiff, now_ms: u64)
        ensures
            follows_change(*old(self), diff, now_ms, *final(self)),
    {
        let station_changes = is_present(&diff.current_station);
        let raises_engine_alert = match &diff.latest_error {
            Update::Value(_) => true,
            _ => false,
        };
        match &diff.current_station {
            Update::Value(CurrentStation::PlayingStation { .. }) => {
                self.alert = ErrorState::NoError;
                self.alert_text = String::new();
                self.started_up = true;
            },
            Update::Value(CurrentStation::FailedToPlayStation { error }) => {
                let verdict = ErrorList::from_station_error(error);
                self.alert = verdict.error_as_enum();
                self.alert_text = verdict.error_as_string().to_string();
            },
            _ => {
                match &diff.latest_error {
                    Update::Value(text) => {
                        self.alert = ErrorState::GStreamerError;
                        self.alert_text = text.clone();
                    },
                    _ => {},
                }
            },
        }
        if station_changes || raises_engine_alert || crate::mirror::writes_title(&diff) {
            self.song_title_cursor.reset();
        }
        if station_changes || raises_engine_alert || is_present(&diff.current_track_tags)
            || is_present(&diff.current_track_index) || is_present(&diff.pause_before_playing) {
            self.line2_cursor.reset();
        }
        let advances = !station_changes && is_present(&diff.ping_times) && self.started_up
            && now_ms >= self.station_changed_at_ms && now_ms - self.station_changed_at_ms
            > GRACE_PERIOD_MS;
        if advances {
            self.show_temperature = !self.show_temperature;
        }
        if station_changes || is_present(&diff.volume) || is_present(&diff.is_muted)
            || is_present(&diff.pipeline_state) {
            self.indicator_active = false;
        } else if advances {
            self.indicator_active = true;
        }
        if station_changes {
            self.station_changed_at_ms = now_ms;
            self.ticks_since_change = 0;
        }
        self.mirror.apply(diff);
    }

    /// Takes in the header that opens the player's stream. A header that is
    /// not accepted raises the alert for a version mismatch, with the words
    /// that report it; an accepted one changes nothing.
    pub fn on_header(&mut self, header: &[u8]) -> (verdict: crate::decoder::HeaderVerdict)
        ensures
            verdict == crate::decoder::header_verdict(old(self).expected_version@, header@),
            final(self).mirror == old(self).mirror,
            final(self).started_up == old(self).started_up,
            final(self).show_temperature == old(self).show_temperature,
            final(self).indicator_active == old(self).indicator_active,
            final(self).station_changed_at_ms == old(self).station_changed_at_ms,
            final(self).ticks_since_change == old(self).ticks_since_change,
            final(self).expected_version == old(self).expected_version,
            verdict is Accepted ==> *final(self) == *old(self),
            !(verdict is Accepted) ==> {
                &&& final(self).alert == ErrorState::VersionMismatch
                &&& final(self).alert_text@ == crate::decoder::header_text(
                    verdict,
                    old(self).expected_version@,
                    decode_utf8(header@),
                )
                &&& final(self).song_title_cursor.offset == 0
                &&& final(self).line2_cursor.offset == 0
            },
    {
        let (verdict, words) = crate::decoder::header_report(
            self.expected_version.as_str(),
            header,
        );
        match verdict {
            crate::decoder::HeaderVerdict::Accepted => {},
            _ => {
                self.alert = ErrorState::VersionMismatch;
                self.alert_text = words;
                self.song_title_cursor.reset();
                self.line2_cursor.reset();
            },
        }
        verdict
    }

    /// Takes in one tick of the scroll timer.
    pub fn on_tick(&mut self)
        ensures
            follows_tick(*old(self), *final(self)),
    {
        if self.alert != ErrorState::NoError {
            return;
        }
        if self.ticks_since_change < TICKS_BEFORE_SCROLLING {
            self.ticks_since_change += 1;
            return;
        }
        let title = field_text(&self.mirror.track_title);
        if title.as_bytes().len() > SONG_TITLE_CELLS {
            self.song_title_cursor.tick(title);
        }
        let line2 = line2_source_of(&self.mirror);
        if line2.as_str().as_bytes().len() > NUM_CHARACTERS_PER_LINE {
            self.line2_cursor.tick(line2.as_str());
        }
    }

    fn counter_is_shown(&self) -> (shown: bool)
        ensures
            shown == counter_shown(self.mirror),
    {
        let plays = match self.mirror.pipeline_state {
            Some(PipelineState::Playing) => true,
            _ => false,
        };
        let late = match self.mirror.track_position {
            Some(position) => position >= 2,
            None => false,
        };
        let later_track = match self.mirror.current_track_index {
            Some(index) => index > 0,
            None => false,
        };
        let known = self.mirror.track_duration.is_some() && self.mirror.track_position.is_some();
        source_type_of(&self.mirror.current_station).is_some() && plays && known && (late
            || later_track)
    }

    fn data_zone(&self) -> (text: String)
        ensures
            text@ == data_zone_text(self.mirror),
    {
        if self.counter_is_shown() {
            let position = match self.mirror.track_position {
                Some(position) => position,
                None => 0,
            };
            let duration = match self.mirror.track_duration {
                Some(duration) => duration,
                None => 0,
            };
            return format_track_position(
                track_number_of(&self.mirror.current_track_index),
                position,
                duration,
            );
        }
        match source_type_of(&self.mirror.current_station) {
            Some(kind) => format_station_label(kind, channel_of(&self.mirror.current_station)),
            None => String::new(),
        }
    }

    fn status_zone(&self, cpu_temperature: i32) -> (text: String)
        ensures
            text@ == status_zone_text(*self, cpu_temperature),
    {
        let state = match self.mirror.pipeline_state {
            Some(state) => state,
            None => PipelineState::Null,
        };
        if self.indicator_active && state == PipelineState::Playing {
            match self.mirror.ping_times {
                Some(ping) => match format_indicator(ping, self.show_temperature, cpu_temperature) {
                    Some(text) => {
                        return text;
                    },
                    None => {},
                },
                None => {},
            }
        }
        let is_muted = match self.mirror.is_muted {
            Some(muted) => muted,
            None => false,
        };
        let volume = match self.mirror.volume {
            Some(volume) => volume,
            None => -1,
        };
        crate::lcd::format_volume(state, is_muted, volume)
    }

    fn gauge_is_shown(&self) -> (shown: bool)
        ensures
            shown == gauge_shown(*self),
    {
        let is_disc = match source_type_of(&self.mirror.current_station) {
            Some(StationType::CD) => true,
            _ => false,
        };
        let title_len = field_text(&self.mirror.track_title).as_bytes().len();
        self.started_up && self.mirror.buffering.is_some() && !is_disc && title_len
            <= NUM_CHARACTERS_PER_LINE
    }

    /// Says whether anything on the display comes from the sensors, so that
    /// they need not be read where nothing does.
    pub fn shows_readings(&self) -> (shown: bool)
        ensures
            shown == readings_shown(*self),
    {
        if self.alert != ErrorState::NoError {
            return false;
        }
        let plays = match self.mirror.pipeline_state {
            Some(PipelineState::Playing) => true,
            _ => false,
        };
        let remote_done = match self.mirror.ping_times {
            Some(PingTimes::FinishedPingingRemote { .. }) => true,
            _ => false,
        };
        let no_title = field_text(&self.mirror.track_title).unicode_len() == 0;
        (no_title && self.started_up) || (self.indicator_active && self.show_temperature && plays
            && remote_done)
    }

    /// Computes what the display shows: under an alert its words alone, over
    /// all four lines; else the four lines of the player's state. Every line
    /// has exactly twenty cells, whatever the texts hold.
    pub fn compose(&self, readings: &Readings) -> (screen: Screen)
        ensures
            screen.well_formed(),
            screen.cells() == composed(*self, readings.cpu_temperature, readings.wifi_strength@),
    {
        if self.alert != ErrorState::NoError {
            let cells = fitted_codes(self.alert_text.as_str(), 4 * NUM_CHARACTERS_PER_LINE);
            let screen = Screen {
                line1: part_of(&cells, 0, 20),
                line2: part_of(&cells, 20, 40),
                line3: part_of(&cells, 40, 60),
                line4: part_of(&cells, 60, 80),
            };
            assert(screen.cells() =~= cells@);
            return screen;
        }
        let mut line1 = fitted_codes(self.data_zone().as_str(), LINE1_DATA_CHAR_COUNT_USIZE);
        let status = fitted_codes(
            self.status_zone(readings.cpu_temperature).as_str(),
            VOLUME_CHAR_COUNT,
        );
        crate::text::push_bytes(&mut line1, status.as_slice());
        let line2_whole = line2_source_of(&self.mirror);
        let line2 = fitted_codes(
            self.line2_cursor.window(line2_whole.as_str()),
            NUM_CHARACTERS_PER_LINE,
        );
        let title = field_text(&self.mirror.track_title);
        let has_title = title.unicode_len() > 0;
        let title_area = fitted_codes(self.song_title_cursor.window(title), SONG_TITLE_CELLS);
        let line3 = if has_title {
            part_of(&title_area, 0, NUM_CHARACTERS_PER_LINE)
        } else if self.started_up {
            let words = crate::lcd::format_temperature_and_strength(
                readings.cpu_temperature,
                readings.wifi_strength.as_str(),
            );
            fitted_codes(words.as_str(), NUM_CHARACTERS_PER_LINE)
        } else {
            blank_line()
        };
        let line4 = if self.gauge_is_shown() {
            match self.mirror.buffering {
                Some(buffering) => gauge_line(buffering),
                None => blank_line(),
            }
        } else if has_title {
            part_of(&title_area, NUM_CHARACTERS_PER_LINE, SONG_TITLE_CELLS)
        } else {
            blank_line()
        };
        Screen { line1, line2, line3, line4 }
    }
}

} // verus!
