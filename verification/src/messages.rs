//! The player's messages as plain values: what the player reports of itself,
//! and the sparse change events that carry it.

use vstd::prelude::*;

verus! {

/// State of the player's playback pipeline.
#[derive(Clone, Copy, Debug, PartialEq, Eq, Structural)]
pub enum PipelineState {
    VoidPending,
    Null,
    Ready,
    Paused,
    Playing,
}

impl PipelineState {
    /// The state's name as a character sequence.
    pub open spec fn spec_name(self) -> Seq<char> {
        match self {
            PipelineState::VoidPending => "VoidPending"@,
            PipelineState::Null => "Null"@,
            PipelineState::Ready => "Ready"@,
            PipelineState::Paused => "Paused"@,
            PipelineState::Playing => "Playing"@,
        }
    }

    /// The state's name.
    pub fn name(self) -> (text: &'static str)
        ensures
            text@ == self.spec_name(),
    {
        match self {
            PipelineState::VoidPending => "VoidPending",
            PipelineState::Null => "Null",
            PipelineState::Ready => "Ready",
            PipelineState::Paused => "Paused",
            PipelineState::Playing => "Playing",
        }
    }
}

/// Where a station's audio comes from.
#[derive(Clone, Copy, Debug, PartialEq, Eq, Structural)]
pub enum StationType {
    UrlList,
    UPnP,
    CD,
    Usb,
    SambaShare,
}

/// Why a disc could not be played.
#[derive(Clone, Debug, PartialEq, Eq)]
pub enum CdError {
    FailedToOpenDevice { code: Option<i32>, message: String },
    IoCtlError { code: Option<i32>, message: String },
    NoCdInfo,
    NoCd,
    CdTrayIsOpen,
    CdTrayIsNotReady,
    CdIsData1,
    CdIsData2,
    CdIsXA21,
    CdIsXA22,
    UnknownDriveStatus(i64),
    UnknownDiscStatus(i64),
    CdNotEnabled,
}

/// Why a station could not be played. Text fields hold the upstream value as
/// it prints.
#[derive(Clone, Debug, PartialEq, Eq)]
pub enum StationError {
    CdError(CdError),
    MountError(String),
    UPnPError(String),
    StationsDirectoryIoError { directory: String, err: String },
    BadStationFile(String),
    StationNotFound { index: String, directory: String },
}

/// One entry of a station's track list.
#[derive(Clone, Debug, PartialEq, Eq)]
pub struct Track {
    pub title: Option<String>,
    /// A short sound that announces something, as opposed to something to listen to.
    pub is_notification: bool,
}

/// The station that the player has selected.
#[derive(Clone, Debug, PartialEq, Eq)]
pub enum CurrentStation {
    NoStation,
    FailedToPlayStation { error: StationError },
    PlayingStation {
        index: Option<String>,
        source_type: StationType,
        title: Option<String>,
        tracks: Option<Vec<Track>>,
    },
}

/// Descriptive tags of the track being played, each known or not.
#[derive(Clone, Debug, PartialEq, Eq)]
pub struct TrackTags {
    pub title: Option<String>,
    pub organisation: Option<String>,
    pub artist: Option<String>,
    pub album: Option<String>,
}

/// Why a ping got no answer.
#[derive(Clone, Copy, Debug, PartialEq, Eq, Structural)]
pub enum PingError {
    Dns,
    FailedToSendICMP,
    FailedToRecieveICMP,
    Timeout,
    DestinationUnreachable,
}

/// Which of the two ping targets was measured last.
#[derive(Clone, Copy, Debug, PartialEq, Eq, Structural)]
pub enum PingTarget {
    Gateway,
    Remote,
}

/// Outcome of one ping: the round trip in nanoseconds, or the failure.
#[derive(Clone, Copy, Debug, PartialEq, Eq, Structural)]
pub enum PingOutcome {
    Reply(u64),
    Failed(PingError),
}

/// The player's latest network measurement. Times are in nanoseconds.
#[derive(Clone, Copy, Debug, PartialEq, Eq, Structural)]
pub enum PingTimes {
    NotPinged,
    BadUrl,
    Gateway(PingOutcome),
    GatewayAndRemote { gateway_ping: u64, remote_ping: PingOutcome, latest: PingTarget },
    FinishedPingingRemote { gateway_ping: u64 },
}

/// What a change event says of one field.
#[derive(Clone, Debug, PartialEq, Eq)]
pub enum Update<T> {
    /// The field is absent from the event: no change.
    Unchanged,
    /// The field is present and empty: the value is cleared.
    Cleared,
    /// The field is present with a value: the value is set.
    Value(T),
}

impl<T> Update<T> {
    /// The field's value after this update, given its value before.
    pub open spec fn applied(self, before: Option<T>) -> Option<T> {
        match self {
            Update::Unchanged => before,
            Update::Cleared => None,
            Update::Value(value) => Some(value),
        }
    }

    /// Whether the event mentions the field at all.
    pub open spec fn is_present(self) -> bool {
        !(self is Unchanged)
    }

    /// Applies this update to a field.
    pub fn apply(self, field: &mut Option<T>)
        ensures
            *final(field) == self.applied(*old(field)),
    {
        match self {
            Update::Unchanged => {},
            Update::Cleared => {
                *field = None;
            },
            Update::Value(value) => {
                *field = Some(value);
            },
        }
    }
}

/// A sparse change event: each field says independently whether it is
/// unchanged, cleared or set. Durations are in whole seconds.
#[derive(Clone, Debug, PartialEq, Eq)]
pub struct PlayerStateDiff {
    pub pipeline_state: Update<PipelineState>,
    pub current_station: Update<CurrentStation>,
    pub pause_before_playing: Update<u64>,
    pub current_track_index: Update<usize>,
    pub current_track_tags: Update<TrackTags>,
    pub is_muted: Update<bool>,
    pub volume: Update<i32>,
    pub buffering: Update<u8>,
    pub track_duration: Update<u64>,
    pub track_position: Update<u64>,
    pub ping_times: Update<PingTimes>,
    pub latest_error: Update<String>,
}

/// One decoded message of the player.
#[derive(Clone, Debug, PartialEq, Eq)]
pub enum Event {
    ProtocolVersion(String),
    LogMessage(String),
    PlayerStateChanged(PlayerStateDiff),
}

} // verus!
