//! The alert state: which condition, if any, takes the display over, and the
//! words that report it.

use crate::messages::{CdError, StationError};
use crate::text::{push_signed_decimal, signed_decimal};
use vstd::prelude::*;
use vstd::string::*;

verus! {

/// Every condition that can take the display over. Exactly one is active at
/// a time; `NoError` is the one under which the player's state is shown.
#[derive(PartialEq, Eq, Debug, Clone, Copy, Structural)]
pub enum ErrorState {
    NotKnown,
    NoError,
    NoStation,
    CdError,
    CdEjectError,
    MountError,
    UsbOrSambaError,
    GStreamerError,
    ProgrammerError,
    UPnPError,
    VersionMismatch,
}

/// How an optional error code prints: `None`, or the number inside `Some(..)`.
pub open spec fn code_text(code: Option<i32>) -> Seq<char> {
    match code {
        Some(number) => "Some("@ + signed_decimal(number as int) + ")"@,
        None => "None"@,
    }
}

/// The words that report a disc error.
pub open spec fn cd_error_text(error: CdError) -> Seq<char> {
    match error {
        CdError::NoCd => "No CD"@,
        CdError::NoCdInfo => "No CD information"@,
        CdError::CdTrayIsOpen => "CD tray open"@,
        CdError::CdTrayIsNotReady => "CD tray not ready"@,
        CdError::FailedToOpenDevice { code, message } => match code {
            Some(number) => if number == 123 {
                "CD missing"@
            } else if number == 2 {
                "No CD drive"@
            } else {
                "got unknown CD error "@ + signed_decimal(number as int)
            },
            None => "CD error but the code was none"@,
        },
        CdError::UnknownDiscStatus(status) => "CD error unknown disk status "@ + signed_decimal(
            status as int,
        ),
        CdError::UnknownDriveStatus(status) => "CD error unknown drive status!!"@
            + signed_decimal(status as int),
        CdError::CdIsData1 => "This is a data CD so cannot play it. (Data type 1)"@,
        CdError::CdIsData2 => "This is a data CD so cannot play it. (Data type 2)"@,
        CdError::CdIsXA21 => "This is a data CD so cannot play it. (Data type XA21)"@,
        CdError::CdIsXA22 => "This is a data CD so cannot play it. (Data type XA22)"@,
        CdError::CdNotEnabled => "CD support is not enabled. You need to recompile"@,
        CdError::IoCtlError { code, message } => "ioctl error "@ + code_text(code) + " message "@
            + message@,
    }
}

/// The alert state that a station's failure leads to.
pub open spec fn station_error_state(error: StationError) -> ErrorState {
    match error {
        StationError::StationNotFound { .. } => ErrorState::NoStation,
        StationError::UPnPError(_) => ErrorState::UPnPError,
        StationError::MountError(_) => ErrorState::MountError,
        StationError::StationsDirectoryIoError { .. } => ErrorState::NotKnown,
        StationError::BadStationFile(_) => ErrorState::ProgrammerError,
        StationError::CdError(_) => ErrorState::CdError,
    }
}

/// The words that report a station's failure.
pub open spec fn station_error_text(error: StationError) -> Seq<char> {
    match error {
        StationError::StationNotFound { index, directory } => "No station "@ + index@,
        StationError::UPnPError(text) => "UPnP error "@ + text@,
        StationError::MountError(text) => "mount error "@ + text@,
        StationError::StationsDirectoryIoError { directory, err } => "station error dir="@
            + directory@ + "  error = "@ + err@,
        StationError::BadStationFile(text) => "Bad station "@ + text@,
        StationError::CdError(cd_error) => cd_error_text(cd_error),
    }
}

/// The words that report a disagreement over the protocol's version.
pub open spec fn version_mismatch_text(expected: Seq<char>, received: Seq<char>) -> Seq<char> {
    left_line("Version mismatch"@) + left_line("LCD driver: "@ + expected) + left_line(
        "rradio:     "@ + received,
    )
}

/// `chars` cut or filled with spaces to one line of the display.
pub open spec fn left_line(chars: Seq<char>) -> Seq<char> {
    crate::text::left_fitted(chars, 20)
}

/// An alert as classified: its state and the words that report it.
#[derive(PartialEq, Eq, Debug, Clone)]
pub struct ErrorList {
    errors_changed: bool,
    error_as_enum: ErrorState,
    error_as_string: String,
}

impl ErrorList {
    /// Whether this value reports a change of the alert state.
    pub closed spec fn spec_errors_changed(&self) -> bool {
        self.errors_changed
    }

    /// The alert state.
    pub closed spec fn spec_error_as_enum(&self) -> ErrorState {
        self.error_as_enum
    }

    /// The words that report the alert.
    pub closed spec fn spec_error_as_string(&self) -> Seq<char> {
        self.error_as_string@
    }

    /// The value held before anything has been classified.
    pub fn new() -> (list: ErrorList)
        ensures
            !list.spec_errors_changed(),
            list.spec_error_as_enum() == ErrorState::UPnPError,
            list.spec_error_as_string() == "ddd"@,
    {
        ErrorList {
            errors_changed: false,
            error_as_enum: ErrorState::UPnPError,
            error_as_string: "ddd".to_string(),
        }
    }

    /// Whether this value reports a change of the alert state.
    pub fn errors_changed(&self) -> (changed: bool)
        ensures
            changed == self.spec_errors_changed(),
    {
        self.errors_changed
    }

    /// The alert state.
    pub fn error_as_enum(&self) -> (state: ErrorState)
        ensures
            state == self.spec_error_as_enum(),
    {
        self.error_as_enum
    }

    /// The words that report the alert.
    pub fn error_as_string(&self) -> (text: &str)
        ensures
            text@ == self.spec_error_as_string(),
    {
        self.error_as_string.as_str()
    }

    /// The alert that a station's failure leads to.
    pub fn from_station_error(error: &StationError) -> (list: ErrorList)
        ensures
            list.spec_errors_changed(),
            list.spec_error_as_enum() == station_error_state(*error),
            list.spec_error_as_string() == station_error_text(*error),
    {
        let mut text = String::new();
        let state = match error {
            StationError::StationNotFound { index, directory } => {
                text.append("No station ");
                text.append(index.as_str());
                ErrorState::NoStation
            },
            StationError::UPnPError(detail) => {
                text.append("UPnP error ");
                text.append(detail.as_str());
                ErrorState::UPnPError
            },
            StationError::MountError(detail) => {
                text.append("mount error ");
                text.append(detail.as_str());
                ErrorState::MountError
            },
            StationError::StationsDirectoryIoError { directory, err } => {
                text.append("station error dir=");
                text.append(directory.as_str());
                text.append("  error = ");
                text.append(err.as_str());
                ErrorState::NotKnown
            },
            StationError::BadStationFile(detail) => {
                text.append("Bad station ");
                text.append(detail.as_str());
                ErrorState::ProgrammerError
            },
            StationError::CdError(cd_error) => {
                push_cd_error_text(&mut text, cd_error);
                ErrorState::CdError
            },
        };
        assert(text@ =~= station_error_text(*error));
        ErrorList { errors_changed: true, error_as_enum: state, error_as_string: text }
    }

    /// The alert that an error of the playback engine leads to.
    pub fn from_engine_error(error: &str) -> (list: ErrorList)
        ensures
            list.spec_errors_changed(),
            list.spec_error_as_enum() == ErrorState::GStreamerError,
            list.spec_error_as_string() == error@,
    {
        ErrorList {
            errors_changed: true,
            error_as_enum: ErrorState::GStreamerError,
            error_as_string: error.to_string(),
        }
    }

    /// Checks the version that the player announces against the version this
    /// display expects. Equal versions change nothing; any other leads to the
    /// alert for a version mismatch, never to `NoError`.
    pub fn from_protocol_version(expected: &str, received: &str) -> (list: ErrorList)
        ensures
            list.spec_errors_changed() == (received@ != expected@),
            received@ != expected@ ==> list.spec_error_as_enum() == ErrorState::VersionMismatch,
            received@ != expected@ ==> list.spec_error_as_string() == version_mismatch_text(
                expected@,
                received@,
            ),
            received@ == expected@ ==> list.spec_error_as_enum() == ErrorState::NoError,
            received@ == expected@ ==> list.spec_error_as_string() == Seq::<char>::empty(),
    {
        if same_text(expected, received) {
            ErrorList {
                errors_changed: false,
                error_as_enum: ErrorState::NoError,
                error_as_string: String::new(),
            }
        } else {
            let mut text = String::new();
            crate::text::push_left_fitted(&mut text, "Version mismatch", 20);
            let mut ours = String::new();
            ours.append("LCD driver: ");
            ours.append(expected);
            crate::text::push_left_fitted(&mut text, ours.as_str(), 20);
            let mut theirs = String::new();
            theirs.append("rradio:     ");
            theirs.append(received);
            crate::text::push_left_fitted(&mut text, theirs.as_str(), 20);
            assert(text@ =~= version_mismatch_text(expected@, received@));
            ErrorList {
                errors_changed: true,
                error_as_enum: ErrorState::VersionMismatch,
                error_as_string: text,
            }
        }
    }
}

/// Whether two texts are the same, character by character.
pub fn same_text(a: &str, b: &str) -> (same: bool)
    ensures
        same == (a@ == b@),
{
    let len = a.unicode_len();
    if len != b.unicode_len() {
        return false;
    }
    let mut i: usize = 0;
    while i < len
        invariant
            i <= len,
            len == a@.len(),
            len == b@.len(),
            a@.subrange(0, i as int) == b@.subrange(0, i as int),
        decreases len - i,
    {
        if a.get_char(i) != b.get_char(i) {
            return false;
        }
        proof {
            assert(a@.subrange(0, i + 1) =~= a@.subrange(0, i as int).push(a@[i as int]));
            assert(b@.subrange(0, i + 1) =~= b@.subrange(0, i as int).push(b@[i as int]));
        }
        i += 1;
    }
    assert(a@ =~= a@.subrange(0, len as int));
    assert(b@ =~= b@.subrange(0, len as int));
    true
}

fn push_code_text(out: &mut String, code: &Option<i32>)
    ensures
        final(out)@ == old(out)@ + code_text(*code),
{
    match code {
        Some(number) => {
            out.append("Some(");
            push_signed_decimal(out, *number as i64);
            out.append(")");
        },
        None => {
            out.append("None");
        },
    }
    assert(final(out)@ =~= old(out)@ + code_text(*code));
}

fn push_cd_error_text(out: &mut String, error: &CdError)
    ensures
        final(out)@ == old(out)@ + cd_error_text(*error),
{
    match error {
        CdError::NoCd => {
            out.append("No CD");
        },
        CdError::NoCdInfo => {
            out.append("No CD information");
        },
        CdError::CdTrayIsOpen => {
            out.append("CD tray open");
        },
        CdError::CdTrayIsNotReady => {
            out.append("CD tray not ready");
        },
        CdError::FailedToOpenDevice { code, message } => match code {
            Some(number) => {
                if *number == 123 {
                    out.append("CD missing");
                } else if *number == 2 {
                    out.append("No CD drive");
                } else {
                    out.append("got unknown CD error ");
                    push_signed_decimal(out, *number as i64);
                }
            },
            None => {
                out.append("CD error but the code was none");
            },
        },
        CdError::UnknownDiscStatus(status) => {
            out.append("CD error unknown disk status ");
            push_signed_decimal(out, *status);
        },
        CdError::UnknownDriveStatus(status) => {
            out.append("CD error unknown drive status!!");
            push_signed_decimal(out, *status);
        },
        CdError::CdIsData1 => {
            out.append("This is a data CD so cannot play it. (Data type 1)");
        },
        CdError::CdIsData2 => {
            out.append("This is a data CD so cannot play it. (Data type 2)");
        },
        CdError::CdIsXA21 => {
            out.append("This is a data CD so cannot play it. (Data type XA21)");
        },
        CdError::CdIsXA22 => {
            out.append("This is a data CD so cannot play it. (Data type XA22)");
        },
        CdError::CdNotEnabled => {
            out.append("CD support is not enabled. You need to recompile");
        },
        CdError::IoCtlError { code, message } => {
            out.append("ioctl error ");
            push_code_text(out, code);
            out.append(" message ");
            out.append(message.as_str());
        },
    }
    assert(final(out)@ =~= old(out)@ + cd_error_text(*error));
}

} // verus!
