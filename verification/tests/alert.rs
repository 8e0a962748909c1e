use rradio_lcd_driver::alert::{same_text, ErrorList, ErrorState};
use rradio_lcd_driver::messages::{CdError, StationError};

fn classify(error: StationError) -> (ErrorState, String) {
    let list = ErrorList::from_station_error(&error);
    assert!(list.errors_changed());
    (list.error_as_enum(), list.error_as_string().to_string())
}

fn cd(error: CdError) -> String {
    let (state, text) = classify(StationError::CdError(error));
    assert_eq!(state, ErrorState::CdError);
    text
}

#[test]
fn error_list_starts_with_placeholder() {
    let list = ErrorList::new();
    assert!(!list.errors_changed());
    assert_eq!(list.error_as_enum(), ErrorState::UPnPError);
    assert_eq!(list.error_as_string(), "ddd");
}

#[test]
fn station_not_found_names_the_station() {
    let error = StationError::StationNotFound {
        index: "42".to_string(),
        directory: "/boot/playlists".to_string(),
    };
    assert_eq!(classify(error), (ErrorState::NoStation, "No station 42".to_string()));
}

#[test]
fn upnp_error_is_classified() {
    let error = StationError::UPnPError("no server".to_string());
    assert_eq!(classify(error), (ErrorState::UPnPError, "UPnP error no server".to_string()));
}

#[test]
fn mount_error_is_classified() {
    let error = StationError::MountError("UsbNotConnected".to_string());
    assert_eq!(
        classify(error),
        (ErrorState::MountError, "mount error UsbNotConnected".to_string())
    );
}

#[test]
fn directory_error_is_classified() {
    let error = StationError::StationsDirectoryIoError {
        directory: "/stations".to_string(),
        err: "denied".to_string(),
    };
    assert_eq!(
        classify(error),
        (ErrorState::NotKnown, "station error dir=/stations  error = denied".to_string())
    );
}

#[test]
fn bad_station_file_is_classified() {
    let error = StationError::BadStationFile("07.m3u".to_string());
    assert_eq!(classify(error), (ErrorState::ProgrammerError, "Bad station 07.m3u".to_string()));
}

#[test]
fn cd_errors_have_plain_words() {
    assert_eq!(cd(CdError::NoCd), "No CD");
    assert_eq!(cd(CdError::NoCdInfo), "No CD information");
    assert_eq!(cd(CdError::CdTrayIsOpen), "CD tray open");
    assert_eq!(cd(CdError::CdTrayIsNotReady), "CD tray not ready");
    assert_eq!(cd(CdError::CdIsData1), "This is a data CD so cannot play it. (Data type 1)");
    assert_eq!(cd(CdError::CdIsData2), "This is a data CD so cannot play it. (Data type 2)");
    assert_eq!(cd(CdError::CdIsXA21), "This is a data CD so cannot play it. (Data type XA21)");
    assert_eq!(cd(CdError::CdIsXA22), "This is a data CD so cannot play it. (Data type XA22)");
    assert_eq!(cd(CdError::CdNotEnabled), "CD support is not enabled. You need to recompile");
}

#[test]
fn cd_open_failure_is_read_from_its_code() {
    let open = |code| CdError::FailedToOpenDevice { code, message: "ignored".to_string() };
    assert_eq!(cd(open(Some(123))), "CD missing");
    assert_eq!(cd(open(Some(2))), "No CD drive");
    assert_eq!(cd(open(Some(5))), "got unknown CD error 5");
    assert_eq!(cd(open(Some(-13))), "got unknown CD error -13");
    assert_eq!(cd(open(Some(i32::MIN))), "got unknown CD error -2147483648");
    assert_eq!(cd(open(None)), "CD error but the code was none");
}

#[test]
fn cd_status_errors_carry_their_number() {
    assert_eq!(cd(CdError::UnknownDiscStatus(7)), "CD error unknown disk status 7");
    assert_eq!(cd(CdError::UnknownDriveStatus(-1)), "CD error unknown drive status!!-1");
    assert_eq!(
        cd(CdError::UnknownDiscStatus(i64::MIN)),
        "CD error unknown disk status -9223372036854775808"
    );
    assert_eq!(
        cd(CdError::UnknownDriveStatus(i64::MAX)),
        "CD error unknown drive status!!9223372036854775807"
    );
}

#[test]
fn cd_ioctl_error_prints_code_and_message() {
    let with_code = CdError::IoCtlError { code: Some(25), message: "not a tty".to_string() };
    assert_eq!(cd(with_code), "ioctl error Some(25) message not a tty");
    let without = CdError::IoCtlError { code: None, message: "gone".to_string() };
    assert_eq!(cd(without), "ioctl error None message gone");
}

#[test]
fn engine_error_keeps_its_words() {
    let list = ErrorList::from_engine_error("Could not open resource");
    assert!(list.errors_changed());
    assert_eq!(list.error_as_enum(), ErrorState::GStreamerError);
    assert_eq!(list.error_as_string(), "Could not open resource");
}

#[test]
fn expected_version_raises_no_alert() {
    let list = ErrorList::from_protocol_version("0.6.0", "0.6.0");
    assert!(!list.errors_changed());
    assert_eq!(list.error_as_enum(), ErrorState::NoError);
    assert_eq!(list.error_as_string(), "");
}

#[test]
fn version_mismatch_raises_alert() {
    let list = ErrorList::from_protocol_version("0.6.0", "0.5.1");
    assert!(list.errors_changed());
    assert_eq!(list.error_as_enum(), ErrorState::VersionMismatch);
    assert_ne!(list.error_as_enum(), ErrorState::NoError);
    assert_eq!(
        list.error_as_string(),
        "Version mismatch    LCD driver: 0.6.0   rradio:     0.5.1   "
    );
}

#[test]
fn version_mismatch_for_any_other_text() {
    for received in ["", "0.6", "0.6.00", " 0.6.0", "0.6.0 ", "0.6.1", "\u{e9}"] {
        let list = ErrorList::from_protocol_version("0.6.0", received);
        assert_eq!(list.error_as_enum(), ErrorState::VersionMismatch);
    }
}

#[test]
fn same_text_compares_characters() {
    assert!(same_text("", ""));
    assert!(same_text("abc", "abc"));
    assert!(!same_text("abc", "abd"));
    assert!(!same_text("abc", "ab"));
    assert!(!same_text("e\u{301}", "\u{e9}"));
}
