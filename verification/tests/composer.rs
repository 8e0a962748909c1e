use rradio_lcd_driver::composer::{
    assembleline2, format_indicator, format_station_label, format_track_position,
    lowercase_says_unknown, lowercase_starts_with, starts_with, tag_says_unknown,
};
use rradio_lcd_driver::messages::{PingError, PingOutcome, PingTarget, PingTimes, StationType};

fn line2(organisation: &str, station: &str, artist: &str, album: &str, pause: u64) -> String {
    assembleline2(
        organisation.to_string(),
        station.to_string(),
        artist.to_string(),
        album.to_string(),
        pause,
    )
}

#[test]
fn position_counter_up_to_seven_digits() {
    assert_eq!(format_track_position(1, 5, 245), "1: 5 of 245");
    assert_eq!(format_track_position(1, 0, 0), "1: 0 of 0");
    assert_eq!(format_track_position(12, 99, 999), "12: 99 of 999");
}

#[test]
fn position_counter_eight_digits() {
    assert_eq!(format_track_position(1, 100, 1000), "1:100 of 1000");
    assert_eq!(format_track_position(12, 345, 678), "12:345 of 678");
}

#[test]
fn position_counter_nine_digits() {
    assert_eq!(format_track_position(10, 100, 1000), "10:100of 1000");
    assert_eq!(format_track_position(3, 1234, 5678), "3:1234of 5678");
}

#[test]
fn position_counter_ten_digits() {
    assert_eq!(format_track_position(10, 1000, 1000), "10: 1000of1000");
    assert_eq!(format_track_position(99, 12345, 67890), "99: 12345of67890");
}

#[test]
fn track_numbers_above_two_digits_count_as_two() {
    assert_eq!(format_track_position(123, 5, 245), "123: 5 of 245");
}

#[test]
fn line2_joins_what_is_shown() {
    assert_eq!(line2("BBC", "Radio 3", "Bach", "Cantatas", 0), "BBC / Bach / Cantatas");
    assert_eq!(line2("", "Radio 3", "Bach", "Cantatas", 0), "Radio 3 / Bach / Cantatas");
    assert_eq!(line2("", "Radio 3", "", "", 0), "Radio 3");
    assert_eq!(line2("", "", "Bach", "", 0), "Bach");
    assert_eq!(line2("", "", "", "Cantatas", 0), "Cantatas");
    assert_eq!(line2("", "Radio 3", "", "Cantatas", 0), "Radio 3 / Cantatas");
    assert_eq!(line2("", "", "", "", 0), "");
}

#[test]
fn line2_drops_unknown_in_any_case() {
    assert_eq!(line2("", "Radio 3", "Unknown artist", "UNKNOWN", 0), "Radio 3");
    assert_eq!(line2("", "Radio 3", "unknown", "Cantatas", 0), "Radio 3 / Cantatas");
    assert_eq!(line2("unKnown org", "Radio 3", "Bach", "", 0), "Bach");
    assert_eq!(line2("", "Radio 3", "Not unknown", "", 0), "Radio 3 / Not unknown");
}

#[test]
fn line2_counts_down_to_the_start() {
    assert_eq!(line2("", "Radio 3", "", "", 5), "Radio 3 wait5");
    assert_eq!(line2("", "", "", "", 12), " wait12");
}

#[test]
fn unknown_is_recognised_through_lower_case() {
    assert!(tag_says_unknown("UNKNOWN"));
    assert!(tag_says_unknown("Unknown Artist"));
    assert!(!tag_says_unknown("unknow"));
    assert!(!tag_says_unknown(" unknown"));
    assert!(lowercase_says_unknown("unknown"));
    assert!(!lowercase_says_unknown("Unknown"));
    assert!(lowercase_starts_with("QUIET: Radio", "quiet: "));
    assert!(!lowercase_starts_with("QUIET Radio", "quiet: "));
}

#[test]
fn starts_with_compares_characters() {
    assert!(starts_with("abc", ""));
    assert!(starts_with("abc", "ab"));
    assert!(starts_with("abc", "abc"));
    assert!(!starts_with("abc", "abcd"));
    assert!(!starts_with("abc", "b"));
    assert!(starts_with("\u{e9}t\u{e9}", "\u{e9}t"));
}

#[test]
fn station_labels_by_kind() {
    assert_eq!(format_station_label(StationType::UrlList, "12"), "Station 12");
    assert_eq!(format_station_label(StationType::UPnP, "7"), "Station 7");
    assert_eq!(format_station_label(StationType::CD, "00"), "Playing CD");
    assert_eq!(format_station_label(StationType::Usb, "98"), "USB 98");
    assert_eq!(format_station_label(StationType::SambaShare, "55"), "55");
}

#[test]
fn indicator_shows_gateway_ping() {
    let ping = PingTimes::Gateway(PingOutcome::Reply(1_500_000));
    assert_eq!(format_indicator(ping, false, 45), Some("L 1.5ms".to_string()));
    let slow = PingTimes::Gateway(PingOutcome::Reply(12_345_678));
    assert_eq!(format_indicator(slow, true, 45), Some("L  12ms".to_string()));
    let slower = PingTimes::Gateway(PingOutcome::Reply(123_456_789));
    assert_eq!(format_indicator(slower, true, 45), Some("L 123ms".to_string()));
    let slowest = PingTimes::Gateway(PingOutcome::Reply(9_999_000_000));
    assert_eq!(format_indicator(slowest, true, 45), Some("L9999ms".to_string()));
}

#[test]
fn indicator_rounds_tenths_half_up() {
    let ping = PingTimes::Gateway(PingOutcome::Reply(1_250_000));
    assert_eq!(format_indicator(ping, false, 0), Some("L 1.3ms".to_string()));
    let low = PingTimes::Gateway(PingOutcome::Reply(1_249_999));
    assert_eq!(format_indicator(low, false, 0), Some("L 1.2ms".to_string()));
    let none = PingTimes::Gateway(PingOutcome::Reply(0));
    assert_eq!(format_indicator(none, false, 0), Some("L 0.0ms".to_string()));
    let top = PingTimes::Gateway(PingOutcome::Reply(9_999_998));
    assert_eq!(format_indicator(top, false, 0), Some("L10.0ms".to_string()));
    let ten = PingTimes::Gateway(PingOutcome::Reply(9_999_999));
    assert_eq!(format_indicator(ten, false, 0), Some("L   9ms".to_string()));
}

#[test]
fn indicator_shows_latest_of_gateway_and_remote() {
    let gateway = PingTimes::GatewayAndRemote {
        gateway_ping: 2_000_000,
        remote_ping: PingOutcome::Reply(30_000_000),
        latest: PingTarget::Gateway,
    };
    assert_eq!(format_indicator(gateway, false, 0), Some("L 2.0ms".to_string()));
    let remote = PingTimes::GatewayAndRemote {
        gateway_ping: 2_000_000,
        remote_ping: PingOutcome::Reply(30_000_000),
        latest: PingTarget::Remote,
    };
    assert_eq!(format_indicator(remote, false, 0), Some("R  30ms".to_string()));
}

#[test]
fn indicator_alternates_with_temperature_once_remote_is_done() {
    let done = PingTimes::FinishedPingingRemote { gateway_ping: 3_400_000 };
    assert_eq!(format_indicator(done, true, 45), Some("CPU 45C".to_string()));
    assert_eq!(format_indicator(done, true, -5), Some("CPU -5C".to_string()));
    assert_eq!(format_indicator(done, true, 105), Some("CPU105C".to_string()));
    assert_eq!(format_indicator(done, true, 7), Some("CPU  7C".to_string()));
    assert_eq!(format_indicator(done, false, 45), Some("L 3.4ms".to_string()));
}

#[test]
fn indicator_names_failures() {
    let cases = [
        (PingError::FailedToRecieveICMP, "LRxFail", "RRxFail"),
        (PingError::DestinationUnreachable, "LNoDest", "RNoDest"),
        (PingError::Timeout, "LNoRply", "RNoRply"),
        (PingError::FailedToSendICMP, "LTxFail", "RTxFail"),
        (PingError::Dns, "LDnsErr", "RDnsErr"),
    ];
    for (error, local, remote) in cases {
        let gateway = PingTimes::Gateway(PingOutcome::Failed(error));
        assert_eq!(format_indicator(gateway, false, 0), Some(local.to_string()));
        let both = PingTimes::GatewayAndRemote {
            gateway_ping: 1,
            remote_ping: PingOutcome::Failed(error),
            latest: PingTarget::Remote,
        };
        assert_eq!(format_indicator(both, false, 0), Some(remote.to_string()));
    }
}

#[test]
fn indicator_fills_the_status_zone() {
    let pings = [
        PingTimes::BadUrl,
        PingTimes::Gateway(PingOutcome::Reply(0)),
        PingTimes::Gateway(PingOutcome::Reply(9_999_999_999)),
        PingTimes::Gateway(PingOutcome::Failed(PingError::Dns)),
        PingTimes::FinishedPingingRemote { gateway_ping: 77_000_000 },
    ];
    for ping in pings {
        for show_temperature in [false, true] {
            for temperature in [-99, 0, 999] {
                let text = format_indicator(ping, show_temperature, temperature).unwrap();
                assert_eq!(text.len(), 7);
            }
        }
    }
}

#[test]
fn indicator_without_measurement_is_absent() {
    assert_eq!(format_indicator(PingTimes::NotPinged, false, 45), None);
    assert_eq!(format_indicator(PingTimes::NotPinged, true, 45), None);
    assert_eq!(format_indicator(PingTimes::BadUrl, true, 45), Some("Bad URL".to_string()));
}
