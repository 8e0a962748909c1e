use rradio_lcd_driver::decoder::{
    check_header, frame_step, header_report, take_payload, trim_padding, FrameStep, HeaderVerdict,
};

#[test]
fn empty_buffer_waits_or_shuts_down() {
    assert_eq!(frame_step(&[], false), FrameStep::NeedMore);
    assert_eq!(frame_step(&[], true), FrameStep::Shutdown);
}

#[test]
fn zero_length_is_the_shutdown_sentinel() {
    assert_eq!(frame_step(&[0, 0], false), FrameStep::Shutdown);
    assert_eq!(frame_step(&[0, 0, 9, 9], false), FrameStep::Shutdown);
    assert_eq!(frame_step(&[0, 0], true), FrameStep::Shutdown);
}

#[test]
fn length_is_big_endian() {
    let mut buffer = vec![0x01, 0x02];
    buffer.extend(vec![7u8; 258]);
    assert_eq!(frame_step(&buffer, false), FrameStep::Payload(258));
    assert_eq!(frame_step(&[0x00, 0x03, 1, 2, 3], false), FrameStep::Payload(3));
    assert_eq!(frame_step(&[0x03, 0x00, 1, 2, 3], false), FrameStep::NeedMore);
}

#[test]
fn incomplete_frame_waits_for_more() {
    assert_eq!(frame_step(&[0], false), FrameStep::NeedMore);
    assert_eq!(frame_step(&[0, 3], false), FrameStep::NeedMore);
    assert_eq!(frame_step(&[0, 3, 1, 2], false), FrameStep::NeedMore);
}

#[test]
fn stream_end_inside_a_frame_is_corrupt() {
    assert_eq!(frame_step(&[0], true), FrameStep::Corrupt);
    assert_eq!(frame_step(&[0, 3], true), FrameStep::Corrupt);
    assert_eq!(frame_step(&[0, 3, 1, 2], true), FrameStep::Corrupt);
    assert_eq!(frame_step(&[0, 3, 1, 2, 3], true), FrameStep::Payload(3));
}

#[test]
fn largest_frame_is_accepted() {
    let mut buffer = vec![0xff, 0xff];
    buffer.extend(vec![1u8; 65535]);
    assert_eq!(frame_step(&buffer, false), FrameStep::Payload(65535));
    buffer.pop();
    assert_eq!(frame_step(&buffer, false), FrameStep::NeedMore);
}

#[test]
fn take_payload_leaves_what_follows() {
    let mut buffer = vec![0, 3, 10, 11, 12, 0, 1, 99, 0];
    assert_eq!(take_payload(&mut buffer), vec![10, 11, 12]);
    assert_eq!(buffer, vec![0, 1, 99, 0]);
    assert_eq!(frame_step(&buffer, false), FrameStep::Payload(1));
    assert_eq!(take_payload(&mut buffer), vec![99]);
    assert_eq!(buffer, vec![0]);
    assert_eq!(frame_step(&buffer, false), FrameStep::NeedMore);
}

#[test]
fn trim_padding_removes_trailing_white_space() {
    assert_eq!(trim_padding("0.6.0\n"), "0.6.0");
    assert_eq!(trim_padding("0.6.0 \t\r\n  "), "0.6.0");
    assert_eq!(trim_padding("  0.6.0"), "  0.6.0");
    assert_eq!(trim_padding(" \n"), "");
    assert_eq!(trim_padding(""), "");
    assert_eq!(trim_padding("a b"), "a b");
}

#[test]
fn trim_padding_removes_what_std_calls_white_space() {
    assert_eq!(trim_padding("0.6.0\u{a0}\u{2003}\u{3000}\u{85}\u{b}\u{c}"), "0.6.0");
    assert_eq!(trim_padding("0.6.0\u{200b}"), "0.6.0\u{200b}");
    for code in 0..=0x10ffffu32 {
        if let Some(ch) = char::from_u32(code) {
            let text = format!("x{}", ch);
            assert_eq!(trim_padding(&text), text.trim_end());
        }
    }
}

#[test]
fn header_of_expected_version_is_accepted() {
    assert_eq!(check_header("0.6.0", b"rradio-messages_0.6.0"), HeaderVerdict::Accepted);
    assert_eq!(check_header("0.6.0", b"rradio-messages_0.6.0\n"), HeaderVerdict::Accepted);
    assert_eq!(check_header("0.6.0", b"rradio-messages_0.6.0    \n"), HeaderVerdict::Accepted);
    assert_eq!(
        check_header("0.6.0", "rradio-messages_0.6.0\u{a0}\r\n".as_bytes()),
        HeaderVerdict::Accepted
    );
}

#[test]
fn header_of_other_version_is_a_mismatch() {
    assert_eq!(check_header("0.6.0", b"rradio-messages_0.5.9\n"), HeaderVerdict::VersionMismatch);
    assert_eq!(check_header("0.6.0", b"rradio-messages_"), HeaderVerdict::VersionMismatch);
    assert_eq!(check_header("0.6.0", b"rradio-messages_ 0.6.0"), HeaderVerdict::VersionMismatch);
}

#[test]
fn header_of_other_program_is_not_rradio() {
    assert_eq!(check_header("0.6.0", b"HTTP/1.1 200 OK"), HeaderVerdict::NotRRadio);
    assert_eq!(check_header("0.6.0", b""), HeaderVerdict::NotRRadio);
    assert_eq!(check_header("0.6.0", b"rradio-messages"), HeaderVerdict::NotRRadio);
    assert_eq!(check_header("0.6.0", b"RRADIO-MESSAGES_0.6.0"), HeaderVerdict::NotRRadio);
}

#[test]
fn header_that_is_not_text_is_not_utf8() {
    assert_eq!(check_header("0.6.0", &[0xff, 0xfe, 0x00]), HeaderVerdict::NotUtf8);
    assert_eq!(check_header("0.6.0", &[b'r', 0xc3]), HeaderVerdict::NotUtf8);
    assert_eq!(check_header("0.6.0", &[0xed, 0xa0, 0x80]), HeaderVerdict::NotUtf8);
    assert_eq!(check_header("0.6.0", &[0xc0, 0x80]), HeaderVerdict::NotUtf8);
}

#[test]
fn header_report_puts_the_verdict_into_words() {
    assert_eq!(
        header_report("0.6.0", b"rradio-messages_0.6.0\n"),
        (HeaderVerdict::Accepted, String::new())
    );
    assert_eq!(
        header_report("0.6.0", b"rradio-messages_0.5.9\n"),
        (
            HeaderVerdict::VersionMismatch,
            "Version mismatch    LCD driver: 0.6.0   rradio:     0.5.9   ".to_string()
        )
    );
    assert_eq!(
        header_report("0.6.0", b"hello"),
        (HeaderVerdict::NotRRadio, "Not RRadio          hello".to_string())
    );
    assert_eq!(
        header_report("0.6.0", &[0xff]),
        (HeaderVerdict::NotUtf8, "Bad RRadio Header   Not UTF-8".to_string())
    );
}
