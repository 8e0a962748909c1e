use rradio_lcd_driver::character_pattern::bitmap_row;
use rradio_lcd_driver::lcd::Lc;
use rradio_lcd_driver::lcd_screen::{
    Delay, DisplayOp, FakeLine, LCDLineNumbers, LcdScreen, PinDeclarations, PinRole,
};
use rradio_lcd_driver::messages::PipelineState;

fn fresh_screen() -> LcdScreen {
    let mut screen = LcdScreen::new();
    screen.take_ops();
    screen
}

fn writes(text: &[u8]) -> Vec<DisplayOp> {
    text.iter().map(|&cell| DisplayOp::Write(cell)).collect()
}

#[test]
fn line_offsets_follow_the_controller() {
    assert_eq!(LCDLineNumbers::Line1.offset(), 0);
    assert_eq!(LCDLineNumbers::Line2.offset(), 0x40);
    assert_eq!(LCDLineNumbers::Line3.offset(), 20);
    assert_eq!(LCDLineNumbers::Line4.offset(), 0x54);
}

#[test]
fn next_line_wraps_after_the_last() {
    assert_eq!(LCDLineNumbers::Line1.next(), LCDLineNumbers::Line2);
    assert_eq!(LCDLineNumbers::Line2.next(), LCDLineNumbers::Line3);
    assert_eq!(LCDLineNumbers::Line3.next(), LCDLineNumbers::Line4);
    assert_eq!(LCDLineNumbers::Line4.next(), LCDLineNumbers::Line1);
}

#[test]
fn fake_line_reads_low() {
    assert_eq!(FakeLine.get_value(), 0);
}

#[test]
fn timing_constants_are_in_nanoseconds() {
    assert_eq!(Delay::ADDRESS_SETUP_TIME, 60);
    assert_eq!(Delay::ENABLE_PULSE_WIDTH, 300);
    assert_eq!(Delay::DATA_HOLD_TIME, 10);
    assert_eq!(Delay::COMMAND_EXECUTION_TIME, 37);
}

#[test]
fn pin_declarations_hold_six_lines() {
    let pins = PinDeclarations { rs: 16, enable: 12, data4: 24, data5: 23, data6: 25, data7: 9 };
    assert_eq!(pins.rs, 16);
    assert_eq!(pins.data7, 9);
}

#[test]
fn new_screen_brings_up_clears_and_defines_glyphs() {
    let mut screen = LcdScreen::new();
    let ops = screen.take_ops();
    assert_eq!(
        &ops[..8],
        &[
            DisplayOp::InitTwoRows,
            DisplayOp::Sleep(3),
            DisplayOp::CursorOff,
            DisplayOp::Clear,
            DisplayOp::Sleep(2),
            DisplayOp::Clear,
            DisplayOp::Sleep(3),
            DisplayOp::SeekCgram(0),
        ]
    );
    assert_eq!(ops.len(), 8 + 64 + 1);
    assert_eq!(ops[72], DisplayOp::Seek(0));
    for slot in 0..8usize {
        for row in 0..8usize {
            assert_eq!(ops[8 + 8 * slot + row], DisplayOp::Write(bitmap_row(slot, row)));
        }
    }
    assert_eq!(screen.take_ops(), Vec::<DisplayOp>::new());
}

#[test]
fn init_defines_glyphs_without_second_clear() {
    let mut screen = LcdScreen::init();
    let ops = screen.take_ops();
    assert_eq!(ops.len(), 5 + 1 + 64 + 1);
    assert_eq!(ops[4], DisplayOp::Sleep(2));
    assert_eq!(ops[5], DisplayOp::SeekCgram(0));
    assert_eq!(ops[6], DisplayOp::Write(0x10));
    assert_eq!(ops[70], DisplayOp::Seek(0));
}

#[test]
fn both_backends_define_the_same_glyphs() {
    let mut parallel = fresh_screen();
    parallel.define_glyphs();
    let ops = parallel.take_ops();
    let mut escape = Lc::new();
    let sent = escape.take_output();
    for slot in 0..8usize {
        for row in 0..8usize {
            let at = 12 + 22 * slot + 5 + 2 * row;
            let digits = std::str::from_utf8(&sent[at..at + 2]).unwrap();
            let bits = u8::from_str_radix(digits, 16).unwrap();
            assert_eq!(ops[1 + 8 * slot + row], DisplayOp::Write(bits));
        }
    }
}

#[test]
fn screen_clear_pauses_and_defines_the_glyphs_anew() {
    let mut screen = fresh_screen();
    screen.clear();
    let ops = screen.take_ops();
    assert_eq!(&ops[..3], &[DisplayOp::Clear, DisplayOp::Sleep(3), DisplayOp::SeekCgram(0)]);
    assert_eq!(ops.len(), 2 + 1 + 64 + 1);
    for slot in 0..8usize {
        for row in 0..8usize {
            assert_eq!(ops[3 + 8 * slot + row], DisplayOp::Write(bitmap_row(slot, row)));
        }
    }
    assert_eq!(ops[67], DisplayOp::Seek(0));
}

#[test]
fn screen_clear_defines_what_the_escape_backend_defines() {
    let mut parallel = fresh_screen();
    parallel.clear();
    let ops = parallel.take_ops();
    let mut escape = Lc::new();
    escape.take_output();
    escape.clear();
    let sent = escape.take_output();
    for slot in 0..8usize {
        for row in 0..8usize {
            let at = 12 + 22 * slot + 5 + 2 * row;
            let digits = std::str::from_utf8(&sent[at..at + 2]).unwrap();
            let bits = u8::from_str_radix(digits, 16).unwrap();
            assert_eq!(ops[3 + 8 * slot + row], DisplayOp::Write(bits));
        }
    }
}

#[test]
fn screen_lines_have_exactly_the_cells_asked_for() {
    let mut screen = fresh_screen();
    screen.write_multiline(LCDLineNumbers::Line1, 20, "\u{c6}neid of Virgil, book 1");
    let mut expected = vec![DisplayOp::Seek(0)];
    expected.extend(writes(b"AEneid of Virgil, bo"));
    expected.push(DisplayOp::Seek(0x40));
    assert_eq!(screen.take_ops(), expected);
    screen.write_multiline(LCDLineNumbers::Line2, 20, "\u{5317}\u{5317}\u{5317}\u{5317}\u{5317}\u{c6}");
    let mut wide = vec![DisplayOp::Seek(0x40)];
    wide.extend(writes(b"Bei Bei Bei Bei Bei "));
    wide.push(DisplayOp::Seek(20));
    assert_eq!(screen.take_ops(), wide);
    screen.write_line(LCDLineNumbers::Line4, 20, "\u{c6}");
    let mut padded = vec![DisplayOp::Seek(0x54)];
    padded.extend(writes(b"AE                  "));
    assert_eq!(screen.take_ops(), padded);
    screen.write_time_of_day("\u{c6}\u{c6}\u{c6}\u{c6}\u{c6}\u{c6}\u{c6}\u{c6}\u{c6}\u{c6}\u{c6}");
    let mut time = vec![DisplayOp::Seek(20)];
    time.extend(writes(b"AEAEAEAEAEAEAEAEAEAE"));
    assert_eq!(screen.take_ops(), time);
}

#[test]
fn screen_write_ascii_seeks_then_writes() {
    let mut screen = fresh_screen();
    screen.write_ascii(LCDLineNumbers::Line2, 3, "Hi!");
    let mut expected = vec![DisplayOp::Seek(0x43)];
    expected.extend(writes(b"Hi!"));
    assert_eq!(screen.take_ops(), expected);
}

#[test]
fn screen_write_ascii_keeps_low_eight_bits() {
    let mut screen = fresh_screen();
    screen.write_ascii(LCDLineNumbers::Line1, 0, "\u{e9}\u{20ac}");
    assert_eq!(
        screen.take_ops(),
        vec![DisplayOp::Seek(0), DisplayOp::Write(0xe9), DisplayOp::Write(0xac)]
    );
}

#[test]
fn screen_write_line_fits_the_display_codes() {
    let mut screen = fresh_screen();
    screen.write_line(LCDLineNumbers::Line3, 6, "Caf\u{e9}");
    let mut expected = vec![DisplayOp::Seek(20)];
    expected.extend(writes(b"Caf\x05  "));
    assert_eq!(screen.take_ops(), expected);
    screen.write_line(LCDLineNumbers::Line1, 3, "\u{c6}neid");
    let mut cut = vec![DisplayOp::Seek(0)];
    cut.extend(writes(b"AEn"));
    assert_eq!(screen.take_ops(), cut);
}

#[test]
fn screen_write_multiline_seeks_at_line_ends() {
    let mut screen = fresh_screen();
    screen.write_multiline(LCDLineNumbers::Line3, 45, "0123456789012345678901234567890123456789xyz");
    let mut expected = vec![DisplayOp::Seek(20)];
    expected.extend(writes(b"01234567890123456789"));
    expected.push(DisplayOp::Seek(0x54));
    expected.extend(writes(b"01234567890123456789"));
    expected.push(DisplayOp::Seek(0));
    expected.extend(writes(b"xyz  "));
    assert_eq!(screen.take_ops(), expected);
}

#[test]
fn screen_write_multiline_of_exactly_one_line_seeks_on() {
    let mut screen = fresh_screen();
    screen.write_multiline(LCDLineNumbers::Line1, 20, "abc");
    let mut expected = vec![DisplayOp::Seek(0)];
    expected.extend(writes(b"abc                 "));
    expected.push(DisplayOp::Seek(0x40));
    assert_eq!(screen.take_ops(), expected);
}

#[test]
fn screen_write_volume_goes_to_the_status_zone() {
    let mut screen = fresh_screen();
    screen.write_volume(PipelineState::Playing, 9);
    let mut expected = vec![DisplayOp::Seek(13)];
    expected.extend(writes(b"Vol   9"));
    assert_eq!(screen.take_ops(), expected);
    screen.write_volume(PipelineState::Paused, 9);
    let mut paused = vec![DisplayOp::Seek(13)];
    paused.extend(writes(b"Paused "));
    assert_eq!(screen.take_ops(), paused);
}

#[test]
fn screen_gauge_goes_to_line_four() {
    let mut screen = fresh_screen();
    screen.write_buffer_state(52);
    let mut expected = vec![DisplayOp::Seek(0x54)];
    expected.extend(writes(b"          "));
    expected.push(DisplayOp::Write(2));
    expected.extend(writes(b"         "));
    assert_eq!(screen.take_ops(), expected);
}

#[test]
fn screen_time_of_day_goes_to_line_three() {
    let mut screen = fresh_screen();
    screen.write_time_of_day("  28 Oct 26 13:05:09S");
    let mut expected = vec![DisplayOp::Seek(20)];
    expected.extend(writes(b"  28 Oct 26 13:05:09"));
    assert_eq!(screen.take_ops(), expected);
}

#[test]
fn screen_scroll_advances_then_writes_window() {
    let text = "The quick brown fox jumps over the lazy dog again and again";
    let mut screen = fresh_screen();
    let mut position = 0;
    screen.write_with_scroll(LCDLineNumbers::Line2, 20, text, &mut position);
    assert_eq!(position, 10);
    let mut expected = vec![DisplayOp::Seek(0x40)];
    expected.extend(writes(b"brown fox jumps over"));
    expected.push(DisplayOp::Seek(20));
    assert_eq!(screen.take_ops(), expected);
}

#[test]
fn screen_primitives_seek_and_write() {
    let mut screen = fresh_screen();
    screen.move_cursor_to(LCDLineNumbers::Line4, 19);
    screen.write_byte(4);
    screen.write_buffer(&vec![b'o', b'k']);
    assert_eq!(
        screen.take_ops(),
        vec![
            DisplayOp::Seek(0x67),
            DisplayOp::Write(4),
            DisplayOp::Write(b'o'),
            DisplayOp::Write(b'k'),
        ]
    );
}

#[test]
fn pin_roles_have_consumer_tags_and_lines() {
    let pins = PinDeclarations { rs: 16, enable: 12, data4: 24, data5: 23, data6: 25, data7: 9 };
    let expected = [
        (PinRole::RegisterSelect, "register_select", 16),
        (PinRole::Enable, "enable", 12),
        (PinRole::Data4, "data4", 24),
        (PinRole::Data5, "data5", 23),
        (PinRole::Data6, "data6", 25),
        (PinRole::Data7, "data7", 9),
    ];
    for (role, tag, line) in expected {
        assert_eq!(role.consumer(), tag);
        assert_eq!(pins.line(role), line);
    }
}

#[test]
fn pin_failures_name_the_line() {
    assert_eq!(PinRole::Enable.missing_message(), "Failed to get GPIO pin for \"enable\"");
    assert_eq!(
        PinRole::Data7.in_use_message(),
        "GPIO pin for \"data7\" already in use. Are running another copy of the program elsewhere?"
    );
}
