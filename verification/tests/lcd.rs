use rradio_lcd_driver::character_pattern::bitmap_row;
use rradio_lcd_driver::lcd::{format_volume, Lc, LineNum};
use rradio_lcd_driver::messages::PipelineState;

const CLEAR: &[u8] = b"\x1b[LI\x1b[Lb\x1b[Lc\
\x1b[LG0101010101010101f;\
\x1b[LG1080808080808081f;\
\x1b[LG2040404040404041f;\
\x1b[LG3020202020202021f;\
\x1b[LG4010101010101011f;\
\x1b[LG502040e111f100e00;\
\x1b[LG608040e111f100e00;\
\x1b[LG708040e010f110f00;";

fn fresh() -> Lc {
    let mut lcd = Lc::new();
    lcd.take_output();
    lcd
}

#[test]
fn new_backend_clears_and_defines_glyphs() {
    let mut lcd = Lc::new();
    assert_eq!(lcd.take_output(), CLEAR.to_vec());
    assert_eq!(lcd.take_output(), Vec::<u8>::new());
}

#[test]
fn clear_defines_the_same_glyphs_every_time() {
    let mut lcd = fresh();
    lcd.clear();
    let first = lcd.take_output();
    lcd.write_ascii(LineNum::Line1, 0, "x");
    lcd.take_output();
    lcd.clear();
    assert_eq!(lcd.take_output(), first);
    assert_eq!(first, CLEAR.to_vec());
}

#[test]
fn glyph_commands_spell_the_bitmap_table() {
    let mut lcd = Lc::new();
    let sent = lcd.take_output();
    for slot in 0..8usize {
        for row in 0..8usize {
            let at = 12 + 22 * slot + 5 + 2 * row;
            let digits = std::str::from_utf8(&sent[at..at + 2]).unwrap();
            assert_eq!(u8::from_str_radix(digits, 16).unwrap(), bitmap_row(slot, row));
        }
    }
}

#[test]
fn line_numbers_count_from_zero() {
    assert_eq!(LineNum::Line1.into_u16(), 0);
    assert_eq!(LineNum::Line2.into_u16(), 1);
    assert_eq!(LineNum::Line3.into_u16(), 2);
    assert_eq!(LineNum::Line4.into_u16(), 3);
}

#[test]
fn write_ascii_positions_then_writes() {
    let mut lcd = fresh();
    lcd.write_ascii(LineNum::Line1, 13, "\x00\x01 \x02\x03 \x04\x05");
    assert_eq!(lcd.take_output(), b"\x1b[Lx13y0;\x00\x01 \x02\x03 \x04\x05".to_vec());
    lcd.write_ascii(LineNum::Line4, 0, "");
    assert_eq!(lcd.take_output(), b"\x1b[Lx0y3;".to_vec());
}

#[test]
fn write_multiline_fills_with_spaces() {
    let mut lcd = fresh();
    lcd.write_multiline(LineNum::Line2, 12, "Bach");
    assert_eq!(lcd.take_output(), b"\x1b[Lx0y1;Bach        ".to_vec());
}

#[test]
fn write_multiline_cuts_what_is_too_long() {
    let mut lcd = fresh();
    lcd.write_multiline(LineNum::Line1, 13, "Station 12 is playing");
    assert_eq!(lcd.take_output(), b"\x1b[Lx0y0;Station 12 is".to_vec());
}

#[test]
fn write_multiline_breaks_full_lines() {
    let mut lcd = fresh();
    lcd.write_multiline(LineNum::Line2, 40, "Expecting version   0.6.0 of rradio");
    assert_eq!(
        lcd.take_output(),
        b"\x1b[Lx0y1;Expecting version   \n0.6.0 of rradio     \n".to_vec()
    );
    lcd.write_multiline(LineNum::Line3, 25, "Computer not shut   down");
    assert_eq!(lcd.take_output(), b"\x1b[Lx0y2;Computer not shut   \ndown ".to_vec());
}

#[test]
fn write_multiline_counts_cells_after_transliteration() {
    let mut lcd = fresh();
    lcd.write_multiline(LineNum::Line1, 6, "\u{c6}\u{e9}\u{5317}x");
    assert_eq!(lcd.take_output(), b"\x1b[Lx0y0;AE\x05Bei".to_vec());
}

#[test]
fn write_multiline_of_nothing_only_positions() {
    let mut lcd = fresh();
    lcd.write_multiline(LineNum::Line4, 0, "ignored");
    assert_eq!(lcd.take_output(), b"\x1b[Lx0y3;".to_vec());
}

#[test]
fn volume_is_right_justified_behind_vol() {
    assert_eq!(format_volume(PipelineState::Playing, false, 75), "Vol  75");
    assert_eq!(format_volume(PipelineState::Playing, false, 0), "Vol   0");
    assert_eq!(format_volume(PipelineState::Playing, false, 100), "Vol 100");
    assert_eq!(format_volume(PipelineState::Playing, false, 12345), "Vol12345");
}

#[test]
fn muted_replaces_the_volume() {
    assert_eq!(format_volume(PipelineState::Playing, true, 75), "  Muted");
}

#[test]
fn pipeline_state_shows_when_not_playing() {
    assert_eq!(format_volume(PipelineState::Paused, false, 75), "Paused ");
    assert_eq!(format_volume(PipelineState::Ready, true, 75), "Ready  ");
    assert_eq!(format_volume(PipelineState::Null, false, 75), "Null   ");
    assert_eq!(format_volume(PipelineState::VoidPending, false, 75), "VoidPen");
    assert_eq!(format_volume(PipelineState::Playing, false, -1), "Playing");
}

#[test]
fn write_volume_goes_to_the_status_zone() {
    let mut lcd = fresh();
    lcd.write_volume(PipelineState::Playing, false, 42);
    assert_eq!(lcd.take_output(), b"\x1b[Lx13y0;Vol  42".to_vec());
}

#[test]
fn gauge_at_zero_has_cursor_in_first_cell() {
    let mut lcd = fresh();
    lcd.write_buffer_state(0);
    let mut expected = b"\x1b[Lx0y3;".to_vec();
    expected.push(0);
    expected.extend_from_slice(&[b' '; 19]);
    assert_eq!(lcd.take_output(), expected);
}

#[test]
fn gauge_at_hundred_has_cursor_in_last_cell() {
    let mut lcd = fresh();
    lcd.write_buffer_state(100);
    let mut expected = b"\x1b[Lx0y3;".to_vec();
    expected.extend_from_slice(&[b' '; 19]);
    expected.push(4);
    assert_eq!(lcd.take_output(), expected);
    lcd.write_buffer_state(255);
    assert_eq!(lcd.take_output(), expected);
    lcd.write_buffer_state(99);
    assert_eq!(lcd.take_output(), expected);
}

#[test]
fn gauge_scales_five_units_to_a_cell() {
    let mut lcd = fresh();
    lcd.write_buffer_state(37);
    let mut expected = b"\x1b[Lx0y3;".to_vec();
    expected.extend_from_slice(&[b' '; 7]);
    expected.push(2);
    expected.extend_from_slice(&[b' '; 12]);
    assert_eq!(lcd.take_output(), expected);
}

#[test]
fn gauge_always_fills_twenty_cells() {
    for buffering in 0..=255u8 {
        let mut lcd = fresh();
        lcd.write_buffer_state(buffering);
        let out = lcd.take_output();
        let cells = &out[8..];
        assert_eq!(cells.len(), 20);
        assert_eq!(cells.iter().filter(|&&c| c != b' ').count(), 1);
    }
}

#[test]
fn temperature_and_strength_fill_one_line() {
    let mut lcd = fresh();
    lcd.write_temperature_and_strength(LineNum::Line4, 47, "-56");
    assert_eq!(lcd.take_output(), b"\x1b[Lx0y3;CPU Temp 47C WiFi-56\n".to_vec());
    lcd.write_temperature_and_strength(LineNum::Line3, -3, "er1");
    assert_eq!(lcd.take_output(), b"\x1b[Lx0y2;CPU Temp -3C WiFier1\n".to_vec());
}

#[test]
fn date_and_time_go_to_line_three() {
    let mut lcd = fresh();
    lcd.write_date_and_time_of_day_line3("  28 Oct 26 13:05:09S");
    assert_eq!(lcd.take_output(), b"\x1b[Lx0y2;  28 Oct 26 13:05:09\n".to_vec());
}

#[test]
fn temperature_and_time_go_to_line_four() {
    let mut lcd = fresh();
    lcd.write_temperature_and_time_to_line4(51, "13:05");
    assert_eq!(lcd.take_output(), b"\x1b[Lx0y3;CPU temp 51 C 13:05 \n".to_vec());
}

#[test]
fn write_all_line_2_fills_line_two() {
    let mut lcd = fresh();
    lcd.write_all_line_2("CD track 3 of 12");
    assert_eq!(lcd.take_output(), b"\x1b[Lx0y1;CD track 3 of 12    \n".to_vec());
}

#[test]
fn write_with_scroll_writes_window_then_advances() {
    let text = "The quick brown fox jumps over the lazy dog again and again";
    let mut lcd = fresh();
    let mut position = 0;
    lcd.write_with_scroll(LineNum::Line3, 40, text, &mut position);
    assert_eq!(
        lcd.take_output(),
        b"\x1b[Lx0y2;The quick brown fox \njumps over the lazy \n".to_vec()
    );
    assert_eq!(position, 10);
    lcd.write_with_scroll(LineNum::Line3, 40, text, &mut position);
    assert_eq!(
        lcd.take_output(),
        b"\x1b[Lx0y2;brown fox jumps over\n the lazy dog again \n".to_vec()
    );
    assert_eq!(position, 20);
}

#[test]
fn write_with_scroll_skips_window_inside_character() {
    let text = format!("aaaa{}", "\u{1f600}".repeat(9));
    let mut lcd = fresh();
    let mut position = 5;
    lcd.write_with_scroll(LineNum::Line3, 40, &text, &mut position);
    assert_eq!(lcd.take_output(), Vec::<u8>::new());
    assert_eq!(position, 12);
}

#[test]
fn output_accumulates_until_taken() {
    let mut lcd = fresh();
    lcd.write_ascii(LineNum::Line1, 0, "a");
    lcd.write_ascii(LineNum::Line2, 1, "b");
    assert_eq!(lcd.take_output(), b"\x1b[Lx0y0;a\x1b[Lx1y1;b".to_vec());
}

#[test]
fn primitives_move_write_and_switch_the_cursor() {
    let mut lcd = fresh();
    lcd.move_cursor_to(LineNum::Line3, 7);
    lcd.write_byte(0x05);
    lcd.write_buffer(b"t\xf3");
    lcd.show_cursor(true);
    lcd.show_cursor(false);
    assert_eq!(lcd.take_output(), b"\x1b[Lx7y2;\x05t\xf3\x1b[LC\x1b[Lc".to_vec());
}

#[test]
fn cursor_command_spells_numbers_in_decimal() {
    let mut lcd = fresh();
    lcd.move_cursor_to(LineNum::Line1, 0);
    lcd.move_cursor_to(LineNum::Line4, 19);
    lcd.move_cursor_to(LineNum::Line2, 65535);
    assert_eq!(lcd.take_output(), b"\x1b[Lx0y0;\x1b[Lx19y3;\x1b[Lx65535y1;".to_vec());
}
