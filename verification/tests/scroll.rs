use rradio_lcd_driver::scroll::{next_scroll_offset, ScrollCursor};

const SENTENCE: &str = "The quick brown fox jumps over the lazy dog again and again";

#[test]
fn scroll_moves_past_the_next_space() {
    assert_eq!(next_scroll_offset(SENTENCE, 0), 10);
    assert_eq!(next_scroll_offset(SENTENCE, 10), 20);
    assert_eq!(next_scroll_offset(SENTENCE, 20), 31);
    assert_eq!(next_scroll_offset(SENTENCE, 31), 40);
}

#[test]
fn scroll_returns_to_start_near_the_end() {
    assert_eq!(next_scroll_offset(SENTENCE, 40), 0);
}

#[test]
fn scroll_falls_back_to_fixed_advance_without_space() {
    let text = "abcdefghijklmnopqrstuvwxyzabcdefghijklmnopqrstuvwxyz";
    assert_eq!(next_scroll_offset(text, 0), 7);
    assert_eq!(next_scroll_offset(text, 7), 14);
    assert_eq!(next_scroll_offset(text, 35), 42);
    assert_eq!(next_scroll_offset(text, 36), 0);
}

#[test]
fn scroll_of_short_or_empty_text_stays_at_start() {
    assert_eq!(next_scroll_offset("", 0), 0);
    assert_eq!(next_scroll_offset("short", 0), 0);
    assert_eq!(next_scroll_offset("0123456789abcdef", 0), 0);
}

#[test]
fn scroll_keeps_margin_of_ten_bytes() {
    assert_eq!(next_scroll_offset("0123456789abcdefg", 0), 7);
    assert_eq!(next_scroll_offset("0123456 89abcdefgh", 0), 8);
    assert_eq!(next_scroll_offset("0123456789abcdefg", 1), 0);
}

#[test]
fn scroll_from_beyond_the_text_returns_to_start() {
    assert_eq!(next_scroll_offset(SENTENCE, 59), 0);
    assert_eq!(next_scroll_offset(SENTENCE, 1000), 0);
    assert_eq!(next_scroll_offset(SENTENCE, usize::MAX), 0);
}

#[test]
fn scroll_steps_back_onto_two_byte_character() {
    let text = "\u{e9}".repeat(30);
    assert_eq!(next_scroll_offset(&text, 0), 6);
    assert_eq!(next_scroll_offset(&text, 6), 12);
    assert!(text.is_char_boundary(next_scroll_offset(&text, 12)));
}

#[test]
fn scroll_steps_back_onto_three_byte_character() {
    let text = "\u{20ac}".repeat(20);
    assert_eq!(next_scroll_offset(&text, 0), 6);
    assert_eq!(next_scroll_offset(&text, 6), 12);
    assert_eq!(next_scroll_offset(&text, 18), 24);
}

#[test]
fn scroll_stays_on_boundaries_through_many_ticks() {
    let text = "Sinfonie Nr. 5 c-Moll op. 67 \u{fc}ber das Schicksal, gespielt von den Berliner Philharmonikern";
    let expected = [9usize, 22, 29, 39, 50, 59, 67, 76, 0, 9, 22, 29];
    let mut offset = 0;
    for want in expected {
        offset = next_scroll_offset(text, offset);
        assert_eq!(offset, want);
        assert!(text.is_char_boundary(offset));
        assert!(offset < text.len());
    }
}

#[test]
fn scroll_steps_back_onto_four_byte_character() {
    let text = format!("aaaa{}", "\u{1f600}".repeat(9));
    assert_eq!(next_scroll_offset(&text, 0), 4);
    assert_eq!(next_scroll_offset(&text, 4), 8);
    let faces = "\u{1f600}".repeat(13);
    let expected = [4usize, 8, 12, 16, 20, 24, 28, 32];
    let mut offset = 0;
    for want in expected {
        offset = next_scroll_offset(&faces, offset);
        assert_eq!(offset, want);
        assert!(faces.is_char_boundary(offset));
    }
}

#[test]
fn scroll_stays_on_boundaries_in_mixed_text() {
    let text = "a\u{1f600}\u{20ac}\u{e9} ".repeat(12);
    let expected = [11usize, 22, 33, 44, 55, 66, 77, 88, 99, 110, 121, 0, 11, 22];
    let mut offset = 0;
    for want in expected {
        offset = next_scroll_offset(&text, offset);
        assert_eq!(offset, want);
        assert!(text.is_char_boundary(offset));
        assert!(offset < text.len());
    }
}

#[test]
fn scroll_from_any_offset_lands_on_a_boundary() {
    let text = "\u{1f600}x\u{20ac}\u{e9}y".repeat(9);
    for offset in 0..text.len() + 20 {
        let next = next_scroll_offset(&text, offset);
        assert!(text.is_char_boundary(next));
        assert!(next < text.len());
    }
}

#[test]
fn cursor_starts_at_zero_and_resets() {
    let mut cursor = ScrollCursor::new();
    assert_eq!(cursor.offset, 0);
    cursor.tick(SENTENCE);
    assert_eq!(cursor.offset, 10);
    cursor.reset();
    assert_eq!(cursor, ScrollCursor::new());
}

#[test]
fn cursor_window_runs_from_the_offset_to_the_end() {
    let mut cursor = ScrollCursor::new();
    assert_eq!(cursor.window(SENTENCE), SENTENCE);
    cursor.tick(SENTENCE);
    assert_eq!(cursor.window(SENTENCE), "brown fox jumps over the lazy dog again and again");
    assert_eq!(ScrollCursor { offset: 59 }.window(SENTENCE), "");
}

#[test]
fn cursor_window_inside_a_character_is_the_whole_text() {
    let text = "a\u{e9}b";
    assert_eq!(ScrollCursor { offset: 2 }.window(text), text);
    assert_eq!(ScrollCursor { offset: 3 }.window(text), "b");
    assert_eq!(ScrollCursor { offset: 99 }.window(text), text);
}
