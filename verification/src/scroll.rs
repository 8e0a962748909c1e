//! The scroll engine: a read offset into a text that is too long for its
//! place on the display, moved on by one step per timer tick.
//!
//! A step looks for a space a little ahead of the offset, so that the window
//! starts at a word; without one it moves on by a fixed number of bytes. Near
//! the end of the text the offset returns to the start. Offsets count bytes of
//! the UTF-8 text, and a step ends by moving back onto the first byte of a
//! character: at most three times, since no character has more than four
//! bytes.

use vstd::prelude::*;
use vstd::string::*;
use vstd::utf8::*;

verus! {

/// Distance from the offset at which the search for a space begins.
pub const LOOKAHEAD_START: usize = 6;

/// Distance from the offset at which the search for a space ends (exclusive).
pub const LOOKAHEAD_END: usize = 14;

/// Advance when no space is found.
pub const FALLBACK_ADVANCE: usize = 6;

/// An offset closer than this to the end of the text returns to the start.
pub const END_MARGIN: usize = 10;

/// The first index in `from..to` that holds a space and is not the last byte
/// of the text. The search ends where the text does.
pub open spec fn space_in_window(bytes: Seq<u8>, from: int, to: int) -> Option<int>
    decreases to - from,
{
    if from >= to || from + 1 >= bytes.len() {
        None
    } else if from >= 0 && bytes[from] == 0x20u8 {
        Some(from)
    } else {
        space_in_window(bytes, from + 1, to)
    }
}

/// The offset moved past the next space in the lookahead window, or past the
/// fallback point.
pub open spec fn advanced(bytes: Seq<u8>, offset: int) -> int {
    match space_in_window(bytes, offset + LOOKAHEAD_START, offset + LOOKAHEAD_END) {
        Some(space) => space + 1,
        None => offset + FALLBACK_ADVANCE + 1,
    }
}

/// Zero where `position` is within the end margin of the text, else `position`.
pub open spec fn wrapped(bytes: Seq<u8>, position: int) -> int {
    if position + END_MARGIN > bytes.len() {
        0
    } else {
        position
    }
}

/// One byte back where `position` is inside a character.
pub open spec fn stepped_back(bytes: Seq<u8>, position: int) -> int {
    if position > 0 && !is_char_boundary(bytes, position) {
        position - 1
    } else {
        position
    }
}

/// The offset after one scroll step from `offset`.
pub open spec fn next_offset(bytes: Seq<u8>, offset: int) -> int {
    stepped_back(
        bytes,
        stepped_back(bytes, stepped_back(bytes, wrapped(bytes, advanced(bytes, offset)))),
    )
}

/// The offset after `ticks` scroll steps from `offset`.
pub open spec fn offset_after(bytes: Seq<u8>, offset: int, ticks: nat) -> int
    decreases ticks,
{
    if ticks == 0 {
        offset
    } else {
        next_offset(bytes, offset_after(bytes, offset, (ticks - 1) as nat))
    }
}

/// Of any four successive positions in the text one is the first byte of
/// a character.
pub open spec fn boundary_within_four(bytes: Seq<u8>) -> bool {
    forall|i: int|
        3 <= i <= bytes.len() ==> #[trigger] is_char_boundary(bytes, i) || is_char_boundary(
            bytes,
            i - 1,
        ) || is_char_boundary(bytes, i - 2) || is_char_boundary(bytes, i - 3)
}

proof fn lemma_boundary_behind_first_char(chars: Seq<char>, index: int)
    requires
        chars.len() > 0,
        index >= encode_scalar(chars[0] as u32).len(),
    ensures
        is_char_boundary(encode_utf8(chars), index) == is_char_boundary(
            encode_utf8(chars.drop_first()),
            index - encode_scalar(chars[0] as u32).len(),
        ),
{
    let bytes = encode_utf8(chars);
    encode_utf8_valid_utf8(chars);
    encode_utf8_first_scalar(chars);
    assert(pop_first_scalar(bytes) =~= encode_utf8(chars.drop_first()));
    reveal_with_fuel(is_char_boundary, 2);
}

/// No character takes more than four bytes: of any four successive
/// positions in a text one is the first byte of a character.
pub proof fn lemma_chars_have_at_most_four_bytes(chars: Seq<char>)
    ensures
        boundary_within_four(encode_utf8(chars)),
    decreases chars.len(),
{
    let bytes = encode_utf8(chars);
    encode_utf8_valid_utf8(chars);
    if chars.len() > 0 {
        let rest = chars.drop_first();
        let width = encode_scalar(chars[0] as u32).len() as int;
        assert(1 <= width <= 4);
        lemma_chars_have_at_most_four_bytes(rest);
        encode_utf8_valid_utf8(rest);
        assert(is_char_boundary(bytes, 0));
        assert(is_char_boundary(encode_utf8(rest), 0));
        assert forall|i: int| 3 <= i <= bytes.len() implies #[trigger] is_char_boundary(bytes, i)
            || is_char_boundary(bytes, i - 1) || is_char_boundary(bytes, i - 2)
            || is_char_boundary(bytes, i - 3) by {
            if i < width {
                assert(i - 3 == 0);
            } else if i - width < 3 {
                lemma_boundary_behind_first_char(chars, width);
            } else {
                let behind = i - width;
                assert(is_char_boundary(encode_utf8(rest), behind) || is_char_boundary(
                    encode_utf8(rest),
                    behind - 1,
                ) || is_char_boundary(encode_utf8(rest), behind - 2) || is_char_boundary(
                    encode_utf8(rest),
                    behind - 3,
                ));
                lemma_boundary_behind_first_char(chars, i);
                lemma_boundary_behind_first_char(chars, i - 1);
                lemma_boundary_behind_first_char(chars, i - 2);
                lemma_boundary_behind_first_char(chars, i - 3);
            }
        }
    }
}

/// An offset at which a window into the text can start: the first byte of a
/// character, and zero or inside the text.
pub open spec fn valid_offset(bytes: Seq<u8>, offset: int) -> bool {
    &&& is_char_boundary(bytes, offset)
    &&& 0 <= offset
    &&& offset == 0 || offset < bytes.len()
}

proof fn lemma_space_in_window_range(bytes: Seq<u8>, from: int, to: int)
    ensures
        match space_in_window(bytes, from, to) {
            Some(i) => from <= i < to && i + 1 < bytes.len() && 0 <= i && bytes[i] == 0x20u8,
            None => true,
        },
    decreases to - from,
{
    if from >= to || from + 1 >= bytes.len() {
    } else if from >= 0 && bytes[from] == 0x20u8 {
    } else {
        lemma_space_in_window_range(bytes, from + 1, to);
    }
}

/// A step moves on by at least seven and at most fourteen bytes before the
/// end margin and the character boundaries are looked at.
pub proof fn lemma_advanced_range(bytes: Seq<u8>, offset: int)
    ensures
        offset + 7 <= advanced(bytes, offset) <= offset + 14,
{
    lemma_space_in_window_range(bytes, offset + LOOKAHEAD_START, offset + LOOKAHEAD_END);
}

/// The offset after one step is zero or leaves at least the end margin, less
/// the two bytes it may have moved back, of text after it.
pub proof fn lemma_next_offset_range(bytes: Seq<u8>, offset: int)
    requires
        0 <= offset,
    ensures
        0 <= next_offset(bytes, offset),
        next_offset(bytes, offset) == 0 || next_offset(bytes, offset) + END_MARGIN
            <= bytes.len(),
{
    lemma_advanced_range(bytes, offset);
}

/// One step from any offset ends on the first byte of a character, and
/// inside the text unless the text is empty.
pub proof fn lemma_next_offset_valid(bytes: Seq<u8>, offset: int)
    requires
        valid_utf8(bytes),
        0 <= offset,
    ensures
        valid_offset(bytes, next_offset(bytes, offset)),
        bytes.len() > 0 ==> next_offset(bytes, offset) < bytes.len(),
{
    lemma_advanced_range(bytes, offset);
    decode_utf8_encode_utf8(bytes);
    lemma_chars_have_at_most_four_bytes(decode_utf8(bytes));
    let landing = wrapped(bytes, advanced(bytes, offset));
    assert(is_char_boundary(bytes, 0));
    if landing >= 3 {
        assert(is_char_boundary(bytes, landing) || is_char_boundary(bytes, landing - 1)
            || is_char_boundary(bytes, landing - 2) || is_char_boundary(bytes, landing - 3));
    }
}

/// However many steps are taken from a valid offset, the offset stays on the
/// first byte of a character, and inside the text unless the text is empty.
pub proof fn lemma_offset_stays_valid(bytes: Seq<u8>, offset: int, ticks: nat)
    requires
        valid_utf8(bytes),
        valid_offset(bytes, offset),
    ensures
        valid_offset(bytes, offset_after(bytes, offset, ticks)),
        bytes.len() > 0 ==> offset_after(bytes, offset, ticks) < bytes.len(),
    decreases ticks,
{
    if ticks > 0 {
        lemma_offset_stays_valid(bytes, offset, (ticks - 1) as nat);
        lemma_next_offset_valid(bytes, offset_after(bytes, offset, (ticks - 1) as nat));
    }
}

/// Through any number of scroll steps, the offset into any text stays on
/// the first byte of a character, and inside the text unless the text is
/// empty.
pub proof fn lemma_scroll_stays_on_characters(chars: Seq<char>, offset: int, ticks: nat)
    requires
        valid_offset(encode_utf8(chars), offset),
    ensures
        valid_offset(encode_utf8(chars), offset_after(encode_utf8(chars), offset, ticks)),
        chars.len() > 0 ==> offset_after(encode_utf8(chars), offset, ticks) < encode_utf8(
            chars,
        ).len(),
{
    encode_utf8_valid_utf8(chars);
    lemma_offset_stays_valid(encode_utf8(chars), offset, ticks);
    if chars.len() > 0 {
        char_is_scalar(chars[0]);
        assert(encode_utf8(chars).len() >= encode_scalar(chars[0] as u32).len());
    }
}

/// The offset after one scroll step through `text` from `offset`.
pub fn next_scroll_offset(text: &str, offset: usize) -> (next: usize)
    ensures
        next as int == next_offset(text.spec_bytes(), offset as int),
        next == 0 || next + END_MARGIN <= text.spec_bytes().len(),
{
    let bytes = text.as_bytes();
    let len = bytes.len();
    proof {
        lemma_advanced_range(bytes@, offset as int);
        lemma_next_offset_range(bytes@, offset as int);
    }
    if len < 17 || offset > len - 17 {
        return 0;
    }
    let mut landing: usize = offset + FALLBACK_ADVANCE + 1;
    let mut i: usize = offset + LOOKAHEAD_START;
    let mut found = false;
    while !found && i < offset + LOOKAHEAD_END
        invariant
            offset + 17 <= len,
            len == bytes@.len(),
            offset + LOOKAHEAD_START <= i <= offset + LOOKAHEAD_END,
            !found ==> landing == offset + FALLBACK_ADVANCE + 1,
            !found ==> space_in_window(
                bytes@,
                offset + LOOKAHEAD_START,
                offset + LOOKAHEAD_END,
            ) == space_in_window(bytes@, i as int, offset + LOOKAHEAD_END),
            found ==> space_in_window(bytes@, offset + LOOKAHEAD_START, offset + LOOKAHEAD_END)
                == Some((landing - 1) as int),
            landing <= offset + LOOKAHEAD_END,
        decreases offset + LOOKAHEAD_END - i + (if found { 0int } else { 1int }),
    {
        if bytes[i] == 0x20u8 {
            landing = i + 1;
            found = true;
        } else {
            i += 1;
        }
    }
    assert(landing as int == advanced(bytes@, offset as int));
    let mut next: usize = if landing > len - END_MARGIN { 0 } else { landing };
    if next > 0 && !text.is_char_boundary(next) {
        next -= 1;
    }
    if next > 0 && !text.is_char_boundary(next) {
        next -= 1;
    }
    if next > 0 && !text.is_char_boundary(next) {
        next -= 1;
    }
    next
}

/// The characters of a text from a byte offset of its UTF-8 form on, and
/// all of them where the offset is inside a character or beyond the text.
pub open spec fn window(chars: Seq<char>, offset: usize) -> Seq<char> {
    if is_char_boundary(encode_utf8(chars), offset as int) {
        decode_utf8(encode_utf8(chars).subrange(offset as int, encode_utf8(chars).len() as int))
    } else {
        chars
    }
}

/// The read offset of one scrolling text, in bytes of its UTF-8 form.
#[derive(Clone, Copy, Debug, PartialEq, Eq, Structural)]
pub struct ScrollCursor {
    pub offset: usize,
}

impl ScrollCursor {
    /// Whether a window into the text can start at the cursor.
    pub open spec fn valid_for(self, chars: Seq<char>) -> bool {
        valid_offset(encode_utf8(chars), self.offset as int)
    }

    /// A cursor at the start of its text.
    pub fn new() -> (cursor: ScrollCursor)
        ensures
            cursor.offset == 0,
    {
        ScrollCursor { offset: 0 }
    }

    /// Moves the cursor back to the start, as when its text changes.
    pub fn reset(&mut self)
        ensures
            final(self).offset == 0,
    {
        self.offset = 0;
    }

    /// Moves the cursor on by one scroll step through `text`.
    pub fn tick(&mut self, text: &str)
        ensures
            final(self).offset as int == next_offset(text.spec_bytes(), old(self).offset as int),
    {
        self.offset = next_scroll_offset(text, self.offset);
    }

    /// The part of `text` that shows from the cursor on.
    pub fn window<'a>(&self, text: &'a str) -> (shown: &'a str)
        ensures
            shown@ == window(text@, self.offset),
    {
        if text.is_char_boundary(self.offset) {
            let (_, rest) = text.split_at(self.offset);
            proof {
                encode_utf8_decode_utf8(rest@);
            }
            rest
        } else {
            text
        }
    }
}

/// A cursor at the start can show a window into any text.
pub proof fn lemma_start_is_valid(chars: Seq<char>)
    ensures
        (ScrollCursor { offset: 0 }).valid_for(chars),
{
    encode_utf8_valid_utf8(chars);
    assert(is_char_boundary(encode_utf8(chars), 0));
}

} // verus!
