//! Transliteration of text into the display's native character codes.
//!
//! Characters below `~` are in the display's built-in font at their own code.
//! A fixed set of accented letters and symbols has a code of its own, either in
//! the font's upper half or in one of the programmable glyph slots. Every other
//! character is replaced by an ASCII approximation.

use vstd::prelude::*;
use vstd::string::*;
use vstd::utf8::*;

verus! {

/// The ASCII approximation that `unidecode::unidecode_char` gives for a character.
pub uninterp spec fn ascii_transliteration(ch: char) -> Seq<char>;

/// The code that the display has for `ch` beyond the built-in ASCII range, if any.
pub open spec fn native_code(ch: char) -> Option<u8> {
    if ch == '\u{e9}' {
        Some(5u8)
    } else if ch == '\u{e8}' {
        Some(6u8)
    } else if ch == '\u{e0}' {
        Some(7u8)
    } else if ch == '\u{e4}' {
        Some(0xe1u8)
    } else if ch == '\u{f1}' {
        Some(0xeeu8)
    } else if ch == '\u{f6}' {
        Some(0xefu8)
    } else if ch == '\u{fc}' {
        Some(0xf5u8)
    } else if ch == '\u{3c0}' {
        Some(0xe4u8)
    } else if ch == '\u{b5}' {
        Some(0xf7u8)
    } else if ch == '~' {
        Some(0xf3u8)
    } else if ch == '\u{e080}' {
        Some(0xffu8)
    } else {
        None
    }
}

/// Whether the display's built-in font shows `ch` at its own code: every
/// character below `~`.
pub open spec fn in_builtin_font(ch: char) -> bool {
    (ch as u32) < 0x7e
}

/// The display codes for `ch`, given the ASCII approximation to fall back on.
pub open spec fn glyph_codes_with(ch: char, fallback: Seq<char>) -> Seq<u8> {
    if in_builtin_font(ch) {
        seq![ch as u8]
    } else if native_code(ch) is Some {
        seq![native_code(ch)->0]
    } else {
        encode_utf8(fallback)
    }
}

/// The display codes for `ch`.
pub open spec fn glyph_codes(ch: char) -> Seq<u8> {
    glyph_codes_with(ch, ascii_transliteration(ch))
}

/// The display codes for a text: those of its characters, in order.
pub open spec fn transliterated(chars: Seq<char>) -> Seq<u8>
    decreases chars.len(),
{
    if chars.len() == 0 {
        Seq::empty()
    } else {
        transliterated(chars.drop_last()) + glyph_codes(chars.last())
    }
}

/// Calls `unidecode::unidecode_char`, which looks `ch` up in a table fixed at
/// compile time. The result depends on `ch` alone; nothing more is claimed of it.
#[verifier::external_body]
fn unidecode_char(ch: char) -> (text: &'static str)
    ensures
        text@ == ascii_transliteration(ch),
{
    unidecode::unidecode_char(ch)
}

fn native_code_of(ch: char) -> (code: Option<u8>)
    ensures
        code == native_code(ch),
{
    if ch == '\u{e9}' {
        Some(5)
    } else if ch == '\u{e8}' {
        Some(6)
    } else if ch == '\u{e0}' {
        Some(7)
    } else if ch == '\u{e4}' {
        Some(0xe1)
    } else if ch == '\u{f1}' {
        Some(0xee)
    } else if ch == '\u{f6}' {
        Some(0xef)
    } else if ch == '\u{fc}' {
        Some(0xf5)
    } else if ch == '\u{3c0}' {
        Some(0xe4)
    } else if ch == '\u{b5}' {
        Some(0xf7)
    } else if ch == '~' {
        Some(0xf3)
    } else if ch == '\u{e080}' {
        Some(0xff)
    } else {
        None
    }
}

/// Appends to `out` the display codes for `ch`, with `fallback` as the ASCII
/// approximation of a character that the display has no code for.
pub fn push_glyph_codes_with(out: &mut Vec<u8>, ch: char, fallback: &str)
    ensures
        final(out)@ == old(out)@ + glyph_codes_with(ch, fallback@),
{
    if (ch as u32) < 0x7e {
        out.push(ch as u8);
        assert(final(out)@ =~= old(out)@ + glyph_codes_with(ch, fallback@));
    } else {
        match native_code_of(ch) {
            Some(code) => {
                out.push(code);
                assert(final(out)@ =~= old(out)@ + glyph_codes_with(ch, fallback@));
            },
            None => {
                let bytes = fallback.as_bytes();
                let mut i: usize = 0;
                while i < bytes.len()
                    invariant
                        i <= bytes.len(),
                        bytes@ == encode_utf8(fallback@),
                        out@ == old(out)@ + bytes@.subrange(0, i as int),
                    decreases bytes.len() - i,
                {
                    out.push(bytes[i]);
                    i += 1;
                    assert(out@ =~= old(out)@ + bytes@.subrange(0, i as int));
                }
                assert(bytes@.subrange(0, i as int) =~= bytes@);
            },
        }
    }
}

/// Appends to `out` the display codes for `ch`.
pub fn push_glyph_codes(out: &mut Vec<u8>, ch: char)
    ensures
        final(out)@ == old(out)@ + glyph_codes(ch),
{
    if (ch as u32) < 0x7e {
        push_glyph_codes_with(out, ch, "");
    } else {
        let fallback = unidecode_char(ch);
        push_glyph_codes_with(out, ch, fallback);
    }
}

/// The display codes for `text`.
pub fn transliterate(text: &str) -> (codes: Vec<u8>)
    ensures
        codes@ == transliterated(text@),
{
    let mut codes: Vec<u8> = Vec::new();
    let count = text.unicode_len();
    let mut i: usize = 0;
    while i < count
        invariant
            i <= count,
            count == text@.len(),
            codes@ == transliterated(text@.subrange(0, i as int)),
        decreases count - i,
    {
        let ch = text.get_char(i);
        push_glyph_codes(&mut codes, ch);
        proof {
            let next = text@.subrange(0, i + 1);
            assert(next.drop_last() =~= text@.subrange(0, i as int));
            assert(next.last() == ch);
        }
        i += 1;
    }
    assert(text@.subrange(0, i as int) =~= text@);
    codes
}

/// The display codes for `text`, cut or filled with spaces to exactly
/// `width` cells: the cells are counted once the text is in display codes.
pub fn fitted_codes(text: &str, width: usize) -> (cells: Vec<u8>)
    ensures
        cells@ == crate::text::fitted(transliterated(text@), width as nat),
        cells@.len() == width,
{
    let mut cells = transliterate(text);
    crate::text::fit(&mut cells, width);
    cells
}

} // verus!
