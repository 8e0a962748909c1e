//! Small text helpers: decimal numerals and fixed-width fields.

use vstd::prelude::*;
use vstd::string::*;

verus! {

/// The character of one decimal digit.
pub open spec fn digit_char(d: nat) -> char {
    if d == 0 { '0' } else if d == 1 { '1' } else if d == 2 { '2' } else if d == 3 { '3' }
    else if d == 4 { '4' } else if d == 5 { '5' } else if d == 6 { '6' } else if d == 7 { '7' }
    else if d == 8 { '8' } else { '9' }
}

/// The decimal numeral of a natural number, without leading zeros.
pub open spec fn decimal(n: nat) -> Seq<char>
    decreases n,
{
    if n < 10 {
        seq![digit_char(n)]
    } else {
        decimal(n / 10).push(digit_char(n % 10))
    }
}

/// The decimal numeral of an integer, with a leading minus sign below zero.
pub open spec fn signed_decimal(i: int) -> Seq<char> {
    if i < 0 {
        seq!['-'] + decimal((-i) as nat)
    } else {
        decimal(i as nat)
    }
}

/// Number of digits in the decimal numeral of `n`.
pub proof fn lemma_decimal_len(n: nat)
    ensures
        decimal(n).len() >= 1,
        n < 10 <==> decimal(n).len() == 1,
        10 <= n < 100 <==> decimal(n).len() == 2,
        100 <= n < 1000 <==> decimal(n).len() == 3,
        1000 <= n < 10000 <==> decimal(n).len() == 4,
        n >= 10000 <==> decimal(n).len() >= 5,
    decreases n,
{
    if n >= 10 {
        lemma_decimal_len(n / 10);
    }
}

fn digit_str(d: u64) -> (s: &'static str)
    requires
        d < 10,
    ensures
        s@ == seq![digit_char(d as nat)],
{
    proof {
        reveal_strlit("0");
        reveal_strlit("1");
        reveal_strlit("2");
        reveal_strlit("3");
        reveal_strlit("4");
        reveal_strlit("5");
        reveal_strlit("6");
        reveal_strlit("7");
        reveal_strlit("8");
        reveal_strlit("9");
    }
    let s = if d == 0 { "0" } else if d == 1 { "1" } else if d == 2 { "2" } else if d == 3 { "3" }
    else if d == 4 { "4" } else if d == 5 { "5" } else if d == 6 { "6" } else if d == 7 { "7" }
    else if d == 8 { "8" } else { "9" };
    assert(s@ =~= seq![digit_char(d as nat)]);
    s
}

/// Appends the decimal numeral of `n` to `out`.
pub fn push_decimal(out: &mut String, n: u64)
    ensures
        final(out)@ == old(out)@ + decimal(n as nat),
    decreases n,
{
    if n >= 10 {
        push_decimal(out, n / 10);
    }
    out.append(digit_str(n % 10));
    assert(final(out)@ =~= old(out)@ + decimal(n as nat));
}

/// Appends the decimal numeral of `i` to `out`, with a minus sign below zero.
pub fn push_signed_decimal(out: &mut String, i: i64)
    ensures
        final(out)@ == old(out)@ + signed_decimal(i as int),
{
    if i < 0 {
        out.append("-");
        proof {
            reveal_strlit("-");
        }
        let magnitude: u64 = if i == i64::MIN { 9223372036854775808u64 } else { (-i) as u64 };
        push_decimal(out, magnitude);
        assert(final(out)@ =~= old(out)@ + signed_decimal(i as int));
    } else {
        push_decimal(out, i as u64);
    }
}

/// The decimal numeral of `n` as a string.
pub fn decimal_string(n: u64) -> (s: String)
    ensures
        s@ == decimal(n as nat),
{
    let mut s = String::new();
    push_decimal(&mut s, n);
    assert(s@ =~= decimal(n as nat));
    s
}

/// The ASCII code of one decimal digit.
pub open spec fn digit_byte(d: nat) -> u8 {
    (0x30 + d % 10) as u8
}

/// The decimal numeral of a natural number as ASCII codes.
pub open spec fn decimal_bytes(n: nat) -> Seq<u8>
    decreases n,
{
    if n < 10 {
        seq![digit_byte(n)]
    } else {
        decimal_bytes(n / 10).push(digit_byte(n % 10))
    }
}

/// Appends the decimal numeral of `n` to `out` as ASCII codes.
pub fn push_decimal_bytes(out: &mut Vec<u8>, n: u64)
    ensures
        final(out)@ == old(out)@ + decimal_bytes(n as nat),
    decreases n,
{
    if n >= 10 {
        push_decimal_bytes(out, n / 10);
    }
    let digit: u8 = 0x30u8 + (n % 10) as u8;
    out.push(digit);
    assert(final(out)@ =~= old(out)@ + decimal_bytes(n as nat));
}

/// A run of `count` copies of `value`.
pub open spec fn repeated<T>(value: T, count: nat) -> Seq<T> {
    Seq::new(count, |i: int| value)
}

/// Appends `count` space codes to `out`.
pub fn push_spaces(out: &mut Vec<u8>, count: usize)
    ensures
        final(out)@ == old(out)@ + repeated(0x20u8, count as nat),
{
    let mut i: usize = 0;
    while i < count
        invariant
            i <= count,
            out@ == old(out)@ + repeated(0x20u8, i as nat),
        decreases count - i,
    {
        out.push(0x20u8);
        i += 1;
        assert(out@ =~= old(out)@ + repeated(0x20u8, i as nat));
    }
}

/// Appends the bytes of `bytes` to `out`.
pub fn push_bytes(out: &mut Vec<u8>, bytes: &[u8])
    ensures
        final(out)@ == old(out)@ + bytes@,
{
    let mut i: usize = 0;
    while i < bytes.len()
        invariant
            i <= bytes.len(),
            out@ == old(out)@ + bytes@.subrange(0, i as int),
        decreases bytes.len() - i,
    {
        out.push(bytes[i]);
        i += 1;
        assert(out@ =~= old(out)@ + bytes@.subrange(0, i as int));
    }
    assert(bytes@.subrange(0, i as int) =~= bytes@);
}

/// `cells` cut or filled with spaces on the right to exactly `width` cells.
pub open spec fn fitted(cells: Seq<u8>, width: nat) -> Seq<u8> {
    if cells.len() >= width {
        cells.subrange(0, width as int)
    } else {
        cells + repeated(0x20u8, (width - cells.len()) as nat)
    }
}

/// Cuts `cells` or fills it with spaces on the right to exactly `width` cells.
pub fn fit(cells: &mut Vec<u8>, width: usize)
    ensures
        final(cells)@ == fitted(old(cells)@, width as nat),
        final(cells)@.len() == width,
{
    if cells.len() >= width {
        cells.truncate(width);
    } else {
        let missing = width - cells.len();
        push_spaces(cells, missing);
    }
}

/// `chars` with spaces in front to at least `width` characters.
pub open spec fn right_justified(chars: Seq<char>, width: nat) -> Seq<char> {
    if chars.len() >= width {
        chars
    } else {
        repeated(' ', (width - chars.len()) as nat) + chars
    }
}

/// `chars` cut or filled with spaces on the right to exactly `width` characters.
pub open spec fn left_fitted(chars: Seq<char>, width: nat) -> Seq<char> {
    if chars.len() >= width {
        chars.subrange(0, width as int)
    } else {
        chars + repeated(' ', (width - chars.len()) as nat)
    }
}

/// Appends `count` spaces to `out`.
pub fn push_space_chars(out: &mut String, count: usize)
    ensures
        final(out)@ == old(out)@ + repeated(' ', count as nat),
{
    proof {
        reveal_strlit(" ");
    }
    let mut i: usize = 0;
    assert(out@ =~= old(out)@ + repeated(' ', 0));
    while i < count
        invariant
            i <= count,
            " "@ == seq![' '],
            out@ == old(out)@ + repeated(' ', i as nat),
        decreases count - i,
    {
        out.append(" ");
        i += 1;
        assert(out@ =~= old(out)@ + repeated(' ', i as nat));
    }
}

/// Appends `text` to `out`, with spaces in front to at least `width` characters.
pub fn push_right_justified(out: &mut String, text: &str, width: usize)
    ensures
        final(out)@ == old(out)@ + right_justified(text@, width as nat),
{
    let len = text.unicode_len();
    if len < width {
        push_space_chars(out, width - len);
    }
    out.append(text);
    assert(final(out)@ =~= old(out)@ + right_justified(text@, width as nat));
}

/// Appends `text` to `out`, cut or filled with spaces on the right to exactly
/// `width` characters.
pub fn push_left_fitted(out: &mut String, text: &str, width: usize)
    ensures
        final(out)@ == old(out)@ + left_fitted(text@, width as nat),
{
    let len = text.unicode_len();
    if len >= width {
        out.append(text.substring_char(0, width));
    } else {
        out.append(text);
        push_space_chars(out, width - len);
    }
    assert(final(out)@ =~= old(out)@ + left_fitted(text@, width as nat));
}

/// Whether a character is white space as Unicode defines it: the controls
/// from tab to carriage return, the space, the next-line control, the
/// no-break space, and the spaces and separators of the general punctuation
/// and ideographic blocks.
pub open spec fn is_white_space(ch: char) -> bool {
    let code = ch as u32;
    ||| 0x09 <= code <= 0x0d
    ||| code == 0x20
    ||| code == 0x85
    ||| code == 0xa0
    ||| code == 0x1680
    ||| 0x2000 <= code <= 0x200a
    ||| code == 0x2028
    ||| code == 0x2029
    ||| code == 0x202f
    ||| code == 0x205f
    ||| code == 0x3000
}

/// Whether a character is white space as Unicode defines it.
pub fn is_white_space_char(ch: char) -> (white: bool)
    ensures
        white == is_white_space(ch),
{
    let code = ch as u32;
    (0x09 <= code && code <= 0x0d) || code == 0x20 || code == 0x85 || code == 0xa0 || code
        == 0x1680 || (0x2000 <= code && code <= 0x200a) || code == 0x2028 || code == 0x2029
        || code == 0x202f || code == 0x205f || code == 0x3000
}

} // verus!
