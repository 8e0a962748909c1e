//! The escape-code backend: what is written to the display's character
//! device. `Lc` collects the bytes of each operation; the owner of the device
//! takes them out and writes them.

use crate::character_pattern::{bitmap_row, bitmaps, GLYPH_COUNT, GLYPH_ROWS};
use crate::messages::PipelineState;
use crate::scroll::{next_offset, next_scroll_offset};
use crate::text::{
    decimal, decimal_bytes, fitted, left_fitted, push_bytes, push_decimal_bytes,
    push_left_fitted, push_right_justified, push_spaces, repeated, right_justified,
};
use crate::translit::{fitted_codes, transliterated};
use vstd::prelude::*;
use vstd::string::*;
use vstd::utf8::*;

verus! {

/// The display is 20 characters wide and 4 lines high.
pub const NUM_CHARACTERS_PER_LINE: usize = 20;

/// Width of the status zone at the right of line 1.
pub const VOLUME_CHAR_COUNT: usize = 7;

/// Width of the data zone at the left of line 1.
pub const LINE1_DATA_CHAR_COUNT: u16 = 13;

/// Width of the data zone at the left of line 1.
pub const LINE1_DATA_CHAR_COUNT_USIZE: usize = 13;

/// A line of the display, from the top.
#[derive(Clone, Copy, Debug, PartialEq, Eq, Structural)]
pub enum LineNum {
    Line1,
    Line2,
    Line3,
    Line4,
}

impl LineNum {
    /// The line's row number, counted from zero.
    pub open spec fn row(self) -> nat {
        match self {
            LineNum::Line1 => 0,
            LineNum::Line2 => 1,
            LineNum::Line3 => 2,
            LineNum::Line4 => 3,
        }
    }

    /// The line's row number, counted from zero.
    pub fn into_u16(self) -> (row: u16)
        ensures
            row == self.row(),
    {
        match self {
            LineNum::Line1 => 0,
            LineNum::Line2 => 1,
            LineNum::Line3 => 2,
            LineNum::Line4 => 3,
        }
    }
}

/// The three bytes that open every command: escape, `[`, `L`.
pub open spec fn command_prefix() -> Seq<u8> {
    seq![0x1bu8, 0x5bu8, 0x4cu8]
}

/// A command of one letter.
pub open spec fn letter_command(letter: u8) -> Seq<u8> {
    command_prefix().push(letter)
}

/// Initialise the display (`I`), stop the cursor blinking (`b`), hide the
/// cursor (`c`).
pub open spec fn init_sequence() -> Seq<u8> {
    letter_command(0x49u8) + letter_command(0x62u8) + letter_command(0x63u8)
}

/// The lower-case hexadecimal digit for a value below sixteen.
pub open spec fn hex_digit(value: nat) -> u8 {
    if value % 16 < 10 {
        (0x30 + value % 16) as u8
    } else {
        (0x61 + value % 16 - 10) as u8
    }
}

/// Two hexadecimal digits for each of the first `rows` rows of a glyph.
pub open spec fn glyph_rows_hex(slot: int, rows: nat) -> Seq<u8>
    decreases rows,
{
    if rows == 0 {
        Seq::empty()
    } else {
        let bits = bitmaps()[slot][rows - 1];
        glyph_rows_hex(slot, (rows - 1) as nat).push(hex_digit(bits as nat / 16)).push(
            hex_digit(bits as nat % 16),
        )
    }
}

/// The command that defines the glyph of one slot: `G`, the slot's digit,
/// sixteen hexadecimal digits for its eight rows, and a semicolon.
pub open spec fn glyph_command(slot: int) -> Seq<u8> {
    letter_command(0x47u8).push(hex_digit(slot as nat)) + glyph_rows_hex(
        slot,
        GLYPH_ROWS as nat,
    ).push(0x3bu8)
}

/// The glyph commands of the first `count` slots, in order.
pub open spec fn glyph_commands(count: nat) -> Seq<u8>
    decreases count,
{
    if count == 0 {
        Seq::empty()
    } else {
        glyph_commands((count - 1) as nat) + glyph_command(count - 1)
    }
}

/// What clears and reinitialises the display: the init sequence, then the
/// definition of all eight glyphs, which the initialisation may have wiped.
pub open spec fn clear_screen_bytes() -> Seq<u8> {
    init_sequence() + glyph_commands(GLYPH_COUNT as nat)
}

/// The command that moves the cursor: `x`, the column, `y`, the row, and a
/// semicolon, both numbers in decimal.
pub open spec fn cursor_command(column: nat, row: nat) -> Seq<u8> {
    (letter_command(0x78u8) + decimal_bytes(column)).push(0x79u8) + decimal_bytes(row).push(
        0x3bu8,
    )
}

/// `cells` with a line feed after every full line of twenty.
pub open spec fn broken_into_lines(cells: Seq<u8>) -> Seq<u8>
    decreases cells.len(),
{
    if cells.len() < NUM_CHARACTERS_PER_LINE {
        cells
    } else {
        cells.subrange(0, NUM_CHARACTERS_PER_LINE as int).push(0x0au8) + broken_into_lines(
            cells.subrange(NUM_CHARACTERS_PER_LINE as int, cells.len() as int),
        )
    }
}

/// What writes `chars` over exactly `length` cells from the start of a line:
/// the cursor command, then the text's display codes, cut or filled with
/// spaces to `length` and broken into lines.
pub open spec fn multiline_bytes(row: nat, length: nat, chars: Seq<char>) -> Seq<u8> {
    cursor_command(0, row) + broken_into_lines(fitted(transliterated(chars), length))
}

/// The cells of the buffering gauge: one cursor glyph among spaces. A
/// hundred units of buffering span the twenty cells, five units to a cell;
/// the glyph's code, 0 to 4, is the remainder within the cell. Buffering
/// above 99 counts as 99.
pub open spec fn gauge_cells(buffering: u8) -> Seq<u8> {
    let trimmed: nat = if buffering > 99 { 99 } else { buffering as nat };
    (repeated(0x20u8, trimmed / 5).push((trimmed % 5) as u8)) + repeated(
        0x20u8,
        (19 - trimmed / 5) as nat,
    )
}

/// What the status zone of line 1 shows: the volume while playing, or the
/// pipeline's state.
pub open spec fn volume_text(state: PipelineState, is_muted: bool, volume: i32) -> Seq<char> {
    if state == PipelineState::Playing && volume >= 0 {
        if is_muted {
            "  Muted"@
        } else {
            "Vol"@ + right_justified(decimal(volume as nat), (VOLUME_CHAR_COUNT - 3) as nat)
        }
    } else {
        left_fitted(state.spec_name(), VOLUME_CHAR_COUNT as nat)
    }
}

/// The line that reports the processor's temperature and the strength of the
/// wireless signal.
pub open spec fn temperature_and_strength_text(
    cpu_temperature: i32,
    wifi_strength: Seq<char>,
) -> Seq<char> {
    "CPU Temp "@ + crate::text::signed_decimal(cpu_temperature as int) + "C WiFi"@
        + wifi_strength
}

/// The line that reports the processor's temperature and the time of day.
pub open spec fn temperature_and_time_text(
    cpu_temperature: i32,
    time_of_day: Seq<char>,
) -> Seq<char> {
    "CPU temp "@ + crate::text::signed_decimal(cpu_temperature as int) + " C "@ + time_of_day
}

/// The characters of a text from a byte offset on.
pub open spec fn window_chars(bytes: Seq<u8>, offset: int) -> Seq<char> {
    decode_utf8(bytes.subrange(offset, bytes.len() as int))
}

/// What one call of `write_with_scroll` writes: the window from the offset
/// on, or nothing where the offset is inside a character or beyond the text.
pub open spec fn scroll_bytes(row: nat, length: nat, bytes: Seq<u8>, offset: int) -> Seq<u8> {
    if is_char_boundary(bytes, offset) {
        multiline_bytes(row, length, window_chars(bytes, offset))
    } else {
        Seq::empty()
    }
}

/// The value of a hexadecimal digit, and 0 for any other byte.
pub open spec fn hex_value(digit: u8) -> nat {
    if 0x30 <= digit <= 0x39 {
        (digit - 0x30) as nat
    } else if 0x61 <= digit <= 0x66 {
        (digit - 0x61 + 10) as nat
    } else {
        0
    }
}

/// Length of one glyph command.
pub open spec fn glyph_command_len() -> nat {
    22
}

/// Where in a glyph command the two digits of a row stand.
pub open spec fn row_digits_at(row: int) -> int {
    5 + 2 * row
}

proof fn lemma_glyph_rows_hex(slot: int, rows: nat, row: int)
    requires
        0 <= row < rows,
    ensures
        glyph_rows_hex(slot, rows).len() == 2 * rows,
        glyph_rows_hex(slot, rows)[2 * row] == hex_digit(bitmaps()[slot][row] as nat / 16),
        glyph_rows_hex(slot, rows)[2 * row + 1] == hex_digit(bitmaps()[slot][row] as nat % 16),
    decreases rows,
{
    lemma_glyph_rows_hex_len(slot, rows);
    lemma_glyph_rows_hex_len(slot, (rows - 1) as nat);
    if row < rows - 1 {
        lemma_glyph_rows_hex(slot, (rows - 1) as nat, row);
    }
}

proof fn lemma_glyph_rows_hex_len(slot: int, rows: nat)
    ensures
        glyph_rows_hex(slot, rows).len() == 2 * rows,
    decreases rows,
{
    if rows > 0 {
        lemma_glyph_rows_hex_len(slot, (rows - 1) as nat);
    }
}

proof fn lemma_glyph_commands(count: nat, slot: int, i: int)
    requires
        0 <= slot < count,
        0 <= i < glyph_command_len(),
    ensures
        glyph_commands(count).len() == glyph_command_len() * count,
        glyph_command(slot).len() == glyph_command_len(),
        glyph_commands(count)[glyph_command_len() * slot + i] == glyph_command(slot)[i],
    decreases count,
{
    lemma_glyph_commands_len(count);
    lemma_glyph_commands_len((count - 1) as nat);
    lemma_glyph_rows_hex_len(slot, GLYPH_ROWS as nat);
    lemma_glyph_rows_hex_len(count - 1, GLYPH_ROWS as nat);
    if slot < count - 1 {
        lemma_glyph_commands((count - 1) as nat, slot, i);
    }
}

proof fn lemma_glyph_commands_len(count: nat)
    ensures
        glyph_commands(count).len() == glyph_command_len() * count,
    decreases count,
{
    if count > 0 {
        lemma_glyph_commands_len((count - 1) as nat);
        lemma_glyph_rows_hex_len(count - 1, GLYPH_ROWS as nat);
    }
}

/// The bytes that clear and reinitialise the display spell every row of
/// every glyph of the table: for each slot and row, the two hexadecimal
/// digits at the row's place in the slot's command have the row's bits as
/// their value.
pub proof fn lemma_clear_screen_defines_glyphs(slot: int, row: int)
    requires
        0 <= slot < GLYPH_COUNT,
        0 <= row < GLYPH_ROWS,
    ensures
        ({
            let at = init_sequence().len() + glyph_command_len() * slot + row_digits_at(row);
            &&& at + 1 < clear_screen_bytes().len()
            &&& hex_value(clear_screen_bytes()[at]) * 16 + hex_value(clear_screen_bytes()[at + 1])
                == bitmaps()[slot][row]
        }),
{
    let digits = row_digits_at(row);
    lemma_glyph_commands(GLYPH_COUNT as nat, slot, digits);
    lemma_glyph_commands(GLYPH_COUNT as nat, slot, digits + 1);
    lemma_glyph_rows_hex(slot, GLYPH_ROWS as nat, row);
    let command = glyph_command(slot);
    let bits = bitmaps()[slot][row];
    assert(bits < 0x20) by {
        lemma_bitmap_rows_are_narrow(slot, row);
    }
    assert(command[digits] == hex_digit(bits as nat / 16));
    assert(command[digits + 1] == hex_digit(bits as nat % 16));
    let at = init_sequence().len() + glyph_command_len() * slot + digits;
    assert(glyph_command_len() * slot + digits + 1 < glyph_command_len() * GLYPH_COUNT)
        by (nonlinear_arith)
        requires
            0 <= slot < GLYPH_COUNT,
            0 <= digits < 21,
            glyph_command_len() == 22,
    ;
    assert(clear_screen_bytes()[at] == command[digits]);
    assert(clear_screen_bytes()[at + 1] == command[digits + 1]);
}

/// Every row of every glyph uses the low five bits only.
pub proof fn lemma_bitmap_rows_are_narrow(slot: int, row: int)
    requires
        0 <= slot < GLYPH_COUNT,
        0 <= row < GLYPH_ROWS,
    ensures
        bitmaps()[slot][row] < 0x20,
{
}

/// The gauge fills its line: twenty cells, all spaces but one, which holds a
/// cursor glyph; the glyph stands at a fifth of the buffering, and its code
/// is the remainder.
pub proof fn lemma_gauge_shape(buffering: u8)
    ensures
        gauge_cells(buffering).len() == NUM_CHARACTERS_PER_LINE,
        ({
            let trimmed: int = if buffering > 99 { 99 } else { buffering as int };
            forall|i: int|
                0 <= i < NUM_CHARACTERS_PER_LINE ==> #[trigger] gauge_cells(buffering)[i] == (if i
                    == trimmed / 5 {
                    (trimmed % 5) as u8
                } else {
                    0x20u8
                })
        }),
{
}

fn push_letter_command(out: &mut Vec<u8>, letter: u8)
    ensures
        final(out)@ == old(out)@ + letter_command(letter),
{
    out.push(0x1bu8);
    out.push(0x5bu8);
    out.push(0x4cu8);
    out.push(letter);
    assert(final(out)@ =~= old(out)@ + letter_command(letter));
}

fn hex_digit_of(value: u8) -> (digit: u8)
    requires
        value < 16,
    ensures
        digit == hex_digit(value as nat),
{
    if value < 10 {
        0x30u8 + value
    } else {
        0x61u8 + (value - 10)
    }
}

fn push_glyph_command(out: &mut Vec<u8>, slot: usize)
    requires
        slot < GLYPH_COUNT,
    ensures
        final(out)@ == old(out)@ + glyph_command(slot as int),
{
    push_letter_command(out, 0x47u8);
    out.push(hex_digit_of(slot as u8));
    let ghost head = out@;
    let mut row: usize = 0;
    assert(out@ =~= head + glyph_rows_hex(slot as int, 0));
    while row < GLYPH_ROWS
        invariant
            slot < GLYPH_COUNT,
            row <= GLYPH_ROWS,
            out@ == head + glyph_rows_hex(slot as int, row as nat),
        decreases GLYPH_ROWS - row,
    {
        let bits = bitmap_row(slot, row);
        out.push(hex_digit_of(bits / 16));
        out.push(hex_digit_of(bits % 16));
        row += 1;
        assert(out@ =~= head + glyph_rows_hex(slot as int, row as nat));
    }
    out.push(0x3bu8);
    assert(final(out)@ =~= old(out)@ + glyph_command(slot as int));
}

fn push_clear_screen(out: &mut Vec<u8>)
    ensures
        final(out)@ == old(out)@ + clear_screen_bytes(),
{
    push_letter_command(out, 0x49u8);
    push_letter_command(out, 0x62u8);
    push_letter_command(out, 0x63u8);
    let ghost head = out@;
    assert(head =~= old(out)@ + init_sequence());
    let mut slot: usize = 0;
    assert(out@ =~= head + glyph_commands(0));
    while slot < GLYPH_COUNT
        invariant
            slot <= GLYPH_COUNT,
            out@ == head + glyph_commands(slot as nat),
        decreases GLYPH_COUNT - slot,
    {
        push_glyph_command(out, slot);
        slot += 1;
        assert(out@ =~= head + glyph_commands(slot as nat));
    }
    assert(final(out)@ =~= old(out)@ + clear_screen_bytes());
}

fn push_cursor_command(out: &mut Vec<u8>, column: u16, row: u16)
    ensures
        final(out)@ == old(out)@ + cursor_command(column as nat, row as nat),
{
    push_letter_command(out, 0x78u8);
    push_decimal_bytes(out, column as u64);
    out.push(0x79u8);
    push_decimal_bytes(out, row as u64);
    out.push(0x3bu8);
    assert(final(out)@ =~= old(out)@ + cursor_command(column as nat, row as nat));
}

fn push_broken_into_lines(out: &mut Vec<u8>, cells: &Vec<u8>)
    ensures
        final(out)@ == old(out)@ + broken_into_lines(cells@),
{
    let len = cells.len();
    let mut start: usize = 0;
    assert(cells@.subrange(0, len as int) =~= cells@);
    while len - start >= NUM_CHARACTERS_PER_LINE
        invariant
            start <= len,
            len == cells@.len(),
            out@ + broken_into_lines(cells@.subrange(start as int, len as int)) == old(out)@
                + broken_into_lines(cells@),
        decreases len - start,
    {
        let ghost rest = cells@.subrange(start as int, len as int);
        let ghost before = out@;
        let mut i: usize = 0;
        while i < NUM_CHARACTERS_PER_LINE
            invariant
                i <= NUM_CHARACTERS_PER_LINE,
                start + NUM_CHARACTERS_PER_LINE <= len,
                len == cells@.len(),
                out@ == before + cells@.subrange(start as int, start + i),
            decreases NUM_CHARACTERS_PER_LINE - i,
        {
            out.push(cells[start + i]);
            i += 1;
            assert(out@ =~= before + cells@.subrange(start as int, start + i));
        }
        out.push(0x0au8);
        proof {
            assert(rest.subrange(0, NUM_CHARACTERS_PER_LINE as int) =~= cells@.subrange(
                start as int,
                start + NUM_CHARACTERS_PER_LINE,
            ));
            assert(rest.subrange(NUM_CHARACTERS_PER_LINE as int, rest.len() as int)
                =~= cells@.subrange(start + NUM_CHARACTERS_PER_LINE, len as int));
            assert(out@ + broken_into_lines(
                cells@.subrange(start + NUM_CHARACTERS_PER_LINE, len as int),
            ) =~= before + broken_into_lines(rest));
        }
        start += NUM_CHARACTERS_PER_LINE;
    }
    let ghost rest = cells@.subrange(start as int, len as int);
    let ghost before = out@;
    while start < len
        invariant
            start <= len,
            len == cells@.len(),
            out@ + cells@.subrange(start as int, len as int) == before + rest,
        decreases len - start,
    {
        out.push(cells[start]);
        proof {
            assert(cells@.subrange(start as int, len as int) =~= seq![cells@[start as int]]
                + cells@.subrange(start + 1, len as int));
            assert(out@ + cells@.subrange(start + 1, len as int) =~= before + rest);
        }
        start += 1;
    }
    assert(out@ =~= before + rest);
}

/// Puts the text of the status zone of line 1 together.
pub fn format_volume(pipe_line_state: PipelineState, is_muted: bool, volume: i32) -> (message:
    String)
    ensures
        message@ == volume_text(pipe_line_state, is_muted, volume),
{
    let mut message = String::new();
    if pipe_line_state == PipelineState::Playing && volume >= 0 {
        if is_muted {
            message.append("  Muted");
        } else {
            message.append("Vol");
            let number = crate::text::decimal_string(volume as u64);
            push_right_justified(&mut message, number.as_str(), VOLUME_CHAR_COUNT - 3);
        }
    } else {
        push_left_fitted(&mut message, pipe_line_state.name(), VOLUME_CHAR_COUNT);
    }
    assert(message@ =~= volume_text(pipe_line_state, is_muted, volume));
    message
}

/// Puts the line of the processor's temperature and the strength of the
/// wireless signal together.
pub fn format_temperature_and_strength(cpu_temperature: i32, wifi_strength: &str) -> (message:
    String)
    ensures
        message@ == temperature_and_strength_text(cpu_temperature, wifi_strength@),
{
    let mut message = String::new();
    message.append("CPU Temp ");
    crate::text::push_signed_decimal(&mut message, cpu_temperature as i64);
    message.append("C WiFi");
    message.append(wifi_strength);
    assert(message@ =~= temperature_and_strength_text(cpu_temperature, wifi_strength@));
    message
}

/// Puts the line of the processor's temperature and the time of day
/// together.
pub fn format_temperature_and_time(cpu_temperature: i32, time_of_day: &str) -> (message: String)
    ensures
        message@ == temperature_and_time_text(cpu_temperature, time_of_day@),
{
    let mut message = String::new();
    message.append("CPU temp ");
    crate::text::push_signed_decimal(&mut message, cpu_temperature as i64);
    message.append(" C ");
    message.append(time_of_day);
    assert(message@ =~= temperature_and_time_text(cpu_temperature, time_of_day@));
    message
}

/// Builds the cells of the buffering gauge.
pub fn gauge_line(buffering: u8) -> (cells: Vec<u8>)
    ensures
        cells@ == gauge_cells(buffering),
        cells@.len() == NUM_CHARACTERS_PER_LINE,
{
    let trimmed: u8 = if buffering > 99 { 99 } else { buffering };
    let scaled: u8 = trimmed / 5;
    let mut cells: Vec<u8> = Vec::new();
    push_spaces(&mut cells, scaled as usize);
    cells.push(trimmed % 5);
    push_spaces(&mut cells, (19 - scaled) as usize);
    assert(cells@ =~= gauge_cells(buffering));
    cells
}

/// The pending output of the escape-code backend.
pub struct Lc {
    pending: Vec<u8>,
}

impl View for Lc {
    type V = Seq<u8>;

    /// The bytes that wait to be written to the device, oldest first.
    closed spec fn view(&self) -> Seq<u8> {
        self.pending@
    }
}

impl Lc {
    /// A backend whose first output clears and reinitialises the display.
    pub fn new() -> (lcd: Lc)
        ensures
            lcd@ == clear_screen_bytes(),
    {
        let mut pending: Vec<u8> = Vec::new();
        push_clear_screen(&mut pending);
        assert(pending@ =~= clear_screen_bytes());
        Lc { pending }
    }

    /// Takes out the bytes that wait to be written, leaving none.
    pub fn take_output(&mut self) -> (bytes: Vec<u8>)
        ensures
            bytes@ == old(self)@,
            final(self)@ == Seq::<u8>::empty(),
    {
        let mut bytes: Vec<u8> = Vec::new();
        std::mem::swap(&mut bytes, &mut self.pending);
        bytes
    }

    /// Clears and reinitialises the display, and defines the eight glyphs anew.
    pub fn clear(&mut self)
        ensures
            final(self)@ == old(self)@ + clear_screen_bytes(),
    {
        push_clear_screen(&mut self.pending);
    }

    /// Writes `input` as it is from the given column of a line. The text must
    /// be in the display's own codes and fit on the line.
    pub fn write_ascii(&mut self, line_number: LineNum, column: u16, input: &str)
        ensures
            final(self)@ == old(self)@ + cursor_command(column as nat, line_number.row())
                + input.spec_bytes(),
    {
        let row = line_number.into_u16();
        push_cursor_command(&mut self.pending, column, row);
        push_bytes(&mut self.pending, input.as_bytes());
    }

    /// Writes exactly `length` cells from the start of a line, running on
    /// into the following lines: the text in display codes, cut or filled
    /// with spaces.
    pub fn write_multiline(&mut self, line_number: LineNum, length: usize, in_string: &str)
        ensures
            final(self)@ == old(self)@ + multiline_bytes(
                line_number.row(),
                length as nat,
                in_string@,
            ),
    {
        let row = line_number.into_u16();
        push_cursor_command(&mut self.pending, 0, row);
        let cells = fitted_codes(in_string, length);
        push_broken_into_lines(&mut self.pending, &cells);
        assert(final(self)@ =~= old(self)@ + multiline_bytes(
            line_number.row(),
            length as nat,
            in_string@,
        ));
    }

    /// Writes the status zone of line 1: the volume, right-justified behind
    /// `Vol`, while playing and not muted; `Muted` while playing and muted;
    /// else the name of the pipeline's state.
    pub fn write_volume(&mut self, pipe_line_state: PipelineState, is_muted: bool, volume: i32)
        ensures
            final(self)@ == old(self)@ + cursor_command(LINE1_DATA_CHAR_COUNT as nat, 0)
                + encode_utf8(volume_text(pipe_line_state, is_muted, volume)),
    {
        let message = format_volume(pipe_line_state, is_muted, volume);
        self.write_ascii(LineNum::Line1, LINE1_DATA_CHAR_COUNT, message.as_str());
    }

    /// Writes the processor's temperature and the strength of the wireless
    /// signal over one line.
    pub fn write_temperature_and_strength(
        &mut self,
        line_number: LineNum,
        cpu_temperature: i32,
        wifi_strength: &str,
    )
        ensures
            final(self)@ == old(self)@ + multiline_bytes(
                line_number.row(),
                NUM_CHARACTERS_PER_LINE as nat,
                temperature_and_strength_text(cpu_temperature, wifi_strength@),
            ),
    {
        let message = format_temperature_and_strength(cpu_temperature, wifi_strength);
        self.write_multiline(line_number, NUM_CHARACTERS_PER_LINE, message.as_str());
    }

    /// Writes the date and the time of day, already put into words, over line 3.
    pub fn write_date_and_time_of_day_line3(&mut self, date_and_time: &str)
        ensures
            final(self)@ == old(self)@ + multiline_bytes(
                2,
                NUM_CHARACTERS_PER_LINE as nat,
                date_and_time@,
            ),
    {
        self.write_multiline(LineNum::Line3, NUM_CHARACTERS_PER_LINE, date_and_time);
    }

    /// Writes the processor's temperature and the time of day over line 4.
    pub fn write_temperature_and_time_to_line4(&mut self, cpu_temperature: i32, time_of_day: &str)
        ensures
            final(self)@ == old(self)@ + multiline_bytes(
                3,
                NUM_CHARACTERS_PER_LINE as nat,
                temperature_and_time_text(cpu_temperature, time_of_day@),
            ),
    {
        let message = format_temperature_and_time(cpu_temperature, time_of_day);
        self.write_multiline(LineNum::Line4, NUM_CHARACTERS_PER_LINE, message.as_str());
    }

    /// Writes `string` over exactly line 2, cut or filled with spaces.
    pub fn write_all_line_2(&mut self, string: &str)
        ensures
            final(self)@ == old(self)@ + multiline_bytes(
                1,
                NUM_CHARACTERS_PER_LINE as nat,
                string@,
            ),
    {
        self.write_multiline(LineNum::Line2, NUM_CHARACTERS_PER_LINE, string);
    }

    /// Writes the buffering gauge over line 4.
    pub fn write_buffer_state(&mut self, buffer_position: u8)
        ensures
            final(self)@ == old(self)@ + cursor_command(0, 3) + gauge_cells(buffer_position),
    {
        push_cursor_command(&mut self.pending, 0, 3);
        let cells = gauge_line(buffer_position);
        push_bytes(&mut self.pending, cells.as_slice());
    }

    /// Writes the window of `string` that starts at `position` over `length`
    /// cells from the start of a line, then moves `position` on by one scroll
    /// step. Nothing is written where `position` is inside a character or
    /// beyond the text.
    pub fn write_with_scroll(
        &mut self,
        line: LineNum,
        length: usize,
        string: &str,
        position: &mut usize,
    )
        ensures
            final(self)@ == old(self)@ + scroll_bytes(
                line.row(),
                length as nat,
                string.spec_bytes(),
                *old(position) as int,
            ),
            *final(position) as int == next_offset(string.spec_bytes(), *old(position) as int),
    {
        if string.is_char_boundary(*position) {
            let (_, window) = string.split_at(*position);
            proof {
                encode_utf8_decode_utf8(window@);
                assert(window@ == window_chars(string.spec_bytes(), *position as int));
            }
            self.write_multiline(line, length, window);
        } else {
            assert(final(self)@ =~= old(self)@ + Seq::<u8>::empty());
        }
        *position = next_scroll_offset(string, *position);
    }

    /// Moves the cursor to the given column of a line.
    pub fn move_cursor_to(&mut self, line_number: LineNum, column: u16)
        ensures
            final(self)@ == old(self)@ + cursor_command(column as nat, line_number.row()),
    {
        let row = line_number.into_u16();
        push_cursor_command(&mut self.pending, column, row);
    }

    /// Writes one display code at the cursor.
    pub fn write_byte(&mut self, code: u8)
        ensures
            final(self)@ == old(self)@.push(code),
    {
        self.pending.push(code);
    }

    /// Writes display codes as they are from the cursor on.
    pub fn write_buffer(&mut self, codes: &[u8])
        ensures
            final(self)@ == old(self)@ + codes@,
    {
        push_bytes(&mut self.pending, codes);
    }

    /// Shows the cursor (`C`) or hides it (`c`).
    pub fn show_cursor(&mut self, visible: bool)
        ensures
            final(self)@ == old(self)@ + letter_command(
                if visible {
                    0x43u8
                } else {
                    0x63u8
                },
            ),
    {
        push_letter_command(&mut self.pending, if visible { 0x43u8 } else { 0x63u8 });
    }

    /// Writes display codes as they are from the given column of a line.
    pub fn write_cells(&mut self, line_number: LineNum, column: u16, cells: &[u8])
        ensures
            final(self)@ == old(self)@ + cursor_command(column as nat, line_number.row())
                + cells@,
    {
        let row = line_number.into_u16();
        push_cursor_command(&mut self.pending, column, row);
        push_bytes(&mut self.pending, cells);
    }

    /// Writes all four lines of a composed screen.
    pub fn write_screen(&mut self, screen: &crate::display_state::Screen)
        ensures
            final(self)@ == old(self)@ + cursor_command(0, 0) + screen.line1@ + cursor_command(
                0,
                1,
            ) + screen.line2@ + cursor_command(0, 2) + screen.line3@ + cursor_command(0, 3)
                + screen.line4@,
    {
        self.write_cells(LineNum::Line1, 0, screen.line1.as_slice());
        self.write_cells(LineNum::Line2, 0, screen.line2.as_slice());
        self.write_cells(LineNum::Line3, 0, screen.line3.as_slice());
        self.write_cells(LineNum::Line4, 0, screen.line4.as_slice());
    }
}

} // verus!
