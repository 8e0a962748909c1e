//! The parallel backend: the display driven over six GPIO lines. `LcdScreen`
//! collects the operations of the display controller that each call amounts
//! to; the owner of the lines takes them out and performs them.

use crate::character_pattern::{bitmap_row, bitmaps, GLYPH_COUNT, GLYPH_ROWS};
use crate::lcd::{format_volume, gauge_cells, gauge_line, volume_text, window_chars};
use crate::messages::PipelineState;
use crate::scroll::{next_offset, next_scroll_offset};
use crate::text::fitted;
use crate::translit::{fitted_codes, transliterated};
use vstd::prelude::*;
use vstd::string::*;
use vstd::utf8::*;

verus! {

/// A line of the display, from the top.
#[derive(Clone, Copy, Debug, PartialEq, Eq, Structural)]
pub enum LCDLineNumbers {
    Line1,
    Line2,
    Line3,
    Line4,
}

/// The display is visually 20 characters wide and 4 lines high.
pub const NUM_CHARACTERS_PER_LINE: usize = 20;

/// Address of the controller's second row; the chip fixes it.
pub const ROW_OFFSET: u8 = 0x40;

/// Width of the status zone at the right of line 1.
pub const VOLUME_CHAR_COUNT: usize = 7;

/// Width of the data zone at the left of line 1.
pub const LINE1_DATA_CHAR_COUNT: usize = 13;

/// Pause after the mode is set, in milliseconds; less, and the display stays
/// blank.
pub const MODE_SET_DELAY_MS: u64 = 3;

/// Pause after the display is cleared at start-up, in milliseconds.
pub const CLEAR_DELAY_MS: u64 = 2;

impl LCDLineNumbers {
    /// Address of the line's first cell in the controller's memory. The
    /// controller has two rows of forty cells: lines 3 and 4 of the display
    /// are the second halves of lines 1 and 2.
    pub open spec fn spec_offset(self) -> u8 {
        match self {
            LCDLineNumbers::Line1 => 0u8,
            LCDLineNumbers::Line2 => 0x40u8,
            LCDLineNumbers::Line3 => 20u8,
            LCDLineNumbers::Line4 => 0x54u8,
        }
    }

    /// The line below, and the first line below the last.
    pub open spec fn spec_next(self) -> LCDLineNumbers {
        match self {
            LCDLineNumbers::Line1 => LCDLineNumbers::Line2,
            LCDLineNumbers::Line2 => LCDLineNumbers::Line3,
            LCDLineNumbers::Line3 => LCDLineNumbers::Line4,
            LCDLineNumbers::Line4 => LCDLineNumbers::Line1,
        }
    }

    /// Address of the line's first cell in the controller's memory.
    pub fn offset(self) -> (address: u8)
        ensures
            address == self.spec_offset(),
    {
        match self {
            LCDLineNumbers::Line1 => 0,
            LCDLineNumbers::Line2 => ROW_OFFSET,
            LCDLineNumbers::Line3 => NUM_CHARACTERS_PER_LINE as u8,
            LCDLineNumbers::Line4 => ROW_OFFSET + NUM_CHARACTERS_PER_LINE as u8,
        }
    }

    /// The line below, and the first line below the last.
    pub fn next(self) -> (line: LCDLineNumbers)
        ensures
            line == self.spec_next(),
    {
        match self {
            LCDLineNumbers::Line1 => LCDLineNumbers::Line2,
            LCDLineNumbers::Line2 => LCDLineNumbers::Line3,
            LCDLineNumbers::Line3 => LCDLineNumbers::Line4,
            LCDLineNumbers::Line4 => LCDLineNumbers::Line1,
        }
    }
}

/// The read line of the display, which is not wired: it always reads low.
#[derive(Clone, Copy, Debug, PartialEq, Eq, Structural)]
pub struct FakeLine;

impl FakeLine {
    /// The level read from the line.
    pub fn get_value(&self) -> (level: u8)
        ensures
            level == 0,
    {
        0
    }
}

/// The timing of the parallel protocol, in nanoseconds.
#[derive(Clone, Copy, Debug, PartialEq, Eq, Structural)]
pub struct Delay;

impl Delay {
    pub const ADDRESS_SETUP_TIME: u16 = 60;

    pub const ENABLE_PULSE_WIDTH: u16 = 300;

    pub const DATA_HOLD_TIME: u16 = 10;

    pub const COMMAND_EXECUTION_TIME: u16 = 37;
}

/// The numbers of the GPIO lines that the display is wired to.
#[derive(Clone, Copy, Debug, PartialEq, Eq, Structural)]
pub struct PinDeclarations {
    /// Register select.
    pub rs: u32,
    /// Also known as strobe and clock.
    pub enable: u32,
    pub data4: u32,
    pub data5: u32,
    pub data6: u32,
    pub data7: u32,
}

/// What a GPIO line of the display is for.
#[derive(Clone, Copy, Debug, PartialEq, Eq, Structural)]
pub enum PinRole {
    RegisterSelect,
    Enable,
    Data4,
    Data5,
    Data6,
    Data7,
}

impl PinRole {
    /// The tag under which the line is claimed, which the system shows to
    /// whoever asks who holds the line.
    pub open spec fn spec_consumer(self) -> Seq<char> {
        match self {
            PinRole::RegisterSelect => "register_select"@,
            PinRole::Enable => "enable"@,
            PinRole::Data4 => "data4"@,
            PinRole::Data5 => "data5"@,
            PinRole::Data6 => "data6"@,
            PinRole::Data7 => "data7"@,
        }
    }

    /// The tag under which the line is claimed.
    pub fn consumer(self) -> (tag: &'static str)
        ensures
            tag@ == self.spec_consumer(),
    {
        match self {
            PinRole::RegisterSelect => "register_select",
            PinRole::Enable => "enable",
            PinRole::Data4 => "data4",
            PinRole::Data5 => "data5",
            PinRole::Data6 => "data6",
            PinRole::Data7 => "data7",
        }
    }

    /// What to say where the system has no such line.
    pub open spec fn spec_missing_message(self) -> Seq<char> {
        "Failed to get GPIO pin for \""@ + self.spec_consumer() + "\""@
    }

    /// What to say where another process holds the line.
    pub open spec fn spec_in_use_message(self) -> Seq<char> {
        "GPIO pin for \""@ + self.spec_consumer()
            + "\" already in use. Are running another copy of the program elsewhere?"@
    }

    /// What to say where the system has no such line.
    pub fn missing_message(self) -> (message: String)
        ensures
            message@ == self.spec_missing_message(),
    {
        let mut message = String::new();
        message.append("Failed to get GPIO pin for \"");
        message.append(self.consumer());
        message.append("\"");
        assert(message@ =~= self.spec_missing_message());
        message
    }

    /// What to say where another process holds the line.
    pub fn in_use_message(self) -> (message: String)
        ensures
            message@ == self.spec_in_use_message(),
    {
        let mut message = String::new();
        message.append("GPIO pin for \"");
        message.append(self.consumer());
        message.append("\" already in use. Are running another copy of the program elsewhere?");
        assert(message@ =~= self.spec_in_use_message());
        message
    }
}

impl PinDeclarations {
    /// The number of the line that has the given role.
    pub open spec fn spec_line(self, role: PinRole) -> u32 {
        match role {
            PinRole::RegisterSelect => self.rs,
            PinRole::Enable => self.enable,
            PinRole::Data4 => self.data4,
            PinRole::Data5 => self.data5,
            PinRole::Data6 => self.data6,
            PinRole::Data7 => self.data7,
        }
    }

    /// The number of the line that has the given role.
    pub fn line(&self, role: PinRole) -> (number: u32)
        ensures
            number == self.spec_line(role),
    {
        match role {
            PinRole::RegisterSelect => self.rs,
            PinRole::Enable => self.enable,
            PinRole::Data4 => self.data4,
            PinRole::Data5 => self.data5,
            PinRole::Data6 => self.data6,
            PinRole::Data7 => self.data7,
        }
    }
}

/// One operation of the display controller.
#[derive(Clone, Copy, Debug, PartialEq, Eq, Structural)]
pub enum DisplayOp {
    /// Set the mode: four data lines, two rows.
    InitTwoRows,
    /// Display on, cursor hidden.
    CursorOff,
    /// Clear the display.
    Clear,
    /// Do nothing for so many milliseconds.
    Sleep(u64),
    /// Direct the following writes to the glyph memory at this address.
    SeekCgram(u8),
    /// Direct the following writes to the cell at this address.
    Seek(u8),
    /// Write one byte and move on by one.
    Write(u8),
}

/// One write for each of `cells`, in order.
pub open spec fn writes(cells: Seq<u8>) -> Seq<DisplayOp> {
    Seq::new(cells.len(), |i: int| DisplayOp::Write(cells[i]))
}

/// The rows of all glyphs in one sequence: slot by slot, each from the top.
pub open spec fn glyph_rows() -> Seq<u8> {
    Seq::new(
        (GLYPH_COUNT * GLYPH_ROWS) as nat,
        |i: int| bitmaps()[i / GLYPH_ROWS as int][i % GLYPH_ROWS as int],
    )
}

/// What defines the eight glyphs and returns to the first cell of line 1.
pub open spec fn define_glyphs_ops() -> Seq<DisplayOp> {
    seq![DisplayOp::SeekCgram(0)] + writes(glyph_rows()) + seq![DisplayOp::Seek(0)]
}

/// What brings the display up once its lines are claimed.
pub open spec fn create_display_ops() -> Seq<DisplayOp> {
    seq![
        DisplayOp::InitTwoRows,
        DisplayOp::Sleep(MODE_SET_DELAY_MS),
        DisplayOp::CursorOff,
        DisplayOp::Clear,
        DisplayOp::Sleep(CLEAR_DELAY_MS),
    ]
}

/// What clears the display: the command and the pause it needs.
pub open spec fn clear_ops() -> Seq<DisplayOp> {
    seq![DisplayOp::Clear, DisplayOp::Sleep(MODE_SET_DELAY_MS)]
}

/// What a new screen starts with: bring-up, clear, and the eight glyphs.
pub open spec fn start_ops() -> Seq<DisplayOp> {
    create_display_ops() + clear_ops() + define_glyphs_ops()
}

/// The low eight bits of each character's code.
pub open spec fn low_bytes(chars: Seq<char>) -> Seq<u8> {
    Seq::new(chars.len(), |i: int| chars[i] as u32 as u8)
}

/// The writes for `cells` from the start of `line`, with a seek to the start
/// of the line below after every twentieth cell.
pub open spec fn multiline_ops(line: LCDLineNumbers, cells: Seq<u8>) -> Seq<DisplayOp>
    decreases cells.len(),
{
    if cells.len() < NUM_CHARACTERS_PER_LINE {
        writes(cells)
    } else {
        writes(cells.subrange(0, NUM_CHARACTERS_PER_LINE as int)).push(
            DisplayOp::Seek(line.spec_next().spec_offset()),
        ) + multiline_ops(
            line.spec_next(),
            cells.subrange(NUM_CHARACTERS_PER_LINE as int, cells.len() as int),
        )
    }
}

/// What one call of `write_multiline` amounts to: a seek to the line, then
/// the text in display codes, cut or filled to exactly `length` cells.
pub open spec fn write_multiline_ops(
    line: LCDLineNumbers,
    length: nat,
    chars: Seq<char>,
) -> Seq<DisplayOp> {
    seq![DisplayOp::Seek(line.spec_offset())] + multiline_ops(
        line,
        fitted(transliterated(chars), length),
    )
}

/// The operations that define the glyphs write every row of every glyph of
/// the table: the rows follow the seek slot by slot, each from the top.
pub proof fn lemma_define_glyphs_writes_rows(slot: int, row: int)
    requires
        0 <= slot < GLYPH_COUNT,
        0 <= row < GLYPH_ROWS,
    ensures
        define_glyphs_ops().len() == 2 + GLYPH_COUNT * GLYPH_ROWS,
        define_glyphs_ops()[1 + GLYPH_ROWS * slot + row] == DisplayOp::Write(
            bitmaps()[slot][row],
        ),
{
    let i = GLYPH_ROWS * slot + row;
    assert(0 <= i < GLYPH_COUNT * GLYPH_ROWS && i / 8 == slot && i % 8 == row) by (nonlinear_arith)
        requires
            i == 8 * slot + row,
            0 <= slot < 8,
            0 <= row < 8,
    ;
    assert(glyph_rows()[i] == bitmaps()[slot][row]);
    assert(writes(glyph_rows())[i] == DisplayOp::Write(glyph_rows()[i]));
}

/// Both backends define the same glyphs: the row that the parallel backend
/// writes to the glyph memory is the value of the two hexadecimal digits
/// that the escape-code backend sends for it, and both are the table's row.
pub proof fn lemma_backends_define_same_glyphs(slot: int, row: int)
    requires
        0 <= slot < GLYPH_COUNT,
        0 <= row < GLYPH_ROWS,
    ensures
        ({
            let at = crate::lcd::init_sequence().len() + crate::lcd::glyph_command_len() * slot
                + crate::lcd::row_digits_at(row);
            let sent = crate::lcd::clear_screen_bytes();
            define_glyphs_ops()[1 + GLYPH_ROWS * slot + row] == DisplayOp::Write(
                (crate::lcd::hex_value(sent[at]) * 16 + crate::lcd::hex_value(sent[at + 1])) as u8,
            )
        }),
{
    lemma_define_glyphs_writes_rows(slot, row);
    crate::lcd::lemma_clear_screen_defines_glyphs(slot, row);
}

fn push_writes(ops: &mut Vec<DisplayOp>, cells: &Vec<u8>)
    ensures
        final(ops)@ == old(ops)@ + writes(cells@),
{
    let mut i: usize = 0;
    assert(ops@ =~= old(ops)@ + writes(cells@.subrange(0, 0)));
    while i < cells.len()
        invariant
            i <= cells.len(),
            ops@ == old(ops)@ + writes(cells@.subrange(0, i as int)),
        decreases cells.len() - i,
    {
        ops.push(DisplayOp::Write(cells[i]));
        i += 1;
        assert(ops@ =~= old(ops)@ + writes(cells@.subrange(0, i as int)));
    }
    assert(cells@.subrange(0, i as int) =~= cells@);
}

fn push_writes_range(ops: &mut Vec<DisplayOp>, cells: &Vec<u8>, from: usize, to: usize)
    requires
        from <= to <= cells@.len(),
    ensures
        final(ops)@ == old(ops)@ + writes(cells@.subrange(from as int, to as int)),
{
    let mut i: usize = from;
    assert(ops@ =~= old(ops)@ + writes(cells@.subrange(from as int, from as int)));
    while i < to
        invariant
            from <= i <= to,
            to <= cells@.len(),
            ops@ == old(ops)@ + writes(cells@.subrange(from as int, i as int)),
        decreases to - i,
    {
        ops.push(DisplayOp::Write(cells[i]));
        i += 1;
        assert(ops@ =~= old(ops)@ + writes(cells@.subrange(from as int, i as int)));
    }
}

fn push_define_glyphs(ops: &mut Vec<DisplayOp>)
    ensures
        final(ops)@ == old(ops)@ + define_glyphs_ops(),
{
    ops.push(DisplayOp::SeekCgram(0));
    let mut rows: Vec<u8> = Vec::new();
    let mut slot: usize = 0;
    while slot < GLYPH_COUNT
        invariant
            slot <= GLYPH_COUNT,
            rows@ == glyph_rows().subrange(0, (slot * GLYPH_ROWS) as int),
        decreases GLYPH_COUNT - slot,
    {
        let mut row: usize = 0;
        while row < GLYPH_ROWS
            invariant
                slot < GLYPH_COUNT,
                row <= GLYPH_ROWS,
                rows@ == glyph_rows().subrange(0, (slot * GLYPH_ROWS + row) as int),
            decreases GLYPH_ROWS - row,
        {
            rows.push(bitmap_row(slot, row));
            row += 1;
            assert(rows@ =~= glyph_rows().subrange(0, (slot * GLYPH_ROWS + row) as int));
        }
        slot += 1;
    }
    assert(rows@ =~= glyph_rows());
    push_writes(ops, &rows);
    ops.push(DisplayOp::Seek(0));
    assert(final(ops)@ =~= old(ops)@ + define_glyphs_ops());
}

/// The pending operations of the parallel backend.
pub struct LcdScreen {
    ops: Vec<DisplayOp>,
}

impl View for LcdScreen {
    type V = Seq<DisplayOp>;

    /// The operations that wait to be performed, oldest first.
    closed spec fn view(&self) -> Seq<DisplayOp> {
        self.ops@
    }
}

impl LcdScreen {
    /// A screen whose first operations bring the display up, clear it and
    /// define the eight glyphs.
    pub fn new() -> (screen: LcdScreen)
        ensures
            screen@ == start_ops(),
    {
        let mut ops: Vec<DisplayOp> = Vec::new();
        ops.push(DisplayOp::InitTwoRows);
        ops.push(DisplayOp::Sleep(MODE_SET_DELAY_MS));
        ops.push(DisplayOp::CursorOff);
        ops.push(DisplayOp::Clear);
        ops.push(DisplayOp::Sleep(CLEAR_DELAY_MS));
        ops.push(DisplayOp::Clear);
        ops.push(DisplayOp::Sleep(MODE_SET_DELAY_MS));
        assert(ops@ =~= create_display_ops() + clear_ops());
        push_define_glyphs(&mut ops);
        LcdScreen { ops }
    }

    /// A screen whose first operations bring the display up and define the
    /// eight glyphs, without a second clear.
    pub fn init() -> (screen: LcdScreen)
        ensures
            screen@ == create_display_ops() + define_glyphs_ops(),
    {
        let mut ops: Vec<DisplayOp> = Vec::new();
        ops.push(DisplayOp::InitTwoRows);
        ops.push(DisplayOp::Sleep(MODE_SET_DELAY_MS));
        ops.push(DisplayOp::CursorOff);
        ops.push(DisplayOp::Clear);
        ops.push(DisplayOp::Sleep(CLEAR_DELAY_MS));
        assert(ops@ =~= create_display_ops());
        push_define_glyphs(&mut ops);
        LcdScreen { ops }
    }

    /// Takes out the operations that wait to be performed, leaving none.
    pub fn take_ops(&mut self) -> (ops: Vec<DisplayOp>)
        ensures
            ops@ == old(self)@,
            final(self)@ == Seq::<DisplayOp>::empty(),
    {
        let mut ops: Vec<DisplayOp> = Vec::new();
        std::mem::swap(&mut ops, &mut self.ops);
        ops
    }

    /// Clears the display and defines the eight glyphs anew, since a clear
    /// may wipe the glyph memory.
    pub fn clear(&mut self)
        ensures
            final(self)@ == old(self)@ + clear_ops() + define_glyphs_ops(),
    {
        self.ops.push(DisplayOp::Clear);
        self.ops.push(DisplayOp::Sleep(MODE_SET_DELAY_MS));
        assert(self.ops@ =~= old(self)@ + clear_ops());
        push_define_glyphs(&mut self.ops);
    }

    /// Defines the eight glyphs anew and returns to the first cell of line 1.
    pub fn define_glyphs(&mut self)
        ensures
            final(self)@ == old(self)@ + define_glyphs_ops(),
    {
        push_define_glyphs(&mut self.ops);
    }

    /// Writes the buffering gauge over line 4.
    pub fn write_buffer_state(&mut self, buffer_position: u8)
        ensures
            final(self)@ == old(self)@ + seq![DisplayOp::Seek(0x54u8)] + writes(
                gauge_cells(buffer_position),
            ),
    {
        self.ops.push(DisplayOp::Seek(LCDLineNumbers::Line4.offset()));
        let cells = gauge_line(buffer_position);
        push_writes(&mut self.ops, &cells);
    }

    /// Writes the low eight bits of each character of `string` from the
    /// given position of a line. The text must be in the display's own codes.
    pub fn write_ascii(&mut self, line: LCDLineNumbers, position: u8, string: &str)
        requires
            line.spec_offset() + position <= u8::MAX,
        ensures
            final(self)@ == old(self)@ + seq![
                DisplayOp::Seek((line.spec_offset() + position) as u8),
            ] + writes(low_bytes(string@)),
    {
        self.ops.push(DisplayOp::Seek(line.offset() + position));
        let mut cells: Vec<u8> = Vec::new();
        let count = string.unicode_len();
        let mut i: usize = 0;
        while i < count
            invariant
                i <= count,
                count == string@.len(),
                cells@ == low_bytes(string@.subrange(0, i as int)),
            decreases count - i,
        {
            let ch = string.get_char(i);
            cells.push(ch as u32 as u8);
            i += 1;
            assert(cells@ =~= low_bytes(string@.subrange(0, i as int)));
        }
        assert(string@.subrange(0, i as int) =~= string@);
        push_writes(&mut self.ops, &cells);
    }

    /// Writes exactly `length` cells from the start of a line: the text in
    /// display codes, cut or filled with spaces.
    pub fn write_line(&mut self, line: LCDLineNumbers, length: usize, string: &str)
        ensures
            final(self)@ == old(self)@ + seq![DisplayOp::Seek(line.spec_offset())] + writes(
                fitted(transliterated(string@), length as nat),
            ),
    {
        self.ops.push(DisplayOp::Seek(line.offset()));
        let cells = fitted_codes(string, length);
        push_writes(&mut self.ops, &cells);
    }

    /// Writes exactly `length` cells from the start of a line and on into
    /// the lines below: the text in display codes, cut or filled with spaces.
    pub fn write_multiline(&mut self, line: LCDLineNumbers, length: usize, string: &str)
        ensures
            final(self)@ == old(self)@ + write_multiline_ops(line, length as nat, string@),
    {
        self.ops.push(DisplayOp::Seek(line.offset()));
        let cells = fitted_codes(string, length);
        let ghost head = self.ops@;
        let len = cells.len();
        let mut current = line;
        let mut start: usize = 0;
        assert(cells@.subrange(0, len as int) =~= cells@);
        while len - start >= NUM_CHARACTERS_PER_LINE
            invariant
                start <= len,
                len == cells@.len(),
                self.ops@ + multiline_ops(current, cells@.subrange(start as int, len as int))
                    == head + multiline_ops(line, cells@),
            decreases len - start,
        {
            let ghost rest = cells@.subrange(start as int, len as int);
            let ghost before = self.ops@;
            push_writes_range(&mut self.ops, &cells, start, start + NUM_CHARACTERS_PER_LINE);
            let below = current.next();
            self.ops.push(DisplayOp::Seek(below.offset()));
            proof {
                assert(rest.subrange(0, NUM_CHARACTERS_PER_LINE as int) =~= cells@.subrange(
                    start as int,
                    start + NUM_CHARACTERS_PER_LINE,
                ));
                assert(rest.subrange(NUM_CHARACTERS_PER_LINE as int, rest.len() as int)
                    =~= cells@.subrange(start + NUM_CHARACTERS_PER_LINE, len as int));
                assert(self.ops@ + multiline_ops(
                    below,
                    cells@.subrange(start + NUM_CHARACTERS_PER_LINE, len as int),
                ) =~= before + multiline_ops(current, rest));
            }
            current = below;
            start += NUM_CHARACTERS_PER_LINE;
        }
        push_writes_range(&mut self.ops, &cells, start, len);
        assert(final(self)@ =~= old(self)@ + write_multiline_ops(line, length as nat, string@));
    }

    /// Writes the status zone of line 1: the volume, right-justified behind
    /// `Vol`, while playing; else the name of the pipeline's state.
    pub fn write_volume(&mut self, pipe_line_state: PipelineState, volume: i32)
        ensures
            final(self)@ == old(self)@ + seq![DisplayOp::Seek(LINE1_DATA_CHAR_COUNT as u8)]
                + writes(low_bytes(volume_text(pipe_line_state, false, volume))),
    {
        let message = format_volume(pipe_line_state, false, volume);
        self.write_ascii(LCDLineNumbers::Line1, LINE1_DATA_CHAR_COUNT as u8, message.as_str());
    }

    /// Writes the date and the time of day, already put into words, over line 3.
    pub fn write_time_of_day(&mut self, date_and_time: &str)
        ensures
            final(self)@ == old(self)@ + seq![DisplayOp::Seek(20u8)] + writes(
                fitted(transliterated(date_and_time@), NUM_CHARACTERS_PER_LINE as nat),
            ),
    {
        self.write_line(LCDLineNumbers::Line3, NUM_CHARACTERS_PER_LINE, date_and_time);
    }

    /// Moves `position` on by one scroll step, then writes the window of
    /// `string` that starts there over `length` cells from the start of a
    /// line.
    pub fn write_with_scroll(
        &mut self,
        line: LCDLineNumbers,
        length: usize,
        string: &str,
        position: &mut usize,
    )
        ensures
            *final(position) as int == next_offset(string.spec_bytes(), *old(position) as int),
            final(self)@ == old(self)@ + write_multiline_ops(
                line,
                length as nat,
                window_chars(string.spec_bytes(), *final(position) as int),
            ),
    {
        proof {
            encode_utf8_valid_utf8(string@);
            crate::scroll::lemma_next_offset_valid(string.spec_bytes(), *old(position) as int);
        }
        *position = next_scroll_offset(string, *position);
        let (_, window) = string.split_at(*position);
        proof {
            encode_utf8_decode_utf8(window@);
            assert(window@ == window_chars(string.spec_bytes(), *position as int));
        }
        self.write_multiline(line, length, window);
    }

    /// Moves the cursor to the given position of a line.
    pub fn move_cursor_to(&mut self, line: LCDLineNumbers, position: u8)
        requires
            line.spec_offset() + position <= u8::MAX,
        ensures
            final(self)@ == old(self)@.push(
                DisplayOp::Seek((line.spec_offset() + position) as u8),
            ),
    {
        self.ops.push(DisplayOp::Seek(line.offset() + position));
    }

    /// Writes one display code at the cursor.
    pub fn write_byte(&mut self, code: u8)
        ensures
            final(self)@ == old(self)@.push(DisplayOp::Write(code)),
    {
        self.ops.push(DisplayOp::Write(code));
    }

    /// Writes display codes as they are from the cursor on.
    pub fn write_buffer(&mut self, codes: &Vec<u8>)
        ensures
            final(self)@ == old(self)@ + writes(codes@),
    {
        push_writes(&mut self.ops, codes);
    }

    /// Writes display codes as they are from the start of a line.
    pub fn write_cells(&mut self, line: LCDLineNumbers, cells: &Vec<u8>)
        ensures
            final(self)@ == old(self)@ + seq![DisplayOp::Seek(line.spec_offset())] + writes(
                cells@,
            ),
    {
        self.ops.push(DisplayOp::Seek(line.offset()));
        push_writes(&mut self.ops, cells);
    }

    /// Writes all four lines of a composed screen.
    pub fn write_screen(&mut self, screen: &crate::display_state::Screen)
        ensures
            final(self)@ == old(self)@ + seq![DisplayOp::Seek(0u8)] + writes(screen.line1@)
                + seq![DisplayOp::Seek(0x40u8)] + writes(screen.line2@) + seq![
                DisplayOp::Seek(20u8),
            ] + writes(screen.line3@) + seq![DisplayOp::Seek(0x54u8)] + writes(screen.line4@),
    {
        self.write_cells(LCDLineNumbers::Line1, &screen.line1);
        self.write_cells(LCDLineNumbers::Line2, &screen.line2);
        self.write_cells(LCDLineNumbers::Line3, &screen.line3);
        self.write_cells(LCDLineNumbers::Line4, &screen.line4);
    }
}

} // verus!
