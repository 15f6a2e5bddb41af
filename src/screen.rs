//! What the terminal display shows: the character set of the video RAM,
//! the redraw decision and the text of each screen row.
use vstd::prelude::*;
use vstd::string::StringExecFns;

verus! {

/// Glyph of a control code (below 0x20) in the character ROM 81-234.
pub open spec fn control_glyph(index: u8) -> char {
    match index {
        0 => '\u{f1}',
        1 => '\u{e1}',
        2 => '\u{e9}',
        3 => '\u{ed}',
        4 => '\u{f3}',
        5 => '\u{fa}',
        6 => '\u{e2}',
        7 => '\u{ea}',
        8 => '\u{ee}',
        9 => '\u{f4}',
        10 => '\u{fb}',
        11 => '\u{a3}',
        12 => '\u{c4}',
        13 => '\u{d6}',
        14 => '\u{dc}',
        15 => '\u{a1}',
        16 => '\u{d1}',
        17 => '\u{e0}',
        18 => '\u{e8}',
        19 => '\u{ec}',
        20 => '\u{f2}',
        21 => '\u{f9}',
        22 => '\u{e4}',
        23 => '\u{eb}',
        24 => '\u{ef}',
        25 => '\u{f6}',
        26 => '\u{fc}',
        27 => '\u{ba}',
        28 => '\u{a7}',
        29 => 'c',
        30 => '\u{df}',
        _ => '\u{bf}',
    }
}

/// The character that a video RAM code shows; bit 7 (blinking) is ignored.
pub open spec fn glyph_of(code: u8) -> char {
    let index = code & 0x7f;
    if index < 0x20 {
        control_glyph(index)
    } else if index == 0x7f {
        '\u{2592}'
    } else {
        index as char
    }
}

/// The system bits that the status line reflects.
pub const SHOWN_SYSTEM_BITS: u8 = 0b0110_0011;

/// Escape sequence that starts blinking text.
pub open spec fn blink_on() -> Seq<char> {
    seq!['\x1b', '[', '5', 'm']
}

/// Escape sequence that ends blinking text.
pub open spec fn blink_off() -> Seq<char> {
    seq!['\x1b', '[', '2', '5', 'm']
}

/// Text that shows one video RAM cell: its glyph, wrapped in blink escapes
/// when bit 7 is set.
pub open spec fn cell_text(code: u8) -> Seq<char> {
    if code & 0x80 == 0 {
        seq![glyph_of(code)]
    } else {
        blink_on() + seq![glyph_of(code)] + blink_off()
    }
}

/// Text of the cells `[start, end)` of `vram`.
pub open spec fn cells_text(vram: Seq<u8>, start: int, end: int) -> Seq<char>
    decreases end - start,
{
    if end <= start {
        Seq::empty()
    } else {
        cells_text(vram, start, end - 1) + cell_text(vram[end - 1])
    }
}

/// The text of the disk activity field of the bottom border.
pub open spec fn disk_status_text(show_status: bool, motor_on: bool, drive: u8, single_density: bool) -> Seq<char> {
    if show_status && motor_on {
        (if drive == 0 {
            " A"@
        } else {
            " B"@
        }) + (if single_density {
            " SD "@
        } else {
            " DD "@
        })
    } else {
        "========"@
    }
}

pub fn translate_char(code: u8) -> (c: char)
    ensures
        c == glyph_of(code),
{
    let index = code & 0x7f;
    if index < 0x20 {
        match index {
            0 => '\u{f1}',
            1 => '\u{e1}',
            2 => '\u{e9}',
            3 => '\u{ed}',
            4 => '\u{f3}',
            5 => '\u{fa}',
            6 => '\u{e2}',
            7 => '\u{ea}',
            8 => '\u{ee}',
            9 => '\u{f4}',
            10 => '\u{fb}',
            11 => '\u{a3}',
            12 => '\u{c4}',
            13 => '\u{d6}',
            14 => '\u{dc}',
            15 => '\u{a1}',
            16 => '\u{d1}',
            17 => '\u{e0}',
            18 => '\u{e8}',
            19 => '\u{ec}',
            20 => '\u{f2}',
            21 => '\u{f9}',
            22 => '\u{e4}',
            23 => '\u{eb}',
            24 => '\u{ef}',
            25 => '\u{f6}',
            26 => '\u{fc}',
            27 => '\u{ba}',
            28 => '\u{a7}',
            29 => 'c',
            30 => '\u{df}',
            _ => '\u{bf}',
        }
    } else if index == 0x7f {
        '\u{2592}'
    } else {
        index as char
    }
}

/// Appends the text of one cell to `line`.
fn push_cell(line: &mut Vec<char>, code: u8)
    ensures
        final(line)@ == old(line)@ + cell_text(code),
{
    let ch = translate_char(code);
    if code & 0x80 == 0 {
        line.push(ch);
    } else {
        line.push('\x1b');
        line.push('[');
        line.push('5');
        line.push('m');
        line.push(ch);
        line.push('\x1b');
        line.push('[');
        line.push('2');
        line.push('5');
        line.push('m');
    }
    assert(final(line)@ =~= old(line)@ + cell_text(code));
}

/// Columns shown of each video RAM row.
pub const SCREEN_COLUMNS: usize = 80;

/// Rows shown.
pub const SCREEN_ROWS: usize = 24;

/// Bytes of video RAM per row.
pub const VRAM_ROW_STRIDE: usize = 128;

/// The text of screen row `row`: the first 80 cells of that row of video RAM.
pub fn row_text(vram: &Vec<u8>, row: usize) -> (r: Vec<char>)
    requires
        row < SCREEN_ROWS,
        vram@.len() >= SCREEN_ROWS * VRAM_ROW_STRIDE,
    ensures
        r@ == cells_text(
            vram@,
            (row * VRAM_ROW_STRIDE) as int,
            (row * VRAM_ROW_STRIDE + SCREEN_COLUMNS) as int,
        ),
{
    let start = row * VRAM_ROW_STRIDE;
    let mut line: Vec<char> = Vec::new();
    let mut col: usize = 0;
    while col < SCREEN_COLUMNS
        invariant
            col <= SCREEN_COLUMNS,
            start == row * VRAM_ROW_STRIDE,
            start + SCREEN_COLUMNS <= vram@.len(),
            line@ == cells_text(vram@, start as int, (start + col) as int),
        decreases SCREEN_COLUMNS - col,
    {
        push_cell(&mut line, vram[start + col]);
        col = col + 1;
    }
    line
}

/// The disk activity field of the bottom border: drive and density while
/// the status display is on and the motor runs, a plain border otherwise.
pub fn disk_status(show_status: bool, motor_on: bool, drive: u8, single_density: bool) -> (r: String)
    ensures
        r@ == disk_status_text(show_status, motor_on, drive, single_density),
{
    if show_status && motor_on {
        let mut r = if drive == 0 {
            String::from_str(" A")
        } else {
            String::from_str(" B")
        };
        if single_density {
            r.append(" SD ");
        } else {
            r.append(" DD ");
        }
        r
    } else {
        String::from_str("========")
    }
}

/// Display settings, and the system bits that the last frame showed.
pub struct Screen {
    /// Frames redraw over the previous one (cursor moved up) rather than
    /// scroll.
    pub in_place: bool,
    pub last_system_bits: u8,
    pub show_status: bool,
    pub show_help: bool,
}

impl Screen {
    pub fn new(in_place: bool) -> (r: Screen)
        ensures
            r.in_place == in_place,
            r.last_system_bits == 0,
            !r.show_status,
            !r.show_help,
    {
        Screen { in_place, last_system_bits: 0, show_status: false, show_help: false }
    }

    pub fn set_in_place(&mut self, in_place: bool)
        ensures
            final(self).in_place == in_place,
            final(self).last_system_bits == old(self).last_system_bits,
            final(self).show_status == old(self).show_status,
            final(self).show_help == old(self).show_help,
    {
        self.in_place = in_place;
    }

    /// Decides whether a frame must be drawn: when forced, when video RAM
    /// changed, or when the shown system bits differ from the last frame's.
    /// A frame that is drawn records the bits it shows.
    pub fn needs_redraw(&mut self, system_bits: u8, vram_dirty: bool, force: bool) -> (r: bool)
        ensures
            r == (force || vram_dirty || old(self).last_system_bits != system_bits
                & SHOWN_SYSTEM_BITS),
            final(self).last_system_bits == if r {
                system_bits & SHOWN_SYSTEM_BITS
            } else {
                old(self).last_system_bits
            },
            final(self).in_place == old(self).in_place,
            final(self).show_status == old(self).show_status,
            final(self).show_help == old(self).show_help,
    {
        let relevant = system_bits & SHOWN_SYSTEM_BITS;
        if !force && !vram_dirty && self.last_system_bits == relevant {
            return false;
        }
        self.last_system_bits = relevant;
        true
    }
}

} // verus!
