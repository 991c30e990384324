//! VGA text console: colours, the writer state and the encoding of characters
//! into the 16-bit cells of the text buffer.

use vstd::prelude::*;

verus! {

/// The sixteen colours of the VGA text mode palette.
#[derive(Copy, Clone, Debug, PartialEq, Eq, Structural)]
pub enum Colors {
    Black,
    Blue,
    Green,
    Cyan,
    Red,
    Magenta,
    Brown,
    LightGray,
    DarkGray,
    LightBlue,
    LightGreen,
    LightCyan,
    LightRed,
    Pink,
    Yellow,
    White,
}

/// The palette index of a colour, as the hardware reads it.
pub open spec fn color_code(c: Colors) -> u16 {
    match c {
        Colors::Black => 0,
        Colors::Blue => 1,
        Colors::Green => 2,
        Colors::Cyan => 3,
        Colors::Red => 4,
        Colors::Magenta => 5,
        Colors::Brown => 6,
        Colors::LightGray => 7,
        Colors::DarkGray => 8,
        Colors::LightBlue => 9,
        Colors::LightGreen => 10,
        Colors::LightCyan => 11,
        Colors::LightRed => 12,
        Colors::Pink => 13,
        Colors::Yellow => 14,
        Colors::White => 15,
    }
}

/// The low byte of a character's scalar value: the code the VGA cell shows.
pub open spec fn char_byte(ch: char) -> u16 {
    ((ch as u32) % 256) as u16
}

/// The text cell for a character: the character byte in bits 0..8, the
/// foreground colour in bits 8..12 and the background colour in bits 12..16.
pub open spec fn cell_value(ch: char, bkgc: Colors, txtc: Colors) -> u16 {
    (char_byte(ch) + 256 * color_code(txtc) + 4096 * color_code(bkgc)) as u16
}

impl Colors {
    /// The palette index of this colour.
    pub fn code(self) -> (r: u16)
        ensures
            r == color_code(self),
            r < 16,
    {
        match self {
            Colors::Black => 0,
            Colors::Blue => 1,
            Colors::Green => 2,
            Colors::Cyan => 3,
            Colors::Red => 4,
            Colors::Magenta => 5,
            Colors::Brown => 6,
            Colors::LightGray => 7,
            Colors::DarkGray => 8,
            Colors::LightBlue => 9,
            Colors::LightGreen => 10,
            Colors::LightCyan => 11,
            Colors::LightRed => 12,
            Colors::Pink => 13,
            Colors::Yellow => 14,
            Colors::White => 15,
        }
    }
}

/// The VGA text cell that shows `ch` in colour `txtc` on background `bkgc`.
pub fn vga_cell(ch: char, bkgc: Colors, txtc: Colors) -> (cell: u16)
    ensures
        cell == cell_value(ch, bkgc, txtc),
        cell & 0xff == (ch as u32) % 256,
        (cell >> 8) & 0xf == color_code(txtc),
        cell >> 12 == color_code(bkgc),
{
    let scalar: u32 = ch as u32;
    let b: u16 = scalar as u8 as u16;
    let bg: u16 = bkgc.code();
    let fg: u16 = txtc.code();
    assert(b == scalar % 256 && b < 256) by (bit_vector)
        requires b == scalar as u8 as u16;
    let cell: u16 = b | bg << 12 | fg << 8;
    assert(cell == b + 256 * fg + 4096 * bg && cell & 0xff == b && (cell >> 8) & 0xf == fg
        && cell >> 12 == bg) by (bit_vector)
        requires
            b < 256,
            bg < 16,
            fg < 16,
            cell == b | bg << 12 | fg << 8,
    ;
    cell
}

} // verus!

verus! {

/// The colours the console writes in: `fc` for text, `bc` for the background.
pub struct VGAWriter {
    pub fc: Colors,
    pub bc: Colors,
}

impl VGAWriter {
    /// A writer with text colour `fc` on background `bc`.
    pub fn new(fc: Colors, bc: Colors) -> (w: VGAWriter)
        ensures
            w.fc == fc,
            w.bc == bc,
    {
        VGAWriter { fc: fc, bc: bc }
    }

    /// Sets the text colour; the background colour stays.
    pub fn set_foreground_color(&mut self, color: Colors)
        ensures
            final(self).fc == color,
            final(self).bc == old(self).bc,
    {
        self.fc = color;
    }

    /// Sets the background colour; the text colour stays.
    pub fn set_background_color(&mut self, color: Colors)
        ensures
            final(self).bc == color,
            final(self).fc == old(self).fc,
    {
        self.bc = color;
    }
}

/// The text cells that show the characters of `s`, in order, in colour `txtc`
/// on background `bkgc`.
pub open spec fn cells_of(s: Seq<char>, bkgc: Colors, txtc: Colors) -> Seq<u16> {
    s.map_values(|ch: char| cell_value(ch, bkgc, txtc))
}

/// The cells to send to the text buffer for `s`, one per character, in
/// colour `txtc` on background `bkgc`.
pub fn print_str_color(s: &str, bkgc: Colors, txtc: Colors) -> (cells: Vec<u16>)
    ensures
        cells@ == cells_of(s@, bkgc, txtc),
        cells@.len() == s@.len(),
        forall|i: int|
            0 <= i < s@.len() ==> {
                &&& #[trigger] cells@[i] & 0xff == (s@[i] as u32) % 256
                &&& (cells@[i] >> 8) & 0xf == color_code(txtc)
                &&& cells@[i] >> 12 == color_code(bkgc)
            },
{
    proof {
        lemma_cells_of_chars(s@, bkgc, txtc);
    }
    broadcast use vstd::string::axiom_spec_iter;
    let mut cells: Vec<u16> = Vec::new();
    for ch in it: s.chars()
        invariant
            it.seq() == s@,
            cells@.len() == it.index(),
            cells@ == cells_of(s@.take(cells@.len() as int), bkgc, txtc),
    {
        assert(s@.take(cells@.len() as int + 1) =~= s@.take(cells@.len() as int).push(ch));
        cells.push(vga_cell(ch, bkgc, txtc));
    }
    assert(s@.take(cells@.len() as int) =~= s@);
    cells
}

/// The cells that `writer` sends to the text buffer for `text`: each
/// character in the writer's text colour on its background colour.
pub fn print(writer: &VGAWriter, text: &str) -> (cells: Vec<u16>)
    ensures
        cells@ == cells_of(text@, writer.bc, writer.fc),
        cells@.len() == text@.len(),
        forall|i: int|
            0 <= i < text@.len() ==> {
                &&& #[trigger] cells@[i] & 0xff == (text@[i] as u32) % 256
                &&& (cells@[i] >> 8) & 0xf == color_code(writer.fc)
                &&& cells@[i] >> 12 == color_code(writer.bc)
            },
{
    print_str_color(text, writer.bc, writer.fc)
}

} // verus!

verus! {

/// Law: a text cell holds the character's low byte in bits 0..8, the text
/// colour in bits 8..12 and the background colour in bits 12..16, so each
/// can be read back from the cell.
pub proof fn lemma_cell_decodes(ch: char, bkgc: Colors, txtc: Colors)
    ensures
        cell_value(ch, bkgc, txtc) & 0xff == (ch as u32) % 256,
        (cell_value(ch, bkgc, txtc) >> 8) & 0xf == color_code(txtc),
        cell_value(ch, bkgc, txtc) >> 12 == color_code(bkgc),
{
    let b: u16 = char_byte(ch);
    let f: u16 = color_code(txtc);
    let g: u16 = color_code(bkgc);
    let c: u16 = cell_value(ch, bkgc, txtc);
    assert(b < 256);
    assert(c == b + 256 * f + 4096 * g);
    assert(c & 0xff == b && (c >> 8) & 0xf == f && c >> 12 == g) by (bit_vector)
        requires
            b < 256,
            f < 16,
            g < 16,
            c == b + 256 * f + 4096 * g,
    ;
}

/// Law: the cells for a text are one per character, in order: cell `i` shows
/// the low byte of character `i`'s scalar value in colour `txtc` on `bkgc`.
pub proof fn lemma_cells_of_chars(s: Seq<char>, bkgc: Colors, txtc: Colors)
    ensures
        cells_of(s, bkgc, txtc).len() == s.len(),
        forall|i: int|
            0 <= i < s.len() ==> {
                &&& #[trigger] cells_of(s, bkgc, txtc)[i] & 0xff == (s[i] as u32) % 256
                &&& (cells_of(s, bkgc, txtc)[i] >> 8) & 0xf == color_code(txtc)
                &&& cells_of(s, bkgc, txtc)[i] >> 12 == color_code(bkgc)
            },
{
    assert forall|i: int| 0 <= i < s.len() implies {
        &&& #[trigger] cells_of(s, bkgc, txtc)[i] & 0xff == (s[i] as u32) % 256
        &&& (cells_of(s, bkgc, txtc)[i] >> 8) & 0xf == color_code(txtc)
        &&& cells_of(s, bkgc, txtc)[i] >> 12 == color_code(bkgc)
    } by {
        lemma_cell_decodes(s[i], bkgc, txtc);
    }
}

/// Law: distinct colours have distinct palette indices, all below 16.
pub proof fn lemma_color_codes_distinct(a: Colors, b: Colors)
    ensures
        color_code(a) < 16,
        color_code(a) == color_code(b) ==> a == b,
{
}

/// Law: the cells for a text written in two pieces are the cells for the
/// first piece followed by those for the second, so output does not depend
/// on how the formatter splits the text.
pub proof fn lemma_cells_concat(s1: Seq<char>, s2: Seq<char>, bkgc: Colors, txtc: Colors)
    ensures
        cells_of(s1 + s2, bkgc, txtc) == cells_of(s1, bkgc, txtc) + cells_of(s2, bkgc, txtc),
{
    assert(cells_of(s1 + s2, bkgc, txtc) =~= cells_of(s1, bkgc, txtc) + cells_of(s2, bkgc, txtc));
}

} // verus!
