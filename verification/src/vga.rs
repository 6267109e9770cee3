//! The layout of text on the 80-column text display.
//!
//! Nothing here touches the display: each function says which cells are to be
//! written with which values, in order, and moves the cursor.

use vstd::prelude::*;

verus! {

/// The number of cells in a row of the display.
pub const COLUMNS: usize = 80;

/// The number of rows of the display.
pub const ROWS: usize = 25;

/// White on blue, in the high byte of a cell.
pub const ATTRIBUTE: u16 = 0x1f00;

/// The cursor: the column and the row of the next character.
#[derive(Clone, Copy, Debug, PartialEq, Eq, Structural)]
pub struct VGAState {
    pub x: usize,
    pub y: usize,
}

impl Default for VGAState {
    fn default() -> (state: VGAState)
        ensures
            state == (VGAState { x: 0, y: 0 }),
    {
        VGAState { x: 0, y: 0 }
    }
}

/// One write to the display: the value for the cell at `offset`, counted in cells
/// from the top left.
#[derive(Clone, Copy, Debug, PartialEq, Eq, Structural)]
pub struct CellWrite {
    pub offset: usize,
    pub value: u16,
}

/// Whether a character is shown: the display takes ASCII only.
pub open spec fn shown(c: char) -> bool {
    (c as u32) < 128
}

/// The cell that a character fills, if it fills one: a line feed and a character
/// outside ASCII fill none.
pub open spec fn cell_of(state: VGAState, c: char) -> Option<CellWrite> {
    if shown(c) && c != '\n' {
        Some(
            CellWrite {
                offset: (state.y * 80 + state.x) as usize,
                value: ATTRIBUTE | ((c as u8) as u16),
            },
        )
    } else {
        None
    }
}

/// The cursor after a character: a line feed starts the next row, a character
/// outside ASCII leaves the cursor where it is, any other moves it one column on.
pub open spec fn after_char(state: VGAState, c: char) -> VGAState {
    if !shown(c) {
        state
    } else if c == '\n' {
        VGAState { x: 0, y: (state.y + 1) as usize }
    } else {
        VGAState { x: (state.x + 1) as usize, y: state.y }
    }
}

/// The cursor after a text.
pub open spec fn after_text(state: VGAState, text: Seq<char>) -> VGAState
    decreases text.len(),
{
    if text.len() == 0 {
        state
    } else {
        after_char(after_text(state, text.drop_last()), text.last())
    }
}

/// The cells that a text fills, in order.
pub open spec fn cells_of(state: VGAState, text: Seq<char>) -> Seq<CellWrite>
    decreases text.len(),
{
    if text.len() == 0 {
        Seq::empty()
    } else {
        let before = cells_of(state, text.drop_last());
        match cell_of(after_text(state, text.drop_last()), text.last()) {
            Some(cell) => before.push(cell),
            None => before,
        }
    }
}

impl VGAState {
    /// Whether `chars` more characters can be laid out from here without the
    /// cursor or a cell's offset leaving the range of `usize`.
    pub open spec fn room(&self, chars: nat) -> bool {
        (self.y + chars) * 80 + self.x + chars <= usize::MAX
    }

    /// Whether `chars` more characters can be laid out from here.
    pub fn has_room(&self, chars: usize) -> (ok: bool)
        ensures
            ok == self.room(chars as nat),
    {
        let rows: u128 = self.y as u128 + chars as u128;
        rows * 80 + self.x as u128 + chars as u128 <= usize::MAX as u128
    }
}

/// Lays out one character at the cursor.
pub fn write_char(state: &mut VGAState, c: char) -> (cell: Option<CellWrite>)
    requires
        old(state).room(1),
    ensures
        cell == cell_of(*old(state), c),
        *final(state) == after_char(*old(state), c),
        forall|n: nat| old(state).room(n + 1) ==> final(state).room(n),
{
    if c as u32 >= 128 {
        return None;
    }
    if c == '\n' {
        state.x = 0;
        state.y += 1;
        None
    } else {
        let cell = CellWrite { offset: state.y * COLUMNS + state.x, value: ATTRIBUTE | (c as u8 as u16) };
        state.x += 1;
        Some(cell)
    }
}

/// Lays out a text from the cursor on.
pub fn sprint(state: &mut VGAState, s: &str) -> (cells: Vec<CellWrite>)
    requires
        old(state).room(s@.len()),
    ensures
        cells@ == cells_of(*old(state), s@),
        *final(state) == after_text(*old(state), s@),
{
    let mut cells: Vec<CellWrite> = Vec::new();
    for c in it: s.chars()
        invariant
            it.seq() == s@,
            cells@ == cells_of(*old(state), s@.subrange(0, it.index() as int)),
            *state == after_text(*old(state), s@.subrange(0, it.index() as int)),
            state.room((s@.len() - it.index()) as nat),
    {
        assert(s@.subrange(0, it.index() + 1).drop_last() =~= s@.subrange(0, it.index() as int));
        match write_char(state, c) {
            Some(cell) => {
                cells.push(cell);
            },
            None => {},
        }
    }
    assert(s@.subrange(0, s@.len() as int) =~= s@);
    cells
}

/// Laying out a text and then one more character is laying out the longer text.
pub proof fn text_then_char(state: VGAState, text: Seq<char>, c: char)
    ensures
        after_text(state, text.push(c)) == after_char(after_text(state, text), c),
        cells_of(state, text.push(c)) == match cell_of(after_text(state, text), c) {
            Some(cell) => cells_of(state, text).push(cell),
            None => cells_of(state, text),
        },
{
    assert(text.push(c).drop_last() =~= text);
}

/// Laying out one text and then another, from where the first left the cursor, is
/// laying out the two as one.
pub proof fn text_then_text(state: VGAState, first: Seq<char>, second: Seq<char>)
    ensures
        after_text(state, first + second) == after_text(after_text(state, first), second),
        cells_of(state, first + second) == cells_of(state, first) + cells_of(
            after_text(state, first),
            second,
        ),
    decreases second.len(),
{
    if second.len() == 0 {
        assert(first + second =~= first);
    } else {
        text_then_text(state, first, second.drop_last());
        assert((first + second).drop_last() =~= first + second.drop_last());
        let mid = after_text(state, first);
        match cell_of(after_text(mid, second.drop_last()), second.last()) {
            Some(cell) => {
                assert((cells_of(state, first) + cells_of(mid, second.drop_last())).push(cell)
                    =~= cells_of(state, first) + cells_of(mid, second.drop_last()).push(cell));
            },
            None => {},
        }
    }
}

/// The lower-case hexadecimal digit for a value below sixteen.
pub open spec fn hex_digit(d: u8) -> char {
    if d < 10 {
        (48 + d) as char
    } else {
        (87 + d) as char
    }
}

/// The two hexadecimal digits of a byte, the high one first.
pub open spec fn hex_u8(n: u8) -> Seq<char> {
    seq![hex_digit(n >> 4), hex_digit(n & 0xf)]
}

/// The eight hexadecimal digits of a 32-bit value, the highest first.
pub open spec fn hex_u32(n: u32) -> Seq<char> {
    hex_u8((n >> 24) as u8) + hex_u8((n >> 16) as u8) + hex_u8((n >> 8) as u8) + hex_u8(n as u8)
}

/// The lower-case hexadecimal digit for `d`, a value below sixteen.
pub fn hex_char(d: u8) -> (c: char)
    requires
        d < 16,
    ensures
        c == hex_digit(d),
        shown(c),
        c != '\n',
{
    if d < 10 {
        (48u8 + d) as char
    } else {
        (97u8 + (d - 10)) as char
    }
}

/// Lays out the two hexadecimal digits of `n`.
pub fn printhex_u8(state: &mut VGAState, n: u8) -> (cells: Vec<CellWrite>)
    requires
        old(state).room(2),
    ensures
        cells@ == cells_of(*old(state), hex_u8(n)),
        *final(state) == after_text(*old(state), hex_u8(n)),
        cells@.len() == 2,
        forall|k: nat| old(state).room(k + 2) ==> final(state).room(k),
{
    assert(n >> 4 < 16 && n & 0xf < 16) by (bit_vector);
    let high = hex_char(n >> 4);
    let low = hex_char(n & 0xf);
    let mut cells: Vec<CellWrite> = Vec::new();
    proof {
        text_then_char(*old(state), Seq::empty(), high);
        text_then_char(*old(state), Seq::<char>::empty().push(high), low);
        assert(Seq::<char>::empty().push(high).push(low) =~= hex_u8(n));
    }
    match write_char(state, high) {
        Some(cell) => {
            cells.push(cell);
        },
        None => {},
    }
    match write_char(state, low) {
        Some(cell) => {
            cells.push(cell);
        },
        None => {},
    }
    cells
}

/// Lays out the eight hexadecimal digits of `n`.
pub fn printhex_u32(state: &mut VGAState, n: u32) -> (cells: Vec<CellWrite>)
    requires
        old(state).room(8),
    ensures
        cells@ == cells_of(*old(state), hex_u32(n)),
        *final(state) == after_text(*old(state), hex_u32(n)),
        cells@.len() == 8,
{
    let b3: u8 = (n >> 24) as u8;
    let b2: u8 = (n >> 16) as u8;
    let b1: u8 = (n >> 8) as u8;
    let b0: u8 = n as u8;
    proof {
        text_then_text(*old(state), hex_u8(b3), hex_u8(b2));
        text_then_text(*old(state), hex_u8(b3) + hex_u8(b2), hex_u8(b1));
        text_then_text(*old(state), hex_u8(b3) + hex_u8(b2) + hex_u8(b1), hex_u8(b0));
    }
    let mut cells = printhex_u8(state, b3);
    let mut more = printhex_u8(state, b2);
    cells.append(&mut more);
    let mut more = printhex_u8(state, b1);
    cells.append(&mut more);
    let mut more = printhex_u8(state, b0);
    cells.append(&mut more);
    cells
}

/// The value of a blank cell.
pub const BLANK: u16 = 0x1f20;

/// The writes that blank the whole display: every cell, in order.
pub fn clear_screen() -> (cells: Vec<CellWrite>)
    ensures
        cells@.len() == COLUMNS * ROWS,
        forall|i: int|
            0 <= i < cells@.len() ==> cells@[i] == (CellWrite { offset: i as usize, value: BLANK }),
{
    let mut cells: Vec<CellWrite> = Vec::new();
    let mut i: usize = 0;
    while i < COLUMNS * ROWS
        invariant
            i <= COLUMNS * ROWS,
            cells@.len() == i,
            forall|k: int|
                0 <= k < i ==> cells@[k] == (CellWrite { offset: k as usize, value: BLANK }),
        decreases COLUMNS * ROWS - i,
    {
        cells.push(CellWrite { offset: i, value: BLANK });
        i += 1;
    }
    cells
}

} // verus!
