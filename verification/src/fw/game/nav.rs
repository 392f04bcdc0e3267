//! BornPets icon-grid navigation state.
//!
//! The game screen has an 8-icon grid: 4 icons on the top row and 4 on the
//! bottom row.  The focused icon is kept packed in one byte so that it can
//! live in an atomic cell shared between the button handler and the
//! renderer:
//!
//! ```text
//! bit 2    : row (0 = Top, 1 = Bottom)
//! bits 1-0 : col (0–3)
//! ```
//! Default: `0b111` → bottom row, col 3.
use vstd::prelude::*;

verus! {

/// Which icon row is focused.
#[derive(Clone, Copy, PartialEq, Eq, Structural, Debug)]
pub enum Row {
    Top,
    Bottom,
}

/// Cursor position within the 2×4 game icon grid.
#[derive(Clone, Copy, PartialEq, Eq, Structural, Debug)]
pub struct GameNav {
    pub row: Row,
    pub col: u8,
}

/// Outcome of a [`nav_right`] call.
#[derive(Clone, Copy, PartialEq, Eq, Structural, Debug)]
pub enum NavResult {
    /// Cursor moved within the grid.
    Moved,
    /// Cursor was already at the rightmost column — caller should switch screen.
    NextScreen,
}

/// The packed navigation byte.
#[derive(Clone, Copy, PartialEq, Eq, Structural, Debug)]
pub struct NavState {
    pub packed: u8,
}

/// The position a packed byte stands for: bit 2 is the row, bits 1–0 the column.
pub open spec fn spec_unpack(v: u8) -> GameNav {
    GameNav { row: if (v / 4) % 2 == 1 { Row::Bottom } else { Row::Top }, col: (v % 4) as u8 }
}

/// The packed byte of a position: the row in bit 2, the low two bits of the column below it.
pub open spec fn spec_pack(nav: GameNav) -> u8 {
    ((if nav.row == Row::Bottom { 4int } else { 0int }) + nav.col % 4) as u8
}

impl View for NavState {
    type V = GameNav;

    open spec fn view(&self) -> GameNav {
        spec_unpack(self.packed)
    }
}

impl NavState {
    /// The power-on position: bottom row, rightmost column.
    pub fn new() -> (s: NavState)
        ensures
            s.packed == 7,
            s@ == (GameNav { row: Row::Bottom, col: 3 }),
    {
        NavState { packed: 0b111 }
    }
}

/// Packs a position into its byte.
pub fn pack(nav: &GameNav) -> (v: u8)
    ensures
        v == spec_pack(*nav),
{
    let row_bit: u8 = if nav.row == Row::Bottom { 1 } else { 0 };
    let col = nav.col;
    let v: u8 = row_bit << 2u8 | (col & 0b11u8);
    assert(row_bit <= 1 ==> (row_bit << 2u8 | (col & 3u8)) == row_bit * 4 + col % 4) by (bit_vector);
    v
}

/// Unpacks a byte into the position it stands for.
pub fn unpack(v: u8) -> (nav: GameNav)
    ensures
        nav == spec_unpack(v),
{
    assert((v & 4u8 != 0u8) == ((v / 4) % 2 == 1)) by (bit_vector);
    assert(v & 3u8 == v % 4) by (bit_vector);
    GameNav { row: if v & 0b100u8 != 0 { Row::Bottom } else { Row::Top }, col: v & 0b11u8 }
}

/// Read the current navigation state.
pub fn get_nav(state: &NavState) -> (nav: GameNav)
    ensures
        nav == state@,
{
    unpack(state.packed)
}

/// Move focus to the top icon row (same column).
pub fn nav_up(state: &mut NavState)
    ensures
        final(state)@ == (GameNav { row: Row::Top, col: old(state)@.col }),
{
    let mut n = unpack(state.packed);
    n.row = Row::Top;
    state.packed = pack(&n);
}

/// Move focus to the bottom icon row (same column).
pub fn nav_down(state: &mut NavState)
    ensures
        final(state)@ == (GameNav { row: Row::Bottom, col: old(state)@.col }),
{
    let mut n = unpack(state.packed);
    n.row = Row::Bottom;
    state.packed = pack(&n);
}

/// Move focus one column to the left (clamps at column 0).
pub fn nav_left(state: &mut NavState)
    ensures
        final(state)@ == (GameNav {
            row: old(state)@.row,
            col: if old(state)@.col > 0 { (old(state)@.col - 1) as u8 } else { 0u8 },
        }),
{
    let mut n = unpack(state.packed);
    if n.col > 0 {
        n.col -= 1;
    }
    state.packed = pack(&n);
}

/// Move focus one column to the right.
///
/// Returns [`NavResult::NextScreen`] (and leaves the state untouched) when
/// already at the rightmost column; the caller then switches screen.
pub fn nav_right(state: &mut NavState) -> (r: NavResult)
    ensures
        old(state)@.col < 3 ==> r == NavResult::Moved && final(state)@ == (GameNav {
            row: old(state)@.row,
            col: (old(state)@.col + 1) as u8,
        }),
        old(state)@.col >= 3 ==> r == NavResult::NextScreen && *final(state) == *old(state),
{
    let mut n = unpack(state.packed);
    if n.col < 3 {
        n.col += 1;
        state.packed = pack(&n);
        NavResult::Moved
    } else {
        NavResult::NextScreen
    }
}

/// Packing then unpacking gives back any grid position (column 0–3).
pub proof fn lemma_unpack_pack(nav: GameNav)
    requires
        nav.col < 4,
    ensures
        spec_unpack(spec_pack(nav)) == nav,
{
}

/// Every byte the state is ever set to holds the row in bit 2 and the column
/// in bits 1–0 only: unpacking then packing keeps the low three bits.
pub proof fn lemma_pack_unpack(v: u8)
    ensures
        spec_pack(spec_unpack(v)) == v % 8,
{
}

/// The column of every reachable position is within the grid.
pub proof fn lemma_col_in_grid(s: NavState)
    ensures
        s@.col < 4,
{
}

} // verus!
