use vstd::prelude::*;

verus! {

/// The material a lattice site holds. `Unavailable` is the sentinel returned
/// for reads that must not see real cell state: out of bounds, or a cell
/// already rewritten during the current tick.
#[derive(Clone, Copy, Debug, PartialEq, Eq, Structural)]
pub enum CellId {
    Empty,
    Sand,
    Water,
    Wood,
    Special,
    Unavailable,
}

/// One lattice site: a material, a velocity, a sub-cell displacement
/// accumulator in tenths of a cell, a cosmetic random value in `0..100`
/// fixed when the cell is created, and the transient per-tick flags.
#[derive(Clone, Copy, Debug, PartialEq, Eq, Structural)]
pub struct Cell {
    pub id: CellId,
    pub vx: i8,
    pub vy: i8,
    pub dx: i8,
    pub dy: i8,
    pub rand: u8,
    pub updated: bool,
    pub tried: bool,
    pub v_free: bool,
}

/// A cell in the default physical state of a material: at rest, empty
/// accumulator, flags clear.
pub open spec fn fresh_cell(id: CellId, rand: u8) -> Cell {
    Cell { id, vx: 0, vy: 0, dx: 0, dy: 0, rand, updated: false, tried: false, v_free: false }
}

/// The sentinel cell handed out for unreadable coordinates.
pub open spec fn unavailable_cell() -> Cell {
    fresh_cell(CellId::Unavailable, 0)
}

/// The cell with all motion state discarded: a fully blocked cell stops and
/// its outstanding momentum is dropped.
pub open spec fn stopped(c: Cell) -> Cell {
    Cell { vx: 0, vy: 0, dx: 0, dy: 0, ..c }
}

/// The cell with all transient flags cleared.
pub open spec fn cleared(c: Cell) -> Cell {
    Cell { updated: false, tried: false, v_free: false, ..c }
}

/// The glyph that renders a material in text output.
pub open spec fn glyph(id: CellId) -> char {
    match id {
        CellId::Empty => ' ',
        CellId::Sand => '.',
        CellId::Water => '~',
        CellId::Wood => '#',
        CellId::Special => '*',
        CellId::Unavailable => 'X',
    }
}

impl Cell {
    /// Builds a cell in the default state of `id`, carrying the given
    /// cosmetic random value.
    pub fn fresh(id: CellId, rand: u8) -> (c: Cell)
        ensures
            c == fresh_cell(id, rand),
    {
        Cell {
            id,
            vx: 0,
            vy: 0,
            dx: 0,
            dy: 0,
            rand,
            updated: false,
            tried: false,
            v_free: false,
        }
    }

    /// The sentinel cell.
    pub fn unavailable() -> (c: Cell)
        ensures
            c == unavailable_cell(),
    {
        Cell::fresh(CellId::Unavailable, 0)
    }

    /// One glyph per material, used by the text rendering.
    pub fn char(&self) -> (r: char)
        ensures
            r == glyph(self.id),
    {
        match self.id {
            CellId::Empty => ' ',
            CellId::Sand => '.',
            CellId::Water => '~',
            CellId::Wood => '#',
            CellId::Special => '*',
            CellId::Unavailable => 'X',
        }
    }

    /// Whether the cell holds real material, as opposed to being empty or
    /// the sentinel.
    pub fn is_something(&self) -> (r: bool)
        ensures
            r == (self.id != CellId::Unavailable && self.id != CellId::Empty),
    {
        self.id != CellId::Unavailable && self.id != CellId::Empty
    }
}

} // verus!
