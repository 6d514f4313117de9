use vstd::prelude::*;
use crate::cell::{Cell, CellId, fresh_cell, unavailable_cell};
use crate::model::{Model, init_model, spec_paint};
use crate::rng::SimRng;

verus! {

/// The simulation grid: an owned row-major buffer of cells, the tick
/// counter, the injected random source, and a diagnostic count of cells
/// whose displacement drain hit the safety bound.
pub struct Grid {
    pub width: usize,
    pub height: usize,
    pub cells: Vec<Cell>,
    pub tick_n: u64,
    pub rng: SimRng,
    pub aborts: u64,
}

impl View for Grid {
    type V = Model;

    open spec fn view(&self) -> Model {
        Model {
            w: self.width as int,
            h: self.height as int,
            cells: self.cells@,
            tick: self.tick_n as int,
            rng: self.rng.state,
            aborts: self.aborts as int,
        }
    }
}

impl Grid {
    /// The grid is well formed: its model is.
    pub open spec fn wf(self) -> bool {
        self@.wf()
    }

    /// Builds a grid of the given dimensions with every cell empty and the
    /// random source at `seed`.
    pub fn new_seeded(width: usize, height: usize, seed: u64) -> (r: Grid)
        requires
            width <= i32::MAX - 2,
            height <= i32::MAX - 2,
            width * height <= usize::MAX,
        ensures
            r.wf(),
            r@ == init_model(width as int, height as int, seed),
    {
        let n = width * height;
        let mut cells: Vec<Cell> = Vec::new();
        let mut i: usize = 0;
        while i < n
            invariant
                i <= n,
                cells@.len() == i,
                forall|j: int| 0 <= j < i ==> cells@[j] == fresh_cell(CellId::Empty, 0),
            decreases n - i,
        {
            cells.push(Cell::fresh(CellId::Empty, 0));
            i = i + 1;
        }
        let r = Grid { width, height, cells, tick_n: 0, rng: SimRng::new(seed), aborts: 0 };
        proof {
            assert(r@.cells =~= init_model(width as int, height as int, seed).cells);
        }
        r
    }

    /// Builds a grid of the given dimensions with every cell empty, seeding
    /// the random source with a fixed default.
    pub fn new(width: usize, height: usize) -> (r: Grid)
        requires
            width <= i32::MAX - 2,
            height <= i32::MAX - 2,
            width * height <= usize::MAX,
        ensures
            r.wf(),
            r@ == init_model(width as int, height as int, 0x9e3779b97f4a7c15),
    {
        Grid::new_seeded(width, height, 0x9e3779b97f4a7c15)
    }

    /// The grid width.
    pub fn w(&self) -> (r: i32)
        requires
            self.wf(),
        ensures
            r as int == self@.w,
    {
        self.width as i32
    }

    /// The grid height.
    pub fn h(&self) -> (r: i32)
        requires
            self.wf(),
        ensures
            r as int == self@.h,
    {
        self.height as i32
    }

    /// How many ticks have run.
    pub fn tick_count(&self) -> (r: u64)
        ensures
            r as int == self@.tick,
    {
        self.tick_n
    }

    /// How many cells were abandoned by the displacement safety bound, the
    /// diagnostic of the defensive loop guard.
    pub fn abort_count(&self) -> (r: u64)
        ensures
            r as int == self@.aborts,
    {
        self.aborts
    }

    /// Whether a coordinate lies on the grid.
    pub fn in_bounds(&self, x: i32, y: i32) -> (r: bool)
        requires
            self.wf(),
        ensures
            r == self@.in_bounds(x as int, y as int),
    {
        x >= 0 && x < self.w() && y >= 0 && y < self.h()
    }

    /// The flat index of a coordinate known to be on the grid.
    pub fn idx(&self, x: i32, y: i32) -> (r: usize)
        requires
            self.wf(),
            self@.in_bounds(x as int, y as int),
        ensures
            r as int == self@.idx(x as int, y as int),
            r < self@.cells.len(),
    {
        proof {
            crate::model_lemmas::lemma_idx_in_range(self@, x as int, y as int);
        }
        (y as usize) * self.width + (x as usize)
    }

    /// The flat index of a coordinate, or nothing when it is off the grid.
    pub fn checked_idx(&self, x: i32, y: i32) -> (r: Option<usize>)
        requires
            self.wf(),
        ensures
            match r {
                Some(i) => self@.in_bounds(x as int, y as int) && i as int == self@.idx(
                    x as int,
                    y as int,
                ) && i < self@.cells.len(),
                None => !self@.in_bounds(x as int, y as int),
            },
    {
        if self.in_bounds(x, y) {
            Some(self.idx(x, y))
        } else {
            None
        }
    }

    /// The guarded read of the query surface and of every neighbor probe:
    /// the sentinel for out-of-bounds coordinates and for cells already
    /// rewritten this tick, the stored cell otherwise.
    pub fn cell(&self, x: i32, y: i32) -> (r: Cell)
        requires
            self.wf(),
        ensures
            r == self@.cell_at(x as int, y as int),
    {
        match self.checked_idx(x, y) {
            Some(i) => {
                let c = self.cells[i];
                if !c.updated {
                    c
                } else {
                    Cell::unavailable()
                }
            },
            None => Cell::unavailable(),
        }
    }

    /// The material at a coordinate, the sentinel id off the grid.
    pub fn cell_id(&self, x: i32, y: i32) -> (r: CellId)
        requires
            self.wf(),
        ensures
            r == self@.cell_at(x as int, y as int).id,
    {
        self.cell(x, y).id
    }

    /// Writes a material at a coordinate: a silent no-op out of bounds, and
    /// a reset to the material's default cell state only when the id
    /// actually changes, so in-flight motion state is never erased.
    pub fn paint(&mut self, x: i32, y: i32, id: CellId)
        requires
            old(self).wf(),
        ensures
            final(self).wf(),
            final(self)@ == spec_paint(old(self)@, x as int, y as int, id),
    {
        match self.checked_idx(x, y) {
            Some(i) => {
                if self.cells[i].id != id {
                    let r = self.rng.cent();
                    self.cells[i] = Cell::fresh(id, r);
                }
            },
            None => {},
        }
    }
}

} // verus!
