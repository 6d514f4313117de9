use vstd::prelude::*;
use crate::cell::{Cell, CellId, fresh_cell, unavailable_cell, stopped, cleared};
use crate::num::{sgn, sat_i8, tdiv10, abs_of};
use crate::rng::{rng_next, coin_of, cent_of};
use crate::stepper::step_of;

verus! {

/// The mathematical state of a grid: dimensions, the row-major cell
/// sequence, the tick counter, the state of the injected random source, and
/// the count of cells whose displacement drain hit the safety bound.
pub ghost struct Model {
    pub w: int,
    pub h: int,
    pub cells: Seq<Cell>,
    pub tick: int,
    pub rng: u64,
    pub aborts: int,
}

/// The carried state of one displacement-draining run: the grid so far, the
/// position the moving cell has reached, and the cell itself.
pub ghost struct DrainOut {
    pub m: Model,
    pub x: int,
    pub y: int,
    pub c: Cell,
}

/// How many unit steps one cell may consume in one tick before its
/// processing is abandoned as a defensive measure.
pub const MAX_DRAIN_STEPS: u32 = 100;

/// A cell's stored payload is sane: the cosmetic random value is in
/// `0..100` and the displacement accumulator is strictly inside one cell.
pub open spec fn cell_ok(c: Cell) -> bool {
    c.rand < 100 && -10 < c.dx < 10 && -10 < c.dy < 10
}

/// Every stored cell is sane.
pub open spec fn cells_ok(s: Seq<Cell>) -> bool {
    forall|i: int| 0 <= i < s.len() ==> cell_ok(#[trigger] s[i])
}

impl Model {
    /// Structural well-formedness: dimensions in range and one stored cell
    /// per lattice site, every one of them sane.
    pub open spec fn wf(self) -> bool {
        &&& 0 <= self.w <= i32::MAX - 2
        &&& 0 <= self.h <= i32::MAX - 2
        &&& self.w * self.h <= usize::MAX
        &&& self.cells.len() == self.w * self.h
        &&& 0 <= self.tick < 0x1_0000_0000_0000_0000
        &&& 0 <= self.aborts < 0x1_0000_0000_0000_0000
        &&& cells_ok(self.cells)
    }

    /// The flat index of a coordinate.
    pub open spec fn idx(self, x: int, y: int) -> int {
        y * self.w + x
    }

    /// Whether a coordinate lies on the grid.
    pub open spec fn in_bounds(self, x: int, y: int) -> bool {
        0 <= x < self.w && 0 <= y < self.h
    }

    /// The guarded read every neighbor probe goes through: the sentinel for
    /// out-of-bounds coordinates and for cells already rewritten this tick,
    /// the stored cell otherwise.
    pub open spec fn cell_at(self, x: int, y: int) -> Cell {
        if self.in_bounds(x, y) && !self.cells[self.idx(x, y)].updated {
            self.cells[self.idx(x, y)]
        } else {
            unavailable_cell()
        }
    }

    /// The model with one cell replaced.
    pub open spec fn put(self, x: int, y: int, c: Cell) -> Model {
        Model { cells: self.cells.update(self.idx(x, y), c), ..self }
    }

    /// The model with one draw consumed from the random source.
    pub open spec fn step_rng(self) -> Model {
        Model { rng: rng_next(self.rng), ..self }
    }
}

/// The grid of a freshly constructed simulation: every cell empty, counter
/// and diagnostics at zero, the random source at `seed`.
pub open spec fn init_model(w: int, h: int, seed: u64) -> Model {
    Model {
        w,
        h,
        cells: Seq::new((w * h) as nat, |i: int| fresh_cell(CellId::Empty, 0)),
        tick: 0,
        rng: seed,
        aborts: 0,
    }
}

/// What `paint` does: a silent no-op out of bounds, a reset to the
/// material's default state when the id actually changes (drawing one
/// cosmetic random value), and nothing when it does not, so in-flight
/// motion state is never erased.
pub open spec fn spec_paint(m: Model, x: int, y: int, id: CellId) -> Model {
    if !m.in_bounds(x, y) {
        m
    } else if m.cells[m.idx(x, y)].id != id {
        m.step_rng().put(x, y, fresh_cell(id, cent_of(m.rng)))
    } else {
        m
    }
}

/// Whether the displacement accumulator still holds at least one whole cell
/// of travel along some axis.
pub open spec fn over10(c: Cell) -> bool {
    c.dx >= 10 || c.dx <= -10 || c.dy >= 10 || c.dy <= -10
}

/// The first of the two directions orthogonal to a blocked unit step; for a
/// diagonal block, its horizontal axis component counted from the target.
pub open spec fn ortho1(h: int, v: int) -> (int, int) {
    if h == 0 {
        (1int, 0int)
    } else if v == 0 {
        (0int, 1int)
    } else {
        (0int, -v)
    }
}

/// The second orthogonal direction.
pub open spec fn ortho2(h: int, v: int) -> (int, int) {
    if h == 0 {
        (-1int, 0int)
    } else if v == 0 {
        (0int, -1int)
    } else {
        (-h, 0int)
    }
}

/// The deflection choice around `(cx, cy)` for a step blocked along
/// `(h, v)`: the offset of an empty orthogonal neighbor if any, drawn by
/// coin flip when both are free (the only case that consumes a draw).
/// Returns the chosen offset and the random state after the choice.
#[verifier::opaque]
pub open spec fn pick_ortho(m: Model, cx: int, cy: int, h: int, v: int) -> (
    Option<(int, int)>,
    u64,
) {
    let o1 = ortho1(h, v);
    let o2 = ortho2(h, v);
    let e1 = m.cell_at(cx + o1.0, cy + o1.1).id == CellId::Empty;
    let e2 = m.cell_at(cx + o2.0, cy + o2.1).id == CellId::Empty;
    if e1 && e2 {
        (Some(if coin_of(m.rng) { o1 } else { o2 }), rng_next(m.rng))
    } else if e1 {
        (Some(o1), m.rng)
    } else if e2 {
        (Some(o2), m.rng)
    } else {
        (None, m.rng)
    }
}

/// The impact penalty of a deflection: ten tenths of travel shed from the
/// accumulator along each axis the direction `(h, v)` engages.
pub open spec fn consume_energy(c: Cell, h: int, v: int) -> Cell {
    let pen_x = if h != 0 { 10 * sgn(c.dx as int) } else { 0 };
    let pen_y = if v != 0 { 10 * sgn(c.dy as int) } else { 0 };
    Cell { dx: sat_i8(c.dx - pen_x) as i8, dy: sat_i8(c.dy - pen_y) as i8, ..c }
}

/// The remaining travel redistributed into a new direction: the magnitudes
/// of both accumulator axes are pooled and dealt out along the components
/// of `(nx, ny)`, preserving the total up to `i8` saturation.
pub open spec fn change_dir(c: Cell, nx: int, ny: int) -> Cell {
    let dirsum = abs_of(sgn(nx)) + abs_of(sgn(ny));
    if dirsum == 0 {
        c
    } else {
        let dsum = abs_of(c.dx as int) + abs_of(c.dy as int);
        let q = dsum / dirsum;
        let dx2 = sat_i8(if nx > 0 { q } else if nx < 0 { -q } else { 0 });
        let rem = dsum - abs_of(dx2);
        let dy2 = sat_i8(if ny > 0 { rem } else if ny < 0 { -rem } else { 0 });
        Cell { dx: dx2 as i8, dy: dy2 as i8, ..c }
    }
}

/// One tick of velocity decay toward rest.
pub open spec fn decay_v(c: Cell) -> Cell {
    Cell {
        vx: (c.vx - sgn(c.vx as int)) as i8,
        vy: (c.vy - sgn(c.vy as int)) as i8,
        ..c
    }
}

/// The displacement-draining run of one moving cell. While the accumulator
/// holds a whole cell of travel, the cell takes the unit step toward its
/// displacement; an empty destination absorbs the move, a blocked one
/// triggers deflection (sand probes around the blocked target; water also
/// falls back to probing around its own cell), and a cell with no open
/// orthogonal neighbor stops dead, discarding its momentum. A run that
/// exceeds the safety bound abandons the cell, stopped, and counts one
/// diagnostic.
#[verifier::opaque]
pub open spec fn drain(m: Model, x: int, y: int, c: Cell, water: bool, fuel: nat) -> DrainOut
    decreases fuel,
{
    if !over10(c) {
        DrainOut { m, x, y, c }
    } else if fuel == 0 {
        DrainOut {
            m: Model { aborts: (m.aborts + 1) % 0x1_0000_0000_0000_0000, ..m },
            x,
            y,
            c: stopped(c),
        }
    } else {
        let s = step_of(tdiv10(c.dx as int), tdiv10(c.dy as int));
        let h = s.0;
        let v = s.1;
        let nx = x + h;
        let ny = y + v;
        let n = m.cell_at(nx, ny);
        if n.id == CellId::Empty {
            let m2 = m.put(x, y, m.cells[m.idx(nx, ny)]);
            let c2 = Cell { dx: (c.dx - 10 * h) as i8, dy: (c.dy - 10 * v) as i8, ..c };
            drain(m2, nx, ny, c2, water, (fuel - 1) as nat)
        } else if !water {
            let pick = pick_ortho(m, nx, ny, h, v);
            let mr = Model { rng: pick.1, ..m };
            match pick.0 {
                Some(o) => {
                    let ndx = h + o.0;
                    let ndy = v + o.1;
                    let c2 = change_dir(consume_energy(c, h, v), ndx, ndy);
                    let tx = x + ndx;
                    let ty = y + ndy;
                    let m2 = mr.put(x, y, mr.cells[mr.idx(tx, ty)]);
                    drain(m2, tx, ty, c2, water, (fuel - 1) as nat)
                },
                None => DrainOut { m: mr, x, y, c: stopped(c) },
            }
        } else {
            let pick1 = pick_ortho(m, nx, ny, h, v);
            match pick1.0 {
                Some(o) => {
                    let mr = Model { rng: pick1.1, ..m };
                    let ndx = h + o.0;
                    let ndy = v + o.1;
                    let c2 = change_dir(decay_v(consume_energy(c, ndx, ndy)), ndx, ndy);
                    let tx = x + ndx;
                    let ty = y + ndy;
                    let m2 = mr.put(x, y, mr.cells[mr.idx(tx, ty)]);
                    drain(m2, tx, ty, c2, water, (fuel - 1) as nat)
                },
                None => {
                    let pick2 = pick_ortho(m, x, y, h, v);
                    let mr = Model { rng: pick2.1, ..m };
                    match pick2.0 {
                        Some(o) => {
                            let c2 = change_dir(
                                decay_v(consume_energy(c, h + o.0, v + o.1)),
                                o.0,
                                o.1,
                            );
                            let tx = x + o.0;
                            let ty = y + o.1;
                            let m2 = mr.put(x, y, mr.cells[mr.idx(tx, ty)]);
                            drain(m2, tx, ty, c2, water, (fuel - 1) as nat)
                        },
                        None => DrainOut { m: mr, x, y, c: stopped(c) },
                    }
                },
            }
        }
    }
}

/// The sand acceleration step: probe one unit step below-and-forward of the
/// velocity; an empty probe gains gravity, a faster sand neighbor below
/// hands part of its fall down through the stack, and a perfectly resting
/// grain beside an empty diagonal slot is nudged sideways (coin flip when
/// both sides are open) with a small cosmetic accumulator bias, modeling
/// avalanche slumping. Any other obstacle decays the velocity. The probed
/// slot is flagged `v_free` as a transient diagnostic.
#[verifier::opaque]
pub open spec fn sand_accel(m: Model, x: int, y: int, c: Cell) -> (Cell, Model) {
    let s = step_of(c.vx as int, c.vy + 1);
    let px = x + s.0;
    let py = y + s.1;
    let m1 = if m.in_bounds(px, py) {
        m.put(px, py, Cell { v_free: true, ..m.cells[m.idx(px, py)] })
    } else {
        m
    };
    let d = m1.cell_at(px, py);
    if d.id == CellId::Empty {
        (Cell { vy: sat_i8(c.vy + 1) as i8, ..c }, m1)
    } else if d.id == CellId::Sand {
        if d.vy > c.vy {
            let gain = if d.vy - c.vy < 1 { d.vy - c.vy } else { 1int };
            (Cell { vy: sat_i8(c.vy + gain) as i8, ..c }, m1)
        } else if c.vx == 0 && c.vy == 0 {
            let el = m1.cell_at(x - 1, y + 1).id == CellId::Empty;
            let er = m1.cell_at(x + 1, y + 1).id == CellId::Empty;
            let seeded_dy = if c.dy == 0 { (c.rand * 5 / 100) as i8 } else { c.dy };
            if el && er {
                let c2 = if coin_of(m1.rng) {
                    Cell { vx: -1i8, vy: 1i8, dy: seeded_dy, ..c }
                } else {
                    Cell { vx: 1i8, vy: 1i8, dy: seeded_dy, ..c }
                };
                (c2, m1.step_rng())
            } else if el {
                (Cell { vx: -1i8, vy: 1i8, dy: seeded_dy, ..c }, m1)
            } else if er {
                (Cell { vx: 1i8, vy: 1i8, dy: seeded_dy, ..c }, m1)
            } else {
                (c, m1)
            }
        } else {
            (c, m1)
        }
    } else {
        (decay_v(c), m1)
    }
}

/// The accumulator gaining one tick of velocity, saturating.
pub open spec fn accumulate(c: Cell) -> Cell {
    Cell { dx: sat_i8(c.dx + c.vx) as i8, dy: sat_i8(c.dy + c.vy) as i8, ..c }
}

/// One sand cell's full update: accelerate, accumulate, drain, and write
/// the carried cell back at its final position, flagged as rewritten only
/// when it actually moved.
pub open spec fn sand_update(m: Model, x: int, y: int) -> Model {
    let c0 = m.cells[m.idx(x, y)];
    let am = sand_accel(m, x, y, c0);
    let c2 = accumulate(am.0);
    let out = drain(am.1, x, y, c2, false, MAX_DRAIN_STEPS as nat);
    let moved = out.x != x || out.y != y;
    out.m.put(out.x, out.y, Cell { updated: moved, ..out.c })
}

/// Whether confined water may gain velocity: at least one of the five
/// neighbors below or beside it is empty.
pub open spec fn water_gain(m: Model, x: int, y: int) -> bool {
    ||| m.cell_at(x, y + 1).id == CellId::Empty
    ||| m.cell_at(x - 1, y + 1).id == CellId::Empty
    ||| m.cell_at(x + 1, y + 1).id == CellId::Empty
    ||| m.cell_at(x - 1, y).id == CellId::Empty
    ||| m.cell_at(x + 1, y).id == CellId::Empty
}

/// The two cells at `(x, y)` and `(tx, ty)` exchanged whole, the moving one
/// flagged as rewritten — the swap by which water trickles upward.
pub open spec fn swap_up(m: Model, x: int, y: int, tx: int, ty: int) -> Model {
    let a = m.cells[m.idx(x, y)];
    let b = m.cells[m.idx(tx, ty)];
    m.put(x, y, b).put(tx, ty, Cell { updated: true, ..a })
}

/// The buoyancy side-channel: water sitting directly beneath sand swaps
/// upward into an empty upper-diagonal slot, coin-flip-biased when both are
/// open.
pub open spec fn trickle(m: Model, x: int, y: int) -> Model {
    if m.cell_at(x, y - 1).id == CellId::Sand {
        let ul = m.cell_at(x - 1, y - 1).id == CellId::Empty;
        let ur = m.cell_at(x + 1, y - 1).id == CellId::Empty;
        if ul && ur {
            let m2 = m.step_rng();
            if coin_of(m.rng) {
                swap_up(m2, x, y, x - 1, y - 1)
            } else {
                swap_up(m2, x, y, x + 1, y - 1)
            }
        } else if ul {
            swap_up(m, x, y, x - 1, y - 1)
        } else if ur {
            swap_up(m, x, y, x + 1, y - 1)
        } else {
            m
        }
    } else {
        m
    }
}

/// One water cell's full update: gain gravity only when not confined, run
/// the same accumulate-and-drain loop as sand with the two-tier deflection,
/// write back, then try the trickle side-channel at the final position.
pub open spec fn water_update(m: Model, x: int, y: int) -> Model {
    let c0 = m.cells[m.idx(x, y)];
    let c1 = if water_gain(m, x, y) {
        Cell { vy: sat_i8(c0.vy + 1) as i8, ..c0 }
    } else {
        c0
    };
    let c2 = accumulate(c1);
    let out = drain(m, x, y, c2, true, MAX_DRAIN_STEPS as nat);
    let moved = out.x != x || out.y != y;
    let m2 = out.m.put(out.x, out.y, Cell { updated: moved, ..out.c });
    trickle(m2, out.x, out.y)
}

/// The integer sine table the emitter sweeps through, period eight,
/// amplitude two.
pub open spec fn sine8(i: int) -> int {
    if i == 0 {
        0
    } else if i == 1 {
        1
    } else if i == 2 {
        2
    } else if i == 3 {
        1
    } else if i == 4 {
        0
    } else if i == 5 {
        -1
    } else if i == 6 {
        -2
    } else {
        -1
    }
}

/// The emitter: a time-varying offset swept from the sine table by the tick
/// counter; when the offset target is empty, a sand cell spawns there with
/// velocity taken from the sinusoid's components and a freshly drawn
/// cosmetic value.
pub open spec fn special_update(m: Model, x: int, y: int) -> Model {
    let ph = m.tick % 8;
    let ox = sine8(ph);
    let oy = sine8((ph + 2) % 8);
    let t = m.cell_at(x + ox, y + oy);
    if t.id == CellId::Empty {
        let spawned = Cell {
            id: CellId::Sand,
            vx: ox as i8,
            vy: oy as i8,
            dx: 0,
            dy: 0,
            rand: cent_of(m.rng),
            updated: true,
            tried: false,
            v_free: false,
        };
        m.step_rng().put(x + ox, y + oy, spawned)
    } else {
        m
    }
}

/// The dispatch for one swept cell: cells already rewritten this tick are
/// skipped, mobile materials run their rule, and empty, wooden and sentinel
/// cells are left alone.
pub open spec fn step_cell(m: Model, x: int, y: int) -> Model {
    let c = m.cells[m.idx(x, y)];
    if c.updated {
        m
    } else if c.id == CellId::Sand {
        sand_update(m, x, y)
    } else if c.id == CellId::Water {
        water_update(m, x, y)
    } else if c.id == CellId::Special {
        special_update(m, x, y)
    } else {
        m
    }
}

/// One row of the sweep with `left` columns still to process, columns
/// running left-to-right on even ticks and right-to-left on odd ones.
pub open spec fn sweep_row(m: Model, w: int, parity: bool, y: int, left: nat) -> Model
    decreases left,
{
    if left == 0 {
        m
    } else {
        let i = w - left;
        let x = if parity {
            w - 1 - i
        } else {
            i
        };
        sweep_row(step_cell(m, x, y), w, parity, y, (left - 1) as nat)
    }
}

/// The sweep over `rows_left` rows, bottom-most first, so a falling cell is
/// processed before anything that might drop into its place.
pub open spec fn sweep_rows(m: Model, w: int, parity: bool, rows_left: nat) -> Model
    decreases rows_left,
{
    if rows_left == 0 {
        m
    } else {
        sweep_rows(sweep_row(m, w, parity, rows_left - 1, w as nat), w, parity, (rows_left - 1) as nat)
    }
}

/// Every transient flag wiped from every cell.
pub open spec fn clear_flags(m: Model) -> Model {
    Model { cells: m.cells.map_values(|c: Cell| cleared(c)), ..m }
}

/// One full tick: clear the per-tick flags, sweep the grid bottom-to-top
/// with alternating column order, clear the flags again so the query
/// surface never sees scratch state, and count the tick.
pub open spec fn spec_tick(m: Model) -> Model {
    let parity = m.tick % 2 == 1;
    let m1 = clear_flags(m);
    let m2 = sweep_rows(m1, m.w, parity, m.h as nat);
    let m3 = clear_flags(m2);
    Model { tick: (m.tick + 1) % 0x1_0000_0000_0000_0000, ..m3 }
}

} // verus!
