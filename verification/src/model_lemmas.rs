use vstd::prelude::*;
use crate::cell::{Cell, CellId, stopped};
use crate::model::{
    Model, DrainOut, drain, over10, pick_ortho, consume_energy, change_dir, decay_v,
};
use crate::num::tdiv10;
use crate::stepper::step_of;

verus! {

/// A coordinate on the grid indexes into the cell sequence.
pub proof fn lemma_idx_in_range(m: Model, x: int, y: int)
    requires
        m.cells.len() == m.w * m.h,
        m.in_bounds(x, y),
    ensures
        0 <= m.idx(x, y) < m.cells.len(),
{
    assert(0 <= y * m.w + x < m.w * m.h) by (nonlinear_arith)
        requires
            0 <= x < m.w,
            0 <= y < m.h,
    ;
}

/// A drain with no whole cell of travel left is already done.
pub proof fn lemma_drain_done(m: Model, x: int, y: int, c: Cell, water: bool, fuel: nat)
    requires
        !over10(c),
    ensures
        drain(m, x, y, c, water, fuel) == (DrainOut { m, x, y, c }),
{
    reveal_with_fuel(drain, 1);
}

/// A drain out of fuel abandons the cell, stopped, and counts one
/// diagnostic.
pub proof fn lemma_drain_abort(m: Model, x: int, y: int, c: Cell, water: bool, fuel: nat)
    requires
        over10(c),
        fuel == 0,
    ensures
        drain(m, x, y, c, water, fuel) == (DrainOut {
            m: Model { aborts: (m.aborts + 1) % 0x1_0000_0000_0000_0000, ..m },
            x,
            y,
            c: stopped(c),
        }),
{
    reveal_with_fuel(drain, 1);
}

/// A drain step into an empty destination absorbs the move.
pub proof fn lemma_drain_move(
    m: Model,
    x: int,
    y: int,
    c: Cell,
    water: bool,
    fuel: nat,
    h: int,
    v: int,
)
    requires
        over10(c),
        fuel > 0,
        (h, v) == step_of(tdiv10(c.dx as int), tdiv10(c.dy as int)),
        m.cell_at(x + h, y + v).id == CellId::Empty,
    ensures
        drain(m, x, y, c, water, fuel) == drain(
            m.put(x, y, m.cells[m.idx(x + h, y + v)]),
            x + h,
            y + v,
            Cell { dx: (c.dx - 10 * h) as i8, dy: (c.dy - 10 * v) as i8, ..c },
            water,
            (fuel - 1) as nat,
        ),
{
    reveal_with_fuel(drain, 1);
}

/// A blocked sand step deflects into the chosen orthogonal opening.
pub proof fn lemma_drain_sand_deflect(
    m: Model,
    x: int,
    y: int,
    c: Cell,
    fuel: nat,
    h: int,
    v: int,
    o: (int, int),
)
    requires
        over10(c),
        fuel > 0,
        (h, v) == step_of(tdiv10(c.dx as int), tdiv10(c.dy as int)),
        m.cell_at(x + h, y + v).id != CellId::Empty,
        pick_ortho(m, x + h, y + v, h, v).0 == Some(o),
    ensures
        drain(m, x, y, c, false, fuel) == ({
            let mr = Model { rng: pick_ortho(m, x + h, y + v, h, v).1, ..m };
            let c2 = change_dir(consume_energy(c, h, v), h + o.0, v + o.1);
            let tx = x + h + o.0;
            let ty = y + v + o.1;
            drain(mr.put(x, y, mr.cells[mr.idx(tx, ty)]), tx, ty, c2, false, (fuel - 1) as nat)
        }),
{
    reveal_with_fuel(drain, 1);
}

/// A blocked sand step with no orthogonal opening stops the cell dead.
pub proof fn lemma_drain_sand_stop(
    m: Model,
    x: int,
    y: int,
    c: Cell,
    fuel: nat,
    h: int,
    v: int,
)
    requires
        over10(c),
        fuel > 0,
        (h, v) == step_of(tdiv10(c.dx as int), tdiv10(c.dy as int)),
        m.cell_at(x + h, y + v).id != CellId::Empty,
        pick_ortho(m, x + h, y + v, h, v).0 is None,
    ensures
        drain(m, x, y, c, false, fuel) == (DrainOut {
            m: Model { rng: pick_ortho(m, x + h, y + v, h, v).1, ..m },
            x,
            y,
            c: stopped(c),
        }),
{
    reveal_with_fuel(drain, 1);
}

/// A blocked water step deflects around the blocked target when it can.
pub proof fn lemma_drain_water_deflect1(
    m: Model,
    x: int,
    y: int,
    c: Cell,
    fuel: nat,
    h: int,
    v: int,
    o: (int, int),
)
    requires
        over10(c),
        fuel > 0,
        (h, v) == step_of(tdiv10(c.dx as int), tdiv10(c.dy as int)),
        m.cell_at(x + h, y + v).id != CellId::Empty,
        pick_ortho(m, x + h, y + v, h, v).0 == Some(o),
    ensures
        drain(m, x, y, c, true, fuel) == ({
            let mr = Model { rng: pick_ortho(m, x + h, y + v, h, v).1, ..m };
            let ndx = h + o.0;
            let ndy = v + o.1;
            let c2 = change_dir(decay_v(consume_energy(c, ndx, ndy)), ndx, ndy);
            let tx = x + ndx;
            let ty = y + ndy;
            drain(mr.put(x, y, mr.cells[mr.idx(tx, ty)]), tx, ty, c2, true, (fuel - 1) as nat)
        }),
{
    reveal_with_fuel(drain, 1);
}

/// Water blocked on both counts around the target falls back to probing
/// around its own cell.
pub proof fn lemma_drain_water_deflect2(
    m: Model,
    x: int,
    y: int,
    c: Cell,
    fuel: nat,
    h: int,
    v: int,
    o: (int, int),
)
    requires
        over10(c),
        fuel > 0,
        (h, v) == step_of(tdiv10(c.dx as int), tdiv10(c.dy as int)),
        m.cell_at(x + h, y + v).id != CellId::Empty,
        pick_ortho(m, x + h, y + v, h, v).0 is None,
        pick_ortho(m, x, y, h, v).0 == Some(o),
    ensures
        drain(m, x, y, c, true, fuel) == ({
            let mr = Model { rng: pick_ortho(m, x, y, h, v).1, ..m };
            let c2 = change_dir(decay_v(consume_energy(c, h + o.0, v + o.1)), o.0, o.1);
            let tx = x + o.0;
            let ty = y + o.1;
            drain(mr.put(x, y, mr.cells[mr.idx(tx, ty)]), tx, ty, c2, true, (fuel - 1) as nat)
        }),
{
    reveal_with_fuel(drain, 1);
}

/// Water with no opening on either tier stops dead.
pub proof fn lemma_drain_water_stop(
    m: Model,
    x: int,
    y: int,
    c: Cell,
    fuel: nat,
    h: int,
    v: int,
)
    requires
        over10(c),
        fuel > 0,
        (h, v) == step_of(tdiv10(c.dx as int), tdiv10(c.dy as int)),
        m.cell_at(x + h, y + v).id != CellId::Empty,
        pick_ortho(m, x + h, y + v, h, v).0 is None,
        pick_ortho(m, x, y, h, v).0 is None,
    ensures
        drain(m, x, y, c, true, fuel) == (DrainOut {
            m: Model { rng: pick_ortho(m, x, y, h, v).1, ..m },
            x,
            y,
            c: stopped(c),
        }),
{
    reveal_with_fuel(drain, 1);
}

/// What a deflection choice guarantees: a chosen offset points at an empty
/// cell and is one of the two orthogonal candidates; no choice leaves the
/// random source untouched.
pub proof fn lemma_pick_ortho_props(m: Model, cx: int, cy: int, h: int, v: int)
    ensures
        ({
            let p = pick_ortho(m, cx, cy, h, v);
            match p.0 {
                Some(o) => {
                    &&& m.cell_at(cx + o.0, cy + o.1).id == CellId::Empty
                    &&& (o == crate::model::ortho1(h, v) || o == crate::model::ortho2(h, v))
                },
                None => p.1 == m.rng,
            }
        }),
{
    reveal(pick_ortho);
}

/// The acceleration step leaves the grid unchanged except for one probe
/// flag and possibly one consumed draw, and never changes the carried
/// cell's material or cosmetic value.
pub proof fn lemma_sand_accel_frame(m: Model, x: int, y: int, c: Cell)
    requires
        m.wf(),
        m.in_bounds(x, y),
    ensures
        ({
            let am = crate::model::sand_accel(m, x, y, c);
            &&& am.1.w == m.w
            &&& am.1.h == m.h
            &&& am.1.tick == m.tick
            &&& am.1.aborts == m.aborts
            &&& am.1.cells.len() == m.cells.len()
            &&& am.1.wf()
            &&& forall|i: int|
                0 <= i < m.cells.len() ==> am.1.cells[i].id == (#[trigger] m.cells[i]).id
                    && am.1.cells[i].vx == m.cells[i].vx && am.1.cells[i].vy == m.cells[i].vy
                    && am.1.cells[i].dx == m.cells[i].dx && am.1.cells[i].dy == m.cells[i].dy
                    && am.1.cells[i].rand == m.cells[i].rand && am.1.cells[i].updated
                    == m.cells[i].updated
            &&& am.0.id == c.id
            &&& am.0.rand == c.rand
        }),
{
    reveal(crate::model::sand_accel);
    let p = crate::stepper::step_of(c.vx as int, c.vy + 1);
    if m.in_bounds(x + p.0, y + p.1) {
        lemma_idx_in_range(m, x + p.0, y + p.1);
    }
}

} // verus!
