use vstd::prelude::*;
use crate::cell::{Cell, CellId};
use crate::model::{
    Model, drain, sand_accel, sand_update, water_update, trickle, step_cell, sweep_row,
    sweep_rows, clear_flags, spec_tick,
};
use crate::model_lemmas::{lemma_idx_in_range, lemma_sand_accel_frame, lemma_drain_done};

verus! {

/// A cell with no motion: zero velocity and an empty accumulator.
pub open spec fn at_rest(c: Cell) -> bool {
    c.vx == 0 && c.vy == 0 && c.dx == 0 && c.dy == 0
}

/// The materials the tick moves.
pub open spec fn mobile(id: CellId) -> bool {
    id == CellId::Sand || id == CellId::Water
}

/// Whether the stored cell at a coordinate is empty (off the grid counts as
/// not empty).
pub open spec fn empty_at(m: Model, x: int, y: int) -> bool {
    m.in_bounds(x, y) && m.cells[m.idx(x, y)].id == CellId::Empty
}

/// Whether any of the eight neighbors of a coordinate is an empty cell.
pub open spec fn has_empty_nbr(m: Model, x: int, y: int) -> bool {
    ||| empty_at(m, x - 1, y - 1)
    ||| empty_at(m, x, y - 1)
    ||| empty_at(m, x + 1, y - 1)
    ||| empty_at(m, x - 1, y)
    ||| empty_at(m, x + 1, y)
    ||| empty_at(m, x - 1, y + 1)
    ||| empty_at(m, x, y + 1)
    ||| empty_at(m, x + 1, y + 1)
}

/// A fully settled grid: every cell at rest, no emitter present, and no
/// mobile cell adjacent to an empty one.
pub open spec fn settled(m: Model) -> bool {
    &&& forall|i: int| 0 <= i < m.cells.len() ==> at_rest(#[trigger] m.cells[i])
    &&& forall|i: int| 0 <= i < m.cells.len() ==> (#[trigger] m.cells[i]).id != CellId::Special
    &&& forall|x: int, y: int|
        m.in_bounds(x, y) && mobile(m.cells[#[trigger] m.idx(x, y)].id) ==> !has_empty_nbr(
            m,
            x,
            y,
        )
}

/// Cells that agree on everything but the transient flags.
pub open spec fn payload_eq(a: Seq<Cell>, b: Seq<Cell>) -> bool {
    &&& a.len() == b.len()
    &&& forall|i: int|
        0 <= i < a.len() ==> a[i].id == (#[trigger] b[i]).id && a[i].vx == b[i].vx && a[i].vy
            == b[i].vy && a[i].dx == b[i].dx && a[i].dy == b[i].dy && a[i].rand == b[i].rand
}

/// No cell carries the rewritten mark.
pub open spec fn no_updated(s: Seq<Cell>) -> bool {
    forall|i: int| 0 <= i < s.len() ==> !(#[trigger] s[i]).updated
}

/// All transient flags are clear.
pub open spec fn flags_clear(s: Seq<Cell>) -> bool {
    forall|i: int|
        0 <= i < s.len() ==> !(#[trigger] s[i]).updated && !s[i].tried && !s[i].v_free
}

/// On a settled grid one swept cell changes nothing but transient flags and
/// draws nothing.
proof fn lemma_step_cell_settled(m0: Model, m: Model, x: int, y: int)
    requires
        m0.wf(),
        m.wf(),
        settled(m0),
        m.w == m0.w,
        m.h == m0.h,
        payload_eq(m0.cells, m.cells),
        no_updated(m.cells),
        m.in_bounds(x, y),
    ensures
        ({
            let r = step_cell(m, x, y);
            &&& r.wf()
            &&& r.w == m.w
            &&& r.h == m.h
            &&& r.tick == m.tick
            &&& r.rng == m.rng
            &&& r.aborts == m.aborts
            &&& payload_eq(m0.cells, r.cells)
            &&& no_updated(r.cells)
        }),
{
    lemma_idx_in_range(m, x, y);
    let c = m.cells[m.idx(x, y)];
    let c0 = m0.cells[m0.idx(x, y)];
    assert(at_rest(c0) && c.vx == 0 && c.vy == 0 && c.dx == 0 && c.dy == 0);
    if c.updated {
    } else if c.id == CellId::Sand || c.id == CellId::Water {
        assert(mobile(m0.cells[m0.idx(x, y)].id));
        assert(!has_empty_nbr(m0, x, y));
        if c.id == CellId::Sand {
            lemma_sand_accel_frame(m, x, y, c);
            reveal(crate::model::sand_accel);
            let am = sand_accel(m, x, y, c);
            let s = crate::stepper::step_of(c.vx as int, c.vy + 1);
            assert(s == (0int, 1int));
            assert(m.cell_at(x, y + 1).id != CellId::Empty) by {
                if m.in_bounds(x, y + 1) {
                    lemma_idx_in_range(m, x, y + 1);
                    assert(!empty_at(m0, x, y + 1));
                }
            }
            let m1 = am.1;
            assert(m1.cell_at(x, y + 1).id != CellId::Empty) by {
                if m1.in_bounds(x, y + 1) {
                    lemma_idx_in_range(m1, x, y + 1);
                    assert(!empty_at(m0, x, y + 1));
                }
            }
            assert(m1.cell_at(x - 1, y + 1).id != CellId::Empty) by {
                if m1.in_bounds(x - 1, y + 1) {
                    lemma_idx_in_range(m1, x - 1, y + 1);
                    assert(!empty_at(m0, x - 1, y + 1));
                }
            }
            assert(m1.cell_at(x + 1, y + 1).id != CellId::Empty) by {
                if m1.in_bounds(x + 1, y + 1) {
                    lemma_idx_in_range(m1, x + 1, y + 1);
                    assert(!empty_at(m0, x + 1, y + 1));
                }
            }
            let d = m1.cell_at(x, y + 1);
            assert(d.id == CellId::Sand ==> d.vy == 0) by {
                if m1.in_bounds(x, y + 1) {
                    lemma_idx_in_range(m1, x, y + 1);
                }
            }
            assert(am.0 == c && m1.rng == m.rng);
            let c2 = crate::model::accumulate(am.0);
            assert(c2 == c);
            lemma_drain_done(m1, x, y, c2, false, crate::model::MAX_DRAIN_STEPS as nat);
            let o = drain(m1, x, y, c2, false, crate::model::MAX_DRAIN_STEPS as nat);
            assert(sand_update(m, x, y) == m1.put(x, y, Cell { updated: false, ..c }));
            let rr = sand_update(m, x, y);
            assert forall|i: int| 0 <= i < m0.cells.len() implies m0.cells[i].id == (
            #[trigger] rr.cells[i]).id && m0.cells[i].vx == rr.cells[i].vx && m0.cells[i].vy
                == rr.cells[i].vy && m0.cells[i].dx == rr.cells[i].dx && m0.cells[i].dy
                == rr.cells[i].dy && m0.cells[i].rand == rr.cells[i].rand && !rr.cells[i].updated
                && crate::model::cell_ok(rr.cells[i]) by {
                assert(m0.cells[i].id == (#[trigger] m.cells[i]).id);
                assert(crate::model::cell_ok(m.cells[i]));
            }
            assert(payload_eq(m0.cells, rr.cells) && no_updated(rr.cells) && rr.wf());
        } else {
            assert(m.cell_at(x, y + 1).id != CellId::Empty && m.cell_at(x - 1, y + 1).id
                != CellId::Empty && m.cell_at(x + 1, y + 1).id != CellId::Empty && m.cell_at(
                x - 1,
                y,
            ).id != CellId::Empty && m.cell_at(x + 1, y).id != CellId::Empty) by {
                lemma_nbr_not_empty(m0, m, x, y + 1);
                lemma_nbr_not_empty(m0, m, x - 1, y + 1);
                lemma_nbr_not_empty(m0, m, x + 1, y + 1);
                lemma_nbr_not_empty(m0, m, x - 1, y);
                lemma_nbr_not_empty(m0, m, x + 1, y);
            }
            assert(!crate::model::water_gain(m, x, y));
            let c2 = crate::model::accumulate(c);
            assert(c2 == c);
            lemma_drain_done(m, x, y, c2, true, crate::model::MAX_DRAIN_STEPS as nat);
            let m2 = m.put(x, y, Cell { updated: false, ..c });
            assert forall|i: int| 0 <= i < m0.cells.len() implies m0.cells[i].id == (
            #[trigger] m2.cells[i]).id && m0.cells[i].vx == m2.cells[i].vx && m0.cells[i].vy
                == m2.cells[i].vy && m0.cells[i].dx == m2.cells[i].dx && m0.cells[i].dy
                == m2.cells[i].dy && m0.cells[i].rand == m2.cells[i].rand && !m2.cells[i].updated
                && crate::model::cell_ok(m2.cells[i]) by {
                assert(m0.cells[i].id == (#[trigger] m.cells[i]).id);
                assert(crate::model::cell_ok(m.cells[i]));
            }
            assert(payload_eq(m0.cells, m2.cells) && no_updated(m2.cells));
            assert(m2.wf());
            lemma_nbr_not_empty(m0, m2, x - 1, y - 1);
            lemma_nbr_not_empty(m0, m2, x + 1, y - 1);
            assert(trickle(m2, x, y) == m2);
            assert(water_update(m, x, y) == m2);
        }
    } else {
        assert(c.id != CellId::Special) by {
            assert(m0.cells[m.idx(x, y)].id == c.id);
        }
    }
}

/// A neighbor of a settled mobile cell reads as non-empty through the
/// guarded probe, in any grid that carries the same payloads unmarked.
proof fn lemma_nbr_not_empty(m0: Model, m: Model, x: int, y: int)
    requires
        m0.wf(),
        m.wf(),
        m.w == m0.w,
        m.h == m0.h,
        payload_eq(m0.cells, m.cells),
        no_updated(m.cells),
        !empty_at(m0, x, y),
    ensures
        m.cell_at(x, y).id != CellId::Empty,
{
    if m.in_bounds(x, y) {
        lemma_idx_in_range(m, x, y);
    }
}

/// One settled row sweep changes nothing but transient flags.
proof fn lemma_sweep_row_settled(m0: Model, m: Model, w: int, parity: bool, y: int, left: nat)
    requires
        m0.wf(),
        m.wf(),
        settled(m0),
        m.w == m0.w,
        m.h == m0.h,
        payload_eq(m0.cells, m.cells),
        no_updated(m.cells),
        w == m.w,
        0 <= y < m.h,
        left <= m.w,
    ensures
        ({
            let r = sweep_row(m, w, parity, y, left);
            &&& r.wf()
            &&& r.w == m.w
            &&& r.h == m.h
            &&& r.tick == m.tick
            &&& r.rng == m.rng
            &&& r.aborts == m.aborts
            &&& payload_eq(m0.cells, r.cells)
            &&& no_updated(r.cells)
        }),
    decreases left,
{
    if left == 0 {
    } else {
        let i = w - left;
        let x = if parity {
            w - 1 - i
        } else {
            i
        };
        lemma_step_cell_settled(m0, m, x, y);
        lemma_sweep_row_settled(m0, step_cell(m, x, y), w, parity, y, (left - 1) as nat);
    }
}

/// A settled sweep changes nothing but transient flags.
proof fn lemma_sweep_rows_settled(m0: Model, m: Model, w: int, parity: bool, rows: nat)
    requires
        m0.wf(),
        m.wf(),
        settled(m0),
        m.w == m0.w,
        m.h == m0.h,
        payload_eq(m0.cells, m.cells),
        no_updated(m.cells),
        w == m.w,
        rows <= m.h,
    ensures
        ({
            let r = sweep_rows(m, w, parity, rows);
            &&& r.wf()
            &&& r.w == m.w
            &&& r.h == m.h
            &&& r.tick == m.tick
            &&& r.rng == m.rng
            &&& r.aborts == m.aborts
            &&& payload_eq(m0.cells, r.cells)
            &&& no_updated(r.cells)
        }),
    decreases rows,
{
    if rows == 0 {
    } else {
        lemma_sweep_row_settled(m0, m, w, parity, rows - 1, m.w as nat);
        lemma_sweep_rows_settled(
            m0,
            sweep_row(m, w, parity, rows - 1, m.w as nat),
            w,
            parity,
            (rows - 1) as nat,
        );
    }
}

/// Idempotence: one tick leaves a fully settled grid — every cell at rest,
/// no emitter, no mobile material beside an empty cell — exactly as it was:
/// same cells, same random source, same diagnostics; only the tick counter
/// advances.
pub proof fn lemma_tick_settled_fixed(m: Model)
    requires
        m.wf(),
        settled(m),
        flags_clear(m.cells),
    ensures
        spec_tick(m) == (Model {
            tick: (m.tick + 1) % 0x1_0000_0000_0000_0000,
            ..m
        }),
{
    let parity = m.tick % 2 == 1;
    let m1 = clear_flags(m);
    assert(payload_eq(m.cells, m1.cells) && no_updated(m1.cells) && m1.wf());
    lemma_sweep_rows_settled(m, m1, m.w, parity, m.h as nat);
    let m2 = sweep_rows(m1, m.w, parity, m.h as nat);
    let m3 = clear_flags(m2);
    assert(m3.cells =~= m.cells);
    assert(spec_tick(m) == (Model {
        tick: (m.tick + 1) % 0x1_0000_0000_0000_0000,
        ..m
    }));
}

} // verus!
