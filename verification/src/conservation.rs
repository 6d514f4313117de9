use vstd::prelude::*;
use crate::cell::{Cell, CellId};
use crate::counts::{
    id_count, ids_conserved, ids_equal, lemma_count_update, lemma_count_pointwise,
    lemma_count_zero, lemma_idx_injective,
};
use crate::model::{
    Model, drain, over10, pick_ortho, sand_accel, sand_update, water_update, special_update,
    trickle, swap_up, step_cell, sweep_row, sweep_rows, clear_flags, spec_tick, cells_ok,
};
use crate::model_lemmas::lemma_idx_in_range;
use crate::num::tdiv10;
use crate::stepper::step_of;

verus! {

/// A displacement drain only rotates cells: together with the carried cell
/// placed at its final slot, every material count is exactly what it was
/// with the carried cell at the start slot.
pub proof fn lemma_drain_counts(
    m: Model,
    x: int,
    y: int,
    c: Cell,
    water: bool,
    fuel: nat,
    id: CellId,
)
    requires
        m.wf(),
        m.in_bounds(x, y),
    ensures
        drain_counts_ok(m, x, y, c, water, fuel, id),
    decreases fuel, 2nat,
{
    lemma_idx_in_range(m, x, y);
    if !over10(c) {
        crate::model_lemmas::lemma_drain_done(m, x, y, c, water, fuel);
    } else if fuel == 0 {
        crate::model_lemmas::lemma_drain_abort(m, x, y, c, water, fuel);
        lemma_count_update(m.cells, m.idx(x, y), c, id);
        lemma_count_update(m.cells, m.idx(x, y), crate::cell::stopped(c), id);
    } else {
        let s = step_of(tdiv10(c.dx as int), tdiv10(c.dy as int));
        let h = s.0;
        let v = s.1;
        assert(h != 0 || v != 0);
        let nx = x + h;
        let ny = y + v;
        let n = m.cell_at(nx, ny);
        if n.id == CellId::Empty {
            crate::model_lemmas::lemma_drain_move(m, x, y, c, water, fuel, h, v);
            let c2 = Cell { dx: (c.dx - 10 * h) as i8, dy: (c.dy - 10 * v) as i8, ..c };
            lemma_drain_counts_cont(m, x, y, c, water, fuel, id, m.rng, nx, ny, c2);
        } else if !water {
            lemma_drain_counts_sand(m, x, y, c, fuel, id, h, v);
        } else {
            lemma_drain_counts_water(m, x, y, c, fuel, id, h, v);
        }
    }
}

/// The blocked-sand case of `lemma_drain_counts`.
proof fn lemma_drain_counts_sand(
    m: Model,
    x: int,
    y: int,
    c: Cell,
    fuel: nat,
    id: CellId,
    h: int,
    v: int,
)
    requires
        m.wf(),
        m.in_bounds(x, y),
        over10(c),
        fuel >= 1,
        (h, v) == step_of(tdiv10(c.dx as int), tdiv10(c.dy as int)),
        h != 0 || v != 0,
        m.cell_at(x + h, y + v).id != CellId::Empty,
    ensures
        drain_counts_ok(m, x, y, c, false, fuel, id),
    decreases fuel, 1nat,
{
    lemma_idx_in_range(m, x, y);
    let nx = x + h;
    let ny = y + v;
    let pick1 = pick_ortho(m, nx, ny, h, v);
    crate::model_lemmas::lemma_pick_ortho_props(m, nx, ny, h, v);
    match pick1.0 {
        Some(o) => {
            crate::model_lemmas::lemma_drain_sand_deflect(m, x, y, c, fuel, h, v, o);
            let ndx = h + o.0;
            let ndy = v + o.1;
            let c2 = crate::model::change_dir(crate::model::consume_energy(c, h, v), ndx, ndy);
            assert(ndx != 0 || ndy != 0);
            lemma_drain_counts_cont(m, x, y, c, false, fuel, id, pick1.1, x + ndx, y + ndy, c2);
        },
        None => {
            crate::model_lemmas::lemma_drain_sand_stop(m, x, y, c, fuel, h, v);
            lemma_count_update(m.cells, m.idx(x, y), c, id);
            lemma_count_update(m.cells, m.idx(x, y), crate::cell::stopped(c), id);
        },
    }
}

/// The blocked-water case of `lemma_drain_counts`.
proof fn lemma_drain_counts_water(
    m: Model,
    x: int,
    y: int,
    c: Cell,
    fuel: nat,
    id: CellId,
    h: int,
    v: int,
)
    requires
        m.wf(),
        m.in_bounds(x, y),
        over10(c),
        fuel >= 1,
        (h, v) == step_of(tdiv10(c.dx as int), tdiv10(c.dy as int)),
        h != 0 || v != 0,
        m.cell_at(x + h, y + v).id != CellId::Empty,
    ensures
        drain_counts_ok(m, x, y, c, true, fuel, id),
    decreases fuel, 1nat,
{
    lemma_idx_in_range(m, x, y);
    let nx = x + h;
    let ny = y + v;
    let pick1 = pick_ortho(m, nx, ny, h, v);
    crate::model_lemmas::lemma_pick_ortho_props(m, nx, ny, h, v);
    match pick1.0 {
        Some(o) => {
            crate::model_lemmas::lemma_drain_water_deflect1(m, x, y, c, fuel, h, v, o);
            let ndx = h + o.0;
            let ndy = v + o.1;
            let c2 = crate::model::change_dir(
                crate::model::decay_v(crate::model::consume_energy(c, ndx, ndy)),
                ndx,
                ndy,
            );
            assert(ndx != 0 || ndy != 0);
            lemma_drain_counts_cont(m, x, y, c, true, fuel, id, pick1.1, x + ndx, y + ndy, c2);
        },
        None => {
            let pick2 = pick_ortho(m, x, y, h, v);
            crate::model_lemmas::lemma_pick_ortho_props(m, x, y, h, v);
            match pick2.0 {
                Some(o) => {
                    crate::model_lemmas::lemma_drain_water_deflect2(m, x, y, c, fuel, h, v, o);
                    let c2 = crate::model::change_dir(
                        crate::model::decay_v(crate::model::consume_energy(c, h + o.0, v + o.1)),
                        o.0,
                        o.1,
                    );
                    assert(o.0 != 0 || o.1 != 0);
                    lemma_drain_counts_cont(
                        m,
                        x,
                        y,
                        c,
                        true,
                        fuel,
                        id,
                        pick2.1,
                        x + o.0,
                        y + o.1,
                        c2,
                    );
                },
                None => {
                    crate::model_lemmas::lemma_drain_water_stop(m, x, y, c, fuel, h, v);
                    lemma_count_update(m.cells, m.idx(x, y), c, id);
                    lemma_count_update(m.cells, m.idx(x, y), crate::cell::stopped(c), id);
                },
            }
        },
    }
}

/// What `lemma_drain_counts` establishes of one drain.
pub open spec fn drain_counts_ok(
    m: Model,
    x: int,
    y: int,
    c: Cell,
    water: bool,
    fuel: nat,
    id: CellId,
) -> bool {
    let o = drain(m, x, y, c, water, fuel);
    &&& o.m.wf()
    &&& o.m.in_bounds(o.x, o.y)
    &&& o.m.w == m.w
    &&& o.m.h == m.h
    &&& o.m.tick == m.tick
    &&& o.m.cells.len() == m.cells.len()
    &&& o.c.id == c.id
    &&& o.c.rand == c.rand
    &&& -10 < o.c.dx < 10
    &&& -10 < o.c.dy < 10
    &&& id_count(o.m.cells.update(o.m.idx(o.x, o.y), o.c), id) == id_count(
        m.cells.update(m.idx(x, y), c),
        id,
    )
}

/// The shared continuation of one drain move: the cell steps to an empty
/// slot `(tx, ty)`, the vacated slot takes that slot's old cell, and the
/// rest of the drain keeps the counts.
proof fn lemma_drain_counts_cont(
    m: Model,
    x: int,
    y: int,
    c: Cell,
    water: bool,
    fuel: nat,
    id: CellId,
    rng2: u64,
    tx: int,
    ty: int,
    c2: Cell,
)
    requires
        m.wf(),
        m.in_bounds(x, y),
        m.in_bounds(tx, ty),
        (x, y) != (tx, ty),
        c2.id == c.id,
        c2.rand == c.rand,
        fuel >= 1,
        drain(m, x, y, c, water, fuel) == ({
            let mr = Model { rng: rng2, ..m };
            drain(
                mr.put(x, y, mr.cells[mr.idx(tx, ty)]),
                tx,
                ty,
                c2,
                water,
                (fuel - 1) as nat,
            )
        }),
    ensures
        drain_counts_ok(m, x, y, c, water, fuel, id),
    decreases fuel, 0nat,
{
    let mr = Model { rng: rng2, ..m };
    lemma_idx_in_range(m, x, y);
    lemma_idx_in_range(m, tx, ty);
    let i = m.idx(x, y);
    let j = m.idx(tx, ty);
    let m2 = mr.put(x, y, mr.cells[j]);
    lemma_idx_injective(m.w, m.h, x, y, tx, ty);
    assert(m2.wf());
    lemma_drain_counts(m2, tx, ty, c2, water, (fuel - 1) as nat, id);
    lemma_count_update(m.cells, i, m.cells[j], id);
    lemma_count_update(m.cells.update(i, m.cells[j]), j, c2, id);
    lemma_count_update(m.cells, i, c, id);
}

/// The sand rule never changes any material count.
pub proof fn lemma_sand_update_counts(m: Model, x: int, y: int, id: CellId)
    requires
        m.wf(),
        m.in_bounds(x, y),
    ensures
        sand_update(m, x, y).wf(),
        sand_update(m, x, y).w == m.w,
        sand_update(m, x, y).h == m.h,
        sand_update(m, x, y).tick == m.tick,
        id_count(sand_update(m, x, y).cells, id) == id_count(m.cells, id),
{
    lemma_idx_in_range(m, x, y);
    let c0 = m.cells[m.idx(x, y)];
    let am = sand_accel(m, x, y, c0);
    let m1 = am.1;
    let c2 = crate::model::accumulate(am.0);
    crate::model_lemmas::lemma_sand_accel_frame(m, x, y, c0);
    lemma_drain_counts(m1, x, y, c2, false, crate::model::MAX_DRAIN_STEPS as nat, id);
    let o = drain(m1, x, y, c2, false, crate::model::MAX_DRAIN_STEPS as nat);
    let moved = o.x != x || o.y != y;
    let cf = Cell { updated: moved, ..o.c };
    lemma_idx_in_range(o.m, o.x, o.y);
    lemma_count_update(o.m.cells, o.m.idx(o.x, o.y), o.c, id);
    lemma_count_update(o.m.cells, o.m.idx(o.x, o.y), cf, id);
    lemma_count_update(m1.cells, m1.idx(x, y), c2, id);
    lemma_count_pointwise(m1.cells, m.cells, id);
    lemma_count_pointwise(
        m1.cells.update(m1.idx(x, y), c2),
        m.cells.update(m.idx(x, y), c2),
        id,
    );
    lemma_count_update(m.cells, m.idx(x, y), c2, id);
}

/// The trickle swap never changes any material count.
pub proof fn lemma_trickle_counts(m: Model, x: int, y: int, id: CellId)
    requires
        m.wf(),
        m.in_bounds(x, y),
    ensures
        trickle(m, x, y).wf(),
        trickle(m, x, y).w == m.w,
        trickle(m, x, y).h == m.h,
        trickle(m, x, y).tick == m.tick,
        id_count(trickle(m, x, y).cells, id) == id_count(m.cells, id),
{
    if m.cell_at(x, y - 1).id == CellId::Sand {
        let ul = m.cell_at(x - 1, y - 1).id == CellId::Empty;
        let ur = m.cell_at(x + 1, y - 1).id == CellId::Empty;
        if ul && ur {
            if crate::rng::coin_of(m.rng) {
                lemma_swap_up_counts(m.step_rng(), x, y, x - 1, y - 1, id);
            } else {
                lemma_swap_up_counts(m.step_rng(), x, y, x + 1, y - 1, id);
            }
        } else if ul {
            lemma_swap_up_counts(m, x, y, x - 1, y - 1, id);
        } else if ur {
            lemma_swap_up_counts(m, x, y, x + 1, y - 1, id);
        }
    }
}

/// Exchanging two cells never changes any material count.
pub proof fn lemma_swap_up_counts(m: Model, x: int, y: int, tx: int, ty: int, id: CellId)
    requires
        m.wf(),
        m.in_bounds(x, y),
        m.in_bounds(tx, ty),
        (x, y) != (tx, ty),
    ensures
        swap_up(m, x, y, tx, ty).wf(),
        swap_up(m, x, y, tx, ty).w == m.w,
        swap_up(m, x, y, tx, ty).h == m.h,
        swap_up(m, x, y, tx, ty).tick == m.tick,
        id_count(swap_up(m, x, y, tx, ty).cells, id) == id_count(m.cells, id),
{
    lemma_idx_in_range(m, x, y);
    lemma_idx_in_range(m, tx, ty);
    lemma_idx_injective(m.w, m.h, x, y, tx, ty);
    let i = m.idx(x, y);
    let j = m.idx(tx, ty);
    let a = m.cells[i];
    let b = m.cells[j];
    lemma_count_update(m.cells, i, b, id);
    lemma_count_update(m.cells.update(i, b), j, Cell { updated: true, ..a }, id);
}

/// The water rule never changes any material count.
pub proof fn lemma_water_update_counts(m: Model, x: int, y: int, id: CellId)
    requires
        m.wf(),
        m.in_bounds(x, y),
    ensures
        water_update(m, x, y).wf(),
        water_update(m, x, y).w == m.w,
        water_update(m, x, y).h == m.h,
        water_update(m, x, y).tick == m.tick,
        id_count(water_update(m, x, y).cells, id) == id_count(m.cells, id),
{
    lemma_idx_in_range(m, x, y);
    let c0 = m.cells[m.idx(x, y)];
    let c1 = if crate::model::water_gain(m, x, y) {
        Cell { vy: crate::num::sat_i8(c0.vy + 1) as i8, ..c0 }
    } else {
        c0
    };
    let c2 = crate::model::accumulate(c1);
    lemma_drain_counts(m, x, y, c2, true, crate::model::MAX_DRAIN_STEPS as nat, id);
    let o = drain(m, x, y, c2, true, crate::model::MAX_DRAIN_STEPS as nat);
    let moved = o.x != x || o.y != y;
    let cf = Cell { updated: moved, ..o.c };
    lemma_idx_in_range(o.m, o.x, o.y);
    lemma_count_update(o.m.cells, o.m.idx(o.x, o.y), o.c, id);
    lemma_count_update(o.m.cells, o.m.idx(o.x, o.y), cf, id);
    lemma_count_update(m.cells, m.idx(x, y), c2, id);
    let m2 = o.m.put(o.x, o.y, cf);
    lemma_trickle_counts(m2, o.x, o.y, id);
}

/// The emitter converts at most one empty cell into sand and touches
/// nothing else.
pub proof fn lemma_special_update_counts(m: Model, x: int, y: int)
    requires
        m.wf(),
        m.in_bounds(x, y),
    ensures
        special_update(m, x, y).wf(),
        special_update(m, x, y).w == m.w,
        special_update(m, x, y).h == m.h,
        special_update(m, x, y).tick == m.tick,
        ids_conserved(m.cells, special_update(m, x, y).cells),
{
    let ph = m.tick % 8;
    let ox = crate::model::sine8(ph);
    let oy = crate::model::sine8((ph + 2) % 8);
    let t = m.cell_at(x + ox, y + oy);
    if t.id == CellId::Empty {
        lemma_idx_in_range(m, x + ox, y + oy);
        let i = m.idx(x + ox, y + oy);
        assert forall|id: CellId| true implies #[trigger] id_count(
            special_update(m, x, y).cells,
            id,
        ) == id_count(m.cells, id) + (if id == CellId::Sand {
            1int
        } else if id == CellId::Empty {
            -1int
        } else {
            0int
        }) by {
            let spawned = special_update(m, x, y).cells[i];
            lemma_count_update(m.cells, i, spawned, id);
        }
    }
}

/// One swept cell conserves material counts, exactly so when the cell is
/// not the emitter.
pub proof fn lemma_step_cell_counts(m: Model, x: int, y: int)
    requires
        m.wf(),
        m.in_bounds(x, y),
    ensures
        step_cell(m, x, y).wf(),
        step_cell(m, x, y).w == m.w,
        step_cell(m, x, y).h == m.h,
        step_cell(m, x, y).tick == m.tick,
        ids_conserved(m.cells, step_cell(m, x, y).cells),
        m.cells[m.idx(x, y)].id != CellId::Special ==> ids_equal(m.cells, step_cell(m, x, y).cells),
{
    lemma_idx_in_range(m, x, y);
    let c = m.cells[m.idx(x, y)];
    if c.updated {
    } else if c.id == CellId::Sand {
        assert forall|id: CellId| true implies #[trigger] id_count(step_cell(m, x, y).cells, id)
            == id_count(m.cells, id) by {
            lemma_sand_update_counts(m, x, y, id);
        }
        lemma_sand_update_counts(m, x, y, CellId::Sand);
    } else if c.id == CellId::Water {
        assert forall|id: CellId| true implies #[trigger] id_count(step_cell(m, x, y).cells, id)
            == id_count(m.cells, id) by {
            lemma_water_update_counts(m, x, y, id);
        }
        lemma_water_update_counts(m, x, y, CellId::Water);
    } else if c.id == CellId::Special {
        lemma_special_update_counts(m, x, y);
    }
}

/// One swept row conserves material counts.
pub proof fn lemma_sweep_row_counts(m: Model, w: int, parity: bool, y: int, left: nat)
    requires
        m.wf(),
        w == m.w,
        0 <= y < m.h,
        left <= m.w,
    ensures
        ({
            let r = sweep_row(m, w, parity, y, left);
            &&& r.wf()
            &&& r.w == m.w
            &&& r.h == m.h
            &&& r.tick == m.tick
            &&& ids_conserved(m.cells, r.cells)
            &&& id_count(m.cells, CellId::Special) == 0 ==> ids_equal(m.cells, r.cells)
        }),
    decreases left,
{
    if left == 0 {
    } else {
        let i = w - left;
        let x = if parity {
            w - 1 - i
        } else {
            i
        };
        lemma_step_cell_counts(m, x, y);
        let m2 = step_cell(m, x, y);
        lemma_sweep_row_counts(m2, w, parity, y, (left - 1) as nat);
        let r = sweep_row(m, w, parity, y, left);
        assert(ids_conserved(m.cells, r.cells)) by {
            assert(ids_conserved(m.cells, m2.cells));
            assert(ids_conserved(m2.cells, r.cells));
        }
        if id_count(m.cells, CellId::Special) == 0 {
            lemma_count_zero(m.cells, CellId::Special);
            lemma_idx_in_range(m, x, y);
            assert(m.cells[m.idx(x, y)].id != CellId::Special);
            assert(ids_equal(m.cells, m2.cells));
            assert(id_count(m2.cells, CellId::Special) == 0);
            assert(ids_equal(m2.cells, r.cells));
        }
    }
}

/// The whole sweep conserves material counts.
pub proof fn lemma_sweep_rows_counts(m: Model, w: int, parity: bool, rows: nat)
    requires
        m.wf(),
        w == m.w,
        rows <= m.h,
    ensures
        ({
            let r = sweep_rows(m, w, parity, rows);
            &&& r.wf()
            &&& r.w == m.w
            &&& r.h == m.h
            &&& r.tick == m.tick
            &&& ids_conserved(m.cells, r.cells)
            &&& id_count(m.cells, CellId::Special) == 0 ==> ids_equal(m.cells, r.cells)
        }),
    decreases rows,
{
    if rows == 0 {
    } else {
        lemma_sweep_row_counts(m, w, parity, rows - 1, m.w as nat);
        let m2 = sweep_row(m, w, parity, rows - 1, m.w as nat);
        lemma_sweep_rows_counts(m2, w, parity, (rows - 1) as nat);
        let r = sweep_rows(m, w, parity, rows);
        if id_count(m.cells, CellId::Special) == 0 {
            assert(ids_equal(m.cells, m2.cells));
            assert(id_count(m2.cells, CellId::Special) == 0);
        }
    }
}

/// Clearing the transient flags changes no material.
pub proof fn lemma_clear_flags_counts(m: Model, id: CellId)
    requires
        m.wf(),
    ensures
        clear_flags(m).wf(),
        id_count(clear_flags(m).cells, id) == id_count(m.cells, id),
{
    lemma_count_pointwise(m.cells, clear_flags(m).cells, id);
}

/// Conservation: a tick is made of swap-only moves, so the multiset of
/// material ids never changes except by the emitter turning empty cells to
/// sand — every other material keeps its exact count, sand never shrinks,
/// and sand and empty together are preserved.
pub proof fn lemma_tick_conserves_ids(m: Model)
    requires
        m.wf(),
    ensures
        spec_tick(m).wf(),
        ids_conserved(m.cells, spec_tick(m).cells),
{
    let parity = m.tick % 2 == 1;
    let m1 = clear_flags(m);
    assert forall|id: CellId| true implies #[trigger] id_count(m1.cells, id) == id_count(
        m.cells,
        id,
    ) by {
        lemma_clear_flags_counts(m, id);
    }
    lemma_clear_flags_counts(m, CellId::Special);
    lemma_sweep_rows_counts(m1, m.w, parity, m.h as nat);
    let m2 = sweep_rows(m1, m.w, parity, m.h as nat);
    assert forall|id: CellId| true implies #[trigger] id_count(clear_flags(m2).cells, id)
        == id_count(m2.cells, id) by {
        lemma_clear_flags_counts(m2, id);
    }
    lemma_clear_flags_counts(m2, CellId::Special);
}

/// Swap-only conservation: on a grid with no emitter, one tick keeps the
/// exact count of every material.
pub proof fn lemma_tick_preserves_ids_without_emitter(m: Model)
    requires
        m.wf(),
        id_count(m.cells, CellId::Special) == 0,
    ensures
        spec_tick(m).wf(),
        ids_equal(m.cells, spec_tick(m).cells),
{
    let parity = m.tick % 2 == 1;
    let m1 = clear_flags(m);
    assert forall|id: CellId| true implies #[trigger] id_count(m1.cells, id) == id_count(
        m.cells,
        id,
    ) by {
        lemma_clear_flags_counts(m, id);
    }
    lemma_clear_flags_counts(m, CellId::Special);
    lemma_sweep_rows_counts(m1, m.w, parity, m.h as nat);
    let m2 = sweep_rows(m1, m.w, parity, m.h as nat);
    assert forall|id: CellId| true implies #[trigger] id_count(clear_flags(m2).cells, id)
        == id_count(m2.cells, id) by {
        lemma_clear_flags_counts(m2, id);
    }
}

} // verus!
