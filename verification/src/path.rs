use vstd::prelude::*;
use crate::cell::{Cell, CellId};
use crate::model::{Model, drain, over10, pick_ortho};
use crate::model_lemmas::{
    lemma_idx_in_range, lemma_pick_ortho_props, lemma_drain_done, lemma_drain_abort,
    lemma_drain_move, lemma_drain_sand_deflect, lemma_drain_sand_stop, lemma_drain_water_deflect1,
    lemma_drain_water_deflect2, lemma_drain_water_stop,
};
use crate::num::tdiv10;
use crate::stepper::step_of;

verus! {

/// One king move: the two positions are adjacent and distinct.
pub open spec fn unit_step(a: (int, int), b: (int, int)) -> bool {
    -1 <= b.0 - a.0 <= 1 && -1 <= b.1 - a.1 <= 1 && b != a
}

/// The positions a displacement drain occupies, in order, from its start to
/// where it comes to rest.
pub open spec fn drain_path(m: Model, x: int, y: int, c: Cell, water: bool, fuel: nat) -> Seq<
    (int, int),
>
    decreases fuel,
{
    if !over10(c) || fuel == 0 {
        seq![(x, y)]
    } else {
        let s = step_of(tdiv10(c.dx as int), tdiv10(c.dy as int));
        let h = s.0;
        let v = s.1;
        let nx = x + h;
        let ny = y + v;
        let n = m.cell_at(nx, ny);
        if n.id == CellId::Empty {
            let m2 = m.put(x, y, m.cells[m.idx(nx, ny)]);
            let c2 = Cell { dx: (c.dx - 10 * h) as i8, dy: (c.dy - 10 * v) as i8, ..c };
            seq![(x, y)] + drain_path(m2, nx, ny, c2, water, (fuel - 1) as nat)
        } else if !water {
            let pick = pick_ortho(m, nx, ny, h, v);
            match pick.0 {
                Some(o) => {
                    let mr = Model { rng: pick.1, ..m };
                    let ndx = h + o.0;
                    let ndy = v + o.1;
                    let c2 = crate::model::change_dir(
                        crate::model::consume_energy(c, h, v),
                        ndx,
                        ndy,
                    );
                    let tx = x + ndx;
                    let ty = y + ndy;
                    seq![(x, y)] + drain_path(
                        mr.put(x, y, mr.cells[mr.idx(tx, ty)]),
                        tx,
                        ty,
                        c2,
                        water,
                        (fuel - 1) as nat,
                    )
                },
                None => seq![(x, y)],
            }
        } else {
            let pick1 = pick_ortho(m, nx, ny, h, v);
            match pick1.0 {
                Some(o) => {
                    let mr = Model { rng: pick1.1, ..m };
                    let ndx = h + o.0;
                    let ndy = v + o.1;
                    let c2 = crate::model::change_dir(
                        crate::model::decay_v(crate::model::consume_energy(c, ndx, ndy)),
                        ndx,
                        ndy,
                    );
                    let tx = x + ndx;
                    let ty = y + ndy;
                    seq![(x, y)] + drain_path(
                        mr.put(x, y, mr.cells[mr.idx(tx, ty)]),
                        tx,
                        ty,
                        c2,
                        water,
                        (fuel - 1) as nat,
                    )
                },
                None => {
                    let pick2 = pick_ortho(m, x, y, h, v);
                    match pick2.0 {
                        Some(o) => {
                            let mr = Model { rng: pick2.1, ..m };
                            let c2 = crate::model::change_dir(
                                crate::model::decay_v(
                                    crate::model::consume_energy(c, h + o.0, v + o.1),
                                ),
                                o.0,
                                o.1,
                            );
                            let tx = x + o.0;
                            let ty = y + o.1;
                            seq![(x, y)] + drain_path(
                                mr.put(x, y, mr.cells[mr.idx(tx, ty)]),
                                tx,
                                ty,
                                c2,
                                water,
                                (fuel - 1) as nat,
                            )
                        },
                        None => seq![(x, y)],
                    }
                },
            }
        }
    }
}

/// What the path lemma establishes: the drain occupies a gap-free chain of
/// king moves from its start to its final position.
pub open spec fn path_ok(m: Model, x: int, y: int, c: Cell, water: bool, fuel: nat) -> bool {
    let p = drain_path(m, x, y, c, water, fuel);
    let o = drain(m, x, y, c, water, fuel);
    &&& p.len() >= 1
    &&& p[0] == (x, y)
    &&& p[p.len() - 1] == (o.x, o.y)
    &&& forall|i: int| 1 <= i < p.len() ==> unit_step(p[i - 1], #[trigger] p[i])
    &&& forall|i: int| 0 <= i < p.len() ==> m.in_bounds((#[trigger] p[i]).0, p[i].1)
}

/// A moving cell visits every intermediate cell of its line in order: the
/// positions of one displacement drain form a chain of single king moves —
/// however large the accumulated travel, no cell on the way is skipped.
pub proof fn lemma_drain_visits_chain(
    m: Model,
    x: int,
    y: int,
    c: Cell,
    water: bool,
    fuel: nat,
)
    requires
        m.wf(),
        m.in_bounds(x, y),
    ensures
        path_ok(m, x, y, c, water, fuel),
    decreases fuel, 2nat,
{
    if !over10(c) {
        lemma_drain_done(m, x, y, c, water, fuel);
    } else if fuel == 0 {
        lemma_drain_abort(m, x, y, c, water, fuel);
    } else {
        let s = step_of(tdiv10(c.dx as int), tdiv10(c.dy as int));
        let h = s.0;
        let v = s.1;
        assert(h != 0 || v != 0);
        let nx = x + h;
        let ny = y + v;
        let n = m.cell_at(nx, ny);
        if n.id == CellId::Empty {
            lemma_drain_move(m, x, y, c, water, fuel, h, v);
            let c2 = Cell { dx: (c.dx - 10 * h) as i8, dy: (c.dy - 10 * v) as i8, ..c };
            lemma_path_cont(m, x, y, c, water, fuel, m.rng, nx, ny, c2);
        } else if !water {
            lemma_path_sand(m, x, y, c, fuel, h, v);
        } else {
            lemma_path_water(m, x, y, c, fuel, h, v);
        }
    }
}

/// The blocked-sand case of the path lemma.
proof fn lemma_path_sand(m: Model, x: int, y: int, c: Cell, fuel: nat, h: int, v: int)
    requires
        m.wf(),
        m.in_bounds(x, y),
        over10(c),
        fuel >= 1,
        (h, v) == step_of(tdiv10(c.dx as int), tdiv10(c.dy as int)),
        h != 0 || v != 0,
        m.cell_at(x + h, y + v).id != CellId::Empty,
    ensures
        path_ok(m, x, y, c, false, fuel),
    decreases fuel, 1nat,
{
    let nx = x + h;
    let ny = y + v;
    let pick1 = pick_ortho(m, nx, ny, h, v);
    lemma_pick_ortho_props(m, nx, ny, h, v);
    match pick1.0 {
        Some(o) => {
            lemma_drain_sand_deflect(m, x, y, c, fuel, h, v, o);
            let ndx = h + o.0;
            let ndy = v + o.1;
            assert(ndx != 0 || ndy != 0);
            let c2 = crate::model::change_dir(crate::model::consume_energy(c, h, v), ndx, ndy);
            lemma_path_cont(m, x, y, c, false, fuel, pick1.1, x + ndx, y + ndy, c2);
        },
        None => {
            lemma_drain_sand_stop(m, x, y, c, fuel, h, v);
        },
    }
}

/// The blocked-water case of the path lemma.
#[verifier::rlimit(100)]
proof fn lemma_path_water(m: Model, x: int, y: int, c: Cell, fuel: nat, h: int, v: int)
    requires
        m.wf(),
        m.in_bounds(x, y),
        over10(c),
        fuel >= 1,
        (h, v) == step_of(tdiv10(c.dx as int), tdiv10(c.dy as int)),
        h != 0 || v != 0,
        m.cell_at(x + h, y + v).id != CellId::Empty,
    ensures
        path_ok(m, x, y, c, true, fuel),
    decreases fuel, 1nat,
{
    let nx = x + h;
    let ny = y + v;
    let pick1 = pick_ortho(m, nx, ny, h, v);
    lemma_pick_ortho_props(m, nx, ny, h, v);
    match pick1.0 {
        Some(o) => {
            lemma_drain_water_deflect1(m, x, y, c, fuel, h, v, o);
            let ndx = h + o.0;
            let ndy = v + o.1;
            assert(ndx != 0 || ndy != 0);
            let c2 = crate::model::change_dir(
                crate::model::decay_v(crate::model::consume_energy(c, ndx, ndy)),
                ndx,
                ndy,
            );
            lemma_path_cont(m, x, y, c, true, fuel, pick1.1, x + ndx, y + ndy, c2);
        },
        None => {
            let pick2 = pick_ortho(m, x, y, h, v);
            lemma_pick_ortho_props(m, x, y, h, v);
            match pick2.0 {
                Some(o) => {
                    lemma_drain_water_deflect2(m, x, y, c, fuel, h, v, o);
                    assert(o.0 != 0 || o.1 != 0);
                    let c2 = crate::model::change_dir(
                        crate::model::decay_v(crate::model::consume_energy(c, h + o.0, v + o.1)),
                        o.0,
                        o.1,
                    );
                    lemma_path_cont(m, x, y, c, true, fuel, pick2.1, x + o.0, y + o.1, c2);
                },
                None => {
                    lemma_drain_water_stop(m, x, y, c, fuel, h, v);
                },
            }
        },
    }
}

/// The shared continuation of the path lemma: one king move prepended to a
/// chain is a chain.
proof fn lemma_path_cont(
    m: Model,
    x: int,
    y: int,
    c: Cell,
    water: bool,
    fuel: nat,
    rng2: u64,
    tx: int,
    ty: int,
    c2: Cell,
)
    requires
        m.wf(),
        m.in_bounds(x, y),
        m.in_bounds(tx, ty),
        unit_step((x, y), (tx, ty)),
        fuel >= 1,
        drain(m, x, y, c, water, fuel) == ({
            let mr = Model { rng: rng2, ..m };
            drain(
                mr.put(x, y, mr.cells[mr.idx(tx, ty)]),
                tx,
                ty,
                c2,
                water,
                (fuel - 1) as nat,
            )
        }),
        drain_path(m, x, y, c, water, fuel) == ({
            let mr = Model { rng: rng2, ..m };
            seq![(x, y)] + drain_path(
                mr.put(x, y, mr.cells[mr.idx(tx, ty)]),
                tx,
                ty,
                c2,
                water,
                (fuel - 1) as nat,
            )
        }),
    ensures
        path_ok(m, x, y, c, water, fuel),
    decreases fuel, 0nat,
{
    let mr = Model { rng: rng2, ..m };
    lemma_idx_in_range(m, x, y);
    lemma_idx_in_range(m, tx, ty);
    let m2 = mr.put(x, y, mr.cells[mr.idx(tx, ty)]);
    assert(m2.wf());
    lemma_drain_visits_chain(m2, tx, ty, c2, water, (fuel - 1) as nat);
    let tail = drain_path(m2, tx, ty, c2, water, (fuel - 1) as nat);
    let p = drain_path(m, x, y, c, water, fuel);
    assert(p == seq![(x, y)] + tail);
    assert(p.len() == 1 + tail.len());
    assert(p[0] == (x, y));
    assert(forall|i: int| 1 <= i < p.len() ==> #[trigger] p[i] == tail[i - 1]);
    assert(p[p.len() - 1] == tail[tail.len() - 1]);
    assert forall|i: int| 1 <= i < p.len() implies unit_step(p[i - 1], #[trigger] p[i]) by {
        if i == 1 {
            assert(p[0] == (x, y) && p[1] == tail[0]);
            assert(tail[0] == (tx, ty));
        } else {
            assert(unit_step(tail[i - 2], tail[i - 1]));
        }
    }
    assert forall|i: int| 0 <= i < p.len() implies m.in_bounds(
        (#[trigger] p[i]).0,
        p[i].1,
    ) by {
        if i >= 1 {
            assert(m2.in_bounds(tail[i - 1].0, tail[i - 1].1));
        }
    }
}

} // verus!
