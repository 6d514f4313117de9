use vstd::prelude::*;
use crate::cell::{Cell, CellId, stopped};
use crate::model::DrainOut;
use crate::grid::Grid;
use crate::model;
use crate::model::{Model, accumulate, consume_energy, change_dir, decay_v, pick_ortho};
use crate::num::{sat_add_i8, clamp_i8, sgn_i8};

verus! {

/// The accumulator gaining one tick of velocity, saturating.
pub(crate) fn accumulate_exec(c: Cell) -> (r: Cell)
    ensures
        r == accumulate(c),
{
    let mut r = c;
    r.dx = sat_add_i8(c.dx, c.vx);
    r.dy = sat_add_i8(c.dy, c.vy);
    r
}

/// The impact penalty of a deflection.
pub(crate) fn consume_energy_exec(c: Cell, h: i32, v: i32) -> (r: Cell)
    requires
        -1 <= h <= 1,
        -1 <= v <= 1,
    ensures
        r == consume_energy(c, h as int, v as int),
{
    let pen_x: i16 = if h != 0 { 10 * (sgn_i8(c.dx) as i16) } else { 0 };
    let pen_y: i16 = if v != 0 { 10 * (sgn_i8(c.dy) as i16) } else { 0 };
    let mut r = c;
    r.dx = clamp_i8(c.dx as i16 - pen_x);
    r.dy = clamp_i8(c.dy as i16 - pen_y);
    r
}

/// The remaining travel redistributed into a new direction.
pub(crate) fn change_dir_exec(c: Cell, nx: i32, ny: i32) -> (r: Cell)
    requires
        -1 <= nx <= 1,
        -1 <= ny <= 1,
    ensures
        r == change_dir(c, nx as int, ny as int),
{
    let dirsum: i16 = (if nx != 0 { 1 } else { 0 }) + (if ny != 0 { 1 } else { 0 });
    if dirsum == 0 {
        c
    } else {
        let adx: i16 = if c.dx < 0 { -(c.dx as i16) } else { c.dx as i16 };
        let ady: i16 = if c.dy < 0 { -(c.dy as i16) } else { c.dy as i16 };
        let dsum: i16 = adx + ady;
        let q: i16 = dsum / dirsum;
        let tx: i16 = if nx > 0 {
            q
        } else if nx < 0 {
            -q
        } else {
            0
        };
        let dx2: i8 = clamp_i8(tx);
        let adx2: i16 = if dx2 < 0 { -(dx2 as i16) } else { dx2 as i16 };
        let rem: i16 = dsum - adx2;
        let ty: i16 = if ny > 0 {
            rem
        } else if ny < 0 {
            -rem
        } else {
            0
        };
        let dy2: i8 = clamp_i8(ty);
        let mut r = c;
        r.dx = dx2;
        r.dy = dy2;
        r
    }
}

/// One tick of velocity decay toward rest.
pub(crate) fn decay_v_exec(c: Cell) -> (r: Cell)
    ensures
        r == decay_v(c),
{
    let mut r = c;
    r.vx = clamp_i8(c.vx as i16 - sgn_i8(c.vx) as i16);
    r.vy = clamp_i8(c.vy as i16 - sgn_i8(c.vy) as i16);
    r
}

/// The cell with all motion state discarded.
pub(crate) fn stopped_exec(c: Cell) -> (r: Cell)
    ensures
        r == stopped(c),
{
    let mut r = c;
    r.vx = 0;
    r.vy = 0;
    r.dx = 0;
    r.dy = 0;
    r
}

/// The integer sine table the emitter sweeps through.
pub(crate) fn sine8_exec(i: u32) -> (r: i32)
    requires
        i < 8,
    ensures
        r as int == model::sine8(i as int),
        -2 <= r <= 2,
{
    match i {
        0 => 0,
        1 => 1,
        2 => 2,
        3 => 1,
        4 => 0,
        5 => -1,
        6 => -2,
        _ => -1,
    }
}

impl Grid {
    /// The sand acceleration step of one carried cell.
    pub(crate) fn sand_accel(&mut self, x: i32, y: i32, c: Cell) -> (r: Cell)
        requires
            old(self).wf(),
            old(self)@.in_bounds(x as int, y as int),
        ensures
            final(self).wf(),
            ({
                let am = model::sand_accel(old(self)@, x as int, y as int, c);
                r == am.0 && final(self)@ == am.1
            }),
            final(self).width == old(self).width,
            final(self).height == old(self).height,
            final(self).tick_n == old(self).tick_n,
            final(self).aborts == old(self).aborts,
            final(self).cells.len() == old(self).cells.len(),
    {
        proof {
            reveal(model::sand_accel);
        }
        let s = crate::stepper::next_pixel(c.vx as i32, c.vy as i32 + 1);
        let px = x + s.0;
        let py = y + s.1;
        match self.checked_idx(px, py) {
            Some(pi) => {
                let mut t = self.cells[pi];
                t.v_free = true;
                self.cells[pi] = t;
            },
            None => {},
        }
        let d = self.cell(px, py);
        if d.id == CellId::Empty {
            let mut r = c;
            r.vy = sat_add_i8(c.vy, 1);
            r
        } else if d.id == CellId::Sand {
            if d.vy > c.vy {
                let mut r = c;
                r.vy = sat_add_i8(c.vy, 1);
                r
            } else if c.vx == 0 && c.vy == 0 {
                let el = self.cell(x - 1, y + 1).id == CellId::Empty;
                let er = self.cell(x + 1, y + 1).id == CellId::Empty;
                let seeded_dy: i8 = if c.dy == 0 {
                    ((c.rand as u16 * 5) / 100) as i8
                } else {
                    c.dy
                };
                if el && er {
                    let flip = self.rng.coin();
                    let mut r = c;
                    r.vx = if flip { -1 } else { 1 };
                    r.vy = 1;
                    r.dy = seeded_dy;
                    r
                } else if el {
                    let mut r = c;
                    r.vx = -1;
                    r.vy = 1;
                    r.dy = seeded_dy;
                    r
                } else if er {
                    let mut r = c;
                    r.vx = 1;
                    r.vy = 1;
                    r.dy = seeded_dy;
                    r
                } else {
                    c
                }
            } else {
                c
            }
        } else {
            decay_v_exec(c)
        }
    }

    /// The deflection choice around `(cx, cy)` for a step blocked along
    /// `(h, v)`, consuming one coin flip only when both orthogonal
    /// neighbors are free.
    pub(crate) fn pick_ortho_exec(&mut self, cx: i32, cy: i32, h: i32, v: i32) -> (r: Option<
        (i32, i32),
    >)
        requires
            old(self).wf(),
            -1 <= h <= 1,
            -1 <= v <= 1,
            -(i32::MAX - 2) <= cx <= i32::MAX - 2,
            -(i32::MAX - 2) <= cy <= i32::MAX - 2,
        ensures
            final(self).wf(),
            ({
                let p = pick_ortho(old(self)@, cx as int, cy as int, h as int, v as int);
                &&& final(self)@ == Model { rng: p.1, ..old(self)@ }
                &&& match (r, p.0) {
                    (Some(a), Some(b)) => a.0 as int == b.0 && a.1 as int == b.1 && -1 <= a.0 <= 1
                        && -1 <= a.1 <= 1 && -1 <= h + a.0 <= 1 && -1 <= v + a.1 <= 1 && old(
                        self,
                    )@.cell_at(cx + a.0, cy + a.1).id == CellId::Empty,
                    (None, None) => true,
                    _ => false,
                }
                &&& (p.0 is None ==> p.1 == old(self)@.rng)
            }),
            final(self).width == old(self).width,
            final(self).height == old(self).height,
            final(self).tick_n == old(self).tick_n,
            final(self).aborts == old(self).aborts,
            final(self).cells.len() == old(self).cells.len(),
    {
        proof {
            reveal(pick_ortho);
        }
        let o1: (i32, i32) = if h == 0 {
            (1, 0)
        } else if v == 0 {
            (0, 1)
        } else {
            (0, -v)
        };
        let o2: (i32, i32) = if h == 0 {
            (-1, 0)
        } else if v == 0 {
            (0, -1)
        } else {
            (-h, 0)
        };
        let e1 = self.cell(cx + o1.0, cy + o1.1).id == CellId::Empty;
        let e2 = self.cell(cx + o2.0, cy + o2.1).id == CellId::Empty;
        if e1 && e2 {
            let flip = self.rng.coin();
            if flip {
                Some(o1)
            } else {
                Some(o2)
            }
        } else if e1 {
            Some(o1)
        } else if e2 {
            Some(o2)
        } else {
            None
        }
    }

    /// One iteration of the displacement drain: a unit step taken, a
    /// deflection, or a dead stop, with the drain equation carried one fuel
    /// unit forward.
    pub(crate) fn drain_step(&mut self, px: i32, py: i32, cc: Cell, water: bool, Ghost(fuel0): Ghost<nat>) -> (r: (
        i32,
        i32,
        Cell,
    ))
        requires
            old(self).wf(),
            old(self)@.in_bounds(px as int, py as int),
            model::over10(cc),
            fuel0 >= 1,
        ensures
            final(self).wf(),
            final(self)@.in_bounds(r.0 as int, r.1 as int),
            model::drain(final(self)@, r.0 as int, r.1 as int, r.2, water, (fuel0 - 1) as nat)
                == model::drain(old(self)@, px as int, py as int, cc, water, fuel0),
            r.2.rand == cc.rand,
            r.2.id == cc.id,
            final(self).width == old(self).width,
            final(self).height == old(self).height,
            final(self).tick_n == old(self).tick_n,
            final(self).cells.len() == old(self).cells.len(),
    {
        let ghost mp = self@;
        let ghost cc0 = cc;
        let ghost px0 = px as int;
        let ghost py0 = py as int;
        let s = crate::stepper::next_pixel(
            crate::num::div10_i8(cc.dx),
            crate::num::div10_i8(cc.dy),
        );
        let h = s.0;
        let v = s.1;
        proof {
            assert(-1 <= h <= 1 && -1 <= v <= 1);
            assert(h != 0 ==> h as int == crate::num::sgn(cc.dx as int) && (cc.dx >= 10
                || cc.dx <= -10));
            assert(v != 0 ==> v as int == crate::num::sgn(cc.dy as int) && (cc.dy >= 10
                || cc.dy <= -10));
        }
        let nx = px + h;
        let ny = py + v;
        let n = self.cell(nx, ny);
        if n.id == CellId::Empty {
            let di = self.idx(nx, ny);
            let si = self.idx(px, py);
            let moved_in = self.cells[di];
            self.cells[si] = moved_in;
            let ndx: i16 = cc.dx as i16 - 10 * (h as i16);
            let ndy: i16 = cc.dy as i16 - 10 * (v as i16);
            let mut c2 = cc;
            c2.dx = ndx as i8;
            c2.dy = ndy as i8;
            proof {
                crate::model_lemmas::lemma_drain_move(
                    mp,
                    px0,
                    py0,
                    cc0,
                    water,
                    fuel0,
                    h as int,
                    v as int,
                );
                assert(self@ == mp.put(px0, py0, mp.cells[mp.idx(px0 + h, py0 + v)]));
                assert(c2 == Cell {
                    dx: (cc0.dx - 10 * h) as i8,
                    dy: (cc0.dy - 10 * v) as i8,
                    ..cc0
                });
            }
            (nx, ny, c2)
        } else if !water {
            self.deflect_sand(px, py, cc, h, v, Ghost(fuel0))
        } else {
            self.deflect_water(px, py, cc, h, v, Ghost(fuel0))
        }
    }

    /// The sand collision response: one probe around the blocked target,
    /// redirect or stop.
    #[verifier::rlimit(60)]
    pub(crate) fn deflect_sand(&mut self, px: i32, py: i32, cc: Cell, h: i32, v: i32, Ghost(fuel0): Ghost<nat>) -> (r: (
        i32,
        i32,
        Cell,
    ))
        requires
            old(self).wf(),
            old(self)@.in_bounds(px as int, py as int),
            model::over10(cc),
            fuel0 >= 1,
            (h as int, v as int) == crate::stepper::step_of(
                crate::num::tdiv10(cc.dx as int),
                crate::num::tdiv10(cc.dy as int),
            ),
            -1 <= h <= 1,
            -1 <= v <= 1,
            old(self)@.cell_at(px + h, py + v).id != CellId::Empty,
        ensures
            final(self).wf(),
            final(self)@.in_bounds(r.0 as int, r.1 as int),
            model::drain(final(self)@, r.0 as int, r.1 as int, r.2, false, (fuel0 - 1) as nat)
                == model::drain(old(self)@, px as int, py as int, cc, false, fuel0),
            r.2.rand == cc.rand,
            r.2.id == cc.id,
            final(self).width == old(self).width,
            final(self).height == old(self).height,
            final(self).tick_n == old(self).tick_n,
            final(self).cells.len() == old(self).cells.len(),
    {
        let ghost mp = self@;
        let ghost cc0 = cc;
        let ghost px0 = px as int;
        let ghost py0 = py as int;
        let nx = px + h;
        let ny = py + v;
        let pick = self.pick_ortho_exec(nx, ny, h, v);
        match pick {
            Some(o) => {
                let c2 = change_dir_exec(consume_energy_exec(cc, h, v), h + o.0, v + o.1);
                let tx = px + (h + o.0);
                let ty = py + (v + o.1);
                let di = self.idx(tx, ty);
                let si = self.idx(px, py);
                let moved_in = self.cells[di];
                self.cells[si] = moved_in;
                proof {
                    let po = model::pick_ortho(mp, px0 + h, py0 + v, h as int, v as int);
                    crate::model_lemmas::lemma_drain_sand_deflect(
                        mp,
                        px0,
                        py0,
                        cc0,
                        fuel0,
                        h as int,
                        v as int,
                        po.0->0,
                    );
                    let mr = Model { rng: po.1, ..mp };
                    assert(self@ == mr.put(
                        px0,
                        py0,
                        mr.cells[mr.idx(tx as int, ty as int)],
                    ));
                }
                (tx, ty, c2)
            },
            None => {
                let c2 = stopped_exec(cc);
                proof {
                    crate::model_lemmas::lemma_drain_sand_stop(
                        mp,
                        px0,
                        py0,
                        cc0,
                        fuel0,
                        h as int,
                        v as int,
                    );
                    crate::model_lemmas::lemma_drain_done(
                        self@,
                        px0,
                        py0,
                        c2,
                        false,
                        (fuel0 - 1) as nat,
                    );
                }
                (px, py, c2)
            },
        }
    }

    /// The water collision response: probe around the blocked target first,
    /// then around the cell itself, else stop — water's higher lateral
    /// mobility.
    #[verifier::rlimit(60)]
    pub(crate) fn deflect_water(&mut self, px: i32, py: i32, cc: Cell, h: i32, v: i32, Ghost(fuel0): Ghost<nat>) -> (r: (
        i32,
        i32,
        Cell,
    ))
        requires
            old(self).wf(),
            old(self)@.in_bounds(px as int, py as int),
            model::over10(cc),
            fuel0 >= 1,
            (h as int, v as int) == crate::stepper::step_of(
                crate::num::tdiv10(cc.dx as int),
                crate::num::tdiv10(cc.dy as int),
            ),
            -1 <= h <= 1,
            -1 <= v <= 1,
            old(self)@.cell_at(px + h, py + v).id != CellId::Empty,
        ensures
            final(self).wf(),
            final(self)@.in_bounds(r.0 as int, r.1 as int),
            model::drain(final(self)@, r.0 as int, r.1 as int, r.2, true, (fuel0 - 1) as nat)
                == model::drain(old(self)@, px as int, py as int, cc, true, fuel0),
            r.2.rand == cc.rand,
            r.2.id == cc.id,
            final(self).width == old(self).width,
            final(self).height == old(self).height,
            final(self).tick_n == old(self).tick_n,
            final(self).cells.len() == old(self).cells.len(),
    {
        let ghost mp = self@;
        let ghost cc0 = cc;
        let ghost px0 = px as int;
        let ghost py0 = py as int;
        let nx = px + h;
        let ny = py + v;
        let pick1 = self.pick_ortho_exec(nx, ny, h, v);
        match pick1 {
            Some(o) => {
                let ndx = h + o.0;
                let ndy = v + o.1;
                let c2 = change_dir_exec(
                    decay_v_exec(consume_energy_exec(cc, ndx, ndy)),
                    ndx,
                    ndy,
                );
                let tx = px + ndx;
                let ty = py + ndy;
                let di = self.idx(tx, ty);
                let si = self.idx(px, py);
                let moved_in = self.cells[di];
                self.cells[si] = moved_in;
                proof {
                    let po = model::pick_ortho(mp, px0 + h, py0 + v, h as int, v as int);
                    crate::model_lemmas::lemma_drain_water_deflect1(
                        mp,
                        px0,
                        py0,
                        cc0,
                        fuel0,
                        h as int,
                        v as int,
                        po.0->0,
                    );
                    let mr = Model { rng: po.1, ..mp };
                    assert(self@ == mr.put(
                        px0,
                        py0,
                        mr.cells[mr.idx(tx as int, ty as int)],
                    ));
                }
                (tx, ty, c2)
            },
            None => {
                let pick2 = self.pick_ortho_exec(px, py, h, v);
                match pick2 {
                    Some(o) => {
                        let c2 = change_dir_exec(
                            decay_v_exec(consume_energy_exec(cc, h + o.0, v + o.1)),
                            o.0,
                            o.1,
                        );
                        let tx = px + o.0;
                        let ty = py + o.1;
                        let di = self.idx(tx, ty);
                        let si = self.idx(px, py);
                        let moved_in = self.cells[di];
                        self.cells[si] = moved_in;
                        proof {
                            let po = model::pick_ortho(mp, px0, py0, h as int, v as int);
                            crate::model_lemmas::lemma_drain_water_deflect2(
                                mp,
                                px0,
                                py0,
                                cc0,
                                fuel0,
                                h as int,
                                v as int,
                                po.0->0,
                            );
                            let mr = Model { rng: po.1, ..mp };
                            assert(self@ == mr.put(
                                px0,
                                py0,
                                mr.cells[mr.idx(tx as int, ty as int)],
                            ));
                        }
                        (tx, ty, c2)
                    },
                    None => {
                        let c2 = stopped_exec(cc);
                        proof {
                            crate::model_lemmas::lemma_drain_water_stop(
                                mp,
                                px0,
                                py0,
                                cc0,
                                fuel0,
                                h as int,
                                v as int,
                            );
                            crate::model_lemmas::lemma_drain_done(
                                self@,
                                px0,
                                py0,
                                c2,
                                true,
                                (fuel0 - 1) as nat,
                            );
                        }
                        (px, py, c2)
                    },
                }
            },
        }
    }

    /// One sand cell's full update: accelerate, accumulate, drain, and
    /// write the carried cell back at its final position, flagged as
    /// rewritten only when it actually moved.
    pub(crate) fn update_sand(&mut self, x: i32, y: i32)
        requires
            old(self).wf(),
            old(self)@.in_bounds(x as int, y as int),
        ensures
            final(self).wf(),
            final(self)@ == model::sand_update(old(self)@, x as int, y as int),
            final(self).width == old(self).width,
            final(self).height == old(self).height,
            final(self).tick_n == old(self).tick_n,
            final(self).cells.len() == old(self).cells.len(),
    {
        let i = self.idx(x, y);
        let c0 = self.cells[i];
        proof {
            crate::model_lemmas::lemma_sand_accel_frame(self@, x as int, y as int, c0);
        }
        let c1 = self.sand_accel(x, y, c0);
        let c2 = accumulate_exec(c1);
        let out = self.run_drain(x, y, c2, false);
        let px = out.0;
        let py = out.1;
        let mut cf = out.2;
        cf.updated = px != x || py != y;
        let fi = self.idx(px, py);
        self.cells[fi] = cf;
    }

    /// The buoyancy side-channel: water directly beneath sand swaps upward
    /// into an empty upper-diagonal slot, coin-flip-biased when both are
    /// open.
    pub(crate) fn trickle_exec(&mut self, x: i32, y: i32)
        requires
            old(self).wf(),
            old(self)@.in_bounds(x as int, y as int),
        ensures
            final(self).wf(),
            final(self)@ == model::trickle(old(self)@, x as int, y as int),
            final(self).width == old(self).width,
            final(self).height == old(self).height,
            final(self).tick_n == old(self).tick_n,
            final(self).cells.len() == old(self).cells.len(),
    {
        if self.cell(x, y - 1).id == CellId::Sand {
            let ul = self.cell(x - 1, y - 1).id == CellId::Empty;
            let ur = self.cell(x + 1, y - 1).id == CellId::Empty;
            if ul && ur {
                let flip = self.rng.coin();
                if flip {
                    self.swap_up_exec(x, y, x - 1, y - 1);
                } else {
                    self.swap_up_exec(x, y, x + 1, y - 1);
                }
            } else if ul {
                self.swap_up_exec(x, y, x - 1, y - 1);
            } else if ur {
                self.swap_up_exec(x, y, x + 1, y - 1);
            }
        }
    }

    /// Exchanges two cells whole, flagging the moving one as rewritten.
    pub(crate) fn swap_up_exec(&mut self, x: i32, y: i32, tx: i32, ty: i32)
        requires
            old(self).wf(),
            old(self)@.in_bounds(x as int, y as int),
            old(self)@.in_bounds(tx as int, ty as int),
        ensures
            final(self).wf(),
            final(self)@ == model::swap_up(old(self)@, x as int, y as int, tx as int, ty as int),
            final(self).width == old(self).width,
            final(self).height == old(self).height,
            final(self).tick_n == old(self).tick_n,
            final(self).cells.len() == old(self).cells.len(),
    {
        let i = self.idx(x, y);
        let j = self.idx(tx, ty);
        let a = self.cells[i];
        let b = self.cells[j];
        self.cells[i] = b;
        let mut a2 = a;
        a2.updated = true;
        self.cells[j] = a2;
    }

    /// One water cell's full update: gain gravity only when not confined,
    /// run the accumulate-and-drain loop with two-tier deflection, write
    /// back, then try the trickle side-channel at the final position.
    pub(crate) fn update_water(&mut self, x: i32, y: i32)
        requires
            old(self).wf(),
            old(self)@.in_bounds(x as int, y as int),
        ensures
            final(self).wf(),
            final(self)@ == model::water_update(old(self)@, x as int, y as int),
            final(self).width == old(self).width,
            final(self).height == old(self).height,
            final(self).tick_n == old(self).tick_n,
            final(self).cells.len() == old(self).cells.len(),
    {
        let i = self.idx(x, y);
        let c0 = self.cells[i];
        let gain = self.cell(x, y + 1).id == CellId::Empty || self.cell(x - 1, y + 1).id
            == CellId::Empty || self.cell(x + 1, y + 1).id == CellId::Empty || self.cell(x - 1, y).id
            == CellId::Empty || self.cell(x + 1, y).id == CellId::Empty;
        let mut c1 = c0;
        if gain {
            c1.vy = sat_add_i8(c0.vy, 1);
        }
        let c2 = accumulate_exec(c1);
        let out = self.run_drain(x, y, c2, true);
        let px = out.0;
        let py = out.1;
        let mut cf = out.2;
        cf.updated = px != x || py != y;
        let fi = self.idx(px, py);
        self.cells[fi] = cf;
        self.trickle_exec(px, py);
    }

    /// The emitter: when the sine-swept offset target is empty, spawn a
    /// sand cell there with velocity taken from the sinusoid's components.
    pub(crate) fn update_special(&mut self, x: i32, y: i32)
        requires
            old(self).wf(),
            old(self)@.in_bounds(x as int, y as int),
        ensures
            final(self).wf(),
            final(self)@ == model::special_update(old(self)@, x as int, y as int),
            final(self).width == old(self).width,
            final(self).height == old(self).height,
            final(self).tick_n == old(self).tick_n,
            final(self).cells.len() == old(self).cells.len(),
    {
        let ph = (self.tick_n % 8) as u32;
        let ox = sine8_exec(ph);
        let oy = sine8_exec((ph + 2) % 8);
        let t = self.cell(x + ox, y + oy);
        if t.id == CellId::Empty {
            let r = self.rng.cent();
            let i = self.idx(x + ox, y + oy);
            self.cells[i] = Cell {
                id: CellId::Sand,
                vx: ox as i8,
                vy: oy as i8,
                dx: 0,
                dy: 0,
                rand: r,
                updated: true,
                tried: false,
                v_free: false,
            };
        }
    }

    /// Wipes every transient flag.
    pub(crate) fn clear_flags_exec(&mut self)
        requires
            old(self).wf(),
        ensures
            final(self).wf(),
            final(self)@ == model::clear_flags(old(self)@),
            final(self).width == old(self).width,
            final(self).height == old(self).height,
            final(self).tick_n == old(self).tick_n,
            final(self).cells.len() == old(self).cells.len(),
    {
        let n = self.cells.len();
        let mut i: usize = 0;
        while i < n
            invariant
                i <= n,
                self.cells.len() == n,
                self.width == old(self).width,
                self.height == old(self).height,
                self.tick_n == old(self).tick_n,
                self.aborts == old(self).aborts,
                self.rng == old(self).rng,
                forall|j: int| 0 <= j < i ==> self.cells@[j] == crate::cell::cleared(
                    #[trigger] old(self).cells@[j],
                ),
                forall|j: int| i <= j < n ==> self.cells@[j] == #[trigger] old(self).cells@[j],
            decreases n - i,
        {
            let mut c = self.cells[i];
            c.updated = false;
            c.tried = false;
            c.v_free = false;
            self.cells[i] = c;
            i = i + 1;
        }
        proof {
            assert(self@.cells =~= model::clear_flags(old(self)@).cells);
            assert(self.wf()) by {
                assert(forall|j: int| 0 <= j < n ==> model::cell_ok(#[trigger] self.cells@[j]));
            }
        }
    }

    /// The dispatch for one swept cell.
    pub(crate) fn step_cell_exec(&mut self, x: i32, y: i32)
        requires
            old(self).wf(),
            old(self)@.in_bounds(x as int, y as int),
        ensures
            final(self).wf(),
            final(self)@ == model::step_cell(old(self)@, x as int, y as int),
            final(self).width == old(self).width,
            final(self).height == old(self).height,
            final(self).tick_n == old(self).tick_n,
            final(self).cells.len() == old(self).cells.len(),
    {
        let i = self.idx(x, y);
        let c = self.cells[i];
        if !c.updated {
            match c.id {
                CellId::Sand => self.update_sand(x, y),
                CellId::Water => self.update_water(x, y),
                CellId::Special => self.update_special(x, y),
                _ => {},
            }
        }
    }

    /// Advances the simulation one step: clear the per-tick flags, sweep
    /// rows bottom-to-top with the column order alternating by tick parity,
    /// dispatch each unvisited mobile cell to its material rule, clear the
    /// flags again so the query surface never sees scratch state, and count
    /// the tick.
    pub fn tick(&mut self)
        requires
            old(self).wf(),
        ensures
            final(self).wf(),
            final(self)@ == model::spec_tick(old(self)@),
    {
        let parity = self.tick_n % 2 == 1;
        self.clear_flags_exec();
        let ghost m1 = self@;
        let ghost w = self@.w;
        let ghost target = model::sweep_rows(m1, w, parity, old(self)@.h as nat);
        let wd = self.width;
        let mut yy: usize = self.height;
        while yy > 0
            invariant
                self.wf(),
                parity == (old(self)@.tick % 2 == 1),
                yy <= self@.h,
                wd == self.width,
                self.width == old(self).width,
                self.height == old(self).height,
                self.tick_n == old(self).tick_n,
                self.cells.len() == old(self).cells.len(),
                model::sweep_rows(self@, w, parity, yy as nat) == target,
                w == self@.w,
            decreases yy,
        {
            let y = yy - 1;
            let ghost row_entry = self@;
            let mut i: usize = 0;
            proof {
                assert(model::sweep_rows(row_entry, w, parity, yy as nat) == model::sweep_rows(
                    model::sweep_row(row_entry, w, parity, y as int, wd as nat),
                    w,
                    parity,
                    (yy - 1) as nat,
                ));
            }
            while i < wd
                invariant
                    self.wf(),
                    i <= wd,
                    yy >= 1,
                    y == yy - 1,
                    yy <= self@.h,
                    wd == self.width,
                    self.width == old(self).width,
                    self.height == old(self).height,
                    self.tick_n == old(self).tick_n,
                    self.cells.len() == old(self).cells.len(),
                    w == self@.w,
                    parity == (old(self)@.tick % 2 == 1),
                    model::sweep_rows(
                        model::sweep_row(self@, w, parity, y as int, (wd - i) as nat),
                        w,
                        parity,
                        (yy - 1) as nat,
                    ) == target,
                decreases wd - i,
            {
                let x = if parity {
                    wd - 1 - i
                } else {
                    i
                };
                let ghost mp = self@;
                self.step_cell_exec(x as i32, y as i32);
                proof {
                    assert(model::sweep_row(mp, w, parity, y as int, (wd - i) as nat)
                        == model::sweep_row(
                        model::step_cell(mp, x as int, y as int),
                        w,
                        parity,
                        y as int,
                        (wd - i - 1) as nat,
                    ));
                }
                i = i + 1;
            }
            proof {
                assert(model::sweep_row(self@, w, parity, y as int, 0nat) == self@);
            }
            yy = yy - 1;
        }
        proof {
            assert(model::sweep_rows(self@, w, parity, 0nat) == self@);
        }
        self.clear_flags_exec();
        self.tick_n = self.tick_n.wrapping_add(1);
        proof {
            assert(self@.tick == (old(self)@.tick + 1) % 0x1_0000_0000_0000_0000);
            assert(self@ == model::spec_tick(old(self)@));
        }
    }

    /// Drains one moving cell's accumulated displacement: unit steps into
    /// empty cells, deflection when blocked, a dead stop when boxed in, and
    /// a counted abandonment at the safety bound. Returns the cell's final
    /// position and its carried state.
    #[verifier::rlimit(100)]
    pub(crate) fn run_drain(&mut self, x: i32, y: i32, c: Cell, water: bool) -> (r: (i32, i32, Cell))
        requires
            old(self).wf(),
            old(self)@.in_bounds(x as int, y as int),
        ensures
            final(self).wf(),
            ({
                let o = model::drain(
                    old(self)@,
                    x as int,
                    y as int,
                    c,
                    water,
                    model::MAX_DRAIN_STEPS as nat,
                );
                final(self)@ == o.m && r.0 as int == o.x && r.1 as int == o.y && r.2 == o.c
            }),
            final(self)@.in_bounds(r.0 as int, r.1 as int),
            -10 < r.2.dx < 10,
            -10 < r.2.dy < 10,
            r.2.rand == c.rand,
            r.2.id == c.id,
            final(self).width == old(self).width,
            final(self).height == old(self).height,
            final(self).tick_n == old(self).tick_n,
            final(self).cells.len() == old(self).cells.len(),
    {
        let ghost target = model::drain(
            old(self)@,
            x as int,
            y as int,
            c,
            water,
            model::MAX_DRAIN_STEPS as nat,
        );
        let mut px = x;
        let mut py = y;
        let mut cc = c;
        let mut fuel: u32 = model::MAX_DRAIN_STEPS;
        while (cc.dx >= 10 || cc.dx <= -10 || cc.dy >= 10 || cc.dy <= -10) && fuel > 0
            invariant
                self.wf(),
                self@.in_bounds(px as int, py as int),
                model::drain(self@, px as int, py as int, cc, water, fuel as nat) == target,
                cc.rand == c.rand,
                cc.id == c.id,
                self.width == old(self).width,
                self.height == old(self).height,
                self.tick_n == old(self).tick_n,
                self.cells.len() == old(self).cells.len(),
            decreases fuel,
        {
            let step = self.drain_step(px, py, cc, water, Ghost(fuel as nat));
            px = step.0;
            py = step.1;
            cc = step.2;
            fuel = fuel - 1;
        }
        if cc.dx >= 10 || cc.dx <= -10 || cc.dy >= 10 || cc.dy <= -10 {
            let ghost mp = self@;
            let ghost cc0 = cc;
            cc = stopped_exec(cc);
            self.aborts = self.aborts.wrapping_add(1);
            proof {
                crate::model_lemmas::lemma_drain_abort(mp, px as int, py as int, cc0, water, 0);
                assert(self@.aborts == (mp.aborts + 1) % 0x1_0000_0000_0000_0000);
                assert(self@ == Model {
                    aborts: (mp.aborts + 1) % 0x1_0000_0000_0000_0000,
                    ..mp
                });
            }
        } else {
            proof {
                crate::model_lemmas::lemma_drain_done(
                    self@,
                    px as int,
                    py as int,
                    cc,
                    water,
                    fuel as nat,
                );
            }
        }
        (px, py, cc)
    }
}

} // verus!
