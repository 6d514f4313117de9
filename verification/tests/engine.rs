use kruemel::cell::CellId;
use kruemel::grid::Grid;
use kruemel::stepper::next_pixel;

fn count_id(g: &Grid, id: CellId) -> usize {
    let mut n = 0;
    for y in 0..g.h() {
        for x in 0..g.w() {
            if g.cell(x, y).id == id {
                n += 1;
            }
        }
    }
    n
}

#[test]
fn test_next_pixel() {
    assert_eq!(next_pixel(-1, -1), (-1, -1));
    assert_eq!(next_pixel(0, -1), (0, -1));
    assert_eq!(next_pixel(1, -1), (1, -1));
    assert_eq!(next_pixel(-1, 1), (-1, 1));
    assert_eq!(next_pixel(0, 1), (0, 1));
    assert_eq!(next_pixel(1, 1), (1, 1));
    assert_eq!(next_pixel(-1, 0), (-1, 0));
    assert_eq!(next_pixel(1, 0), (1, 0));

    assert_eq!(next_pixel(-1, -2), (-1, -1));
    assert_eq!(next_pixel(1, -2), (1, -1));
    assert_eq!(next_pixel(-1, 2), (-1, 1));
    assert_eq!(next_pixel(1, 2), (1, 1));

    assert_eq!(next_pixel(-2, -1), (-1, -1));
    assert_eq!(next_pixel(-2, 1), (-1, 1));
    assert_eq!(next_pixel(2, -1), (1, -1));
    assert_eq!(next_pixel(2, 1), (1, 1));

    assert_eq!(next_pixel(-2, -2), (-1, -1));
    assert_eq!(next_pixel(-2, 2), (-1, 1));
    assert_eq!(next_pixel(2, -2), (1, -1));
    assert_eq!(next_pixel(2, 2), (1, 1));
}

/// The standard demonstration scene: a block of water above a wood floor,
/// run for eleven steps.
#[test]
fn test_tick_cells() {
    let mut g = Grid::new_seeded(11, 11, 42);
    let w2 = g.w() / 2;
    let h = g.h() - 1;
    for x in (w2 - 2)..=(w2 + 2) {
        for y in (h - 5)..=h {
            if y != h {
                g.paint(x, y, CellId::Water);
            } else {
                g.paint(x, y, CellId::Wood);
            }
        }
    }
    assert_eq!(count_id(&g, CellId::Water), 25);
    assert_eq!(count_id(&g, CellId::Wood), 5);
    for _ in 0..11 {
        let frame = g.format();
        assert_eq!(frame.lines().count(), 13);
        g.tick();
    }
    // Water only moves by swaps and wood never moves at all.
    assert_eq!(count_id(&g, CellId::Water), 25);
    assert_eq!(count_id(&g, CellId::Wood), 5);
}

#[test]
fn test_format_exact() {
    let mut g = Grid::new(2, 2);
    g.paint(0, 0, CellId::Sand);
    assert_eq!(g.format(), "-----\n0|. |\n1|  |\n-----\n");
}

#[test]
fn test_format_glyphs() {
    let mut g = Grid::new(5, 1);
    g.paint(0, 0, CellId::Sand);
    g.paint(1, 0, CellId::Water);
    g.paint(2, 0, CellId::Wood);
    g.paint(3, 0, CellId::Special);
    assert_eq!(g.format(), "--------\n0|.~#* |\n--------\n");
}

/// Boundary safety: writes just off every edge never change the grid, and
/// reads there hand back the sentinel.
#[test]
fn test_boundary_safety() {
    let mut g = Grid::new_seeded(4, 3, 9);
    g.paint(1, 1, CellId::Sand);
    let before = g.format();
    let w = g.w();
    let h = g.h();
    for &(x, y) in &[(-1, 0), (w, 0), (0, -1), (0, h), (-1, -1), (w, h)] {
        g.paint(x, y, CellId::Water);
        assert_eq!(g.cell(x, y).id, CellId::Unavailable);
    }
    assert_eq!(g.format(), before);
}

/// Painting the same material twice must not erase in-flight motion state,
/// while painting a different one resets the cell.
#[test]
fn test_paint_same_id_keeps_state() {
    let mut g = Grid::new_seeded(3, 3, 5);
    g.paint(1, 1, CellId::Sand);
    let before = g.cell(1, 1);
    g.paint(1, 1, CellId::Sand);
    assert_eq!(g.cell(1, 1), before);
    g.paint(1, 1, CellId::Water);
    assert_eq!(g.cell(1, 1).id, CellId::Water);
}

/// Conservation: with no emitter on the grid, the multiset of materials is
/// invariant under ticks.
#[test]
fn test_conservation_without_emitter() {
    let mut g = Grid::new_seeded(9, 9, 1234);
    for x in 2..7 {
        g.paint(x, 1, CellId::Sand);
        g.paint(x, 2, CellId::Water);
    }
    g.paint(4, 6, CellId::Wood);
    for _ in 0..25 {
        g.tick();
        assert_eq!(count_id(&g, CellId::Sand), 5);
        assert_eq!(count_id(&g, CellId::Water), 5);
        assert_eq!(count_id(&g, CellId::Wood), 1);
    }
}

/// Conservation with the emitter: sand may only grow, by exactly what
/// empty loses; everything else keeps its count.
#[test]
fn test_conservation_with_emitter() {
    let mut g = Grid::new_seeded(9, 9, 77);
    g.paint(4, 4, CellId::Special);
    g.paint(2, 7, CellId::Wood);
    let mut sand = count_id(&g, CellId::Sand);
    let mut empty = count_id(&g, CellId::Empty);
    for _ in 0..20 {
        g.tick();
        let s = count_id(&g, CellId::Sand);
        let e = count_id(&g, CellId::Empty);
        assert!(s >= sand);
        assert_eq!(s + e, sand + empty);
        assert_eq!(count_id(&g, CellId::Special), 1);
        assert_eq!(count_id(&g, CellId::Wood), 1);
        sand = s;
        empty = e;
    }
    assert!(sand > 0);
}

/// Idempotence: a fully settled grid (here one with no empty cell at all)
/// is unchanged by a tick.
#[test]
fn test_settled_grid_unchanged() {
    let mut g = Grid::new_seeded(4, 4, 3);
    for y in 0..4 {
        for x in 0..4 {
            g.paint(x, y, CellId::Sand);
        }
    }
    let before = g.format();
    let ticks = g.tick_count();
    g.tick();
    assert_eq!(g.format(), before);
    assert_eq!(g.tick_count(), ticks + 1);
    for y in 0..4 {
        for x in 0..4 {
            let c = g.cell(x, y);
            assert_eq!((c.vx, c.vy, c.dx, c.dy), (0, 0, 0, 0));
        }
    }
}

/// Determinism: two grids built from the same seed and the same paints are
/// identical after any number of ticks.
#[test]
fn test_determinism() {
    let build = || {
        let mut g = Grid::new_seeded(8, 8, 2024);
        g.paint(3, 0, CellId::Sand);
        g.paint(4, 0, CellId::Sand);
        g.paint(3, 1, CellId::Water);
        g.paint(5, 5, CellId::Wood);
        g
    };
    let mut a = build();
    let mut b = build();
    for _ in 0..30 {
        a.tick();
        b.tick();
        assert_eq!(a.format(), b.format());
    }
    for y in 0..8 {
        for x in 0..8 {
            assert_eq!(a.cell(x, y), b.cell(x, y));
        }
    }
}

/// Degenerate grids: ticking and querying an empty or tiny grid is total.
#[test]
fn test_degenerate_grids() {
    let mut g0 = Grid::new(0, 0);
    g0.tick();
    assert_eq!(g0.cell(0, 0).id, CellId::Unavailable);
    assert_eq!(g0.format(), "---\n---\n");

    let mut g1 = Grid::new(1, 1);
    g1.paint(0, 0, CellId::Sand);
    for _ in 0..5 {
        g1.tick();
    }
    assert_eq!(g1.cell(0, 0).id, CellId::Sand);
    assert_eq!(g1.format(), "----\n0|.|\n----\n");
}

/// The tick counter advances by exactly one per tick.
#[test]
fn test_tick_counter() {
    let mut g = Grid::new(2, 2);
    assert_eq!(g.tick_count(), 0);
    for i in 1..=5u64 {
        g.tick();
        assert_eq!(g.tick_count(), i);
    }
}
