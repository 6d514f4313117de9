use kruemel::cell::CellId;
use kruemel::grid::Grid;

fn count_id(g: &Grid, id: CellId) -> usize {
    let mut n = 0;
    for y in 0..g.h() {
        for x in 0..g.w() {
            if g.cell(x, y).id == id {
                n += 1;
            }
        }
    }
    n
}

/// A column of sand poured into a narrow grid settles at the bottom with
/// all motion state drained.
#[test]
fn test_sand_column_settles() {
    let mut g = Grid::new_seeded(3, 5, 11);
    for y in 0..4 {
        g.paint(1, y, CellId::Sand);
    }
    assert_eq!(count_id(&g, CellId::Sand), 4);
    for _ in 0..80 {
        g.tick();
    }
    assert_eq!(count_id(&g, CellId::Sand), 4);
    for y in 0..5 {
        for x in 0..3 {
            let c = g.cell(x, y);
            if c.id == CellId::Sand {
                // Settled: no velocity, the accumulator drained below one
                // whole cell, and nothing empty directly below. (A grain
                // that lands with leftover sub-cell displacement keeps it:
                // the drain only fires at a whole cell of travel.)
                assert_eq!((c.vx, c.vy), (0, 0));
                assert!(c.dx.abs() < 10 && c.dy.abs() < 10);
                assert_ne!(g.cell(x, y + 1).id, CellId::Empty);
            }
        }
    }
    // The pile is stable: one more tick changes nothing.
    let before = g.format();
    g.tick();
    assert_eq!(g.format(), before);
}

/// Water above a one-cell wood ledge: water falls where it can, spreads
/// rather than crossing the wood, and the wood never moves.
#[test]
fn test_water_over_wood_ledge() {
    let mut g = Grid::new_seeded(11, 11, 8);
    g.paint(5, 8, CellId::Wood);
    for x in 4..=6 {
        for y in 2..=4 {
            g.paint(x, y, CellId::Water);
        }
    }
    assert_eq!(count_id(&g, CellId::Water), 9);
    let mut fell = false;
    for _ in 0..40 {
        g.tick();
        // The ledge is never displaced or flooded through.
        assert_eq!(g.cell(5, 8).id, CellId::Wood);
        assert_eq!(count_id(&g, CellId::Water), 9);
        if g.cell(4, 10).id == CellId::Water || g.cell(6, 10).id == CellId::Water {
            fell = true;
        }
    }
    // Unblocked columns reached the floor.
    assert!(fell);
    // Blocked water spread sideways: it now occupies more columns than the
    // three it was painted into.
    let mut columns = 0;
    for x in 0..11 {
        let mut any = false;
        for y in 0..11 {
            if g.cell(x, y).id == CellId::Water {
                any = true;
            }
        }
        if any {
            columns += 1;
        }
    }
    assert!(columns > 3);
}

/// High-speed sand in a one-cell shaft never skips through a wood plug:
/// every intermediate cell of the line is visited and collision-checked,
/// so the grain comes to rest directly above the plug.
#[test]
fn test_fast_sand_never_skips_wood() {
    let mut g = Grid::new_seeded(1, 12, 2);
    g.paint(0, 8, CellId::Wood);
    g.paint(0, 0, CellId::Sand);
    let mut max_vy = 0;
    for _ in 0..30 {
        g.tick();
        assert_eq!(count_id(&g, CellId::Sand), 1);
        for y in 9..12 {
            // Nothing ever tunnels below the plug.
            assert_eq!(g.cell(0, y).id, CellId::Empty);
        }
        for y in 0..12 {
            let c = g.cell(0, y);
            if c.id == CellId::Sand && c.vy > max_vy {
                max_vy = c.vy;
            }
        }
    }
    // The grain really was moving fast before it landed.
    assert!(max_vy >= 5);
    let c = g.cell(0, 7);
    assert_eq!(c.id, CellId::Sand);
    assert_eq!((c.vx, c.vy, c.dx, c.dy), (0, 0, 0, 0));
    assert_eq!(g.cell(0, 8).id, CellId::Wood);
}

/// The emitter spawns sand into empty cells around it over time.
#[test]
fn test_emitter_spawns_sand() {
    let mut g = Grid::new_seeded(7, 7, 1);
    g.paint(3, 3, CellId::Special);
    for _ in 0..16 {
        g.tick();
    }
    assert!(count_id(&g, CellId::Sand) > 0);
    assert_eq!(count_id(&g, CellId::Special), 1);
}

/// The displacement safety bound never fires on ordinary scenes.
#[test]
fn test_no_aborts_in_ordinary_runs() {
    let mut g = Grid::new_seeded(9, 9, 6);
    for x in 0..9 {
        g.paint(x, 0, CellId::Sand);
        g.paint(x, 1, CellId::Water);
    }
    for _ in 0..50 {
        g.tick();
    }
    assert_eq!(g.abort_count(), 0);
}
