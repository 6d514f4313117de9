//! A deterministic, grid-based falling-particle simulation. Each lattice
//! cell carries a material plus an 8-bit velocity and a sub-cell
//! displacement accumulator in tenths of a cell; one `tick` sweeps the grid
//! bottom-to-top with alternating column order and moves sand and water by
//! line-stepped unit moves with collision deflection, so momentum is
//! (approximately) conserved rather than diffused.
//!
//! The mathematical transition function lives in `model`; the executable
//! grid in `grid` and `sim` is proved to follow it step for step, and the
//! engine-wide laws — conservation of material, idempotence of settled
//! grids, determinism, and the gap-free movement path — are proved of the
//! model in `conservation`, `settled`, `laws` and `path`.

pub mod cell;
pub mod conservation;
pub mod counts;
pub mod grid;
pub mod kvs;
pub mod laws;
pub mod model;
pub mod model_lemmas;
pub mod num;
pub mod path;
pub mod render;
pub mod rng;
pub mod settled;
pub mod sim;
pub mod stepper;
pub mod utils;
