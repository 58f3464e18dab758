//! Core of a terminal system monitor: metric sampling, normalization, and
//! the pure presentation mapping that turns snapshots into a bounded visual
//! model (bands, bars, byte-unit strings, grid geometry).

use vstd::prelude::*;

pub mod cpu;
pub mod gpu;
pub mod layout;
pub mod meter;
pub mod scheduler;
pub mod ui;
pub mod utilities;
pub mod text;
pub mod units;

verus! {

} // verus!
