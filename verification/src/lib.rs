//! Drop-down window controller core: easing, geometry, edge-trigger state
//! machine, animation frame planning, and window bounds bookkeeping.

use vstd::prelude::*;

pub mod animation;
pub mod autolaunch;
pub mod controller;
pub mod edge;
pub mod error;
pub mod geometry;
pub mod tracking;
pub mod tray;

verus! {

/// Fixed-point scale for normalized animation progress: a progress value `t`
/// in `0 ..= PROGRESS_SCALE` stands for the real number `t / PROGRESS_SCALE`.
pub const PROGRESS_SCALE: u32 = 65536;

} // verus!
