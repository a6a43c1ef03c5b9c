//! A verified live-activity notification core: a singleton progress
//! notification session (create / update / remove) whose state machine,
//! progress normalization and per-platform render composition are proved
//! against explicit contracts. OS notification delivery itself is left to
//! an unverified shell around this library.

use vstd::prelude::*;

pub mod actions;
pub mod controller;
pub mod decimal;
pub mod errors;
pub mod models;
pub mod permission;
pub mod progress;
pub mod session;
pub mod state_map;

verus! {

/// Fraction scale: a progress fraction is held as an integer count of
/// `1 / FRAC_SCALE` units, so `FRAC_SCALE` stands for the fraction `1.0`.
pub const FRAC_SCALE: u64 = 100000;

} // verus!
