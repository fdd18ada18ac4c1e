//! Device operation mode markers.
//!
//! The markers carry no runtime data: they only select, at compile time,
//! which operations a driver handle offers.

use vstd::prelude::*;

verus! {

/// Marker type for a magnetometer in one-shot (single) mode.
#[derive(Debug, Clone, Copy)]
pub struct OneShot;

/// Marker type for a magnetometer in continuous mode.
#[derive(Debug, Clone, Copy)]
pub struct Continuous;

} // verus!
