//! Minimum-dwell durations for the cycle phases, in milliseconds.
//!
//! Pure configuration: each constant is the threshold an elapsed-time
//! guard compares against before the corresponding phase may be left.
//! Values are design constants tuned per appliance and fixed for the
//! process lifetime.

use vstd::prelude::*;

verus! {

/// Dwell time of the long-running phases.
pub const DEFAULT_LONG: u32 = 5000;

/// Dwell time of the mid-length phases.
pub const DEFAULT: u32 = 2000;

/// Dwell time of the short phases.
pub const DEFAULT_SHORT: u32 = 500;

/// Minimum time spent blending the pulp.
pub const BLENDING: u32 = DEFAULT_LONG;

/// Minimum time spent draining the vessel.
pub const DRAINING: u32 = DEFAULT_LONG;

/// Minimum time spent mixing while the heater is still on.
pub const HEATED_MIXING: u32 = DEFAULT;

/// Minimum time spent heating the soak water.
pub const HEATING: u32 = DEFAULT_LONG;

/// Minimum time the input-hatch lock motor runs to lock or unlock.
pub const LOCKING: u32 = DEFAULT_SHORT;

/// Minimum time spent mixing after the heater is off.
pub const MIXING: u32 = DEFAULT_LONG;

/// Minimum time spent rinsing.
pub const RINSING: u32 = DEFAULT_LONG;

/// Minimum time the separator hatch is held open.
pub const SEPARATOR_HOLDING: u32 = DEFAULT_LONG;

/// Minimum time the separator hatch motor runs to open or close.
pub const SEPARATOR_TRANSITION: u32 = DEFAULT;

/// Minimum time spent pumping water in.
pub const WATER_PUMPING: u32 = DEFAULT_LONG;

} // verus!
