//! The cycle state machine: a closed set of phases and the pure
//! guarded-transition function that sequences them.
//!
//! The machine is split into an initial setup cycle, run once after
//! power-on to prepare the vessel, and a main processing cycle that
//! repeats indefinitely.  [`override_for`] is the single decision point:
//! given the current phase, the time spent in it, the start-signal level
//! and the latched stop flag, it returns the phase to move to, or `None`
//! to stay put this poll.  It performs no I/O and is total over its
//! inputs; [`next_spec`] is its exact mathematical model.

use vstd::prelude::*;

use crate::duration;

verus! {

/// One phase of the appliance cycle.
///
/// `Initial*` phases belong to the one-shot setup cycle run after
/// power-on; the remaining phases form the repeatable main cycle.
/// `InitialIdling` and `Idling` are the two resting phases: they wait for
/// the start signal indefinitely and end the abort-latch window.
#[derive(Clone, Copy, Debug, Eq, PartialEq, Structural)]
pub enum State {
    InitialDraining,
    InitialIdling,
    InitialLocking,
    InitialUnlocking,
    InitialSetupSeparatorOpening,
    InitialSetupWaterPumping,
    InitialSetupSeparatorClosing,
    SoakWaterPumping,
    SoakWaterHeating,
    SoakWaterHeatedMixing,
    SoakWaterMixing,
    SoakWaterDraining,
    RinseWaterPumping,
    RinseWaterDraining,
    SeparatorOpening,
    SeparatorHolding,
    SeparatorClosing,
    Blending,
    PulpDraining,
    SetupSeparatorOpening,
    SetupWaterPumping,
    SetupSeparatorClosing,
    Idling,
    Locking,
    Unlocking,
}

impl Default for State {
    /// The boot-time entry phase of the cycle.
    fn default() -> (r: Self)
        ensures
            r == State::InitialDraining,
    {
        State::InitialDraining
    }
}

/// Whether `s` is a resting phase: one that waits for the start signal
/// indefinitely and at which the latched stop request is considered
/// served.
pub open spec fn is_idle(s: State) -> bool {
    s == State::Idling || s == State::InitialIdling
}

impl State {
    /// Whether this phase is a resting phase ([`is_idle`]).
    pub fn is_idling(&self) -> (r: bool)
        ensures
            r == is_idle(*self),
    {
        matches!(self, State::Idling | State::InitialIdling)
    }
}

/// The guarded-transition function of the cycle, as a total mathematical
/// function: the full transition table, with the guards of each phase in
/// evaluation order.
///
/// Precedence within a phase follows the order of the conditions here:
/// in the four soak-processing phases the latched stop is checked before
/// any dwell-time guard; in the locking phases the release of the start
/// signal is checked before the dwell-time guard.  `None` means no guard
/// fired and the machine stays put this poll.
pub open spec fn next_spec(curr: State, delta: u32, starting: bool, stopping: bool) -> Option<
    State,
> {
    match curr {
        State::InitialDraining => if delta >= duration::DRAINING {
            Some(State::InitialIdling)
        } else {
            None
        },
        State::InitialIdling => if starting {
            Some(State::InitialLocking)
        } else {
            None
        },
        State::InitialLocking => if !starting {
            Some(State::InitialUnlocking)
        } else if delta >= duration::LOCKING {
            Some(State::InitialSetupSeparatorOpening)
        } else {
            None
        },
        State::InitialUnlocking => if delta >= duration::LOCKING {
            Some(State::InitialIdling)
        } else {
            None
        },
        State::InitialSetupSeparatorOpening => if delta >= duration::SEPARATOR_TRANSITION {
            Some(State::InitialSetupWaterPumping)
        } else {
            None
        },
        State::InitialSetupWaterPumping => if delta >= duration::WATER_PUMPING {
            Some(State::InitialSetupSeparatorClosing)
        } else {
            None
        },
        State::InitialSetupSeparatorClosing => if delta >= duration::SEPARATOR_TRANSITION {
            Some(State::SoakWaterPumping)
        } else {
            None
        },
        State::SoakWaterPumping => if stopping {
            Some(State::SoakWaterDraining)
        } else if delta >= duration::WATER_PUMPING {
            Some(State::SoakWaterDraining)
        } else {
            None
        },
        State::SoakWaterHeating => if stopping {
            Some(State::SoakWaterDraining)
        } else if delta >= duration::HEATING {
            Some(State::SoakWaterHeatedMixing)
        } else {
            None
        },
        State::SoakWaterHeatedMixing => if stopping {
            Some(State::SoakWaterDraining)
        } else if delta >= duration::HEATED_MIXING {
            Some(State::SoakWaterMixing)
        } else {
            None
        },
        State::SoakWaterMixing => if stopping {
            Some(State::SoakWaterDraining)
        } else if delta >= duration::MIXING {
            Some(State::SoakWaterDraining)
        } else {
            None
        },
        State::SoakWaterDraining => if delta >= duration::DRAINING {
            if stopping {
                Some(State::Idling)
            } else {
                Some(State::RinseWaterPumping)
            }
        } else {
            None
        },
        State::RinseWaterPumping => if stopping || delta >= duration::RINSING {
            Some(State::RinseWaterDraining)
        } else {
            None
        },
        State::RinseWaterDraining => if delta >= duration::DRAINING {
            if stopping {
                Some(State::Idling)
            } else {
                Some(State::SeparatorOpening)
            }
        } else {
            None
        },
        State::SeparatorOpening => if delta >= duration::SEPARATOR_TRANSITION {
            Some(State::SeparatorHolding)
        } else {
            None
        },
        State::SeparatorHolding => if delta >= duration::SEPARATOR_HOLDING {
            Some(State::SeparatorClosing)
        } else {
            None
        },
        State::SeparatorClosing => if delta >= duration::SEPARATOR_TRANSITION {
            Some(State::Blending)
        } else {
            None
        },
        State::Blending => if delta >= duration::BLENDING {
            Some(State::PulpDraining)
        } else {
            None
        },
        State::PulpDraining => if delta >= duration::DRAINING {
            Some(State::SetupSeparatorOpening)
        } else {
            None
        },
        State::SetupSeparatorOpening => if delta >= duration::SEPARATOR_TRANSITION {
            Some(State::SetupWaterPumping)
        } else {
            None
        },
        State::SetupWaterPumping => if delta >= duration::WATER_PUMPING {
            Some(State::SetupSeparatorClosing)
        } else {
            None
        },
        State::SetupSeparatorClosing => if delta >= duration::SEPARATOR_TRANSITION {
            Some(State::Idling)
        } else {
            None
        },
        State::Idling => if starting {
            Some(State::Locking)
        } else {
            None
        },
        State::Locking => if !starting {
            Some(State::Unlocking)
        } else if delta >= duration::LOCKING {
            Some(State::SoakWaterPumping)
        } else {
            None
        },
        State::Unlocking => if delta >= duration::LOCKING {
            Some(State::Idling)
        } else {
            None
        },
    }
}

/// The guarded-transition function.  Total: defined for every
/// combination of phase, elapsed time and signal levels, with `None` as
/// the explicit "stay put" outcome; it computes exactly [`next_spec`].
#[must_use]
pub fn override_for(curr: State, delta: crate::millis::Millis, starting: bool, stopping: bool) -> (r:
    Option<State>)
    ensures
        r == next_spec(curr, delta.0, starting, stopping),
{
    match curr {
        State::InitialDraining if delta.0 >= duration::DRAINING => Some(State::InitialIdling),

        State::InitialIdling if starting => Some(State::InitialLocking),

        State::InitialLocking if !starting => Some(State::InitialUnlocking),
        State::InitialLocking if delta.0 >= duration::LOCKING => Some(
            State::InitialSetupSeparatorOpening,
        ),

        State::InitialUnlocking if delta.0 >= duration::LOCKING => Some(State::InitialIdling),

        State::InitialSetupSeparatorOpening if delta.0 >= duration::SEPARATOR_TRANSITION => Some(
            State::InitialSetupWaterPumping,
        ),

        State::InitialSetupWaterPumping if delta.0 >= duration::WATER_PUMPING => Some(
            State::InitialSetupSeparatorClosing,
        ),

        State::InitialSetupSeparatorClosing if delta.0 >= duration::SEPARATOR_TRANSITION => Some(
            State::SoakWaterPumping,
        ),

        State::SoakWaterPumping if stopping || delta.0 >= duration::WATER_PUMPING => Some(
            State::SoakWaterDraining,
        ),
        State::SoakWaterHeating if stopping => Some(State::SoakWaterDraining),
        State::SoakWaterHeating if delta.0 >= duration::HEATING => Some(
            State::SoakWaterHeatedMixing,
        ),
        State::SoakWaterHeatedMixing if stopping => Some(State::SoakWaterDraining),
        State::SoakWaterHeatedMixing if delta.0 >= duration::HEATED_MIXING => Some(
            State::SoakWaterMixing,
        ),
        State::SoakWaterMixing if stopping || delta.0 >= duration::MIXING => Some(
            State::SoakWaterDraining,
        ),

        State::SoakWaterDraining if delta.0 >= duration::DRAINING => if stopping {
            Some(State::Idling)
        } else {
            Some(State::RinseWaterPumping)
        },

        State::RinseWaterPumping if stopping || delta.0 >= duration::RINSING => Some(
            State::RinseWaterDraining,
        ),

        State::RinseWaterDraining if delta.0 >= duration::DRAINING => if stopping {
            Some(State::Idling)
        } else {
            Some(State::SeparatorOpening)
        },

        State::SeparatorOpening if delta.0 >= duration::SEPARATOR_TRANSITION => Some(
            State::SeparatorHolding,
        ),

        State::SeparatorHolding if delta.0 >= duration::SEPARATOR_HOLDING => Some(
            State::SeparatorClosing,
        ),

        State::SeparatorClosing if delta.0 >= duration::SEPARATOR_TRANSITION => Some(
            State::Blending,
        ),

        State::Blending if delta.0 >= duration::BLENDING => Some(State::PulpDraining),

        State::PulpDraining if delta.0 >= duration::DRAINING => Some(State::SetupSeparatorOpening),

        State::SetupSeparatorOpening if delta.0 >= duration::SEPARATOR_TRANSITION => Some(
            State::SetupWaterPumping,
        ),

        State::SetupWaterPumping if delta.0 >= duration::WATER_PUMPING => Some(
            State::SetupSeparatorClosing,
        ),

        State::SetupSeparatorClosing if delta.0 >= duration::SEPARATOR_TRANSITION => Some(
            State::Idling,
        ),

        State::Idling if starting => Some(State::Locking),

        State::Locking if !starting => Some(State::Unlocking),
        State::Locking if delta.0 >= duration::LOCKING => Some(State::SoakWaterPumping),

        State::Unlocking if delta.0 >= duration::LOCKING => Some(State::Idling),

        _ => None,
    }
}

/// Abort precedence: in any of the four soak-processing phases, a
/// latched stop request alone forces an immediate transition to
/// `SoakWaterDraining`, whatever the elapsed time and the start-signal
/// level — even before the phase's dwell time has passed.
pub proof fn lemma_abort_precedence(s: State, delta: u32, starting: bool)
    requires
        s == State::SoakWaterPumping || s == State::SoakWaterHeating || s
            == State::SoakWaterHeatedMixing || s == State::SoakWaterMixing,
    ensures
        next_spec(s, delta, starting, true) == Some(State::SoakWaterDraining),
{
}

/// Threshold boundary: the locking dwell guard fires exactly at the
/// configured threshold (`>=`, not `>`).  While the start signal is held
/// and no stop is latched, `InitialLocking` stays put strictly below
/// `duration::LOCKING` and advances to the separator-opening setup phase
/// at or above it.
pub proof fn lemma_locking_threshold(delta: u32)
    ensures
        delta < duration::LOCKING ==> next_spec(State::InitialLocking, delta, true, false)
            == None::<State>,
        delta >= duration::LOCKING ==> next_spec(State::InitialLocking, delta, true, false) == Some(
            State::InitialSetupSeparatorOpening,
        ),
{
}

/// Idle stability: without the start signal, a resting phase never
/// transitions, whatever the elapsed time and the stop flag — the
/// machine waits there indefinitely.
pub proof fn lemma_idle_stability(s: State, delta: u32, stopping: bool)
    requires
        is_idle(s),
    ensures
        next_spec(s, delta, false, stopping) == None::<State>,
{
}

} // verus!
