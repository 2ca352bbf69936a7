//! The cycle controller: the stateful orchestrator around the pure state
//! machine.
//!
//! A [`Sketch`] owns the current phase, the timestamp of the last
//! transition, the latched stop flag and the actuator output levels.  On
//! each poll the caller hands it the clock reading and the two sampled
//! input levels; the controller latches the stop request, asks
//! [`override_for`] for a transition, and on a transition toggles the
//! actuators owned by the phase being left and by the phase being
//! entered.  Each phase's actuator set is toggled exactly once on entry
//! and once on exit, so the two calls pair up and the levels stay
//! consistent.
//!
//! The caller (the hardware layer) mirrors [`Outputs`] onto the physical
//! pins after every poll and supplies the input levels; no I/O happens
//! here.

use vstd::prelude::*;

use crate::millis::Millis;
use crate::millis::wrap_sub;
use crate::state::State;
use crate::state::is_idle;
use crate::state::next_spec;
use crate::state::override_for;

verus! {

/// The commanded level of every actuator, `true` meaning asserted.
///
/// Actuators not owned by the current phase keep the level a previous
/// phase left them at: long-lived outputs such as the ready indicator,
/// the locks and the hatch directions persist across many phases and are
/// only touched by the phases that own them.
#[derive(Clone, Copy, Debug, Eq, PartialEq, Structural)]
pub struct Outputs {
    /// Ready indicator: lit while the machine rests in an idle phase.
    pub ready: bool,
    /// Blender motor.
    pub blender: bool,
    /// Soak-water heater.
    pub heater: bool,
    /// Mixer motor.
    pub mixer: bool,
    /// Separator hatch motor enable.
    pub separator_hatch_enable: bool,
    /// Separator hatch motor direction.
    pub separator_hatch_direction: bool,
    /// Input hatch lock motor direction.
    pub input_hatch_lock_direction: bool,
    /// Input hatch lock motor enable.
    pub input_hatch_lock_enable: bool,
    /// Fresh-water pump.
    pub water_pump: bool,
    /// Drain pump below the separator.
    pub lower_drain_pump: bool,
    /// Drain pump above the separator.
    pub upper_drain_pump: bool,
}

/// All actuators deasserted: the output levels before the controller's
/// first entry-action at power-on.
pub open spec fn outputs_off() -> Outputs {
    Outputs {
        ready: false,
        blender: false,
        heater: false,
        mixer: false,
        separator_hatch_enable: false,
        separator_hatch_direction: false,
        input_hatch_lock_direction: false,
        input_hatch_lock_enable: false,
        water_pump: false,
        lower_drain_pump: false,
        upper_drain_pump: false,
    }
}

/// The actuator levels after toggling the set owned by phase `s`: the
/// per-phase action applied once when `s` is entered and once when it is
/// left.
pub open spec fn toggle_spec(s: State, o: Outputs) -> Outputs {
    match s {
        State::InitialDraining => Outputs {
            lower_drain_pump: !o.lower_drain_pump,
            upper_drain_pump: !o.upper_drain_pump,
            ..o
        },
        State::InitialIdling => Outputs { ready: !o.ready, ..o },
        State::InitialLocking => Outputs {
            input_hatch_lock_enable: !o.input_hatch_lock_enable,
            ready: !o.ready,
            ..o
        },
        State::InitialUnlocking => Outputs {
            input_hatch_lock_direction: !o.input_hatch_lock_direction,
            input_hatch_lock_enable: !o.input_hatch_lock_enable,
            ready: !o.ready,
            ..o
        },
        State::InitialSetupSeparatorOpening => Outputs {
            separator_hatch_enable: !o.separator_hatch_enable,
            ..o
        },
        State::InitialSetupWaterPumping => Outputs { water_pump: !o.water_pump, ..o },
        State::InitialSetupSeparatorClosing => Outputs {
            separator_hatch_direction: !o.separator_hatch_direction,
            separator_hatch_enable: !o.separator_hatch_enable,
            ..o
        },
        State::SoakWaterPumping => Outputs { water_pump: !o.water_pump, ..o },
        State::SoakWaterHeating => Outputs { heater: !o.heater, ..o },
        State::SoakWaterHeatedMixing => Outputs { heater: !o.heater, mixer: !o.mixer, ..o },
        State::SoakWaterMixing => Outputs { mixer: !o.mixer, ..o },
        State::SoakWaterDraining => Outputs { upper_drain_pump: !o.upper_drain_pump, ..o },
        State::RinseWaterPumping => Outputs {
            upper_drain_pump: !o.upper_drain_pump,
            water_pump: !o.water_pump,
            ..o
        },
        State::RinseWaterDraining => Outputs { upper_drain_pump: !o.upper_drain_pump, ..o },
        State::SeparatorOpening => Outputs {
            separator_hatch_enable: !o.separator_hatch_enable,
            ..o
        },
        State::SeparatorHolding => o,
        State::SeparatorClosing => Outputs {
            separator_hatch_direction: !o.separator_hatch_direction,
            separator_hatch_enable: !o.separator_hatch_enable,
            ..o
        },
        State::Blending => Outputs { blender: !o.blender, ..o },
        State::PulpDraining => Outputs { lower_drain_pump: !o.lower_drain_pump, ..o },
        State::SetupSeparatorOpening => Outputs {
            separator_hatch_enable: !o.separator_hatch_enable,
            ..o
        },
        State::SetupWaterPumping => Outputs { water_pump: !o.water_pump, ..o },
        State::SetupSeparatorClosing => Outputs {
            separator_hatch_direction: !o.separator_hatch_direction,
            separator_hatch_enable: !o.separator_hatch_enable,
            ..o
        },
        State::Idling => Outputs { ready: !o.ready, ..o },
        State::Locking => Outputs {
            input_hatch_lock_enable: !o.input_hatch_lock_enable,
            ready: !o.ready,
            ..o
        },
        State::Unlocking => Outputs {
            input_hatch_lock_direction: !o.input_hatch_lock_direction,
            input_hatch_lock_enable: !o.input_hatch_lock_enable,
            ready: !o.ready,
            ..o
        },
    }
}

/// The actuator levels after toggling the set owned by phase `s`:
/// computes exactly [`toggle_spec`].
pub fn toggled_outputs(s: State, o: Outputs) -> (r: Outputs)
    ensures
        r == toggle_spec(s, o),
{
    match s {
        State::InitialDraining => Outputs {
            lower_drain_pump: !o.lower_drain_pump,
            upper_drain_pump: !o.upper_drain_pump,
            ..o
        },
        State::InitialIdling => Outputs { ready: !o.ready, ..o },
        State::InitialLocking => Outputs {
            input_hatch_lock_enable: !o.input_hatch_lock_enable,
            ready: !o.ready,
            ..o
        },
        State::InitialUnlocking => Outputs {
            input_hatch_lock_direction: !o.input_hatch_lock_direction,
            input_hatch_lock_enable: !o.input_hatch_lock_enable,
            ready: !o.ready,
            ..o
        },
        State::InitialSetupSeparatorOpening => Outputs {
            separator_hatch_enable: !o.separator_hatch_enable,
            ..o
        },
        State::InitialSetupWaterPumping => Outputs { water_pump: !o.water_pump, ..o },
        State::InitialSetupSeparatorClosing => Outputs {
            separator_hatch_direction: !o.separator_hatch_direction,
            separator_hatch_enable: !o.separator_hatch_enable,
            ..o
        },
        State::SoakWaterPumping => Outputs { water_pump: !o.water_pump, ..o },
        State::SoakWaterHeating => Outputs { heater: !o.heater, ..o },
        State::SoakWaterHeatedMixing => Outputs { heater: !o.heater, mixer: !o.mixer, ..o },
        State::SoakWaterMixing => Outputs { mixer: !o.mixer, ..o },
        State::SoakWaterDraining => Outputs { upper_drain_pump: !o.upper_drain_pump, ..o },
        State::RinseWaterPumping => Outputs {
            upper_drain_pump: !o.upper_drain_pump,
            water_pump: !o.water_pump,
            ..o
        },
        State::RinseWaterDraining => Outputs { upper_drain_pump: !o.upper_drain_pump, ..o },
        State::SeparatorOpening => Outputs {
            separator_hatch_enable: !o.separator_hatch_enable,
            ..o
        },
        State::SeparatorHolding => o,
        State::SeparatorClosing => Outputs {
            separator_hatch_direction: !o.separator_hatch_direction,
            separator_hatch_enable: !o.separator_hatch_enable,
            ..o
        },
        State::Blending => Outputs { blender: !o.blender, ..o },
        State::PulpDraining => Outputs { lower_drain_pump: !o.lower_drain_pump, ..o },
        State::SetupSeparatorOpening => Outputs {
            separator_hatch_enable: !o.separator_hatch_enable,
            ..o
        },
        State::SetupWaterPumping => Outputs { water_pump: !o.water_pump, ..o },
        State::SetupSeparatorClosing => Outputs {
            separator_hatch_direction: !o.separator_hatch_direction,
            separator_hatch_enable: !o.separator_hatch_enable,
            ..o
        },
        State::Idling => Outputs { ready: !o.ready, ..o },
        State::Locking => Outputs {
            input_hatch_lock_enable: !o.input_hatch_lock_enable,
            ready: !o.ready,
            ..o
        },
        State::Unlocking => Outputs {
            input_hatch_lock_direction: !o.input_hatch_lock_direction,
            input_hatch_lock_enable: !o.input_hatch_lock_enable,
            ready: !o.ready,
            ..o
        },
    }
}

/// The cycle controller's context and actuator outputs.
pub struct Sketch {
    /// Current phase of the cycle.
    pub state: State,
    /// Clock reading at the last transition; elapsed time in the current
    /// phase is the wrapping difference from it.
    pub last_ms: Millis,
    /// Latched stop request: set when the stop input is sampled active,
    /// kept across polls, cleared only on arriving at a resting phase.
    pub stopping: bool,
    /// Commanded actuator levels.
    pub outputs: Outputs,
}

/// The controller's whole step for one poll, as a mathematical function
/// of the prior context and the sampled inputs: the stop level is
/// latched, then the state machine is consulted with the latched flag;
/// without a transition only the latch may change, and on a transition
/// the phase is swapped, the exit- and entry-actions are applied, and the
/// latch is cleared exactly when the new phase is a resting one.
pub open spec fn step_spec(pre: Sketch, delta: u32, starting: bool, stop_level: bool) -> Sketch {
    let latched = pre.stopping || stop_level;
    match next_spec(pre.state, delta, starting, latched) {
        None => Sketch { stopping: latched, ..pre },
        Some(next) => Sketch {
            state: next,
            stopping: latched && !is_idle(next),
            outputs: toggle_spec(next, toggle_spec(pre.state, pre.outputs)),
            ..pre
        },
    }
}

/// Whether the poll described by `step_spec` with these inputs takes a
/// transition.
pub open spec fn step_transitions(pre: Sketch, delta: u32, starting: bool, stop_level: bool) -> bool {
    next_spec(pre.state, delta, starting, pre.stopping || stop_level) is Some
}

impl Sketch {
    /// A controller as built at power-on: resting in the boot-time entry
    /// phase with the stop latch clear, the entry-action of that phase
    /// already applied to all-deasserted outputs, and `now` (the clock
    /// reading at construction) recorded as the last transition.
    pub fn new(now: Millis) -> (s: Sketch)
        ensures
            s.state == State::InitialDraining,
            s.last_ms == now,
            !s.stopping,
            s.outputs == toggle_spec(State::InitialDraining, outputs_off()),
    {
        let mut s = Sketch {
            state: State::InitialDraining,
            last_ms: now,
            stopping: false,
            outputs: Outputs {
                ready: false,
                blender: false,
                heater: false,
                mixer: false,
                separator_hatch_enable: false,
                separator_hatch_direction: false,
                input_hatch_lock_direction: false,
                input_hatch_lock_enable: false,
                water_pump: false,
                lower_drain_pump: false,
                upper_drain_pump: false,
            },
        };
        s.toggle_components();
        s
    }

    /// Current phase of the cycle.
    #[must_use]
    pub fn state(&self) -> (r: State)
        ensures
            r == self.state,
    {
        self.state
    }

    /// Toggles the actuators owned by the current phase.
    ///
    /// Called once when the phase is entered and once when it is left,
    /// with the former call acting as the entry-action and the latter as
    /// the exit-action; the pairing is what keeps the levels consistent.
    pub fn toggle_components(&mut self)
        ensures
            *final(self) == (Sketch {
                outputs: toggle_spec(old(self).state, old(self).outputs),
                ..*old(self)
            }),
    {
        self.outputs = toggled_outputs(self.state, self.outputs);
    }

    /// One poll with the elapsed time in the current phase already
    /// computed: latches the stop level, consults the state machine, and
    /// on a transition applies the exit- and entry-actions and clears
    /// the latch exactly when the new phase is a resting one.  Returns
    /// whether a transition was taken; `last_ms` is left to the caller
    /// (see [`Sketch::poll`]).
    pub fn update(&mut self, delta_ms: Millis, starting: bool, stop_level: bool) -> (transitioned:
        bool)
        ensures
            *final(self) == step_spec(*old(self), delta_ms.0, starting, stop_level),
            transitioned == step_transitions(*old(self), delta_ms.0, starting, stop_level),
    {
        let stopping = self.stopping || stop_level;
        self.stopping = stopping;

        let curr_state = self.state;
        let overriding_state = override_for(curr_state, delta_ms, starting, stopping);

        if let Some(next_state) = overriding_state {
            self.toggle_components();

            self.state = next_state;
            self.stopping = stopping && !next_state.is_idling();

            self.toggle_components();

            true
        } else {
            false
        }
    }

    /// One poll against the raw clock: computes the elapsed time in the
    /// current phase as the wrapping difference from the last
    /// transition, steps the controller, and records `now` as the last
    /// transition exactly when a transition was taken — `last_ms` and
    /// the phase change atomically together.
    pub fn poll(&mut self, now: Millis, starting: bool, stop_level: bool) -> (transitioned: bool)
        ensures
            ({
                let delta = wrap_sub(now.0, old(self).last_ms.0);
                let stepped = step_spec(*old(self), delta, starting, stop_level);
                &&& transitioned == step_transitions(*old(self), delta, starting, stop_level)
                &&& *final(self) == (Sketch {
                    last_ms: if transitioned {
                        now
                    } else {
                        old(self).last_ms
                    },
                    ..stepped
                })
            }),
    {
        let delta = now.wrapping_sub(self.last_ms);
        let transitioned = self.update(delta, starting, stop_level);
        if transitioned {
            self.last_ms = now;
        }
        transitioned
    }
}

/// Toggle pairing: a phase's actuator action is an involution, so the
/// exit-action exactly undoes the matching entry-action.  This is what
/// makes toggling (rather than explicit assert/deassert) safe, given
/// that the controller applies the two calls perfectly paired, once
/// each per visit.
pub proof fn lemma_toggle_involution(s: State, o: Outputs)
    ensures
        toggle_spec(s, toggle_spec(s, o)) == o,
{
}

/// Latch persistence: once the stop flag is latched, a poll keeps it
/// latched unless that very poll transitions into a resting phase — and
/// it is cleared exactly then, however the physical stop level reads in
/// the meantime.  Applied poll after poll, the latch survives every
/// transition until the machine reaches `Idling` or `InitialIdling`.
pub proof fn lemma_latch_persistence(pre: Sketch, delta: u32, starting: bool, stop_level: bool)
    requires
        pre.stopping,
    ensures
        step_spec(pre, delta, starting, stop_level).stopping <==> !(next_spec(
            pre.state,
            delta,
            starting,
            true,
        ) matches Some(next) && is_idle(next)),
        !is_idle(step_spec(pre, delta, starting, stop_level).state) ==> step_spec(
            pre,
            delta,
            starting,
            stop_level,
        ).stopping,
{
}

} // verus!
