use grprp::duration;
use grprp::millis::Millis;
use grprp::sketch::Outputs;
use grprp::sketch::Sketch;
use grprp::sketch::toggled_outputs;
use grprp::state::State;

fn outputs_off() -> Outputs {
    Outputs {
        ready: false,
        blender: false,
        heater: false,
        mixer: false,
        separator_hatch_enable: false,
        separator_hatch_direction: false,
        input_hatch_lock_direction: false,
        input_hatch_lock_enable: false,
        water_pump: false,
        lower_drain_pump: false,
        upper_drain_pump: false,
    }
}

fn all_states() -> Vec<State> {
    vec![
        State::InitialDraining,
        State::InitialIdling,
        State::InitialLocking,
        State::InitialUnlocking,
        State::InitialSetupSeparatorOpening,
        State::InitialSetupWaterPumping,
        State::InitialSetupSeparatorClosing,
        State::SoakWaterPumping,
        State::SoakWaterHeating,
        State::SoakWaterHeatedMixing,
        State::SoakWaterMixing,
        State::SoakWaterDraining,
        State::RinseWaterPumping,
        State::RinseWaterDraining,
        State::SeparatorOpening,
        State::SeparatorHolding,
        State::SeparatorClosing,
        State::Blending,
        State::PulpDraining,
        State::SetupSeparatorOpening,
        State::SetupWaterPumping,
        State::SetupSeparatorClosing,
        State::Idling,
        State::Locking,
        State::Unlocking,
    ]
}

#[test]
fn power_on_state() {
    let sketch = Sketch::new(Millis(42));
    assert_eq!(sketch.state(), State::InitialDraining);
    assert_eq!(sketch.last_ms, Millis(42));
    assert!(!sketch.stopping);
    // The boot phase's entry-action asserts both drain pumps and nothing else.
    let expected = Outputs { lower_drain_pump: true, upper_drain_pump: true, ..outputs_off() };
    assert_eq!(sketch.outputs, expected);
}

#[test]
fn no_transition_changes_nothing_but_the_latch() {
    let mut sketch = Sketch::new(Millis(0));
    let before = sketch.outputs;
    assert!(!sketch.update(Millis(duration::DRAINING - 1), false, false));
    assert_eq!(sketch.state(), State::InitialDraining);
    assert_eq!(sketch.outputs, before);
    assert!(!sketch.stopping);
    // A stop press during a poll without a transition still latches.
    assert!(!sketch.update(Millis(duration::DRAINING - 1), false, true));
    assert_eq!(sketch.outputs, before);
    assert!(sketch.stopping);
}

#[test]
fn toggle_actions_pair_up() {
    // Toggling a phase's actuator set twice restores every level: an
    // entry-action is exactly undone by the matching exit-action.
    let mut levels = outputs_off();
    levels.ready = true;
    levels.heater = true;
    for &state in all_states().iter() {
        assert_eq!(toggled_outputs(state, toggled_outputs(state, levels)), levels);
    }
}

#[test]
fn end_to_end_setup_cycle() {
    let mut sketch = Sketch::new(Millis(0));

    // Drain completes; machine comes to rest, ready indicator lit.
    assert!(sketch.update(Millis(duration::DRAINING), false, false));
    assert_eq!(sketch.state(), State::InitialIdling);
    assert!(sketch.outputs.ready);
    assert!(!sketch.outputs.lower_drain_pump);
    assert!(!sketch.outputs.upper_drain_pump);

    // Waits for the start signal indefinitely.
    assert!(!sketch.update(Millis(u32::MAX), false, false));
    assert_eq!(sketch.state(), State::InitialIdling);

    // Start pressed: locking begins; ready stays lit, lock motor on.
    assert!(sketch.update(Millis(0), true, false));
    assert_eq!(sketch.state(), State::InitialLocking);
    assert!(sketch.outputs.ready);
    assert!(sketch.outputs.input_hatch_lock_enable);

    // Start still held but dwell time not yet served.
    assert!(!sketch.update(Millis(duration::LOCKING - 1), true, false));
    assert_eq!(sketch.state(), State::InitialLocking);

    // Lock dwell served: separator opens for the setup fill.
    assert!(sketch.update(Millis(duration::LOCKING), true, false));
    assert_eq!(sketch.state(), State::InitialSetupSeparatorOpening);
    assert!(!sketch.outputs.ready);
    assert!(!sketch.outputs.input_hatch_lock_enable);
    assert!(sketch.outputs.separator_hatch_enable);

    assert!(sketch.update(Millis(duration::SEPARATOR_TRANSITION), true, false));
    assert_eq!(sketch.state(), State::InitialSetupWaterPumping);
    assert!(!sketch.outputs.separator_hatch_enable);
    assert!(sketch.outputs.water_pump);

    assert!(sketch.update(Millis(duration::WATER_PUMPING), true, false));
    assert_eq!(sketch.state(), State::InitialSetupSeparatorClosing);
    assert!(!sketch.outputs.water_pump);
    assert!(sketch.outputs.separator_hatch_enable);
    assert!(sketch.outputs.separator_hatch_direction);

    assert!(sketch.update(Millis(duration::SEPARATOR_TRANSITION), true, false));
    assert_eq!(sketch.state(), State::SoakWaterPumping);
    assert!(!sketch.outputs.separator_hatch_enable);
    assert!(!sketch.outputs.separator_hatch_direction);
    assert!(sketch.outputs.water_pump);
    assert!(!sketch.stopping);
}

#[test]
fn abort_reversal_while_locking() {
    let mut sketch = Sketch::new(Millis(0));
    assert!(sketch.update(Millis(duration::DRAINING), false, false));
    assert!(sketch.update(Millis(0), true, false));
    assert_eq!(sketch.state(), State::InitialLocking);

    // Start released before the lock dwell elapses: reverse into unlocking.
    assert!(sketch.update(Millis(duration::LOCKING - 1), false, false));
    assert_eq!(sketch.state(), State::InitialUnlocking);
    assert!(sketch.outputs.input_hatch_lock_enable);
    assert!(sketch.outputs.input_hatch_lock_direction);
    assert!(sketch.outputs.ready);

    // Unlock dwell served: back to rest.
    assert!(sketch.update(Millis(duration::LOCKING), false, false));
    assert_eq!(sketch.state(), State::InitialIdling);
    assert!(!sketch.outputs.input_hatch_lock_enable);
    assert!(!sketch.outputs.input_hatch_lock_direction);
    assert!(sketch.outputs.ready);
}

#[test]
fn stop_latch_persists_until_idle() {
    // Resident in the soak-heating phase with the heater on.
    let mut sketch = Sketch::new(Millis(0));
    sketch.state = State::SoakWaterHeating;
    sketch.outputs = Outputs { heater: true, ..outputs_off() };

    // A momentary stop press aborts the soak at once, pre-threshold.
    assert!(sketch.update(Millis(0), false, true));
    assert_eq!(sketch.state(), State::SoakWaterDraining);
    assert!(!sketch.outputs.heater);
    assert!(sketch.outputs.upper_drain_pump);
    assert!(sketch.stopping);

    // The stop input is inactive from here on; the latch must persist.
    assert!(!sketch.update(Millis(duration::DRAINING - 1), false, false));
    assert!(sketch.stopping);

    // The drain junction honors the latch and branches to rest, where
    // the latch is finally cleared.
    assert!(sketch.update(Millis(duration::DRAINING), false, false));
    assert_eq!(sketch.state(), State::Idling);
    assert!(!sketch.stopping);
    assert!(sketch.outputs.ready);
    assert!(!sketch.outputs.upper_drain_pump);

    // After the latch cleared, a fresh start runs a normal cycle again.
    assert!(sketch.update(Millis(0), true, false));
    assert_eq!(sketch.state(), State::Locking);
    assert!(!sketch.stopping);
}

#[test]
fn rinse_completes_without_stop() {
    let mut sketch = Sketch::new(Millis(0));
    sketch.state = State::SoakWaterDraining;
    sketch.outputs = Outputs { upper_drain_pump: true, ..outputs_off() };

    // No stop latched: the drain junction continues forward to rinsing.
    assert!(sketch.update(Millis(duration::DRAINING), false, false));
    assert_eq!(sketch.state(), State::RinseWaterPumping);
    assert!(sketch.outputs.water_pump);

    assert!(sketch.update(Millis(duration::RINSING), false, false));
    assert_eq!(sketch.state(), State::RinseWaterDraining);
    assert!(!sketch.outputs.water_pump);

    assert!(sketch.update(Millis(duration::DRAINING), false, false));
    assert_eq!(sketch.state(), State::SeparatorOpening);
}

#[test]
fn poll_updates_last_transition_atomically() {
    let mut sketch = Sketch::new(Millis(1000));

    // Not enough time in phase: last_ms must keep its old reading.
    assert!(!sketch.poll(Millis(1000 + duration::DRAINING - 1), false, false));
    assert_eq!(sketch.last_ms, Millis(1000));
    assert_eq!(sketch.state(), State::InitialDraining);

    // Transition: last_ms moves to the clock reading of this poll.
    assert!(sketch.poll(Millis(1000 + duration::DRAINING), false, false));
    assert_eq!(sketch.last_ms, Millis(1000 + duration::DRAINING));
    assert_eq!(sketch.state(), State::InitialIdling);
}

#[test]
fn poll_survives_counter_wrap() {
    // The reference reading sits just below the wrap point; the current
    // reading has wrapped past zero.
    let start = u32::MAX - 99;
    let mut sketch = Sketch::new(Millis(start));
    // 100 ms before the wrap plus 4899 after it: 4999 ms elapsed.
    assert!(!sketch.poll(Millis(4899), false, false));
    assert_eq!(sketch.state(), State::InitialDraining);
    // One more millisecond reaches the drain dwell time.
    assert!(sketch.poll(Millis(4900), false, false));
    assert_eq!(sketch.state(), State::InitialIdling);
    assert_eq!(sketch.last_ms, Millis(4900));
}
