use room_pill::light_control::{Controller, Mode, State};

#[test]
fn state_starts_as_found() {
    let state = State::new(Mode::ManualOnly, true, false, 7);
    assert_eq!(
        state,
        State {
            mode: Mode::ManualOnly,
            current_lamp: true,
            last_switch: false,
            transition_time: 7,
            last_turn_on_time: 7,
            switch_lamp_inconsistency: true,
        }
    );
}

#[test]
fn set_times_the_lighting_only() {
    let mut state = State::new(Mode::Constant, false, false, 0);
    assert!(state.set(true, 5, false));
    assert_eq!(state.last_turn_on_time, 5);
    assert!(state.switch_lamp_inconsistency);
    assert!(state.set(true, 9, true));
    assert_eq!(state.last_turn_on_time, 5);
    assert!(!state.switch_lamp_inconsistency);
    assert_eq!(state.last_switch, true);
    assert!(!state.set(false, 11, true));
    assert_eq!(state.last_turn_on_time, 5);
    assert!(state.switch_lamp_inconsistency);
    assert!(!state.current_lamp);
}

#[test]
fn switch_toggles_the_lamp() {
    let mut controller = Controller::new(Mode::ManualOnly, false, false);
    assert_eq!(controller.current_mode(), Mode::ManualOnly);
    assert!(!controller.update(1, false, false, false));
    assert!(controller.update(2, true, false, false));
    assert!(controller.update(3, true, true, true));
    assert!(!controller.update(4, false, false, true));
    // lit by command with the switch off: the switch now works the other way
    assert!(controller.set_lighting(true, 5, false));
    assert!(controller.update(6, false, false, true));
    assert!(!controller.update(7, true, false, true));
    assert!(!controller.update(8, true, false, false));
    assert!(controller.update(9, false, false, false));
}

#[test]
fn lamp_lit_by_the_switch_goes_out_after_half_an_hour() {
    let mut controller = Controller::new(Mode::ManualOnly, false, false);
    assert!(controller.update(10, true, false, false));
    assert!(controller.update(1810, true, false, true));
    assert!(!controller.update(1811, true, false, true));
}

#[test]
fn movement_keeps_the_lamp_lit_for_two_minutes() {
    let mut controller = Controller::new(Mode::MovementOnly, false, false);
    // at the start the time of the last movement is 0; lighting the lamp
    // counts like movement
    assert!(controller.update(120, false, false, false));
    assert!(controller.update(240, false, false, true));
    assert!(!controller.update(241, false, false, true));
    assert!(!controller.update(242, false, false, false));
    assert!(controller.update(500, false, true, false));
    assert!(controller.update(620, false, false, true));
    assert!(!controller.update(621, false, false, true));
    // the switch is of no account
    assert!(!controller.update(622, true, false, false));
}

#[test]
fn constant_mode_follows_commands_only() {
    let mut controller = Controller::new(Mode::Constant, false, false);
    assert!(!controller.update(1, true, true, false));
    assert!(controller.set_lighting(true, 2, true));
    assert!(controller.update(3, false, false, true));
    assert_eq!(controller.current_mode(), Mode::Constant);
}

#[test]
fn mixed_mode_flips_on_a_change_in_the_same_instant() {
    let mut controller = Controller::new(Mode::Mixed(false), false, false);
    // within the time of the last change (0) a change flips the choice and
    // the lamp is left as found
    assert!(controller.update(0, true, false, true));
    assert_eq!(controller.current_mode(), Mode::Mixed(true));
    assert!(!controller.update(0, true, false, false));
    assert_eq!(controller.current_mode(), Mode::Mixed(false));
    // later changes are timed but leave the mode
    assert!(controller.update(5, true, false, false));
    assert_eq!(controller.current_mode(), Mode::Mixed(false));
}

#[test]
fn mixed_mode_with_a_timeout_settles() {
    let mut state = State::new(Mode::Mixed(true), false, false, 100);
    // a flick within 10 of the last change makes it follow the switch
    assert!(!state.update(10, 120, None, 105, true, false, false));
    assert_eq!(state.mode, Mode::Mixed(false));
    assert_eq!(state.transition_time, 105);
    assert_eq!(state.last_switch, false);
    // still settling: nothing is done to the lamp
    assert!(state.update(10, 120, None, 115, false, false, true));
    assert_eq!(state.mode, Mode::Mixed(false));
    // settled: the switch is followed
    assert!(state.update(10, 120, None, 116, true, false, false));
    assert_eq!(state.transition_time, 116);
    assert_eq!(state.mode, Mode::Mixed(false));
    assert_eq!(state.last_turn_on_time, 116);
}

#[test]
fn times_near_the_end_of_the_range_do_not_overflow() {
    let mut state = State::new(Mode::MovementOnly, true, false, u32::MAX - 5);
    assert!(state.update(0, 120, None, u32::MAX, false, false, true));
    let mut state = State::new(Mode::ManualOnly, true, false, u32::MAX - 5);
    // the lamp was found lit with the switch off: on means off
    assert!(state.update(0, 120, Some(u32::MAX), u32::MAX, false, false, true));
    assert!(!state.update(0, 120, Some(u32::MAX), u32::MAX, true, false, true));
}
