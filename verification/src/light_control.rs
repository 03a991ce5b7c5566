//! A lamp that is switched by a wall switch, by a movement sensor or by
//! both.
//!
//! The wall switch is a toggle: what counts is whether it agrees with the
//! lamp, not where it stands. In the mixed mode a quick flick of the switch
//! changes between following the switch and following the movement sensor.

use vstd::prelude::*;

verus! {

/// What the lamp follows.
#[derive(Clone, Copy, Debug, PartialEq, Eq, Structural)]
pub enum Mode {
    /// Nothing: only [`Controller::set_lighting`] changes the lamp.
    Constant,
    /// The wall switch.
    ManualOnly,
    /// The movement sensor.
    MovementOnly,
    /// The movement sensor (`true`) or the wall switch (`false`), as chosen
    /// by a quick flick of the switch.
    Mixed(bool),
}

/// What is remembered of lamp and switch between two readings.
#[derive(Clone, Copy, Debug, PartialEq, Eq, Structural)]
pub struct State {
    pub mode: Mode,
    /// Whether the lamp is meant to be lit.
    pub current_lamp: bool,
    /// Where the switch stood when the lamp was last set.
    pub last_switch: bool,
    /// When the switch was last seen to change.
    pub transition_time: u32,
    /// When the lamp was last lit, or movement was last seen.
    pub last_turn_on_time: u32,
    /// Whether the lamp was lit with the switch off, or dark with it on,
    /// when the lamp was last set.
    pub switch_lamp_inconsistency: bool,
}

impl State {
    /// The state with the lamp and the switch as found at the time
    /// `current_time`.
    pub open spec fn initial(
        mode: Mode,
        current_lamp: bool,
        current_switch: bool,
        current_time: u32,
    ) -> State {
        State {
            mode,
            current_lamp,
            last_switch: current_switch,
            transition_time: current_time,
            last_turn_on_time: current_time,
            switch_lamp_inconsistency: current_lamp != current_switch,
        }
    }

    /// The state when the lamp has been set to `on` at the time `t` with the
    /// switch at `current_switch`. The time counts as that of lighting only
    /// where the lamp was dark before.
    pub open spec fn with_lamp(self, on: bool, t: u32, current_switch: bool) -> State {
        State {
            current_lamp: on,
            last_turn_on_time: if on && !self.current_lamp {
                t
            } else {
                self.last_turn_on_time
            },
            last_switch: current_switch,
            switch_lamp_inconsistency: on != current_switch,
            ..self
        }
    }

    /// Whether, in the mixed mode, the time `t` is within `mode_switch_timeout`
    /// of the last change of the switch, so that the choice between switch
    /// and sensor is still open.
    pub open spec fn settling(self, mode_switch_timeout: u32, t: u32) -> bool {
        self.mode is Mixed && t <= self.transition_time + mode_switch_timeout
    }

    /// Whether the switch asks for light: whether it stands where the lamp
    /// was not when the two were last set against each other.
    pub open spec fn switch_asks(self, current_switch: bool) -> bool {
        current_switch != self.switch_lamp_inconsistency
    }

    /// Whether the mode asks for light at the time `t`.
    ///
    /// By the switch, it does while the switch asks for it and, where there
    /// is a timeout, no more than that has passed since the lamp was lit. By
    /// the sensor, it does until the timeout has passed since movement was
    /// last seen. In the constant mode the lamp stays as it is.
    pub open spec fn wanted(
        self,
        movement_timeout: u32,
        manual_timeout: Option<u32>,
        t: u32,
        current_switch: bool,
        current_movement: bool,
    ) -> bool {
        match self.mode {
            Mode::ManualOnly | Mode::Mixed(false) => {
                &&& self.switch_asks(current_switch)
                &&& manual_timeout matches Some(timeout) ==> t <= self.last_turn_on_time + timeout
            },
            Mode::MovementOnly | Mode::Mixed(true) => {
                current_movement || t <= self.last_turn_on_time + movement_timeout
            },
            Mode::Constant => self.current_lamp,
        }
    }

    /// The state after the readings `current_switch`, `current_movement` and
    /// `current_lamp` at the time `t`, and whether the lamp is to be lit.
    ///
    /// While the choice of the mixed mode is open, a change of the switch
    /// flips the choice and the lamp is left as it is found. Otherwise the
    /// lamp is set to what the mode asks for; movement counts as of now, and
    /// in the mixed mode a change of the switch is timed.
    pub open spec fn updated(
        self,
        mode_switch_timeout: u32,
        movement_timeout: u32,
        manual_timeout: Option<u32>,
        t: u32,
        current_switch: bool,
        current_movement: bool,
        current_lamp: bool,
    ) -> (State, bool) {
        let changed = self.last_switch != current_switch;
        if self.settling(mode_switch_timeout, t) {
            if changed {
                (State { transition_time: t, mode: Mode::Mixed(!self.mode->Mixed_0), ..self }, current_lamp)
            } else {
                (self, current_lamp)
            }
        } else {
            let timed = State {
                transition_time: if self.mode is Mixed && changed {
                    t
                } else {
                    self.transition_time
                },
                last_turn_on_time: if (self.mode == Mode::MovementOnly || self.mode == Mode::Mixed(
                    true,
                )) && current_movement {
                    t
                } else {
                    self.last_turn_on_time
                },
                ..self
            };
            let on = self.wanted(
                movement_timeout,
                manual_timeout,
                t,
                current_switch,
                current_movement,
            );
            (timed.with_lamp(on, t, current_switch), on)
        }
    }

    /// The state with the lamp and the switch as found at the time
    /// `current_time`.
    pub fn new(mode: Mode, current_lamp: bool, current_switch: bool, current_time: u32) -> (state:
        State)
        ensures
            state == State::initial(mode, current_lamp, current_switch, current_time),
    {
        State {
            mode,
            current_lamp,
            last_switch: current_switch,
            transition_time: current_time,
            last_turn_on_time: current_time,
            switch_lamp_inconsistency: current_lamp != current_switch,
        }
    }

    /// Sets the lamp to `on` at the time `t`, with the switch at
    /// `current_switch`. Returns whether the lamp is to be lit.
    pub fn set(&mut self, on: bool, t: u32, current_switch: bool) -> (lit: bool)
        ensures
            *final(self) == old(self).with_lamp(on, t, current_switch),
            lit == on,
    {
        if on {
            if !self.current_lamp {
                self.last_turn_on_time = t;
                self.current_lamp = true;
            }
        } else {
            self.current_lamp = false;
        }
        self.last_switch = current_switch;
        self.switch_lamp_inconsistency = self.current_lamp != current_switch;
        self.current_lamp
    }

    /// Takes the readings `current_switch`, `current_movement` and
    /// `current_lamp` at the time `t`. Returns whether the lamp is to be lit.
    pub fn update(
        &mut self,
        mode_switch_timeout: u32,
        movement_timeout: u32,
        manual_timeout: Option<u32>,
        t: u32,
        current_switch: bool,
        current_movement: bool,
        current_lamp: bool,
    ) -> (lit: bool)
        ensures
            (*final(self), lit) == old(self).updated(
                mode_switch_timeout,
                movement_timeout,
                manual_timeout,
                t,
                current_switch,
                current_movement,
                current_lamp,
            ),
    {
        if let Mode::Mixed(auto) = self.mode {
            let transition = self.last_switch != current_switch;
            if t as u64 <= self.transition_time as u64 + mode_switch_timeout as u64 {
                if transition {
                    self.transition_time = t;
                    self.mode = Mode::Mixed(!auto);
                }
                return current_lamp;
            }
            if transition {
                self.transition_time = t;
            }
        }
        let on = match self.mode {
            Mode::ManualOnly | Mode::Mixed(false) => {
                let asked = current_switch ^ self.switch_lamp_inconsistency;
                match manual_timeout {
                    Some(timeout) => t as u64 <= self.last_turn_on_time as u64 + timeout as u64
                        && asked,
                    None => asked,
                }
            },
            Mode::MovementOnly | Mode::Mixed(true) => {
                if current_movement {
                    self.last_turn_on_time = t;
                }
                t as u64 <= self.last_turn_on_time as u64 + movement_timeout as u64
            },
            Mode::Constant => self.current_lamp,
        };
        self.set(on, t, current_switch)
    }
}

/// The time for which the lamp stays lit after movement, in seconds.
pub const MOVEMENT_TIMEOUT: u32 = 120;

/// The time after which a lamp lit by the switch goes out, in seconds.
pub const MANUAL_TIMEOUT: u32 = 1800;

/// Controller of one lamp.
pub struct Controller {
    movement_timeout: u32,
    manual_timeout: Option<u32>,
    state: State,
}

impl Controller {
    /// What the controller remembers of lamp and switch.
    pub closed spec fn state(&self) -> State {
        self.state
    }

    /// The time for which the lamp stays lit after movement.
    pub closed spec fn movement_timeout(&self) -> u32 {
        self.movement_timeout
    }

    /// The time after which a lamp lit by the switch goes out, if it does.
    pub closed spec fn manual_timeout(&self) -> Option<u32> {
        self.manual_timeout
    }

    /// A controller in the mode `mode`, started at the time 0 with the lamp
    /// found at `lighting` and the switch at `switched`.
    pub fn new(mode: Mode, lighting: bool, switched: bool) -> (controller: Controller)
        ensures
            controller.state() == State::initial(mode, lighting, switched, 0),
            controller.movement_timeout() == MOVEMENT_TIMEOUT,
            controller.manual_timeout() == Some(MANUAL_TIMEOUT),
    {
        Controller {
            movement_timeout: MOVEMENT_TIMEOUT,
            manual_timeout: Some(MANUAL_TIMEOUT),
            state: State::new(mode, lighting, switched, 0),
        }
    }

    /// Takes the readings of switch, movement sensor and lamp at the time
    /// `t`. Returns whether the lamp is to be lit. The choice of the mixed
    /// mode is open only at the very time of a change of the switch.
    pub fn update(&mut self, t: u32, switched: bool, movement: bool, lighting: bool) -> (lit: bool)
        ensures
            (final(self).state(), lit) == old(self).state().updated(
                0,
                old(self).movement_timeout(),
                old(self).manual_timeout(),
                t,
                switched,
                movement,
                lighting,
            ),
            final(self).movement_timeout() == old(self).movement_timeout(),
            final(self).manual_timeout() == old(self).manual_timeout(),
    {
        self.state.update(
            0u32,
            self.movement_timeout,
            self.manual_timeout,
            t,
            switched,
            movement,
            lighting,
        )
    }

    /// What the lamp follows at present.
    pub fn current_mode(&self) -> (mode: Mode)
        ensures
            mode == self.state().mode,
    {
        self.state.mode
    }

    /// Sets the lamp to `on` at the time `t`, with the switch at `switched`.
    /// Returns whether the lamp is to be lit.
    pub fn set_lighting(&mut self, on: bool, t: u32, switched: bool) -> (lit: bool)
        ensures
            final(self).state() == old(self).state().with_lamp(on, t, switched),
            final(self).movement_timeout() == old(self).movement_timeout(),
            final(self).manual_timeout() == old(self).manual_timeout(),
            lit == on,
    {
        self.state.set(on, t, switched)
    }
}

} // verus!
