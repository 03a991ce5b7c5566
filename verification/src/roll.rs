//! A roller shutter driven by a motor that stops by itself at either end.
//!
//! The position of the shutter is reckoned as the time for which the motor
//! has driven it down from the top. The motor draws current while it drives
//! and none when an end switch has stopped it, which is how the top and the
//! bottom are found.

use crate::timing::Duration;
use core::marker::PhantomData;
use vstd::prelude::*;

verus! {

/// An order to the shutter.
#[derive(Debug)]
pub enum Command<UNIT> {
    /// Drive to the top.
    SendUp,
    /// Drive to the bottom.
    SendDown,
    /// Drive to the position given.
    SendTo(Duration<UNIT>),
    /// Stop where it is.
    Stop,
}

impl<UNIT> Clone for Command<UNIT> {
    fn clone(&self) -> (command: Self)
        ensures
            command == *self,
    {
        *self
    }
}

impl<UNIT> Copy for Command<UNIT> {

}

impl<UNIT> PartialEq for Command<UNIT> {
    fn eq(&self, other: &Self) -> (r: bool) {
        match (*self, *other) {
            (Command::SendUp, Command::SendUp) => true,
            (Command::SendDown, Command::SendDown) => true,
            (Command::SendTo(a), Command::SendTo(b)) => a.count == b.count,
            (Command::Stop, Command::Stop) => true,
            _ => false,
        }
    }
}

impl<UNIT> vstd::std_specs::cmp::PartialEqSpecImpl for Command<UNIT> {
    open spec fn obeys_eq_spec() -> bool {
        true
    }

    open spec fn eq_spec(&self, other: &Self) -> bool {
        *self == *other
    }
}

/// What the motor is doing.
#[derive(Copy, Clone, Debug, PartialEq, Eq, Structural)]
pub enum State {
    DrivingUp,
    DrivingDown,
    Stopped,
}

/// What a [`Roll`] holds, as plain numbers.
pub struct Shutter {
    pub state: State,
    /// Where the shutter is reckoned to be.
    pub current: int,
    /// Where it is driving to, unless to an end.
    pub target: Option<int>,
    /// Where the bottom was found, once it was.
    pub bottom: Option<int>,
}

impl Shutter {
    /// A shutter at rest at the top, with the bottom not found yet.
    pub open spec fn at_top() -> Shutter {
        Shutter { state: State::Stopped, current: 0, target: None, bottom: None }
    }

    /// The shutter after an order to stop: it stops, and keeps its target.
    pub open spec fn halted(self) -> Shutter {
        Shutter { state: State::Stopped, ..self }
    }

    /// The shutter after an order for an end: it drives that way, whatever
    /// its position is reckoned to be, and has no target.
    pub open spec fn sent(self, direction: State) -> Shutter {
        Shutter { state: direction, target: None, ..self }
    }

    /// The shutter after an order for a position: it drives towards it, or
    /// stops where it is there already.
    pub open spec fn sent_to(self, position: int) -> Shutter {
        Shutter {
            state: if self.current < position {
                State::DrivingDown
            } else if self.current > position {
                State::DrivingUp
            } else {
                State::Stopped
            },
            target: Some(position),
            ..self
        }
    }

    /// The shutter after `delta` more of time, in which the motor drew
    /// current or did not.
    ///
    /// No time or no driving changes nothing. Driving moves the position,
    /// which stays between the top and `limit`. A motor without current has
    /// met an end: the shutter has stopped, at the top the position starts
    /// from nothing again, at the bottom it is noted as the bottom. A motor
    /// with current stops at or past its target.
    pub open spec fn after(self, delta: int, driving_current_detected: bool, limit: int) -> Shutter {
        if delta == 0 {
            self
        } else {
            match self.state {
                State::Stopped => self,
                State::DrivingDown => {
                    let current = if self.current + delta <= limit {
                        self.current + delta
                    } else {
                        limit
                    };
                    if !driving_current_detected {
                        Shutter {
                            state: State::Stopped,
                            current,
                            target: None,
                            bottom: Some(current),
                        }
                    } else if self.target matches Some(position) && current >= position {
                        Shutter { state: State::Stopped, current, target: None, ..self }
                    } else {
                        Shutter { current, ..self }
                    }
                },
                State::DrivingUp => {
                    let current = if self.current > delta {
                        self.current - delta
                    } else {
                        0
                    };
                    if !driving_current_detected {
                        Shutter { state: State::Stopped, current: 0, target: None, ..self }
                    } else if self.target matches Some(position) && current <= position {
                        Shutter { state: State::Stopped, current, target: None, ..self }
                    } else {
                        Shutter { current, ..self }
                    }
                },
            }
        }
    }
}

/// Reckoner of the position of a roller shutter.
pub struct Roll<UNIT> {
    state: State,
    current: Duration<UNIT>,
    target: Option<Duration<UNIT>>,
    bottom: Option<Duration<UNIT>>,
}

impl<UNIT> View for Roll<UNIT> {
    type V = Shutter;

    closed spec fn view(&self) -> Shutter {
        Shutter {
            state: self.state,
            current: self.current.count as int,
            target: match self.target {
                Some(position) => Some(position.count as int),
                None => None,
            },
            bottom: match self.bottom {
                Some(position) => Some(position.count as int),
                None => None,
            },
        }
    }
}

impl<UNIT> Roll<UNIT> {
    /// A shutter at rest at the top, with the bottom not found yet.
    pub fn new() -> (roll: Roll<UNIT>)
        ensures
            roll@ == Shutter::at_top(),
    {
        Roll {
            state: State::Stopped,
            current: Duration { count: 0, unit: PhantomData },
            target: None,
            bottom: None,
        }
    }

    /// Reckons with `delta_t` more of time, in which the motor drew current
    /// or did not. Returns what the motor is to do from now on. The position
    /// is held in 32 bits and stops at the largest.
    pub fn update(&mut self, delta_t: Duration<UNIT>, driving_current_detected: bool) -> (state:
        State)
        ensures
            final(self)@ == old(self)@.after(
                delta_t.count as int,
                driving_current_detected,
                u32::MAX as int,
            ),
            state == final(self)@.state,
    {
        if delta_t.count != 0 {
            match self.state {
                State::Stopped => {},
                State::DrivingDown => {
                    let current: u32 = match self.current.count.checked_add(delta_t.count) {
                        Some(sum) => sum,
                        None => u32::MAX,
                    };
                    self.current = Duration { count: current, unit: PhantomData };
                    if !driving_current_detected {
                        self.state = State::Stopped;
                        self.bottom = Some(self.current);
                        self.target = None;
                    } else {
                        if let Some(position) = self.target {
                            if current >= position.count {
                                self.target = None;
                                self.state = State::Stopped;
                            }
                        }
                    }
                },
                State::DrivingUp => {
                    let current: u32 = if self.current.count > delta_t.count {
                        self.current.count - delta_t.count
                    } else {
                        0
                    };
                    self.current = Duration { count: current, unit: PhantomData };
                    if !driving_current_detected {
                        self.state = State::Stopped;
                        self.current = Duration { count: 0, unit: PhantomData };
                        self.target = None;
                    } else {
                        if let Some(position) = self.target {
                            if current <= position.count {
                                self.target = None;
                                self.state = State::Stopped;
                            }
                        }
                    }
                },
            }
        }
        self.state
    }

    /// Takes an order.
    pub fn execute(&mut self, command: Command<UNIT>)
        ensures
            final(self)@ == (match command {
                Command::Stop => old(self)@.halted(),
                Command::SendUp => old(self)@.sent(State::DrivingUp),
                Command::SendDown => old(self)@.sent(State::DrivingDown),
                Command::SendTo(position) => old(self)@.sent_to(position.count as int),
            }),
    {
        match command {
            Command::Stop => {
                self.state = State::Stopped;
            },
            Command::SendUp => {
                self.target = None;
                self.state = State::DrivingUp;
            },
            Command::SendDown => {
                self.target = None;
                self.state = State::DrivingDown;
            },
            Command::SendTo(position) => {
                if self.current.count < position.count {
                    self.state = State::DrivingDown;
                } else if self.current.count > position.count {
                    self.state = State::DrivingUp;
                } else {
                    self.state = State::Stopped;
                }
                self.target = Some(position);
            },
        }
    }

    /// Where the bottom was found; `None` until the shutter has been driven
    /// into it.
    pub fn bottom(&self) -> (bottom: &Option<Duration<UNIT>>)
        ensures
            match *bottom {
                Some(position) => self@.bottom == Some(position.count as int),
                None => self@.bottom is None,
            },
    {
        &self.bottom
    }
}

} // verus!
