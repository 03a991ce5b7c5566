//! Supervisor of a hydronic floor-heating loop.
//!
//! [`State::update`] is the transition function of a small state machine. Once
//! per control tick it is given the configuration, the four temperature
//! readings and the time since the last tick, and returns the state for the
//! next tick. The caller drives the valve, the pump and the heat request from
//! [`State::actuation`]. Overheating of the forward pipe or of the floor ends
//! heating at once, a loop that is too cold is heated until it is safe again,
//! and a reading that is missing from both of the sensors that could give it
//! shows as one tick in [`State::Error`].

use crate::rgb::Colors;
use crate::temperature::Temperature;
use crate::timing::{Duration, Seconds};
use core::marker::PhantomData;
use vstd::prelude::*;

verus! {

/// The state of the supervisor. A span held in a state counts the time spent
/// in it and starts from zero when the state is entered.
#[derive(Clone, Copy, Debug, PartialEq)]
pub enum State {
    /// Valve open and pump running ahead of the heat request, for defrosting
    /// (`true`) or for comfort (`false`).
    PrepareHeating(bool, Duration<Seconds>),
    /// Heat requested, for defrosting (`true`) or for comfort (`false`).
    Heating(bool),
    /// Pump running on with the valve shut, to spread the heat left over.
    AfterCirculation(Duration<Seconds>),
    /// Everything off. The span is the time since the last freeze check.
    Standby(Duration<Seconds>),
    /// Pump running with the valve shut, to read the loop's own temperature.
    FreezeProtectionCheckCirculation(Duration<Seconds>),
    /// No sensor could give a reading that was needed.
    Error,
}

/// Limits of the protection against freezing.
#[derive(Clone, Copy, Debug)]
pub struct FreezeProtectionConfig {
    /// Below this the loop is defrosted.
    pub min_temperature: Temperature,
    /// From this on defrosting ends.
    pub safe_temperature: Temperature,
    /// Time in standby after which the loop is checked.
    pub check_interval: Duration<Seconds>,
    /// Time for which a check circulates.
    pub check_duration: Duration<Seconds>,
}

/// What the supervisor is asked to hold.
#[derive(Clone, Copy, Debug)]
pub struct Config {
    /// Heating ends when the forward pipe is this hot.
    pub max_forward_temperature: Temperature,
    /// Heating ends when the floor is this hot.
    pub max_floor_temperature: Temperature,
    /// The air temperature wanted; `None` asks for no heating.
    pub target_air_temperature: Option<Temperature>,
    /// Half the width of the band round the target in which nothing changes.
    pub temperature_hysteresis: Temperature,
    pub freeze_protection: FreezeProtectionConfig,
    /// Time for which the valve opens before heat is requested.
    pub pre_circulation_duration: Duration<Seconds>,
    /// Time for which the pump runs on after heating.
    pub after_circulation_duration: Duration<Seconds>,
}

/// What a state asks of the valve.
#[derive(Clone, Copy, Debug, PartialEq, Eq, Structural)]
pub enum ValveCommand {
    Open,
    Close,
    Hold,
}

/// What a state asks of the pump.
#[derive(Clone, Copy, Debug, PartialEq, Eq, Structural)]
pub enum PumpCommand {
    Start,
    Stop,
    Hold,
}

/// The outputs that a state implies.
#[derive(Clone, Copy, Debug, PartialEq, Eq, Structural)]
pub struct Actuation {
    pub valve: ValveCommand,
    pub pump: PumpCommand,
    /// Whether the heat source is asked for heat.
    pub heat_request: bool,
}

/// The span of `count` seconds.
pub open spec fn seconds(count: int) -> Duration<Seconds> {
    Duration { count: count as u32, unit: PhantomData }
}

/// The time spent in a state after one more tick of `delta`. It stops at the
/// largest span that can be held.
pub open spec fn accumulated(elapsed: Duration<Seconds>, delta: Duration<Seconds>) -> Duration<
    Seconds,
> {
    if elapsed.count + delta.count <= u32::MAX {
        seconds(elapsed.count + delta.count)
    } else {
        seconds(u32::MAX as int)
    }
}

/// The reading to go by: that of the sensor in charge, else that of its
/// stand-in.
pub open spec fn reading(primary: Option<Temperature>, backup: Option<Temperature>) -> Option<
    Temperature,
> {
    if primary is Some {
        primary
    } else {
        backup
    }
}

/// Whether the forward pipe or the floor is at its limit.
pub open spec fn overheated(
    config: Config,
    forward_temperature: Option<Temperature>,
    floor_temperature: Option<Temperature>,
) -> bool {
    ||| forward_temperature matches Some(t) && t@ >= config.max_forward_temperature@
    ||| floor_temperature matches Some(t) && t@ >= config.max_floor_temperature@
}

/// Whether heating for comfort is called for: a target is set and the air (or,
/// where the air sensor is silent, the return pipe) is below the band round
/// it.
pub open spec fn demand(
    config: Config,
    return_temperature: Option<Temperature>,
    air_temperature: Option<Temperature>,
) -> bool {
    &&& config.target_air_temperature matches Some(target)
    &&& reading(air_temperature, return_temperature) matches Some(t)
    &&& t@ < target@ - config.temperature_hysteresis@
}

impl State {
    /// The state in which the supervisor starts.
    pub open spec fn initial() -> State {
        State::Standby(seconds(0))
    }

    /// The state that follows `self` after a tick of `delta_time` with the
    /// given readings.
    pub open spec fn next(
        self,
        config: Config,
        forward_temperature: Option<Temperature>,
        return_temperature: Option<Temperature>,
        floor_temperature: Option<Temperature>,
        air_temperature: Option<Temperature>,
        delta_time: Duration<Seconds>,
    ) -> State {
        match self {
            State::PrepareHeating(defrost, elapsed) => {
                if elapsed.count > config.pre_circulation_duration.count {
                    State::Heating(defrost)
                } else {
                    State::PrepareHeating(defrost, accumulated(elapsed, delta_time))
                }
            },
            State::Heating(defrost) => {
                if overheated(config, forward_temperature, floor_temperature) {
                    State::AfterCirculation(seconds(0))
                } else if defrost {
                    match reading(return_temperature, air_temperature) {
                        None => State::Error,
                        Some(t) => if t@ >= config.freeze_protection.safe_temperature@ {
                            State::AfterCirculation(seconds(0))
                        } else {
                            State::Heating(true)
                        },
                    }
                } else {
                    match config.target_air_temperature {
                        None => State::Standby(seconds(0)),
                        Some(target) => match reading(air_temperature, return_temperature) {
                            None => State::Error,
                            Some(t) => if t@ > target@ + config.temperature_hysteresis@ {
                                State::AfterCirculation(seconds(0))
                            } else {
                                State::Heating(false)
                            },
                        },
                    }
                }
            },
            State::AfterCirculation(elapsed) => {
                if elapsed.count > config.after_circulation_duration.count {
                    State::Standby(seconds(0))
                } else {
                    State::AfterCirculation(accumulated(elapsed, delta_time))
                }
            },
            State::Standby(elapsed) => {
                if demand(config, return_temperature, air_temperature) {
                    State::PrepareHeating(false, seconds(0))
                } else if elapsed.count > config.freeze_protection.check_interval.count {
                    State::FreezeProtectionCheckCirculation(seconds(0))
                } else {
                    State::Standby(accumulated(elapsed, delta_time))
                }
            },
            State::FreezeProtectionCheckCirculation(elapsed) => {
                match reading(return_temperature, air_temperature) {
                    None => State::Error,
                    Some(t) => if t@ < config.freeze_protection.min_temperature@ {
                        State::PrepareHeating(true, seconds(0))
                    } else if elapsed.count > config.freeze_protection.check_duration.count {
                        State::Standby(seconds(0))
                    } else {
                        State::FreezeProtectionCheckCirculation(accumulated(elapsed, delta_time))
                    },
                }
            },
            State::Error => State::Standby(seconds(0)),
        }
    }

    /// The state in which the supervisor starts: standby, with no time on the
    /// clock.
    pub fn new() -> (state: State)
        ensures
            state == State::initial(),
    {
        State::Standby(Duration { count: 0, unit: PhantomData })
    }

    /// One control tick: the state that follows `self` when `delta_time` has
    /// passed since the last tick and the sensors read as given. A reading of
    /// `None` is a sensor that has nothing to say at present.
    pub fn update(
        &self,
        config: &Config,
        forward_temperature: Option<Temperature>,
        return_temperature: Option<Temperature>,
        floor_temperature: Option<Temperature>,
        air_temperature: Option<Temperature>,
        delta_time: Duration<Seconds>,
    ) -> (next_state: State)
        ensures
            next_state == self.next(
                *config,
                forward_temperature,
                return_temperature,
                floor_temperature,
                air_temperature,
                delta_time,
            ),
    {
        let zero = Duration::<Seconds> { count: 0, unit: PhantomData };
        match *self {
            State::PrepareHeating(defrost, elapsed) => {
                if elapsed.count > config.pre_circulation_duration.count {
                    State::Heating(defrost)
                } else {
                    State::PrepareHeating(defrost, accumulate(elapsed, delta_time))
                }
            },
            State::Heating(defrost) => {
                if let Some(forward) = forward_temperature {
                    if forward.sixteenths >= config.max_forward_temperature.sixteenths {
                        return State::AfterCirculation(zero);
                    }
                }
                if let Some(floor) = floor_temperature {
                    if floor.sixteenths >= config.max_floor_temperature.sixteenths {
                        return State::AfterCirculation(zero);
                    }
                }
                if defrost {
                    match first_reading(return_temperature, air_temperature) {
                        None => State::Error,
                        Some(t) => {
                            if t.sixteenths >= config.freeze_protection.safe_temperature.sixteenths {
                                State::AfterCirculation(zero)
                            } else {
                                State::Heating(true)
                            }
                        },
                    }
                } else {
                    match config.target_air_temperature {
                        None => State::Standby(zero),
                        Some(target) => match first_reading(air_temperature, return_temperature) {
                            None => State::Error,
                            Some(t) => {
                                let upper: i32 = target.sixteenths as i32
                                    + config.temperature_hysteresis.sixteenths as i32;
                                if t.sixteenths as i32 > upper {
                                    State::AfterCirculation(zero)
                                } else {
                                    State::Heating(false)
                                }
                            },
                        },
                    }
                }
            },
            State::AfterCirculation(elapsed) => {
                if elapsed.count > config.after_circulation_duration.count {
                    State::Standby(zero)
                } else {
                    State::AfterCirculation(accumulate(elapsed, delta_time))
                }
            },
            State::Standby(elapsed) => {
                if let Some(target) = config.target_air_temperature {
                    if let Some(t) = first_reading(air_temperature, return_temperature) {
                        let lower: i32 = target.sixteenths as i32
                            - config.temperature_hysteresis.sixteenths as i32;
                        if (t.sixteenths as i32) < lower {
                            return State::PrepareHeating(false, zero);
                        }
                    }
                }
                if elapsed.count > config.freeze_protection.check_interval.count {
                    State::FreezeProtectionCheckCirculation(zero)
                } else {
                    State::Standby(accumulate(elapsed, delta_time))
                }
            },
            State::FreezeProtectionCheckCirculation(elapsed) => {
                match first_reading(return_temperature, air_temperature) {
                    None => State::Error,
                    Some(t) => {
                        if t.sixteenths < config.freeze_protection.min_temperature.sixteenths {
                            State::PrepareHeating(true, zero)
                        } else if elapsed.count > config.freeze_protection.check_duration.count {
                            State::Standby(zero)
                        } else {
                            State::FreezeProtectionCheckCirculation(accumulate(elapsed, delta_time))
                        }
                    },
                }
            },
            State::Error => State::Standby(zero),
        }
    }

    /// The colour that shows the state on the status light: red while
    /// heating for comfort or preparing to, purple while defrosting or
    /// preparing to, yellow for the circulation after heating, green for
    /// standby, blue for the freeze check and cyan for an error.
    pub open spec fn color(self) -> Colors {
        match self {
            State::PrepareHeating(defrost, _) | State::Heating(defrost) => if defrost {
                Colors::Purple
            } else {
                Colors::Red
            },
            State::AfterCirculation(_) => Colors::Yellow,
            State::Standby(_) => Colors::Green,
            State::FreezeProtectionCheckCirculation(_) => Colors::Blue,
            State::Error => Colors::Cyan,
        }
    }

    /// The colour that shows the state on the status light.
    pub fn status_color(&self) -> (color: Colors)
        ensures
            color == self.color(),
    {
        match *self {
            State::PrepareHeating(true, _) => Colors::Purple,
            State::PrepareHeating(false, _) => Colors::Red,
            State::Heating(true) => Colors::Purple,
            State::Heating(false) => Colors::Red,
            State::AfterCirculation(_) => Colors::Yellow,
            State::Standby(_) => Colors::Green,
            State::FreezeProtectionCheckCirculation(_) => Colors::Blue,
            State::Error => Colors::Cyan,
        }
    }

    /// What the state asks of valve, pump and heat source. The valve is open
    /// while heating or preparing to, the pump stands still in standby only,
    /// heat is requested while heating only, and an error leaves valve and
    /// pump as they are.
    pub fn actuation(&self) -> (outputs: Actuation)
        ensures
            outputs.valve == ValveCommand::Open <==> (*self is PrepareHeating || *self is Heating),
            outputs.valve == ValveCommand::Hold <==> *self is Error,
            outputs.pump == PumpCommand::Stop <==> *self is Standby,
            outputs.pump == PumpCommand::Hold <==> *self is Error,
            outputs.heat_request <==> *self is Heating,
    {
        match *self {
            State::PrepareHeating(_, _) => Actuation {
                valve: ValveCommand::Open,
                pump: PumpCommand::Start,
                heat_request: false,
            },
            State::Heating(_) => Actuation {
                valve: ValveCommand::Open,
                pump: PumpCommand::Start,
                heat_request: true,
            },
            State::AfterCirculation(_) => Actuation {
                valve: ValveCommand::Close,
                pump: PumpCommand::Start,
                heat_request: false,
            },
            State::Standby(_) => Actuation {
                valve: ValveCommand::Close,
                pump: PumpCommand::Stop,
                heat_request: false,
            },
            State::FreezeProtectionCheckCirculation(_) => Actuation {
                valve: ValveCommand::Close,
                pump: PumpCommand::Start,
                heat_request: false,
            },
            State::Error => Actuation {
                valve: ValveCommand::Hold,
                pump: PumpCommand::Hold,
                heat_request: false,
            },
        }
    }
}

/// The time spent in a state after one more tick.
fn accumulate(elapsed: Duration<Seconds>, delta: Duration<Seconds>) -> (total: Duration<Seconds>)
    ensures
        total == accumulated(elapsed, delta),
{
    match elapsed.count.checked_add(delta.count) {
        Some(count) => Duration { count, unit: PhantomData },
        None => Duration { count: u32::MAX, unit: PhantomData },
    }
}

/// The reading of the sensor in charge, else that of its stand-in.
fn first_reading(primary: Option<Temperature>, backup: Option<Temperature>) -> (r: Option<
    Temperature,
>)
    ensures
        r == reading(primary, backup),
{
    match primary {
        Some(t) => Some(t),
        None => backup,
    }
}

impl State {
    /// The time that the state has on its clock, where it keeps one.
    pub open spec fn elapsed(self) -> Option<Duration<Seconds>> {
        match self {
            State::PrepareHeating(_, elapsed) => Some(elapsed),
            State::AfterCirculation(elapsed) => Some(elapsed),
            State::Standby(elapsed) => Some(elapsed),
            State::FreezeProtectionCheckCirculation(elapsed) => Some(elapsed),
            State::Heating(_) => None,
            State::Error => None,
        }
    }

    /// Whether `self` and `other` are the same kind of state, whatever time
    /// they have on their clocks.
    pub open spec fn same_phase(self, other: State) -> bool {
        match (self, other) {
            (State::PrepareHeating(a, _), State::PrepareHeating(b, _)) => a == b,
            (State::Heating(a), State::Heating(b)) => a == b,
            (State::AfterCirculation(_), State::AfterCirculation(_)) => true,
            (State::Standby(_), State::Standby(_)) => true,
            (
                State::FreezeProtectionCheckCirculation(_),
                State::FreezeProtectionCheckCirculation(_),
            ) => true,
            (State::Error, State::Error) => true,
            _ => false,
        }
    }
}

/// While heating, for comfort or for defrosting, a forward pipe or a floor at
/// its limit ends the heating at once, whatever the target and the other
/// readings are.
pub proof fn lemma_overheat_ends_heating(
    defrost: bool,
    config: Config,
    forward_temperature: Option<Temperature>,
    return_temperature: Option<Temperature>,
    floor_temperature: Option<Temperature>,
    air_temperature: Option<Temperature>,
    delta_time: Duration<Seconds>,
)
    requires
        overheated(config, forward_temperature, floor_temperature),
    ensures
        State::Heating(defrost).next(
            config,
            forward_temperature,
            return_temperature,
            floor_temperature,
            air_temperature,
            delta_time,
        ) == State::AfterCirculation(seconds(0)),
{
}

/// In standby with no call for heat, once the time since the last freeze
/// check is past the interval, a check begins.
pub proof fn lemma_freeze_check_comes_due(
    since_last_check: Duration<Seconds>,
    config: Config,
    forward_temperature: Option<Temperature>,
    return_temperature: Option<Temperature>,
    floor_temperature: Option<Temperature>,
    air_temperature: Option<Temperature>,
    delta_time: Duration<Seconds>,
)
    requires
        !demand(config, return_temperature, air_temperature),
        since_last_check.count > config.freeze_protection.check_interval.count,
    ensures
        State::Standby(since_last_check).next(
            config,
            forward_temperature,
            return_temperature,
            floor_temperature,
            air_temperature,
            delta_time,
        ) == State::FreezeProtectionCheckCirculation(seconds(0)),
{
}

/// In standby with no call for heat, the clock runs until the freeze check
/// comes due.
pub proof fn lemma_standby_waits(
    since_last_check: Duration<Seconds>,
    config: Config,
    forward_temperature: Option<Temperature>,
    return_temperature: Option<Temperature>,
    floor_temperature: Option<Temperature>,
    air_temperature: Option<Temperature>,
    delta_time: Duration<Seconds>,
)
    requires
        !demand(config, return_temperature, air_temperature),
        since_last_check.count <= config.freeze_protection.check_interval.count,
    ensures
        State::Standby(since_last_check).next(
            config,
            forward_temperature,
            return_temperature,
            floor_temperature,
            air_temperature,
            delta_time,
        ) == State::Standby(accumulated(since_last_check, delta_time)),
{
}

/// During a freeze check, a return pipe below the minimum starts a defrost
/// cycle, which opens with the valve before heat is requested.
pub proof fn lemma_frost_starts_defrost(
    elapsed: Duration<Seconds>,
    config: Config,
    forward_temperature: Option<Temperature>,
    return_temperature: Temperature,
    floor_temperature: Option<Temperature>,
    air_temperature: Option<Temperature>,
    delta_time: Duration<Seconds>,
)
    requires
        return_temperature@ < config.freeze_protection.min_temperature@,
    ensures
        State::FreezeProtectionCheckCirculation(elapsed).next(
            config,
            forward_temperature,
            Some(return_temperature),
            floor_temperature,
            air_temperature,
            delta_time,
        ) == State::PrepareHeating(true, seconds(0)),
{
}

/// Once the valve has had its time to open, heat is requested, for the
/// purpose that the preparation was for.
pub proof fn lemma_preparation_leads_to_heating(
    defrost: bool,
    elapsed: Duration<Seconds>,
    config: Config,
    forward_temperature: Option<Temperature>,
    return_temperature: Option<Temperature>,
    floor_temperature: Option<Temperature>,
    air_temperature: Option<Temperature>,
    delta_time: Duration<Seconds>,
)
    requires
        elapsed.count > config.pre_circulation_duration.count,
    ensures
        State::PrepareHeating(defrost, elapsed).next(
            config,
            forward_temperature,
            return_temperature,
            floor_temperature,
            air_temperature,
            delta_time,
        ) == State::Heating(defrost),
{
}

/// Defrosting ends, with the pump running on, as soon as the return pipe is
/// at the safe temperature.
pub proof fn lemma_defrost_ends_when_safe(
    config: Config,
    forward_temperature: Option<Temperature>,
    return_temperature: Temperature,
    floor_temperature: Option<Temperature>,
    air_temperature: Option<Temperature>,
    delta_time: Duration<Seconds>,
)
    requires
        return_temperature@ >= config.freeze_protection.safe_temperature@,
    ensures
        State::Heating(true).next(
            config,
            forward_temperature,
            Some(return_temperature),
            floor_temperature,
            air_temperature,
            delta_time,
        ) == State::AfterCirculation(seconds(0)),
{
}

/// While heating for comfort with the air sensor silent, the return pipe is
/// read in its place: heating ends when it is above the band round the
/// target and goes on otherwise, and no error is shown.
pub proof fn lemma_return_pipe_stands_in_for_air(
    config: Config,
    target: Temperature,
    forward_temperature: Option<Temperature>,
    return_temperature: Temperature,
    floor_temperature: Option<Temperature>,
    delta_time: Duration<Seconds>,
)
    requires
        config.target_air_temperature == Some(target),
        !overheated(config, forward_temperature, floor_temperature),
    ensures
        State::Heating(false).next(
            config,
            forward_temperature,
            Some(return_temperature),
            floor_temperature,
            None,
            delta_time,
        ) == (if return_temperature@ > target@ + config.temperature_hysteresis@ {
            State::AfterCirculation(seconds(0))
        } else {
            State::Heating(false)
        }),
{
}

/// While defrosting with neither the return pipe nor the air giving a
/// reading, and nothing overheated, the next state is the error state.
pub proof fn lemma_sensor_loss_is_an_error(
    config: Config,
    forward_temperature: Option<Temperature>,
    floor_temperature: Option<Temperature>,
    delta_time: Duration<Seconds>,
)
    requires
        !overheated(config, forward_temperature, floor_temperature),
    ensures
        State::Heating(true).next(
            config,
            forward_temperature,
            None,
            floor_temperature,
            None,
            delta_time,
        ) == State::Error,
{
}

/// The error state lasts one tick: whatever the inputs, standby follows, with
/// no time on its clock.
pub proof fn lemma_error_recovers(
    config: Config,
    forward_temperature: Option<Temperature>,
    return_temperature: Option<Temperature>,
    floor_temperature: Option<Temperature>,
    air_temperature: Option<Temperature>,
    delta_time: Duration<Seconds>,
)
    ensures
        State::Error.next(
            config,
            forward_temperature,
            return_temperature,
            floor_temperature,
            air_temperature,
            delta_time,
        ) == State::initial(),
{
}

/// A tick either stays in the same kind of state, with the tick's time added
/// to the state's clock, or enters another kind of state with no time on its
/// clock. Time is never carried from one kind of state into another.
pub proof fn lemma_clock_restarts_on_entry(
    state: State,
    config: Config,
    forward_temperature: Option<Temperature>,
    return_temperature: Option<Temperature>,
    floor_temperature: Option<Temperature>,
    air_temperature: Option<Temperature>,
    delta_time: Duration<Seconds>,
)
    ensures
        ({
            let next = state.next(
                config,
                forward_temperature,
                return_temperature,
                floor_temperature,
                air_temperature,
                delta_time,
            );
            if state.same_phase(next) {
                next.elapsed() matches Some(e) ==> state.elapsed() matches Some(e0) && e
                    == accumulated(e0, delta_time)
            } else {
                next.elapsed() matches Some(e) ==> e == seconds(0)
            }
        }),
{
}

} // verus!
