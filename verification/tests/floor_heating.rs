use room_pill::floor_heating::{
    Actuation, Config, FreezeProtectionConfig, PumpCommand, State, ValveCommand,
};
use room_pill::rgb::Colors;
use room_pill::temperature::Temperature;
use room_pill::timing::{Duration, Seconds};

fn s(count: u32) -> Duration<Seconds> {
    Duration::from(count)
}

fn c(degree: i16, sixteenths: i16) -> Temperature {
    Temperature::from_celsius(degree, sixteenths)
}

fn config() -> Config {
    Config {
        max_forward_temperature: c(40, 0),
        max_floor_temperature: c(29, 0),
        target_air_temperature: Some(c(19, 0)),
        temperature_hysteresis: c(0, 2),
        freeze_protection: FreezeProtectionConfig {
            min_temperature: c(5, 0),
            safe_temperature: c(8, 0),
            check_interval: s(4 * 3600),
            check_duration: s(240),
        },
        pre_circulation_duration: s(120),
        after_circulation_duration: s(240),
    }
}

fn no_demand() -> Config {
    Config { target_air_temperature: None, ..config() }
}

#[test]
fn starts_in_standby() {
    assert_eq!(State::new(), State::Standby(s(0)));
}

#[test]
fn overheated_forward_pipe_ends_heating() {
    let config = config();
    // whatever the air says, and whatever is asked for
    for air in [None, Some(c(-10, 0)), Some(c(19, 0)), Some(c(30, 0))] {
        for target in [None, Some(c(5, 0)), Some(c(25, 0))] {
            let config = Config { target_air_temperature: target, ..config };
            let next = State::Heating(false).update(&config, Some(c(40, 0)), None, None, air, s(1));
            assert_eq!(next, State::AfterCirculation(s(0)));
            let next = State::Heating(false).update(&config, Some(c(55, 3)), None, None, air, s(1));
            assert_eq!(next, State::AfterCirculation(s(0)));
        }
    }
    let next = State::Heating(true).update(&config, Some(c(40, 0)), None, None, None, s(1));
    assert_eq!(next, State::AfterCirculation(s(0)));
}

#[test]
fn overheated_floor_ends_heating() {
    let config = config();
    let next =
        State::Heating(false).update(&config, Some(c(30, 0)), None, Some(c(29, 0)), Some(c(10, 0)), s(1));
    assert_eq!(next, State::AfterCirculation(s(0)));
    let next =
        State::Heating(false).update(&config, Some(c(30, 0)), None, Some(c(28, 15)), Some(c(10, 0)), s(1));
    assert_eq!(next, State::Heating(false));
    let next = State::Heating(false).update(&config, Some(c(39, 15)), None, None, Some(c(10, 0)), s(1));
    assert_eq!(next, State::Heating(false));
}

#[test]
fn freeze_protection_cycle() {
    let config = no_demand();
    let cold = Some(c(4, 15));
    // standby counts up to the interval and past it
    let mut state = State::Standby(s(4 * 3600 - 1));
    state = state.update(&config, None, cold, None, None, s(1));
    assert_eq!(state, State::Standby(s(4 * 3600)));
    state = state.update(&config, None, cold, None, None, s(1));
    assert_eq!(state, State::Standby(s(4 * 3600 + 1)));
    state = state.update(&config, None, cold, None, None, s(1));
    assert_eq!(state, State::FreezeProtectionCheckCirculation(s(0)));
    // the return pipe is below the minimum: defrosting starts, valve first
    state = state.update(&config, None, cold, None, None, s(1));
    assert_eq!(state, State::PrepareHeating(true, s(0)));
    state = state.update(&config, None, cold, None, None, s(121));
    assert_eq!(state, State::PrepareHeating(true, s(121)));
    state = state.update(&config, None, cold, None, None, s(1));
    assert_eq!(state, State::Heating(true));
    // defrosting goes on below the safe temperature
    state = state.update(&config, None, Some(c(7, 15)), None, None, s(1));
    assert_eq!(state, State::Heating(true));
    // and ends when it is reached
    state = state.update(&config, None, Some(c(8, 0)), None, None, s(1));
    assert_eq!(state, State::AfterCirculation(s(0)));
}

#[test]
fn freeze_check_without_frost_returns_to_standby() {
    let config = no_demand();
    let mut state = State::FreezeProtectionCheckCirculation(s(0));
    state = state.update(&config, None, Some(c(5, 0)), None, None, s(240));
    assert_eq!(state, State::FreezeProtectionCheckCirculation(s(240)));
    state = state.update(&config, None, Some(c(5, 0)), None, None, s(1));
    assert_eq!(state, State::FreezeProtectionCheckCirculation(s(241)));
    state = state.update(&config, None, Some(c(5, 0)), None, None, s(1));
    assert_eq!(state, State::Standby(s(0)));
}

#[test]
fn freeze_check_falls_back_to_air() {
    let config = no_demand();
    let state = State::FreezeProtectionCheckCirculation(s(10));
    assert_eq!(
        state.update(&config, None, None, None, Some(c(4, 0)), s(1)),
        State::PrepareHeating(true, s(0))
    );
    assert_eq!(
        state.update(&config, None, None, None, Some(c(6, 0)), s(1)),
        State::FreezeProtectionCheckCirculation(s(11))
    );
    // the return pipe is in charge where both read
    assert_eq!(
        state.update(&config, None, Some(c(6, 0)), None, Some(c(4, 0)), s(1)),
        State::FreezeProtectionCheckCirculation(s(11))
    );
    assert_eq!(state.update(&config, None, None, None, None, s(1)), State::Error);
}

#[test]
fn return_pipe_stands_in_for_air_while_heating() {
    let config = config();
    let next = State::Heating(false).update(&config, None, Some(c(18, 0)), None, None, s(1));
    assert_eq!(next, State::Heating(false));
    // above target + hysteresis = 19.125 it ends the heating
    let next = State::Heating(false).update(&config, None, Some(c(19, 2)), None, None, s(1));
    assert_eq!(next, State::Heating(false));
    let next = State::Heating(false).update(&config, None, Some(c(19, 3)), None, None, s(1));
    assert_eq!(next, State::AfterCirculation(s(0)));
    // the air is in charge where both read
    let next = State::Heating(false).update(&config, None, Some(c(25, 0)), None, Some(c(18, 0)), s(1));
    assert_eq!(next, State::Heating(false));
}

#[test]
fn total_sensor_loss_is_an_error_for_one_tick() {
    let config = config();
    let state = State::Heating(true).update(&config, None, None, None, None, s(1));
    assert_eq!(state, State::Error);
    // whatever comes in, standby follows
    assert_eq!(state.update(&config, None, None, None, None, s(1)), State::Standby(s(0)));
    assert_eq!(
        state.update(&config, Some(c(90, 0)), Some(c(-20, 0)), Some(c(90, 0)), Some(c(-20, 0)), s(77)),
        State::Standby(s(0))
    );
    assert_eq!(state.update(&no_demand(), None, None, None, None, s(1)), State::Standby(s(0)));
    // comfort heating loses its sensors the same way
    assert_eq!(State::Heating(false).update(&config, None, None, None, None, s(1)), State::Error);
}

#[test]
fn overheating_comes_before_sensor_loss() {
    let config = config();
    let next = State::Heating(true).update(&config, Some(c(41, 0)), None, None, None, s(1));
    assert_eq!(next, State::AfterCirculation(s(0)));
}

#[test]
fn heating_without_target_goes_to_standby() {
    let next = State::Heating(false).update(&no_demand(), None, None, None, None, s(1));
    assert_eq!(next, State::Standby(s(0)));
}

#[test]
fn standby_starts_heating_below_the_band() {
    let config = config();
    // target 19.0, hysteresis 0.125: the band starts at 18.875
    let state = State::Standby(s(100));
    assert_eq!(
        state.update(&config, None, None, None, Some(c(18, 14)), s(1)),
        State::Standby(s(101))
    );
    assert_eq!(
        state.update(&config, None, None, None, Some(c(18, 13)), s(1)),
        State::PrepareHeating(false, s(0))
    );
    // the return pipe stands in for a silent air sensor
    assert_eq!(
        state.update(&config, None, Some(c(18, 13)), None, None, s(1)),
        State::PrepareHeating(false, s(0))
    );
    assert_eq!(
        state.update(&config, None, Some(c(10, 0)), None, Some(c(20, 0)), s(1)),
        State::Standby(s(101))
    );
    // no reading, no demand
    assert_eq!(state.update(&config, None, None, None, None, s(1)), State::Standby(s(101)));
    // no target, no demand
    assert_eq!(
        state.update(&no_demand(), None, None, None, Some(c(-5, 0)), s(1)),
        State::Standby(s(101))
    );
}

#[test]
fn demand_comes_before_the_freeze_check() {
    let state = State::Standby(s(5 * 3600));
    assert_eq!(
        state.update(&config(), None, None, None, Some(c(10, 0)), s(1)),
        State::PrepareHeating(false, s(0))
    );
}

#[test]
fn preparation_lasts_longer_than_its_duration() {
    let config = config();
    let mut state = State::PrepareHeating(false, s(0));
    state = state.update(&config, None, None, None, None, s(60));
    assert_eq!(state, State::PrepareHeating(false, s(60)));
    state = state.update(&config, None, None, None, None, s(60));
    assert_eq!(state, State::PrepareHeating(false, s(120)));
    state = state.update(&config, None, None, None, None, s(60));
    assert_eq!(state, State::PrepareHeating(false, s(180)));
    state = state.update(&config, None, None, None, None, s(60));
    assert_eq!(state, State::Heating(false));
}

#[test]
fn after_circulation_runs_out() {
    let config = config();
    let mut state = State::AfterCirculation(s(0));
    state = state.update(&config, None, None, None, None, s(240));
    assert_eq!(state, State::AfterCirculation(s(240)));
    state = state.update(&config, None, None, None, None, s(5));
    assert_eq!(state, State::AfterCirculation(s(245)));
    state = state.update(&config, None, None, None, None, s(5));
    assert_eq!(state, State::Standby(s(0)));
}

#[test]
fn clock_stops_at_the_largest_span() {
    let config = Config { after_circulation_duration: s(u32::MAX), ..config() };
    let state = State::AfterCirculation(s(u32::MAX - 3));
    assert_eq!(
        state.update(&config, None, None, None, None, s(3)),
        State::AfterCirculation(s(u32::MAX))
    );
    assert_eq!(
        state.update(&config, None, None, None, None, s(10)),
        State::AfterCirculation(s(u32::MAX))
    );
}

#[test]
fn extreme_temperatures_are_compared_exactly() {
    let largest = Config {
        target_air_temperature: Some(Temperature { sixteenths: i16::MAX }),
        temperature_hysteresis: Temperature { sixteenths: i16::MAX },
        ..config()
    };
    // nothing is above target + hysteresis
    let hot = Some(Temperature { sixteenths: i16::MAX });
    assert_eq!(
        State::Heating(false).update(&largest, None, None, None, hot, s(1)),
        State::Heating(false)
    );
    let least = Config {
        target_air_temperature: Some(Temperature { sixteenths: i16::MIN }),
        temperature_hysteresis: Temperature { sixteenths: i16::MAX },
        ..config()
    };
    // nothing is below target - hysteresis
    let cold = Some(Temperature { sixteenths: i16::MIN });
    assert_eq!(
        State::Standby(s(0)).update(&least, None, None, None, cold, s(1)),
        State::Standby(s(1))
    );
}

#[test]
fn outputs_follow_the_state() {
    let on = |valve, pump, heat_request| Actuation { valve, pump, heat_request };
    assert_eq!(
        State::PrepareHeating(false, s(0)).actuation(),
        on(ValveCommand::Open, PumpCommand::Start, false)
    );
    assert_eq!(State::Heating(true).actuation(), on(ValveCommand::Open, PumpCommand::Start, true));
    assert_eq!(State::Heating(false).actuation(), on(ValveCommand::Open, PumpCommand::Start, true));
    assert_eq!(
        State::AfterCirculation(s(3)).actuation(),
        on(ValveCommand::Close, PumpCommand::Start, false)
    );
    assert_eq!(State::Standby(s(3)).actuation(), on(ValveCommand::Close, PumpCommand::Stop, false));
    assert_eq!(
        State::FreezeProtectionCheckCirculation(s(3)).actuation(),
        on(ValveCommand::Close, PumpCommand::Start, false)
    );
    assert_eq!(State::Error.actuation(), on(ValveCommand::Hold, PumpCommand::Hold, false));
}

#[test]
fn missing_sensors_flicker_between_error_and_standby() {
    // with a freeze check due and no sensor at all, the supervisor goes
    // round through the error state and back
    let config = Config {
        freeze_protection: FreezeProtectionConfig { check_interval: s(0), ..config().freeze_protection },
        ..no_demand()
    };
    let mut state = State::Standby(s(1));
    let mut seen = Vec::new();
    for _ in 0..8 {
        state = state.update(&config, None, None, None, None, s(1));
        seen.push(state);
    }
    assert_eq!(
        seen,
        vec![
            State::FreezeProtectionCheckCirculation(s(0)),
            State::Error,
            State::Standby(s(0)),
            State::Standby(s(1)),
            State::FreezeProtectionCheckCirculation(s(0)),
            State::Error,
            State::Standby(s(0)),
            State::Standby(s(1)),
        ]
    );
}

#[test]
fn colours_show_the_state() {
    assert_eq!(State::PrepareHeating(false, s(0)).status_color(), Colors::Red);
    assert_eq!(State::PrepareHeating(true, s(0)).status_color(), Colors::Purple);
    assert_eq!(State::Heating(false).status_color(), Colors::Red);
    assert_eq!(State::Heating(true).status_color(), Colors::Purple);
    assert_eq!(State::AfterCirculation(s(1)).status_color(), Colors::Yellow);
    assert_eq!(State::Standby(s(1)).status_color(), Colors::Green);
    assert_eq!(State::FreezeProtectionCheckCirculation(s(1)).status_color(), Colors::Blue);
    assert_eq!(State::Error.status_color(), Colors::Cyan);
}
