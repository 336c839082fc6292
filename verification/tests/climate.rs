use bonsaibot::actuator::{apply, Level};
use bonsaibot::climate::{
    clamp_humidity, climate_period_secs, climate_service, climate_step, Band, ClimateAction,
    ClimateEvent, ClimateLogEntry, ClimateState, CLIMATE_PERIODIC_MINS, HUMIDIFIER_PIN, RH_FULL,
    RH_HI_THRESH, RH_LO_THRESH,
};
use bonsaibot::sht20::{Measurement, Reading, ShtError, TransportError, SCALE};
use bonsaibot::time::Timestamp;

fn percent(hundredths: i64) -> i64 {
    hundredths * SCALE / 100
}

fn humidity(hundredths: i64) -> Result<Reading, ShtError> {
    Ok(Reading { kind: Measurement::Humidity, value: percent(hundredths) })
}

fn temperature(hundredths: i64) -> Result<Reading, ShtError> {
    Ok(Reading { kind: Measurement::Temperature, value: percent(hundredths) })
}

fn at(secs: i64) -> Timestamp {
    Timestamp::new(secs, 0).expect("a time in the window")
}

#[test]
fn climate_constants() {
    assert_eq!(HUMIDIFIER_PIN, 24);
    assert_eq!(CLIMATE_PERIODIC_MINS, 5);
    assert_eq!(climate_period_secs(), 300);
    assert_eq!(RH_LO_THRESH, 70 * SCALE);
    assert_eq!(RH_HI_THRESH, 80 * SCALE);
    assert_eq!(RH_FULL, 100 * SCALE);
}

#[test]
fn band_needs_lo_below_hi() {
    assert!(Band::new(percent(7000), percent(8000)).is_some());
    assert!(Band::new(percent(8000), percent(7000)).is_none());
    assert!(Band::new(percent(7000), percent(7000)).is_none());
    assert_eq!(Band::new(RH_LO_THRESH, RH_HI_THRESH), Some(Band::standard()));
}

#[test]
fn hysteresis_sequence() {
    // lo = 70.0, hi = 80.0; 65.0 -> 75.0 -> 85.0 -> 72.0
    let band = Band::new(percent(7000), percent(8000)).unwrap();
    let mut line = Level::Low;

    let decision = band.decide(percent(6500));
    assert_eq!(decision, Some(Level::High));
    line = apply(line, decision);
    assert_eq!(line, Level::High);

    let decision = band.decide(percent(7500));
    assert_eq!(decision, None);
    line = apply(line, decision);
    assert_eq!(line, Level::High);

    let decision = band.decide(percent(8500));
    assert_eq!(decision, Some(Level::Low));
    line = apply(line, decision);
    assert_eq!(line, Level::Low);

    let decision = band.decide(percent(7200));
    assert_eq!(decision, None);
    line = apply(line, decision);
    assert_eq!(line, Level::Low);
}

#[test]
fn thresholds_belong_to_the_dead_band() {
    let band = Band::standard();
    assert_eq!(band.decide(RH_LO_THRESH), None);
    assert_eq!(band.decide(RH_HI_THRESH), None);
    assert_eq!(band.decide(RH_LO_THRESH - 1), Some(Level::High));
    assert_eq!(band.decide(RH_HI_THRESH + 1), Some(Level::Low));
}

#[test]
fn dead_band_never_moves_the_line() {
    let band = Band::standard();
    for start in [Level::Low, Level::High] {
        let mut line = start;
        for _ in 0..100 {
            line = apply(line, band.decide(percent(7500)));
            assert_eq!(line, start);
        }
    }
}

#[test]
fn clamp_humidity_bounds() {
    assert_eq!(clamp_humidity(percent(-600)), 0);
    assert_eq!(clamp_humidity(-1), 0);
    assert_eq!(clamp_humidity(0), 0);
    assert_eq!(clamp_humidity(percent(5000)), percent(5000));
    assert_eq!(clamp_humidity(RH_FULL), RH_FULL);
    assert_eq!(clamp_humidity(RH_FULL + 1), RH_FULL);
    assert_eq!(clamp_humidity(percent(11899)), RH_FULL);
    assert_eq!(clamp_humidity(i64::MAX), RH_FULL);
    assert_eq!(clamp_humidity(i64::MIN), 0);
}

#[test]
fn cycle_commits_both_readings() {
    let band = Band::standard();
    let (state, action) = climate_step(ClimateState::Ready, ClimateEvent::Tick, band, None);
    assert_eq!(state, ClimateState::AwaitingTemperature);
    assert_eq!(action, ClimateAction::MeasureTemperature);

    let (state, action) =
        climate_step(state, ClimateEvent::Temperature(temperature(2150)), band, None);
    assert_eq!(state, ClimateState::AwaitingHumidity { temperature: percent(2150) });
    assert_eq!(action, ClimateAction::MeasureHumidity);

    let (state, action) =
        climate_step(state, ClimateEvent::Humidity(humidity(6500)), band, Some(at(1_700_000_000)));
    assert_eq!(state, ClimateState::Ready);
    assert_eq!(
        action,
        ClimateAction::Commit {
            entry: Some(ClimateLogEntry {
                timestamp: at(1_700_000_000),
                temperature: percent(2150),
                humidity: percent(6500),
            }),
            humidifier: Some(Level::High),
        }
    );
}

#[test]
fn cycle_logs_inside_the_dead_band() {
    let band = Band::standard();
    let state = ClimateState::AwaitingHumidity { temperature: percent(2000) };
    let (state, action) =
        climate_step(state, ClimateEvent::Humidity(humidity(7500)), band, Some(at(10)));
    assert_eq!(state, ClimateState::Ready);
    assert_eq!(
        action,
        ClimateAction::Commit {
            entry: Some(ClimateLogEntry {
                timestamp: at(10),
                temperature: percent(2000),
                humidity: percent(7500),
            }),
            humidifier: None,
        }
    );
}

#[test]
fn cycle_clamps_before_comparing_and_recording() {
    let band = Band::new(percent(-100), percent(10500)).unwrap();
    let state = ClimateState::AwaitingHumidity { temperature: 0 };
    let (_, action) =
        climate_step(state, ClimateEvent::Humidity(humidity(11000)), band, Some(at(10)));
    assert_eq!(
        action,
        ClimateAction::Commit {
            entry: Some(ClimateLogEntry { timestamp: at(10), temperature: 0, humidity: RH_FULL }),
            humidifier: None,
        }
    );
    let (_, action) =
        climate_step(state, ClimateEvent::Humidity(humidity(-600)), band, Some(at(10)));
    assert_eq!(
        action,
        ClimateAction::Commit {
            entry: Some(ClimateLogEntry { timestamp: at(10), temperature: 0, humidity: 0 }),
            humidifier: None,
        }
    );
}

#[test]
fn cycle_without_a_clock_still_drives_the_line() {
    let band = Band::standard();
    let state = ClimateState::AwaitingHumidity { temperature: 0 };
    let (state, action) = climate_step(state, ClimateEvent::Humidity(humidity(8500)), band, None);
    assert_eq!(state, ClimateState::Ready);
    assert_eq!(action, ClimateAction::Commit { entry: None, humidifier: Some(Level::Low) });
}

#[test]
fn cycle_aborts_on_a_failed_temperature() {
    let band = Band::standard();
    let (state, action) = climate_step(
        ClimateState::AwaitingTemperature,
        ClimateEvent::Temperature(Err(ShtError::BytesReadMismatch)),
        band,
        Some(at(10)),
    );
    assert_eq!(state, ClimateState::Ready);
    assert_eq!(action, ClimateAction::Abort(ShtError::BytesReadMismatch));
}

#[test]
fn cycle_aborts_on_a_failed_humidity() {
    let band = Band::standard();
    let (state, action) = climate_step(
        ClimateState::AwaitingHumidity { temperature: percent(2000) },
        ClimateEvent::Humidity(Err(ShtError::I2c(TransportError::Io(121)))),
        band,
        Some(at(10)),
    );
    assert_eq!(state, ClimateState::Ready);
    assert_eq!(action, ClimateAction::Abort(ShtError::I2c(TransportError::Io(121))));
}

#[test]
fn cycle_ignores_events_out_of_turn() {
    let band = Band::standard();
    let waiting = ClimateState::AwaitingHumidity { temperature: 7 };
    let cases = vec![
        (ClimateState::Ready, ClimateEvent::Temperature(temperature(2000))),
        (ClimateState::Ready, ClimateEvent::Humidity(humidity(6500))),
        (ClimateState::AwaitingTemperature, ClimateEvent::Tick),
        (ClimateState::AwaitingTemperature, ClimateEvent::Humidity(humidity(6500))),
        (waiting, ClimateEvent::Tick),
        (waiting, ClimateEvent::Temperature(temperature(2000))),
    ];
    for (state, event) in cases {
        let (next, action) = climate_step(state, event, band, Some(at(10)));
        assert_eq!(next, state);
        assert_eq!(action, ClimateAction::Ignore);
    }
}

#[test]
fn cycle_pairs_humidity_with_its_own_temperature() {
    let band = Band::standard();
    let mut state = ClimateState::Ready;
    for (degrees, wet) in [(2000, 6000), (2500, 7500), (3000, 9000)] {
        let (next, _) = climate_step(state, ClimateEvent::Tick, band, None);
        let (next, _) = climate_step(next, ClimateEvent::Temperature(temperature(degrees)), band, None);
        let (next, action) =
            climate_step(next, ClimateEvent::Humidity(humidity(wet)), band, Some(at(5)));
        match action {
            ClimateAction::Commit { entry: Some(entry), .. } => {
                assert_eq!(entry.temperature, percent(degrees));
                assert_eq!(entry.humidity, percent(wet));
            }
            other => panic!("no record: {:?}", other),
        }
        state = next;
    }
}

#[test]
fn service_stamps_the_record_with_the_clock() {
    let band = Band::standard();
    let (state, action) = climate_service(ClimateState::Ready, ClimateEvent::Tick, band);
    assert_eq!((state, action), (ClimateState::AwaitingTemperature, ClimateAction::MeasureTemperature));
    let (state, action) = climate_service(state, ClimateEvent::Temperature(temperature(2150)), band);
    assert_eq!(action, ClimateAction::MeasureHumidity);
    let before = chrono::Utc::now().timestamp();
    let (state, action) = climate_service(state, ClimateEvent::Humidity(humidity(6500)), band);
    let after = chrono::Utc::now().timestamp();
    assert_eq!(state, ClimateState::Ready);
    match action {
        ClimateAction::Commit { entry: Some(entry), humidifier } => {
            assert_eq!(humidifier, Some(Level::High));
            assert_eq!(entry.temperature, percent(2150));
            assert_eq!(entry.humidity, percent(6500));
            assert!(before <= entry.timestamp.secs() && entry.timestamp.secs() <= after);
        }
        other => panic!("no record: {:?}", other),
    }
}

#[test]
fn service_aborts_like_the_step() {
    let band = Band::standard();
    let (state, action) = climate_service(
        ClimateState::AwaitingTemperature,
        ClimateEvent::Temperature(Err(ShtError::MeasInProgress)),
        band,
    );
    assert_eq!(state, ClimateState::Ready);
    assert_eq!(action, ClimateAction::Abort(ShtError::MeasInProgress));
}
