use oxide_motive::autotuner::{
    BandReading, Drive, Extreme, ExtremeRestart, PeakRecord, RelayTuner, TuneMode, TunerState,
};

fn low() -> BandReading {
    BandReading {
        at_or_above_setpoint: false,
        at_or_below_setpoint: true,
        at_or_above_upper: false,
        at_or_below_lower: true,
    }
}

fn high() -> BandReading {
    BandReading {
        at_or_above_setpoint: true,
        at_or_below_setpoint: false,
        at_or_above_upper: true,
        at_or_below_lower: false,
    }
}

fn inside_band_above_setpoint() -> BandReading {
    BandReading {
        at_or_above_setpoint: true,
        at_or_below_setpoint: false,
        at_or_above_upper: false,
        at_or_below_lower: false,
    }
}

#[test]
fn first_step_starts_preconditioning() {
    let mut tuner = RelayTuner::new(TuneMode::Heating);
    let step = tuner.tune(low());
    assert!(!step.finished);
    assert_eq!(step.drive, Drive::Positive);
    assert_eq!(step.record, None);
    assert_eq!(step.restart, ExtremeRestart { minimum: true, maximum: true });
    assert_eq!(tuner.state(), TunerState::PreConditioning);
    assert!(!tuner.relay_state());
}

#[test]
fn preconditioning_waits_for_setpoint() {
    let mut tuner = RelayTuner::new(TuneMode::Heating);
    tuner.tune(low());
    let step = tuner.tune(low());
    assert_eq!(step.restart, ExtremeRestart { minimum: false, maximum: false });
    assert_eq!(tuner.state(), TunerState::PreConditioning);
    let step = tuner.tune(inside_band_above_setpoint());
    assert_eq!(step.drive, Drive::Positive);
    assert_eq!(step.restart, ExtremeRestart { minimum: true, maximum: true });
    assert_eq!(tuner.state(), TunerState::Cycling);
}

#[test]
fn heating_run_records_six_peaks_then_finishes() {
    let mut tuner = RelayTuner::new(TuneMode::Heating);
    tuner.tune(low());
    tuner.tune(high());
    assert_eq!(tuner.state(), TunerState::Cycling);

    // The relay is open: crossing the upper edge changes nothing.
    let step = tuner.tune(high());
    assert_eq!(step.drive, Drive::Off);
    assert_eq!(step.record, None);

    let mut records = Vec::new();
    let mut finished_at = None;
    for i in 0..6 {
        let reading = if i % 2 == 0 { low() } else { high() };
        let step = tuner.tune(reading);
        records.push(step.record.unwrap());
        if i % 2 == 0 {
            assert_eq!(step.drive, Drive::Positive);
            assert_eq!(step.restart, ExtremeRestart { minimum: false, maximum: true });
        } else {
            assert_eq!(step.drive, Drive::Off);
            assert_eq!(step.restart, ExtremeRestart { minimum: true, maximum: false });
        }
        if step.finished {
            finished_at = Some(i);
        }
    }
    assert_eq!(finished_at, Some(5));
    let slots: Vec<u8> = records.iter().map(|r| r.slot).collect();
    assert_eq!(slots, vec![0, 1, 2, 3, 4, 5]);
    assert_eq!(records[0], PeakRecord { slot: 0, extreme: Extreme::Maximum });
    assert_eq!(records[1], PeakRecord { slot: 1, extreme: Extreme::Minimum });
    assert_eq!(tuner.state(), TunerState::Idle);
    assert_eq!(tuner.peak_count(), 6);
    assert!(tuner.tunings_ready());

    // The next step starts a fresh run.
    tuner.tune(low());
    assert_eq!(tuner.peak_count(), 0);
    assert!(!tuner.tunings_ready());
    assert_eq!(tuner.state(), TunerState::PreConditioning);
}

#[test]
fn cooling_drives_negative_and_records_mirrored_extremes() {
    let mut tuner = RelayTuner::new(TuneMode::Cooling);
    assert_eq!(tuner.tune(high()).drive, Drive::Negative);
    tuner.tune(low());
    assert_eq!(tuner.state(), TunerState::Cycling);
    let step = tuner.tune(high());
    assert_eq!(step.drive, Drive::Negative);
    assert_eq!(step.record, Some(PeakRecord { slot: 0, extreme: Extreme::Minimum }));
    assert_eq!(step.restart, ExtremeRestart { minimum: true, maximum: true });
    let step = tuner.tune(low());
    assert_eq!(step.drive, Drive::Off);
    assert_eq!(step.record, Some(PeakRecord { slot: 1, extreme: Extreme::Maximum }));
    assert_eq!(step.restart, ExtremeRestart { minimum: true, maximum: true });
}

#[test]
fn reset_forgets_the_run() {
    let mut tuner = RelayTuner::new(TuneMode::Heating);
    tuner.tune(low());
    tuner.tune(high());
    tuner.tune(low()); // relay on, first peak
    tuner.reset();
    assert_eq!(tuner.state(), TunerState::Idle);
    assert_eq!(tuner.peak_count(), 0);
    assert!(!tuner.relay_state());
    assert_eq!(tuner.mode(), TuneMode::Heating);
}

#[test]
fn reading_inside_band_keeps_relay_open() {
    let mut tuner = RelayTuner::new(TuneMode::Heating);
    tuner.tune(low());
    tuner.tune(high());
    let step = tuner.tune(inside_band_above_setpoint());
    assert_eq!(step.record, None);
    assert_eq!(step.drive, Drive::Off);
    assert!(!step.finished);
    assert_eq!(tuner.peak_count(), 0);
}
