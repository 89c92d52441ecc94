//! Switching logic of the relay autotuner: its phases, the relay it drives,
//! and the bookkeeping of the peaks of the limit cycle it provokes.
//!
//! The process variable itself is compared against the setpoint and the
//! hysteresis band by the caller, who hands the outcome in as a
//! `BandReading`; the caller also keeps the running extremes and their times,
//! which each step says how to record and restart.

use vstd::prelude::*;

verus! {

/// Whether the loop under tune raises or lowers the process variable.
#[derive(Debug, Clone, Copy, PartialEq, Eq, Structural)]
pub enum TuneMode {
    Heating,
    Cooling,
}

/// The phase of a tuning run.
#[derive(Debug, Clone, Copy, PartialEq, Eq, Structural)]
pub enum TunerState {
    Idle,
    PreConditioning,
    Cycling,
}

/// How the process variable stands against the setpoint and the band
/// `setpoint - hysteresis ..= setpoint + hysteresis`.
#[derive(Debug, Clone, Copy, PartialEq, Eq, Structural)]
pub struct BandReading {
    pub at_or_above_setpoint: bool,
    pub at_or_below_setpoint: bool,
    pub at_or_above_upper: bool,
    pub at_or_below_lower: bool,
}

/// The output to apply: the output step, its negation, or nothing.
#[derive(Debug, Clone, Copy, PartialEq, Eq, Structural)]
pub enum Drive {
    Positive,
    Negative,
    Off,
}

/// A running extreme of the process variable.
#[derive(Debug, Clone, Copy, PartialEq, Eq, Structural)]
pub enum Extreme {
    Minimum,
    Maximum,
}

/// A peak to store: the running extreme `extreme` goes to slot `slot`.
#[derive(Debug, Clone, Copy, PartialEq, Eq, Structural)]
pub struct PeakRecord {
    pub slot: u8,
    pub extreme: Extreme,
}

/// Which running extremes restart at the current input.
#[derive(Debug, Clone, Copy, PartialEq, Eq, Structural)]
pub struct ExtremeRestart {
    pub minimum: bool,
    pub maximum: bool,
}

/// What one tuning step asks of the caller.
#[derive(Debug, Clone, Copy, PartialEq, Eq, Structural)]
pub struct TuneStep {
    pub finished: bool,
    pub drive: Drive,
    pub record: Option<PeakRecord>,
    pub restart: ExtremeRestart,
}

/// The abstract state of a tuner.
pub struct TunerView {
    pub mode: TuneMode,
    pub state: TunerState,
    pub relay_on: bool,
    pub peak_count: nat,
}

/// The peaks a run needs before gains can be computed.
pub const PEAKS_NEEDED: u8 = 6;

/// The number of peak slots.
pub const PEAK_SLOTS: u8 = 8;

/// The states a tuner can reach: at most six peaks, fewer while cycling, and
/// none with the relay off while pre-conditioning.
pub open spec fn tuner_wf(v: TunerView) -> bool {
    &&& v.peak_count <= PEAKS_NEEDED
    &&& v.state == TunerState::Cycling ==> v.peak_count < PEAKS_NEEDED
    &&& v.state == TunerState::PreConditioning ==> v.peak_count == 0 && !v.relay_on
}

/// The drive of a relay that is on.
pub open spec fn full_drive(mode: TuneMode) -> Drive {
    match mode {
        TuneMode::Heating => Drive::Positive,
        TuneMode::Cooling => Drive::Negative,
    }
}

/// The process variable has reached the setpoint from the side the loop
/// drives it from.
pub open spec fn setpoint_reached(mode: TuneMode, r: BandReading) -> bool {
    match mode {
        TuneMode::Heating => r.at_or_above_setpoint,
        TuneMode::Cooling => r.at_or_below_setpoint,
    }
}

/// The process variable has crossed the band edge at which the relay opens.
pub open spec fn turns_off(mode: TuneMode, r: BandReading) -> bool {
    match mode {
        TuneMode::Heating => r.at_or_above_upper,
        TuneMode::Cooling => r.at_or_below_lower,
    }
}

/// The process variable has crossed the band edge at which the relay closes.
pub open spec fn turns_on(mode: TuneMode, r: BandReading) -> bool {
    match mode {
        TuneMode::Heating => r.at_or_below_lower,
        TuneMode::Cooling => r.at_or_above_upper,
    }
}

/// The extreme recorded when the relay opens.
pub open spec fn extreme_at_turn_off(mode: TuneMode) -> Extreme {
    match mode {
        TuneMode::Heating => Extreme::Minimum,
        TuneMode::Cooling => Extreme::Maximum,
    }
}

/// The extreme recorded when the relay closes.
pub open spec fn extreme_at_turn_on(mode: TuneMode) -> Extreme {
    match mode {
        TuneMode::Heating => Extreme::Maximum,
        TuneMode::Cooling => Extreme::Minimum,
    }
}

/// Whether a switch of the relay in state `v` leaves its extreme in a slot.
pub open spec fn records_peak(v: TunerView, turning_off: bool) -> bool {
    &&& v.peak_count < PEAK_SLOTS
    &&& turning_off ==> v.peak_count > 0
}

/// The state after a step of `v` on the reading `r`.
pub open spec fn tune_next(v: TunerView, r: BandReading) -> TunerView {
    match v.state {
        TunerState::Idle => TunerView {
            state: TunerState::PreConditioning,
            relay_on: false,
            peak_count: 0,
            ..v
        },
        TunerState::PreConditioning => if setpoint_reached(v.mode, r) {
            TunerView { state: TunerState::Cycling, ..v }
        } else {
            v
        },
        TunerState::Cycling => {
            let switch_off = v.relay_on && turns_off(v.mode, r);
            let switch_on = !v.relay_on && turns_on(v.mode, r);
            let relay_on = if switch_off {
                false
            } else if switch_on {
                true
            } else {
                v.relay_on
            };
            let recorded = (switch_off && records_peak(v, true)) || (switch_on && records_peak(
                v,
                false,
            ));
            let count = if recorded {
                v.peak_count + 1
            } else {
                v.peak_count
            };
            TunerView {
                state: if count >= PEAKS_NEEDED {
                    TunerState::Idle
                } else {
                    TunerState::Cycling
                },
                relay_on,
                peak_count: count,
                ..v
            }
        },
    }
}

/// What a step of `v` on the reading `r` asks of the caller.
pub open spec fn tune_step(v: TunerView, r: BandReading) -> TuneStep {
    let next = tune_next(v, r);
    match v.state {
        TunerState::Idle => TuneStep {
            finished: false,
            drive: full_drive(v.mode),
            record: None,
            restart: ExtremeRestart { minimum: true, maximum: true },
        },
        TunerState::PreConditioning => {
            let met = setpoint_reached(v.mode, r);
            TuneStep {
                finished: false,
                drive: full_drive(v.mode),
                record: None,
                restart: ExtremeRestart { minimum: met, maximum: met },
            }
        },
        TunerState::Cycling => {
            let switch_off = v.relay_on && turns_off(v.mode, r);
            let switch_on = !v.relay_on && turns_on(v.mode, r);
            let cooling = v.mode == TuneMode::Cooling;
            TuneStep {
                finished: next.peak_count >= PEAKS_NEEDED,
                drive: if next.relay_on {
                    full_drive(v.mode)
                } else {
                    Drive::Off
                },
                record: if switch_off && records_peak(v, true) {
                    Some(
                        PeakRecord {
                            slot: v.peak_count as u8,
                            extreme: extreme_at_turn_off(v.mode),
                        },
                    )
                } else if switch_on && records_peak(v, false) {
                    Some(
                        PeakRecord { slot: v.peak_count as u8, extreme: extreme_at_turn_on(v.mode) },
                    )
                } else {
                    None
                },
                restart: if switch_off {
                    ExtremeRestart { minimum: true, maximum: cooling }
                } else if switch_on {
                    ExtremeRestart { minimum: cooling, maximum: true }
                } else {
                    ExtremeRestart { minimum: false, maximum: false }
                },
            }
        },
    }
}

/// The relay sequencer of an autotuner.
pub struct RelayTuner {
    mode: TuneMode,
    state: TunerState,
    relay_on: bool,
    peak_count: u8,
}

impl View for RelayTuner {
    type V = TunerView;

    closed spec fn view(&self) -> TunerView {
        TunerView {
            mode: self.mode,
            state: self.state,
            relay_on: self.relay_on,
            peak_count: self.peak_count as nat,
        }
    }
}

fn drive_for(mode: TuneMode) -> (d: Drive)
    ensures
        d == full_drive(mode),
{
    match mode {
        TuneMode::Heating => Drive::Positive,
        TuneMode::Cooling => Drive::Negative,
    }
}

impl RelayTuner {
    #[verifier::type_invariant]
    spec fn reachable(self) -> bool {
        tuner_wf(self@)
    }

    /// An idle tuner with the relay off and no peaks.
    pub fn new(mode: TuneMode) -> (t: Self)
        ensures
            t@ == (TunerView { mode, state: TunerState::Idle, relay_on: false, peak_count: 0 }),
    {
        RelayTuner { mode, state: TunerState::Idle, relay_on: false, peak_count: 0 }
    }

    /// Back to idle, with the relay off and the peaks forgotten.
    pub fn reset(&mut self)
        ensures
            final(self)@ == (TunerView {
                state: TunerState::Idle,
                relay_on: false,
                peak_count: 0,
                ..old(self)@
            }),
    {
        *self = RelayTuner {
            mode: self.mode,
            state: TunerState::Idle,
            relay_on: false,
            peak_count: 0,
        };
    }

    /// The mode the tuner was made for.
    pub fn mode(&self) -> (m: TuneMode)
        ensures
            m == self@.mode,
    {
        self.mode
    }

    /// The phase of the run.
    pub fn state(&self) -> (s: TunerState)
        ensures
            s == self@.state,
    {
        self.state
    }

    /// Whether the relay is closed.
    pub fn relay_state(&self) -> (on: bool)
        ensures
            on == self@.relay_on,
    {
        self.relay_on
    }

    /// The number of peaks recorded in this run.
    pub fn peak_count(&self) -> (n: u8)
        ensures
            n == self@.peak_count,
            n <= PEAKS_NEEDED,
    {
        proof {
            use_type_invariant(self);
        }
        self.peak_count
    }

    /// Whether enough peaks are recorded to compute gains.
    pub fn tunings_ready(&self) -> (ready: bool)
        ensures
            ready == (self@.peak_count >= PEAKS_NEEDED),
    {
        self.peak_count >= PEAKS_NEEDED
    }

    /// One tuning step on the reading of the current input.
    pub fn tune(&mut self, reading: BandReading) -> (step: TuneStep)
        ensures
            final(self)@ == tune_next(old(self)@, reading),
            step == tune_step(old(self)@, reading),
    {
        proof {
            use_type_invariant(&*self);
        }
        let mode = self.mode;
        match self.state {
            TunerState::Idle => {
                *self = RelayTuner {
                    mode,
                    state: TunerState::PreConditioning,
                    relay_on: false,
                    peak_count: 0,
                };
                TuneStep {
                    finished: false,
                    drive: drive_for(mode),
                    record: None,
                    restart: ExtremeRestart { minimum: true, maximum: true },
                }
            },
            TunerState::PreConditioning => {
                let met = match mode {
                    TuneMode::Heating => reading.at_or_above_setpoint,
                    TuneMode::Cooling => reading.at_or_below_setpoint,
                };
                if met {
                    *self = RelayTuner { state: TunerState::Cycling, ..*self };
                }
                TuneStep {
                    finished: false,
                    drive: drive_for(mode),
                    record: None,
                    restart: ExtremeRestart { minimum: met, maximum: met },
                }
            },
            TunerState::Cycling => {
                let heating = match mode {
                    TuneMode::Heating => true,
                    TuneMode::Cooling => false,
                };
                let turn_off = if heating {
                    reading.at_or_above_upper
                } else {
                    reading.at_or_below_lower
                };
                let turn_on = if heating {
                    reading.at_or_below_lower
                } else {
                    reading.at_or_above_upper
                };
                let mut relay_on = self.relay_on;
                let mut count = self.peak_count;
                let mut record: Option<PeakRecord> = None;
                let mut restart = ExtremeRestart { minimum: false, maximum: false };
                if relay_on && turn_off {
                    relay_on = false;
                    if count > 0 && count < PEAK_SLOTS {
                        let extreme = if heating {
                            Extreme::Minimum
                        } else {
                            Extreme::Maximum
                        };
                        record = Some(PeakRecord { slot: count, extreme });
                        count = count + 1;
                    }
                    restart = ExtremeRestart { minimum: true, maximum: !heating };
                } else if !relay_on && turn_on {
                    relay_on = true;
                    if count < PEAK_SLOTS {
                        let extreme = if heating {
                            Extreme::Maximum
                        } else {
                            Extreme::Minimum
                        };
                        record = Some(PeakRecord { slot: count, extreme });
                        count = count + 1;
                    }
                    restart = ExtremeRestart { minimum: !heating, maximum: true };
                }
                let drive = if relay_on {
                    drive_for(mode)
                } else {
                    Drive::Off
                };
                let finished = count >= PEAKS_NEEDED;
                let state = if finished {
                    TunerState::Idle
                } else {
                    TunerState::Cycling
                };
                *self = RelayTuner { mode, state, relay_on, peak_count: count };
                TuneStep { finished, drive, record, restart }
            },
        }
    }
}

/// Every step keeps the tuner among its reachable states: never more than six
/// peaks, fewer while cycling.
pub proof fn lemma_tune_keeps_wf(v: TunerView, r: BandReading)
    requires
        tuner_wf(v),
    ensures
        tuner_wf(tune_next(v, r)),
{
}

/// A recorded peak goes to the next free slot, and each step records at most
/// one.
pub proof fn lemma_peaks_fill_in_order(v: TunerView, r: BandReading)
    requires
        tuner_wf(v),
        v.state != TunerState::Idle,
    ensures
        tune_step(v, r).record matches Some(p) ==> p.slot == v.peak_count && tune_next(
            v,
            r,
        ).peak_count == v.peak_count + 1,
        tune_step(v, r).record is None ==> tune_next(v, r).peak_count == v.peak_count,
{
}

/// A run finishes exactly when its sixth peak is recorded, and it then goes
/// back to idle.
pub proof fn lemma_finish_at_sixth_peak(v: TunerView, r: BandReading)
    requires
        tuner_wf(v),
    ensures
        tune_step(v, r).finished <==> (v.state == TunerState::Cycling && tune_next(v, r).peak_count
            == PEAKS_NEEDED),
        tune_step(v, r).finished ==> tune_next(v, r).state == TunerState::Idle,
{
}

/// The output is off only while cycling with the relay open.
pub proof fn lemma_output_follows_relay(v: TunerView, r: BandReading)
    ensures
        tune_step(v, r).drive == Drive::Off <==> (v.state == TunerState::Cycling && !tune_next(
            v,
            r,
        ).relay_on),
        tune_step(v, r).drive != Drive::Off ==> tune_step(v, r).drive == full_drive(v.mode),
{
}

/// A step from idle starts a fresh run: pre-conditioning, relay open, no
/// peaks, both extremes restarted.
pub proof fn lemma_idle_starts_fresh_run(v: TunerView, r: BandReading)
    requires
        v.state == TunerState::Idle,
    ensures
        tune_next(v, r) == (TunerView {
            state: TunerState::PreConditioning,
            relay_on: false,
            peak_count: 0,
            ..v
        }),
        tune_step(v, r).restart == (ExtremeRestart { minimum: true, maximum: true }),
{
}

/// While cycling, the relay switches only at the edges of the band: an open
/// relay closes on a reading at or below `setpoint - hysteresis` when
/// heating, at or above `setpoint + hysteresis` when cooling; a closed relay
/// opens on a reading at or above the upper edge when heating, at or below
/// the lower edge when cooling. A reading strictly inside the band leaves
/// the relay as it was, drives as before, records no peak and restarts no
/// extreme.
pub proof fn lemma_relay_switches_at_band_edges(v: TunerView, r: BandReading)
    requires
        tuner_wf(v),
        v.state == TunerState::Cycling,
    ensures
        !v.relay_on ==> tune_next(v, r).relay_on == (match v.mode {
            TuneMode::Heating => r.at_or_below_lower,
            TuneMode::Cooling => r.at_or_above_upper,
        }),
        v.relay_on ==> tune_next(v, r).relay_on == !(match v.mode {
            TuneMode::Heating => r.at_or_above_upper,
            TuneMode::Cooling => r.at_or_below_lower,
        }),
        !r.at_or_above_upper && !r.at_or_below_lower ==> {
            &&& tune_next(v, r).relay_on == v.relay_on
            &&& tune_step(v, r).record is None
            &&& tune_step(v, r).restart == (ExtremeRestart { minimum: false, maximum: false })
            &&& tune_step(v, r).drive == if v.relay_on {
                match v.mode {
                    TuneMode::Heating => Drive::Positive,
                    TuneMode::Cooling => Drive::Negative,
                }
            } else {
                Drive::Off
            }
        },
{
}

} // verus!

