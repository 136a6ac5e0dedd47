//! The frequency arbiter: VFO tuning that rolls over into the neighbouring
//! band at a band edge, band stepping, and the frequencies that a band sweep
//! visits before the user's frequency is restored.

use vstd::prelude::*;

use crate::types::{band_at, band_edges, band_index, Band, SweepRequest};

verus! {

/// Band stepping from the band encoder.
#[derive(PartialEq, Eq, Structural, Clone, Copy, Debug)]
pub enum BandCommand {
    Up,
    Down,
}

/// Everything the frequency arbiter reacts to.
#[derive(PartialEq, Eq, Structural, Clone, Copy, Debug)]
pub enum FrequencyEvent {
    /// Tune by this many Hz.
    Delta(i32),
    Band(BandCommand),
    Sweep(SweepRequest),
}

/// What one event publishes.
#[derive(PartialEq, Eq, Structural, Clone, Copy, Debug)]
pub struct FrequencyActions {
    pub band: Option<Band>,
    pub frequency: u32,
    pub rssi_fast_mode: Option<bool>,
}

#[derive(PartialEq, Eq, Structural, Clone, Copy, Debug)]
pub struct FrequencyArbiter {
    pub current_band: Band,
    pub current_frequency: u32,
    pub user_freq: u32,
    pub sweep_active: bool,
    pub last_signaled_band: Band,
}

/// `f + delta`, held within the range of `u32`.
pub open spec fn saturating_add_signed(f: u32, delta: i32) -> u32 {
    let v = f + delta;
    if v < 0 {
        0
    } else if v > u32::MAX {
        u32::MAX
    } else {
        v as u32
    }
}

/// The (band, frequency) that tuning by `delta` leads to: past the upper edge
/// it continues at the lower edge of the next band, below the lower edge at
/// the upper edge of the previous band.
pub open spec fn tune(band: Band, f: u32, delta: i32) -> (Band, u32) {
    let g = saturating_add_signed(f, delta);
    if g > band_edges(band).1 {
        let b = band_at(band_index(band) + 1);
        (b, band_edges(b).0)
    } else if g < band_edges(band).0 {
        let b = band_at(band_index(band) + 8);
        (b, band_edges(b).1)
    } else {
        (band, g)
    }
}

/// The arbiter after the user moved to (`band`, `f`).
pub open spec fn user_moved(a: FrequencyArbiter, band: Band, f: u32) -> (FrequencyArbiter, FrequencyActions) {
    (
        FrequencyArbiter {
            current_band: band,
            current_frequency: f,
            user_freq: f,
            last_signaled_band: band,
            ..a
        },
        FrequencyActions {
            band: if band != a.last_signaled_band { Some(band) } else { None },
            frequency: f,
            rssi_fast_mode: None,
        },
    )
}

/// The arbiter and what it publishes after an event.
pub open spec fn frequency_step(a: FrequencyArbiter, ev: FrequencyEvent) -> (FrequencyArbiter, FrequencyActions) {
    match ev {
        FrequencyEvent::Delta(d) => {
            let (b, f) = tune(a.current_band, a.current_frequency, d);
            user_moved(a, b, f)
        },
        FrequencyEvent::Band(BandCommand::Up) => {
            let b = band_at(band_index(a.current_band) + 1);
            user_moved(a, b, band_edges(b).0)
        },
        FrequencyEvent::Band(BandCommand::Down) => {
            let b = band_at(band_index(a.current_band) + 8);
            user_moved(a, b, band_edges(b).1)
        },
        FrequencyEvent::Sweep(SweepRequest::SetFrequency(f)) => (
            FrequencyArbiter { sweep_active: true, ..a },
            FrequencyActions {
                band: None,
                frequency: f,
                rssi_fast_mode: if !a.sweep_active { Some(true) } else { None },
            },
        ),
        FrequencyEvent::Sweep(SweepRequest::Done) => (
            FrequencyArbiter { sweep_active: false, ..a },
            FrequencyActions { band: None, frequency: a.user_freq, rssi_fast_mode: Some(false) },
        ),
    }
}

/// The frequency lies within the current band.
pub open spec fn in_band(a: FrequencyArbiter) -> bool {
    band_edges(a.current_band).0 <= a.current_frequency <= band_edges(a.current_band).1
}

impl FrequencyArbiter {
    /// 14.200 MHz on 20 m.
    pub fn new() -> (a: Self)
        ensures
            a == (FrequencyArbiter {
                current_band: Band::Band20m,
                current_frequency: 14_200_000,
                user_freq: 14_200_000,
                sweep_active: false,
                last_signaled_band: Band::Band20m,
            }),
            in_band(a),
    {
        FrequencyArbiter {
            current_band: Band::Band20m,
            current_frequency: 14_200_000,
            user_freq: 14_200_000,
            sweep_active: false,
            last_signaled_band: Band::Band20m,
        }
    }

    fn moved_to(&mut self, band: Band, frequency: u32) -> (act: FrequencyActions)
        ensures
            (*final(self), act) == user_moved(*old(self), band, frequency),
    {
        self.current_band = band;
        self.current_frequency = frequency;
        let band_signal = if self.current_band != self.last_signaled_band {
            self.last_signaled_band = self.current_band;
            Some(self.current_band)
        } else {
            None
        };
        self.user_freq = self.current_frequency;
        FrequencyActions { band: band_signal, frequency: self.current_frequency, rssi_fast_mode: None }
    }

    /// Applies one event and returns what to publish.
    pub fn handle(&mut self, ev: FrequencyEvent) -> (act: FrequencyActions)
        ensures
            (*final(self), act) == frequency_step(*old(self), ev),
    {
        match ev {
            FrequencyEvent::Delta(delta) => {
                let sum: i64 = self.current_frequency as i64 + delta as i64;
                let mut f: u32 = if sum < 0 {
                    0
                } else if sum > 4_294_967_295 {
                    4_294_967_295
                } else {
                    sum as u32
                };
                let mut band = self.current_band;
                if f > band.upper_frequency() {
                    band = band.next();
                    f = band.lower_frequency();
                } else if f < band.lower_frequency() {
                    band = band.prev();
                    f = band.upper_frequency();
                }
                self.moved_to(band, f)
            },
            FrequencyEvent::Band(cmd) => match cmd {
                BandCommand::Up => {
                    let band = self.current_band.next();
                    self.moved_to(band, band.lower_frequency())
                },
                BandCommand::Down => {
                    let band = self.current_band.prev();
                    self.moved_to(band, band.upper_frequency())
                },
            },
            FrequencyEvent::Sweep(req) => match req {
                SweepRequest::SetFrequency(freq) => {
                    let fast = if !self.sweep_active {
                        self.sweep_active = true;
                        Some(true)
                    } else {
                        None
                    };
                    FrequencyActions { band: None, frequency: freq, rssi_fast_mode: fast }
                },
                SweepRequest::Done => {
                    self.sweep_active = false;
                    FrequencyActions { band: None, frequency: self.user_freq, rssi_fast_mode: Some(false) }
                },
            },
        }
    }
}

/// Tuning and band steps always leave the frequency inside the current band,
/// and the frequency they publish is the one tuned to.
pub proof fn lemma_tuning_stays_in_band(a: FrequencyArbiter, ev: FrequencyEvent)
    requires
        !(ev is Sweep),
    ensures
        in_band(frequency_step(a, ev).0),
        frequency_step(a, ev).1.frequency == frequency_step(a, ev).0.current_frequency,
{
    match ev {
        FrequencyEvent::Delta(d) => {
            let b = a.current_band;
            assert(band_edges(band_at(band_index(b) + 1)).0 <= band_edges(band_at(band_index(b) + 1)).1);
            assert(band_edges(band_at(band_index(b) + 8)).0 <= band_edges(band_at(band_index(b) + 8)).1);
        },
        _ => {},
    }
}

/// Sweep frequencies never become the user's frequency: however many sweep
/// frequencies were visited, when the sweep is done the user's frequency is
/// published again and the sweep is over.
pub proof fn lemma_sweep_done_restores_user_frequency(a: FrequencyArbiter, sweep: Seq<u32>)
    ensures
        ({
            let during = sweep_through(a, sweep);
            &&& during.user_freq == a.user_freq
            &&& frequency_step(during, FrequencyEvent::Sweep(SweepRequest::Done)).1.frequency == a.user_freq
            &&& !frequency_step(during, FrequencyEvent::Sweep(SweepRequest::Done)).0.sweep_active
        }),
    decreases sweep.len(),
{
    if sweep.len() > 0 {
        lemma_sweep_done_restores_user_frequency(
            frequency_step(a, FrequencyEvent::Sweep(SweepRequest::SetFrequency(sweep[0]))).0,
            sweep.drop_first(),
        );
    }
}

/// The arbiter after the sweep visited each of `sweep`'s frequencies in turn.
pub open spec fn sweep_through(a: FrequencyArbiter, sweep: Seq<u32>) -> FrequencyArbiter
    decreases sweep.len(),
{
    if sweep.len() == 0 {
        a
    } else {
        sweep_through(
            frequency_step(a, FrequencyEvent::Sweep(SweepRequest::SetFrequency(sweep[0]))).0,
            sweep.drop_first(),
        )
    }
}

} // verus!
