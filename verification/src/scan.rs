//! The band scanner: it steps through the current band, dwells on each
//! frequency, stops on a signal at or above the squelch threshold, and
//! resumes once the signal has been gone for the resume delay. Transmitting
//! or switching the scan off ends the scan.

use vstd::prelude::*;

use crate::levels::{squelch_dbm, squelch_to_dbm};
use crate::types::{band_edges, Band};

verus! {

/// Dwell time on each frequency, in ms.
pub const DWELL_MS: u64 = 80;
/// Signal level assumed when no measurement arrives in time, in dBm.
pub const NO_SIGNAL_DBM: i8 = -128;

#[derive(PartialEq, Eq, Structural, Clone, Copy, Debug)]
pub enum ScanState {
    Idle,
    Scanning,
    Stopped,
}

/// What a check after the dwell, or during a stop, found.
#[derive(PartialEq, Eq, Structural, Clone, Copy, Debug)]
pub enum ScanCheck {
    /// The scan was switched off.
    Disabled,
    /// The radio went to transmit.
    Transmitting,
    /// A signal level, in dBm.
    Level(i8),
    /// Nothing new.
    Quiet,
}

#[derive(PartialEq, Eq, Structural, Clone, Copy, Debug)]
pub struct ScanMachine {
    pub state: ScanState,
    pub step_hz: u32,
    pub resume_secs: u64,
    pub squelch_dbm: i8,
    pub current_band: Band,
    pub freq: u32,
    /// When the signal that stopped the scan was last found gone, in ms.
    pub signal_lost_at: Option<u64>,
}

/// The next scan frequency: one step up, back to the band's lower edge once
/// past its upper edge.
pub open spec fn advanced(freq: u32, step: u32, band: Band) -> u32 {
    if freq + step > band_edges(band).1 {
        band_edges(band).0
    } else {
        (freq + step) as u32
    }
}

/// The scan activity a step publishes: active on leaving idle, inactive on
/// entering it, nothing otherwise.
pub open spec fn activity_change(before: ScanState, after: ScanState) -> Option<bool> {
    if before == ScanState::Idle && after != ScanState::Idle {
        Some(true)
    } else if before != ScanState::Idle && after == ScanState::Idle {
        Some(false)
    } else {
        None
    }
}

/// The scanner after the check that ends a dwell.
pub open spec fn dwell_next(m: ScanMachine, check: ScanCheck) -> ScanMachine {
    match check {
        ScanCheck::Disabled | ScanCheck::Transmitting => ScanMachine { state: ScanState::Idle, ..m },
        ScanCheck::Level(dbm) => if dbm >= m.squelch_dbm {
            ScanMachine { state: ScanState::Stopped, signal_lost_at: None, ..m }
        } else {
            m
        },
        ScanCheck::Quiet => if NO_SIGNAL_DBM >= m.squelch_dbm {
            ScanMachine { state: ScanState::Stopped, signal_lost_at: None, ..m }
        } else {
            m
        },
    }
}

/// The scanner after a check while stopped at time `now` (ms).
pub open spec fn stopped_next(m: ScanMachine, check: ScanCheck, now: u64) -> ScanMachine {
    match check {
        ScanCheck::Disabled | ScanCheck::Transmitting => ScanMachine { state: ScanState::Idle, ..m },
        _ => {
            let lost = match check {
                ScanCheck::Level(dbm) => if dbm >= m.squelch_dbm {
                    None
                } else if m.signal_lost_at is None {
                    Some(now)
                } else {
                    m.signal_lost_at
                },
                _ => m.signal_lost_at,
            };
            match lost {
                Some(t) => if (now - t) / 1000 >= m.resume_secs {
                    ScanMachine { state: ScanState::Scanning, signal_lost_at: None, ..m }
                } else {
                    ScanMachine { signal_lost_at: lost, ..m }
                },
                None => ScanMachine { signal_lost_at: None, ..m },
            }
        },
    }
}

impl ScanMachine {
    /// Idle on 20 m at 14.200 MHz, 1 kHz steps, 3 s resume delay, squelch
    /// fully open.
    pub fn new() -> (m: Self)
        ensures
            m == (ScanMachine {
                state: ScanState::Idle,
                step_hz: 1000,
                resume_secs: 3,
                squelch_dbm: -128i8,
                current_band: Band::Band20m,
                freq: 14_200_000,
                signal_lost_at: None,
            }),
    {
        ScanMachine {
            state: ScanState::Idle,
            step_hz: 1000,
            resume_secs: 3,
            squelch_dbm: -128,
            current_band: Band::Band20m,
            freq: 14_200_000,
            signal_lost_at: None,
        }
    }

    /// Takes new settings: step, resume delay, squelch control position and
    /// band, each only when it changed.
    pub fn apply_settings(
        &mut self,
        step_hz: Option<u32>,
        resume_secs: Option<u64>,
        squelch_raw: Option<i16>,
        band: Option<Band>,
    )
        ensures
            *final(self) == (ScanMachine {
                step_hz: match step_hz {
                    Some(s) => s,
                    None => old(self).step_hz,
                },
                resume_secs: match resume_secs {
                    Some(r) => r,
                    None => old(self).resume_secs,
                },
                squelch_dbm: match squelch_raw {
                    Some(q) => squelch_dbm(q),
                    None => old(self).squelch_dbm,
                },
                current_band: match band {
                    Some(b) => b,
                    None => old(self).current_band,
                },
                ..*old(self)
            }),
    {
        if let Some(s) = step_hz {
            self.step_hz = s;
        }
        if let Some(r) = resume_secs {
            self.resume_secs = r;
        }
        if let Some(q) = squelch_raw {
            self.squelch_dbm = squelch_to_dbm(q);
        }
        if let Some(b) = band {
            self.current_band = b;
        }
    }

    /// The scan was switched on: start from the current frequency, or from
    /// the band's lower edge when none is known. Returns the scan activity
    /// to publish: active.
    pub fn start(&mut self, current_frequency: Option<u32>) -> (scan_active: Option<bool>)
        requires
            old(self).state == ScanState::Idle,
        ensures
            scan_active == activity_change(old(self).state, final(self).state),
            *final(self) == (ScanMachine {
                state: ScanState::Scanning,
                freq: match current_frequency {
                    Some(f) => f,
                    None => band_edges(old(self).current_band).0,
                },
                ..*old(self)
            }),
    {
        self.freq = match current_frequency {
            Some(f) => f,
            None => self.current_band.lower_frequency(),
        };
        self.state = ScanState::Scanning;
        Some(true)
    }

    /// Moves to the next frequency and returns it, to be tuned to.
    pub fn advance(&mut self) -> (f: u32)
        requires
            old(self).state == ScanState::Scanning,
            old(self).freq + old(self).step_hz <= u32::MAX,
        ensures
            f == advanced(old(self).freq, old(self).step_hz, old(self).current_band),
            *final(self) == (ScanMachine { freq: f, ..*old(self) }),
            f <= band_edges(old(self).current_band).1,
    {
        self.freq = self.freq + self.step_hz;
        if self.freq > self.current_band.upper_frequency() {
            self.freq = self.current_band.lower_frequency();
        }
        self.freq
    }

    /// What was found after the dwell on a frequency: switching off or
    /// transmitting ends the scan; a signal at or above the squelch
    /// threshold stops it. Returns the scan activity to publish: inactive
    /// when the scan ended.
    pub fn after_dwell(&mut self, check: ScanCheck) -> (scan_active: Option<bool>)
        requires
            old(self).state == ScanState::Scanning,
        ensures
            scan_active == activity_change(old(self).state, final(self).state),
            *final(self) == dwell_next(*old(self), check),
    {
        match check {
            ScanCheck::Disabled | ScanCheck::Transmitting => {
                self.state = ScanState::Idle;
            },
            ScanCheck::Level(dbm) => {
                if dbm >= self.squelch_dbm {
                    self.state = ScanState::Stopped;
                    self.signal_lost_at = None;
                }
            },
            ScanCheck::Quiet => {
                if NO_SIGNAL_DBM >= self.squelch_dbm {
                    self.state = ScanState::Stopped;
                    self.signal_lost_at = None;
                }
            },
        }
        if self.state == ScanState::Idle {
            Some(false)
        } else {
            None
        }
    }

    /// A check while stopped at time `now` (ms): switching off or
    /// transmitting ends the scan; the signal's return clears the loss time;
    /// its loss starts it; once it has been gone for the resume delay the
    /// scan resumes. Returns the scan activity to publish: inactive when the
    /// scan ended.
    pub fn while_stopped(&mut self, check: ScanCheck, now: u64) -> (scan_active: Option<bool>)
        requires
            old(self).state == ScanState::Stopped,
            old(self).signal_lost_at matches Some(t) ==> t <= now,
        ensures
            *final(self) == stopped_next(*old(self), check, now),
            scan_active == activity_change(old(self).state, final(self).state),
    {
        match check {
            ScanCheck::Disabled | ScanCheck::Transmitting => {
                self.state = ScanState::Idle;
                return Some(false);
            },
            ScanCheck::Level(dbm) => {
                if dbm >= self.squelch_dbm {
                    self.signal_lost_at = None;
                } else if self.signal_lost_at.is_none() {
                    self.signal_lost_at = Some(now);
                }
            },
            ScanCheck::Quiet => {},
        }
        if let Some(lost_at) = self.signal_lost_at {
            if (now - lost_at) / 1000 >= self.resume_secs {
                self.state = ScanState::Scanning;
                self.signal_lost_at = None;
            }
        }
        None
    }
}

/// Scanning never leaves the band's upper edge behind: every frequency the
/// scan moves to lies at or below the upper edge, and within the band when
/// it started within the band.
pub proof fn lemma_scan_stays_below_band_top(freq: u32, step: u32, band: Band)
    requires
        freq + step <= u32::MAX,
    ensures
        advanced(freq, step, band) <= band_edges(band).1,
        band_edges(band).0 <= freq ==> band_edges(band).0 <= advanced(freq, step, band),
{
}

/// A stopped scan resumes only once the signal has been gone for the whole
/// resume delay (with no delay, as soon as it is found gone), and switching
/// off or transmitting always ends it.
pub proof fn lemma_resume_waits_for_delay(m: ScanMachine, check: ScanCheck, now: u64)
    requires
        m.state == ScanState::Stopped,
        m.signal_lost_at matches Some(t) ==> t <= now,
    ensures
        stopped_next(m, check, now).state == ScanState::Scanning ==> match m.signal_lost_at {
            Some(t) => now - t >= m.resume_secs * 1000,
            None => m.resume_secs == 0,
        },
        (check == ScanCheck::Disabled || check == ScanCheck::Transmitting) ==> stopped_next(m, check, now).state
            == ScanState::Idle,
{
}

/// The scan frequency after `n` steps from `freq`.
pub open spec fn advanced_n(freq: u32, step: u32, band: Band, n: nat) -> u32
    decreases n,
{
    if n == 0 {
        freq
    } else {
        advanced(advanced_n(freq, step, band, (n - 1) as nat), step, band)
    }
}

/// A scan that starts within the band stays within it however long it runs.
pub proof fn lemma_scan_stays_in_band(freq: u32, step: u32, band: Band, n: nat)
    requires
        band_edges(band).0 <= freq <= band_edges(band).1,
        band_edges(band).1 + step <= u32::MAX,
    ensures
        band_edges(band).0 <= advanced_n(freq, step, band, n) <= band_edges(band).1,
    decreases n,
{
    if n > 0 {
        lemma_scan_stays_in_band(freq, step, band, (n - 1) as nat);
        lemma_scan_stays_below_band_top(advanced_n(freq, step, band, (n - 1) as nat), step, band);
    }
}

/// While stopped on a station, a check that finds the signal at or above the
/// squelch threshold keeps the scan stopped and forgets any earlier loss;
/// with no loss seen, a check that finds nothing new changes nothing. A
/// signal found below the threshold starts the loss time at that check (the
/// scan resumes at once only with no resume delay), and a loss already
/// seen keeps its time until the scan resumes.
pub proof fn lemma_present_signal_holds_the_stop(m: ScanMachine, dbm: i8, now: u64)
    requires
        m.state == ScanState::Stopped,
        m.signal_lost_at matches Some(t) ==> t <= now,
    ensures
        dbm >= m.squelch_dbm ==> stopped_next(m, ScanCheck::Level(dbm), now) == (ScanMachine {
            signal_lost_at: None,
            ..m
        }),
        m.signal_lost_at is None ==> stopped_next(m, ScanCheck::Quiet, now) == m,
        dbm < m.squelch_dbm && m.signal_lost_at is None ==> stopped_next(m, ScanCheck::Level(dbm), now) == (if m.resume_secs
            == 0 {
            ScanMachine { state: ScanState::Scanning, signal_lost_at: None, ..m }
        } else {
            ScanMachine { signal_lost_at: Some(now), ..m }
        }),
        dbm < m.squelch_dbm && m.signal_lost_at is Some ==> {
            let n = stopped_next(m, ScanCheck::Level(dbm), now);
            n == m || n == (ScanMachine { state: ScanState::Scanning, signal_lost_at: None, ..m })
        },
{
}

/// After a dwell the scan stops exactly on a signal at or above the squelch
/// threshold (with no measurement counted as the weakest signal), keeping
/// the frequency it stopped on with no loss seen yet; a weaker signal lets
/// it go on scanning unchanged, and switching off or transmitting ends it.
pub proof fn lemma_dwell_stops_on_signal(m: ScanMachine, check: ScanCheck)
    requires
        m.state == ScanState::Scanning,
    ensures
        ({
            let n = dwell_next(m, check);
            let level = match check {
                ScanCheck::Level(dbm) => dbm as int,
                _ => -128,
            };
            &&& (check == ScanCheck::Disabled || check == ScanCheck::Transmitting) ==> n == (ScanMachine {
                state: ScanState::Idle,
                ..m
            })
            &&& (check != ScanCheck::Disabled && check != ScanCheck::Transmitting) ==> (n.state == ScanState::Stopped
                <==> level >= m.squelch_dbm)
            &&& n.state == ScanState::Stopped ==> n.freq == m.freq && n.signal_lost_at is None
            &&& n.state == ScanState::Scanning ==> n == m
        }),
{
}

} // verus!
