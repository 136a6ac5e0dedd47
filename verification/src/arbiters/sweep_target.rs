//! The tuning-target arbiter of the receiver: it follows the user's frequency
//! and IF gain mode, lets a band sweep take over the tuner with manual gain,
//! and hands the tuner back to the user's latest settings afterwards.

use vstd::prelude::*;

use crate::types::{IfGainMode, SweepRequest};

verus! {

/// Everything the tuning-target arbiter reacts to.
#[derive(PartialEq, Eq, Structural, Clone, Copy, Debug)]
pub enum TargetEvent {
    UserFrequency(u32),
    UserIfGainMode(IfGainMode),
    Sweep(SweepRequest),
}

/// What one event publishes.
#[derive(PartialEq, Eq, Structural, Clone, Copy, Debug)]
pub struct TargetActions {
    pub frequency: Option<u32>,
    pub if_gain_mode: Option<IfGainMode>,
    pub rssi_fast_mode: Option<bool>,
}

#[derive(PartialEq, Eq, Structural, Clone, Copy, Debug)]
pub struct TargetArbiter {
    pub stored_user_freq: u32,
    pub stored_user_if_gain_mode: IfGainMode,
    pub sweep_active: bool,
}

/// The arbiter and what it publishes after an event.
pub open spec fn target_step(a: TargetArbiter, ev: TargetEvent) -> (TargetArbiter, TargetActions) {
    match ev {
        TargetEvent::UserFrequency(f) => (
            TargetArbiter { stored_user_freq: f, ..a },
            TargetActions {
                frequency: if !a.sweep_active { Some(f) } else { None },
                if_gain_mode: None,
                rssi_fast_mode: None,
            },
        ),
        TargetEvent::UserIfGainMode(m) => (
            TargetArbiter { stored_user_if_gain_mode: m, ..a },
            TargetActions {
                frequency: None,
                if_gain_mode: if !a.sweep_active { Some(m) } else { None },
                rssi_fast_mode: None,
            },
        ),
        TargetEvent::Sweep(SweepRequest::SetFrequency(f)) => (
            TargetArbiter { sweep_active: true, ..a },
            TargetActions {
                frequency: Some(f),
                if_gain_mode: if !a.sweep_active { Some(IfGainMode::Manual) } else { None },
                rssi_fast_mode: if !a.sweep_active { Some(true) } else { None },
            },
        ),
        TargetEvent::Sweep(SweepRequest::Done) => (
            TargetArbiter { sweep_active: false, ..a },
            TargetActions {
                frequency: Some(a.stored_user_freq),
                if_gain_mode: Some(a.stored_user_if_gain_mode),
                rssi_fast_mode: Some(false),
            },
        ),
    }
}

impl TargetArbiter {
    pub fn new() -> (a: Self)
        ensures
            a == (TargetArbiter {
                stored_user_freq: 0,
                stored_user_if_gain_mode: IfGainMode::Manual,
                sweep_active: false,
            }),
    {
        TargetArbiter { stored_user_freq: 0, stored_user_if_gain_mode: IfGainMode::Manual, sweep_active: false }
    }

    /// Applies one event and returns what to publish.
    pub fn handle(&mut self, ev: TargetEvent) -> (act: TargetActions)
        ensures
            (*final(self), act) == target_step(*old(self), ev),
    {
        match ev {
            TargetEvent::UserFrequency(user_freq) => {
                self.stored_user_freq = user_freq;
                TargetActions {
                    frequency: if !self.sweep_active { Some(user_freq) } else { None },
                    if_gain_mode: None,
                    rssi_fast_mode: None,
                }
            },
            TargetEvent::UserIfGainMode(user_mode) => {
                self.stored_user_if_gain_mode = user_mode;
                TargetActions {
                    frequency: None,
                    if_gain_mode: if !self.sweep_active { Some(user_mode) } else { None },
                    rssi_fast_mode: None,
                }
            },
            TargetEvent::Sweep(req) => match req {
                SweepRequest::SetFrequency(freq) => {
                    if !self.sweep_active {
                        self.sweep_active = true;
                        TargetActions {
                            frequency: Some(freq),
                            if_gain_mode: Some(IfGainMode::Manual),
                            rssi_fast_mode: Some(true),
                        }
                    } else {
                        TargetActions { frequency: Some(freq), if_gain_mode: None, rssi_fast_mode: None }
                    }
                },
                SweepRequest::Done => {
                    self.sweep_active = false;
                    TargetActions {
                        frequency: Some(self.stored_user_freq),
                        if_gain_mode: Some(self.stored_user_if_gain_mode),
                        rssi_fast_mode: Some(false),
                    }
                },
            },
        }
    }
}

/// While a sweep runs, the user's frequency is held back rather than applied;
/// when the sweep ends, the latest frequency and mode the user chose are
/// applied.
pub proof fn lemma_user_settings_applied_after_sweep(a: TargetArbiter, f: u32, m: IfGainMode)
    requires
        a.sweep_active,
    ensures
        target_step(a, TargetEvent::UserFrequency(f)).1.frequency is None,
        target_step(a, TargetEvent::UserIfGainMode(m)).1.if_gain_mode is None,
        ({
            let b = target_step(target_step(a, TargetEvent::UserFrequency(f)).0, TargetEvent::UserIfGainMode(m)).0;
            let done = target_step(b, TargetEvent::Sweep(SweepRequest::Done)).1;
            done.frequency == Some(f) && done.if_gain_mode == Some(m)
        }),
{
}

} // verus!
