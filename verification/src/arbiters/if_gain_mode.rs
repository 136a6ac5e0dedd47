//! The IF-gain-mode arbiter: the user's choice, and the manual gain that a
//! band sweep borrows and gives back.

use vstd::prelude::*;

use crate::types::IfGainMode;

verus! {

/// A request from the controls.
#[derive(PartialEq, Eq, Structural, Clone, Copy, Debug)]
pub enum IfGainModeCommand {
    Toggle,
    SetTo(IfGainMode),
}

/// Everything the IF-gain-mode arbiter reacts to.
#[derive(PartialEq, Eq, Structural, Clone, Copy, Debug)]
pub enum IfGainModeEvent {
    Command(IfGainModeCommand),
    SweepActive(bool),
}

/// The mode in use and the user's mode to return to after a sweep.
#[derive(PartialEq, Eq, Structural, Clone, Copy, Debug)]
pub struct IfGainModeArbiter {
    pub if_gain_mode: IfGainMode,
    pub user_mode: IfGainMode,
}

/// The arbiter after an event; the mode in use is published every time.
pub open spec fn if_gain_mode_step(a: IfGainModeArbiter, ev: IfGainModeEvent) -> IfGainModeArbiter {
    match ev {
        IfGainModeEvent::Command(IfGainModeCommand::Toggle) => {
            let m = if a.if_gain_mode == IfGainMode::Manual { IfGainMode::AgcFast } else { IfGainMode::Manual };
            IfGainModeArbiter { if_gain_mode: m, user_mode: m }
        },
        IfGainModeEvent::Command(IfGainModeCommand::SetTo(m)) => IfGainModeArbiter { if_gain_mode: m, user_mode: m },
        IfGainModeEvent::SweepActive(true) => IfGainModeArbiter {
            if_gain_mode: IfGainMode::Manual,
            user_mode: a.if_gain_mode,
        },
        IfGainModeEvent::SweepActive(false) => IfGainModeArbiter {
            if_gain_mode: a.user_mode,
            user_mode: a.user_mode,
        },
    }
}

impl IfGainModeArbiter {
    /// Starts with manual gain.
    pub fn new() -> (a: Self)
        ensures
            a == (IfGainModeArbiter { if_gain_mode: IfGainMode::Manual, user_mode: IfGainMode::Manual }),
    {
        IfGainModeArbiter { if_gain_mode: IfGainMode::Manual, user_mode: IfGainMode::Manual }
    }

    /// Applies one event and returns the mode to publish.
    pub fn handle(&mut self, ev: IfGainModeEvent) -> (published: IfGainMode)
        ensures
            *final(self) == if_gain_mode_step(*old(self), ev),
            published == final(self).if_gain_mode,
    {
        match ev {
            IfGainModeEvent::Command(cmd) => match cmd {
                IfGainModeCommand::Toggle => {
                    self.if_gain_mode = self.if_gain_mode.toggle();
                    self.user_mode = self.if_gain_mode;
                },
                IfGainModeCommand::SetTo(mode) => {
                    self.if_gain_mode = mode;
                    self.user_mode = self.if_gain_mode;
                },
            },
            IfGainModeEvent::SweepActive(active) => {
                if active {
                    self.user_mode = self.if_gain_mode;
                    self.if_gain_mode = IfGainMode::Manual;
                } else {
                    self.if_gain_mode = self.user_mode;
                }
            },
        }
        self.if_gain_mode
    }
}

/// A sweep runs with manual gain and, once over, gives back the mode that
/// was in use when it started.
pub proof fn lemma_sweep_restores_if_gain_mode(a: IfGainModeArbiter)
    ensures
        if_gain_mode_step(a, IfGainModeEvent::SweepActive(true)).if_gain_mode == IfGainMode::Manual,
        if_gain_mode_step(
            if_gain_mode_step(a, IfGainModeEvent::SweepActive(true)),
            IfGainModeEvent::SweepActive(false),
        ).if_gain_mode == a.if_gain_mode,
{
}

} // verus!
