//! The squelch arbiter: the squelch level and its on/off switch.

use vstd::prelude::*;

use crate::arbiters::setting::{adjusted, setting_wf, started_at, Setting, SettingView};

verus! {

#[derive(PartialEq, Eq, Structural, Clone, Copy, Debug)]
pub enum SquelchCommand {
    Delta(i16),
    Toggle,
}

/// What one squelch command publishes.
#[derive(PartialEq, Eq, Structural, Clone, Copy, Debug)]
pub enum SquelchUpdate {
    Level(i16),
    Enabled(bool),
}

pub struct SquelchArbiter {
    pub squelch: Setting,
    pub enabled: bool,
}

impl SquelchArbiter {
    /// Squelch off, its level starting at 0 within `[min, max]`.
    pub fn new(min: i16, max: i16) -> (a: Self)
        requires
            min <= max,
        ensures
            setting_wf(a.squelch@),
            a.squelch@ == started_at(0, min, max),
            !a.enabled,
    {
        SquelchArbiter { squelch: Setting::new(0, min, max), enabled: false }
    }

    /// Applies one command; returns what to publish, if anything changed.
    pub fn handle(&mut self, cmd: SquelchCommand) -> (update: Option<SquelchUpdate>)
        requires
            setting_wf(old(self).squelch@),
            cmd matches SquelchCommand::Delta(d) ==> i16::MIN <= old(self).squelch@.value + d <= i16::MAX,
        ensures
            setting_wf(final(self).squelch@),
            match cmd {
                SquelchCommand::Delta(d) => {
                    &&& final(self).enabled == old(self).enabled
                    &&& final(self).squelch@ == (SettingView {
                        value: adjusted(old(self).squelch@, d as int),
                        ..old(self).squelch@
                    })
                    &&& update == (if final(self).squelch@.value != old(self).squelch@.value {
                        Some(SquelchUpdate::Level(final(self).squelch@.value))
                    } else {
                        None
                    })
                },
                SquelchCommand::Toggle => {
                    &&& final(self).enabled == !old(self).enabled
                    &&& final(self).squelch@ == old(self).squelch@
                    &&& update == Some(SquelchUpdate::Enabled(final(self).enabled))
                },
            },
    {
        match cmd {
            SquelchCommand::Delta(delta) => match self.squelch.adjust(delta) {
                Some(v) => Some(SquelchUpdate::Level(v)),
                None => None,
            },
            SquelchCommand::Toggle => {
                self.enabled = !self.enabled;
                Some(SquelchUpdate::Enabled(self.enabled))
            },
        }
    }
}

} // verus!
