//! The CW keyer's settings arbiter: keying mode, speed, weight, paddle swap
//! and break-in delay.

use vstd::prelude::*;

use crate::arbiters::setting::{adjusted, setting_wf, started_at, Setting, SettingView};
use crate::types::CwKeyMode;

verus! {

#[derive(PartialEq, Eq, Structural, Clone, Copy, Debug)]
pub enum CwKeyerCommand {
    CycleMode,
    WpmDelta(i8),
    WeightDelta(i8),
    ToggleSwap,
    BreakInDelayDelta(i16),
}

/// What one keyer command publishes.
#[derive(PartialEq, Eq, Structural, Clone, Copy, Debug)]
pub enum CwKeyerUpdate {
    Mode(CwKeyMode),
    Wpm(i16),
    Weight(i16),
    Swap(bool),
    BreakInDelay(i16),
}

pub struct CwKeyerArbiter {
    pub mode: CwKeyMode,
    pub wpm: Setting,
    pub weight: Setting,
    pub swap: bool,
    pub break_in_delay: Setting,
}

impl CwKeyerArbiter {
    pub open spec fn wf(&self) -> bool {
        setting_wf(self.wpm@) && setting_wf(self.weight@) && setting_wf(self.break_in_delay@)
    }

    /// Mode B, paddles not swapped, 20 WPM, weight 50 and a break-in delay
    /// of 500 ms, each within the range given as `(min, max)`.
    pub fn new(wpm_range: (i16, i16), weight_range: (i16, i16), break_in_range: (i16, i16)) -> (a: Self)
        requires
            wpm_range.0 <= wpm_range.1,
            weight_range.0 <= weight_range.1,
            break_in_range.0 <= break_in_range.1,
        ensures
            a.wf(),
            a.mode == CwKeyMode::IambicB,
            !a.swap,
            a.wpm@ == started_at(20, wpm_range.0, wpm_range.1),
            a.weight@ == started_at(50, weight_range.0, weight_range.1),
            a.break_in_delay@ == started_at(500, break_in_range.0, break_in_range.1),
    {
        CwKeyerArbiter {
            mode: CwKeyMode::IambicB,
            wpm: Setting::new(20, wpm_range.0, wpm_range.1),
            weight: Setting::new(50, weight_range.0, weight_range.1),
            swap: false,
            break_in_delay: Setting::new(500, break_in_range.0, break_in_range.1),
        }
    }

    /// Applies one command; returns what to publish, if anything changed.
    pub fn handle(&mut self, cmd: CwKeyerCommand) -> (update: Option<CwKeyerUpdate>)
        requires
            old(self).wf(),
            cmd matches CwKeyerCommand::WpmDelta(d) ==> i16::MIN <= old(self).wpm@.value + d <= i16::MAX,
            cmd matches CwKeyerCommand::WeightDelta(d) ==> i16::MIN <= old(self).weight@.value + d
                <= i16::MAX,
            cmd matches CwKeyerCommand::BreakInDelayDelta(d) ==> i16::MIN <= old(self).break_in_delay@.value
                + d <= i16::MAX,
        ensures
            final(self).wf(),
            match cmd {
                CwKeyerCommand::CycleMode => {
                    &&& final(self).mode == match old(self).mode {
                        CwKeyMode::Straight => CwKeyMode::IambicA,
                        CwKeyMode::IambicA => CwKeyMode::IambicB,
                        CwKeyMode::IambicB => CwKeyMode::Straight,
                    }
                    &&& final(self).wpm@ == old(self).wpm@ && final(self).weight@ == old(self).weight@
                    &&& final(self).swap == old(self).swap
                    &&& final(self).break_in_delay@ == old(self).break_in_delay@
                    &&& update == Some(CwKeyerUpdate::Mode(final(self).mode))
                },
                CwKeyerCommand::WpmDelta(d) => {
                    let v = adjusted(old(self).wpm@, d as int);
                    &&& final(self).mode == old(self).mode
                    &&& final(self).wpm@ == (SettingView { value: v, ..old(self).wpm@ })
                    &&& final(self).weight@ == old(self).weight@ && final(self).swap == old(self).swap
                    &&& final(self).break_in_delay@ == old(self).break_in_delay@
                    &&& update == (if v != old(self).wpm@.value { Some(CwKeyerUpdate::Wpm(v)) } else { None })
                },
                CwKeyerCommand::WeightDelta(d) => {
                    let v = adjusted(old(self).weight@, d as int);
                    &&& final(self).mode == old(self).mode && final(self).wpm@ == old(self).wpm@
                    &&& final(self).weight@ == (SettingView { value: v, ..old(self).weight@ })
                    &&& final(self).swap == old(self).swap
                    &&& final(self).break_in_delay@ == old(self).break_in_delay@
                    &&& update == (if v != old(self).weight@.value {
                        Some(CwKeyerUpdate::Weight(v))
                    } else {
                        None
                    })
                },
                CwKeyerCommand::ToggleSwap => {
                    &&& final(self).mode == old(self).mode && final(self).wpm@ == old(self).wpm@
                    &&& final(self).weight@ == old(self).weight@
                    &&& final(self).swap == !old(self).swap
                    &&& final(self).break_in_delay@ == old(self).break_in_delay@
                    &&& update == Some(CwKeyerUpdate::Swap(final(self).swap))
                },
                CwKeyerCommand::BreakInDelayDelta(d) => {
                    let v = adjusted(old(self).break_in_delay@, d as int);
                    &&& final(self).mode == old(self).mode && final(self).wpm@ == old(self).wpm@
                    &&& final(self).weight@ == old(self).weight@ && final(self).swap == old(self).swap
                    &&& final(self).break_in_delay@ == (SettingView { value: v, ..old(self).break_in_delay@ })
                    &&& update == (if v != old(self).break_in_delay@.value {
                        Some(CwKeyerUpdate::BreakInDelay(v))
                    } else {
                        None
                    })
                },
            },
    {
        match cmd {
            CwKeyerCommand::CycleMode => {
                self.mode = self.mode.next();
                Some(CwKeyerUpdate::Mode(self.mode))
            },
            CwKeyerCommand::WpmDelta(delta) => match self.wpm.adjust(delta as i16) {
                Some(v) => Some(CwKeyerUpdate::Wpm(v)),
                None => None,
            },
            CwKeyerCommand::WeightDelta(delta) => match self.weight.adjust(delta as i16) {
                Some(v) => Some(CwKeyerUpdate::Weight(v)),
                None => None,
            },
            CwKeyerCommand::ToggleSwap => {
                self.swap = !self.swap;
                Some(CwKeyerUpdate::Swap(self.swap))
            },
            CwKeyerCommand::BreakInDelayDelta(delta) => match self.break_in_delay.adjust(delta) {
                Some(v) => Some(CwKeyerUpdate::BreakInDelay(v)),
                None => None,
            },
        }
    }
}

} // verus!
