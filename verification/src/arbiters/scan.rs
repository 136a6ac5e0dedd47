//! The scan arbiter: the scan switch, the scan step and the resume delay.

use vstd::prelude::*;

use crate::arbiters::setting::{adjusted, clamp, setting_wf, started_at, Setting, SettingView};

verus! {

#[derive(PartialEq, Eq, Structural, Clone, Copy, Debug)]
pub enum ScanCommand {
    Toggle,
    Stop,
    StepDelta(i16),
    ResumeDelta(i16),
}

/// What one scan command publishes.
#[derive(PartialEq, Eq, Structural, Clone, Copy, Debug)]
pub enum ScanUpdate {
    Enabled(bool),
    Step(i16),
    Resume(u8),
}

pub struct ScanArbiter {
    pub enabled: bool,
    pub step: Setting,
    pub resume: u8,
    pub resume_min: u8,
    pub resume_max: u8,
}

/// The resume delay after an adjustment: the sum is taken in 16 bits,
/// truncated to 8 bits, and held within the range.
pub open spec fn resume_adjusted(resume: u8, delta: i16, lo: u8, hi: u8) -> u8 {
    clamp(((resume + delta) as i16) as u8 as int, lo as int, hi as int) as u8
}

impl ScanArbiter {
    pub open spec fn wf(&self) -> bool {
        setting_wf(self.step@) && self.resume_min <= self.resume <= self.resume_max
    }

    /// Scan off, the step starting at 1000 within `step_range` and the resume
    /// delay at 3 within `resume_range`, each given as `(min, max)`.
    pub fn new(step_range: (i16, i16), resume_range: (u8, u8)) -> (a: Self)
        requires
            step_range.0 <= step_range.1,
            resume_range.0 <= resume_range.1,
        ensures
            a.wf(),
            !a.enabled,
            a.step@ == started_at(1000, step_range.0, step_range.1),
            a.resume == clamp(3, resume_range.0 as int, resume_range.1 as int),
            a.resume_min == resume_range.0,
            a.resume_max == resume_range.1,
    {
        let resume = if 3 < resume_range.0 {
            resume_range.0
        } else if 3 > resume_range.1 {
            resume_range.1
        } else {
            3
        };
        ScanArbiter {
            enabled: false,
            step: Setting::new(1000, step_range.0, step_range.1),
            resume,
            resume_min: resume_range.0,
            resume_max: resume_range.1,
        }
    }

    /// Applies one command; returns what to publish, if anything changed.
    pub fn handle(&mut self, cmd: ScanCommand) -> (update: Option<ScanUpdate>)
        requires
            old(self).wf(),
            cmd matches ScanCommand::StepDelta(d) ==> i16::MIN <= old(self).step@.value + d <= i16::MAX,
            cmd matches ScanCommand::ResumeDelta(d) ==> i16::MIN <= old(self).resume + d <= i16::MAX,
        ensures
            final(self).wf(),
            final(self).resume_min == old(self).resume_min,
            final(self).resume_max == old(self).resume_max,
            match cmd {
                ScanCommand::Toggle => {
                    &&& final(self).enabled == !old(self).enabled
                    &&& final(self).step@ == old(self).step@
                    &&& final(self).resume == old(self).resume
                    &&& update == Some(ScanUpdate::Enabled(final(self).enabled))
                },
                ScanCommand::Stop => {
                    &&& !final(self).enabled
                    &&& final(self).step@ == old(self).step@
                    &&& final(self).resume == old(self).resume
                    &&& update == (if old(self).enabled { Some(ScanUpdate::Enabled(false)) } else { None })
                },
                ScanCommand::StepDelta(d) => {
                    let v = adjusted(old(self).step@, d as int);
                    &&& final(self).enabled == old(self).enabled
                    &&& final(self).step@ == (SettingView { value: v, ..old(self).step@ })
                    &&& final(self).resume == old(self).resume
                    &&& update == (if v != old(self).step@.value { Some(ScanUpdate::Step(v)) } else { None })
                },
                ScanCommand::ResumeDelta(d) => {
                    let r = resume_adjusted(old(self).resume, d, old(self).resume_min, old(self).resume_max);
                    &&& final(self).enabled == old(self).enabled
                    &&& final(self).step@ == old(self).step@
                    &&& final(self).resume == r
                    &&& update == (if r != old(self).resume { Some(ScanUpdate::Resume(r)) } else { None })
                },
            },
    {
        match cmd {
            ScanCommand::Toggle => {
                self.enabled = !self.enabled;
                Some(ScanUpdate::Enabled(self.enabled))
            },
            ScanCommand::Stop => {
                if self.enabled {
                    self.enabled = false;
                    Some(ScanUpdate::Enabled(false))
                } else {
                    None
                }
            },
            ScanCommand::StepDelta(delta) => match self.step.adjust(delta) {
                Some(v) => Some(ScanUpdate::Step(v)),
                None => None,
            },
            ScanCommand::ResumeDelta(delta) => {
                let raw: u8 = (self.resume as i16 + delta) as u8;
                let new_val = if raw < self.resume_min {
                    self.resume_min
                } else if raw > self.resume_max {
                    self.resume_max
                } else {
                    raw
                };
                if new_val != self.resume {
                    self.resume = new_val;
                    Some(ScanUpdate::Resume(new_val))
                } else {
                    None
                }
            },
        }
    }
}

} // verus!
