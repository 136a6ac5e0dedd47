//! The VOX arbiter: the switch and the gain, delay and anti-trip settings of
//! voice-operated transmit.

use vstd::prelude::*;

use crate::arbiters::setting::{adjusted, setting_wf, started_at, Setting, SettingView};

verus! {

#[derive(PartialEq, Eq, Structural, Clone, Copy, Debug)]
pub enum VoxCommand {
    Toggle,
    GainDelta(i16),
    DelayDelta(i16),
    AntiTripDelta(i16),
}

/// What one VOX command publishes.
#[derive(PartialEq, Eq, Structural, Clone, Copy, Debug)]
pub enum VoxUpdate {
    Enabled(bool),
    Gain(i16),
    Delay(i16),
    AntiTrip(i16),
}

pub struct VoxArbiter {
    pub enabled: bool,
    pub gain: Setting,
    pub delay: Setting,
    pub anti_trip: Setting,
}

/// The published value for an adjusted setting, if it changed.
pub open spec fn changed_to(before: SettingView, after: SettingView) -> Option<i16> {
    if after.value != before.value {
        Some(after.value)
    } else {
        None
    }
}

impl VoxArbiter {
    pub open spec fn wf(&self) -> bool {
        setting_wf(self.gain@) && setting_wf(self.delay@) && setting_wf(self.anti_trip@)
    }

    /// VOX off, with gain, delay and anti-trip starting at 500 within the
    /// ranges given as `(min, max)`.
    pub fn new(gain_range: (i16, i16), delay_range: (i16, i16), anti_trip_range: (i16, i16)) -> (a: Self)
        requires
            gain_range.0 <= gain_range.1,
            delay_range.0 <= delay_range.1,
            anti_trip_range.0 <= anti_trip_range.1,
        ensures
            a.wf(),
            !a.enabled,
            a.gain@ == started_at(500, gain_range.0, gain_range.1),
            a.delay@ == started_at(500, delay_range.0, delay_range.1),
            a.anti_trip@ == started_at(500, anti_trip_range.0, anti_trip_range.1),
    {
        VoxArbiter {
            enabled: false,
            gain: Setting::new(500, gain_range.0, gain_range.1),
            delay: Setting::new(500, delay_range.0, delay_range.1),
            anti_trip: Setting::new(500, anti_trip_range.0, anti_trip_range.1),
        }
    }

    /// Applies one command; returns what to publish, if anything changed.
    pub fn handle(&mut self, cmd: VoxCommand) -> (update: Option<VoxUpdate>)
        requires
            old(self).wf(),
            cmd matches VoxCommand::GainDelta(d) ==> i16::MIN <= old(self).gain@.value + d <= i16::MAX,
            cmd matches VoxCommand::DelayDelta(d) ==> i16::MIN <= old(self).delay@.value + d <= i16::MAX,
            cmd matches VoxCommand::AntiTripDelta(d) ==> i16::MIN <= old(self).anti_trip@.value + d
                <= i16::MAX,
        ensures
            final(self).wf(),
            match cmd {
                VoxCommand::Toggle => {
                    &&& final(self).enabled == !old(self).enabled
                    &&& final(self).gain@ == old(self).gain@
                    &&& final(self).delay@ == old(self).delay@
                    &&& final(self).anti_trip@ == old(self).anti_trip@
                    &&& update == Some(VoxUpdate::Enabled(final(self).enabled))
                },
                VoxCommand::GainDelta(d) => {
                    &&& final(self).enabled == old(self).enabled
                    &&& final(self).gain@ == (SettingView { value: adjusted(old(self).gain@, d as int), ..old(self).gain@ })
                    &&& final(self).delay@ == old(self).delay@
                    &&& final(self).anti_trip@ == old(self).anti_trip@
                    &&& update == match changed_to(old(self).gain@, final(self).gain@) {
                        Some(v) => Some(VoxUpdate::Gain(v)),
                        None => None,
                    }
                },
                VoxCommand::DelayDelta(d) => {
                    &&& final(self).enabled == old(self).enabled
                    &&& final(self).gain@ == old(self).gain@
                    &&& final(self).delay@ == (SettingView { value: adjusted(old(self).delay@, d as int), ..old(self).delay@ })
                    &&& final(self).anti_trip@ == old(self).anti_trip@
                    &&& update == match changed_to(old(self).delay@, final(self).delay@) {
                        Some(v) => Some(VoxUpdate::Delay(v)),
                        None => None,
                    }
                },
                VoxCommand::AntiTripDelta(d) => {
                    &&& final(self).enabled == old(self).enabled
                    &&& final(self).gain@ == old(self).gain@
                    &&& final(self).delay@ == old(self).delay@
                    &&& final(self).anti_trip@ == (SettingView {
                        value: adjusted(old(self).anti_trip@, d as int),
                        ..old(self).anti_trip@
                    })
                    &&& update == match changed_to(old(self).anti_trip@, final(self).anti_trip@) {
                        Some(v) => Some(VoxUpdate::AntiTrip(v)),
                        None => None,
                    }
                },
            },
    {
        match cmd {
            VoxCommand::Toggle => {
                self.enabled = !self.enabled;
                Some(VoxUpdate::Enabled(self.enabled))
            },
            VoxCommand::GainDelta(delta) => match self.gain.adjust(delta) {
                Some(v) => Some(VoxUpdate::Gain(v)),
                None => None,
            },
            VoxCommand::DelayDelta(delta) => match self.delay.adjust(delta) {
                Some(v) => Some(VoxUpdate::Delay(v)),
                None => None,
            },
            VoxCommand::AntiTripDelta(delta) => match self.anti_trip.adjust(delta) {
                Some(v) => Some(VoxUpdate::AntiTrip(v)),
                None => None,
            },
        }
    }
}

} // verus!
