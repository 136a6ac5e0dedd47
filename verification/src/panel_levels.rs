//! The level controls of the front panel: the control encoder's accumulated
//! levels, and the potentiometers' change detection.

use vstd::prelude::*;

use crate::arbiters::setting::{adjusted, setting_wf, Setting, SettingView};
use crate::display::ACCUMULATOR_MAX;
use crate::controls::{EncoderFunction, STEP_SIZE};

verus! {

/// A level the control encoder changed, with its new value.
#[derive(PartialEq, Eq, Structural, Clone, Copy, Debug)]
pub enum ControlUpdate {
    Volume(i16),
    Microphone(i16),
    /// The RF power control's position, 0 to 1000, from which the power
    /// setting is taken.
    RfPower(i16),
    IfGain(i16),
    Clarifier(i16),
    Squelch(i16),
    NbLevel(i16),
}

/// The levels the control encoder adjusts.
pub struct ControlEncoderState {
    pub volume: Setting,
    pub microphone: Setting,
    pub rf_power: Setting,
    pub if_gain: Setting,
    pub clarifier: Setting,
    pub squelch: Setting,
    pub nb_level: Setting,
}

impl ControlEncoderState {
    /// Every level at 0; RF power moves within 0 to 1000, and so do the
    /// other levels (the range of the front panel's level controls).
    pub fn new() -> (s: Self)
        ensures
            s.wf(),
            s.rf_power@ == (SettingView { value: 0, min: 0, max: 1000 }),
            s.volume@ == (SettingView { value: 0, min: 0, max: ACCUMULATOR_MAX }),
            s.microphone@ == (SettingView { value: 0, min: 0, max: ACCUMULATOR_MAX }),
            s.if_gain@ == (SettingView { value: 0, min: 0, max: ACCUMULATOR_MAX }),
            s.clarifier@ == (SettingView { value: 0, min: 0, max: ACCUMULATOR_MAX }),
            s.squelch@ == (SettingView { value: 0, min: 0, max: ACCUMULATOR_MAX }),
            s.nb_level@ == (SettingView { value: 0, min: 0, max: ACCUMULATOR_MAX }),
    {
        ControlEncoderState {
            volume: Setting::new(0, 0, ACCUMULATOR_MAX),
            microphone: Setting::new(0, 0, ACCUMULATOR_MAX),
            rf_power: Setting::new(0, 0, 1000),
            if_gain: Setting::new(0, 0, ACCUMULATOR_MAX),
            clarifier: Setting::new(0, 0, ACCUMULATOR_MAX),
            squelch: Setting::new(0, 0, ACCUMULATOR_MAX),
            nb_level: Setting::new(0, 0, ACCUMULATOR_MAX),
        }
    }

    pub open spec fn wf(&self) -> bool {
        &&& setting_wf(self.volume@)
        &&& setting_wf(self.microphone@)
        &&& setting_wf(self.rf_power@)
        &&& setting_wf(self.if_gain@)
        &&& setting_wf(self.clarifier@)
        &&& setting_wf(self.squelch@)
        &&& setting_wf(self.nb_level@)
    }

    /// The setting an encoder function adjusts, if it is one of these.
    pub open spec fn target(&self, f: EncoderFunction) -> Option<SettingView> {
        match f {
            EncoderFunction::Volume => Some(self.volume@),
            EncoderFunction::Microphone => Some(self.microphone@),
            EncoderFunction::RfPower => Some(self.rf_power@),
            EncoderFunction::IfGain => Some(self.if_gain@),
            EncoderFunction::Clarifier => Some(self.clarifier@),
            EncoderFunction::Squelch => Some(self.squelch@),
            EncoderFunction::NbLevel => Some(self.nb_level@),
            _ => None,
        }
    }

    /// The update naming the function's level.
    pub open spec fn update_for(f: EncoderFunction, v: i16) -> ControlUpdate {
        match f {
            EncoderFunction::Volume => ControlUpdate::Volume(v),
            EncoderFunction::Microphone => ControlUpdate::Microphone(v),
            EncoderFunction::RfPower => ControlUpdate::RfPower(v),
            EncoderFunction::IfGain => ControlUpdate::IfGain(v),
            EncoderFunction::Clarifier => ControlUpdate::Clarifier(v),
            EncoderFunction::Squelch => ControlUpdate::Squelch(v),
            _ => ControlUpdate::NbLevel(v),
        }
    }

    /// Turns the control encoder by `steps` on `function`: its level moves
    /// by four units per step within its range, and is published when it
    /// changed. Other functions are ignored.
    pub fn handle(&mut self, function: EncoderFunction, steps: i8) -> (u: Option<ControlUpdate>)
        requires
            old(self).wf(),
            old(self).target(function) matches Some(s) ==> i16::MIN <= s.value + steps * STEP_SIZE <= i16::MAX,
        ensures
            final(self).wf(),
            match old(self).target(function) {
                None => u is None,
                Some(s) => {
                    let v = adjusted(s, steps * STEP_SIZE);
                    &&& final(self).target(function) == Some(SettingView { value: v, ..s })
                    &&& u == (if v != s.value { Some(Self::update_for(function, v)) } else { None })
                },
            },
            forall|g: EncoderFunction| g != function ==> #[trigger] final(self).target(g) == old(self).target(g),
    {
        let delta: i16 = steps as i16 * STEP_SIZE;
        match function {
            EncoderFunction::Volume => match self.volume.adjust(delta) {
                Some(v) => Some(ControlUpdate::Volume(v)),
                None => None,
            },
            EncoderFunction::Microphone => match self.microphone.adjust(delta) {
                Some(v) => Some(ControlUpdate::Microphone(v)),
                None => None,
            },
            EncoderFunction::RfPower => match self.rf_power.adjust(delta) {
                Some(v) => Some(ControlUpdate::RfPower(v)),
                None => None,
            },
            EncoderFunction::IfGain => match self.if_gain.adjust(delta) {
                Some(v) => Some(ControlUpdate::IfGain(v)),
                None => None,
            },
            EncoderFunction::Clarifier => match self.clarifier.adjust(delta) {
                Some(v) => Some(ControlUpdate::Clarifier(v)),
                None => None,
            },
            EncoderFunction::Squelch => match self.squelch.adjust(delta) {
                Some(v) => Some(ControlUpdate::Squelch(v)),
                None => None,
            },
            EncoderFunction::NbLevel => match self.nb_level.adjust(delta) {
                Some(v) => Some(ControlUpdate::NbLevel(v)),
                None => None,
            },
            _ => None,
        }
    }
}

/// A front-panel potentiometer.
#[derive(PartialEq, Eq, Structural, Clone, Copy, Debug)]
pub enum PotentiometerFunction {
    Volume,
    Microphone,
    RfPower,
    IfGain,
    Clarifier,
    Squelch,
}

/// The last value published for each potentiometer.
#[derive(PartialEq, Eq, Structural, Clone, Copy, Debug)]
pub struct PotentiometerState {
    pub last_volume: u16,
    pub last_microphone: u16,
    pub last_rf_power: u16,
    pub last_if_gain: u16,
    pub last_clarifier: u16,
    pub last_squelch: u16,
}

impl PotentiometerState {
    /// Nothing published yet: every last value is zero.
    pub fn new() -> (p: Self)
        ensures
            p == (PotentiometerState {
                last_volume: 0,
                last_microphone: 0,
                last_rf_power: 0,
                last_if_gain: 0,
                last_clarifier: 0,
                last_squelch: 0,
            }),
    {
        PotentiometerState {
            last_volume: 0,
            last_microphone: 0,
            last_rf_power: 0,
            last_if_gain: 0,
            last_clarifier: 0,
            last_squelch: 0,
        }
    }

    pub open spec fn last(&self, f: PotentiometerFunction) -> u16 {
        match f {
            PotentiometerFunction::Volume => self.last_volume,
            PotentiometerFunction::Microphone => self.last_microphone,
            PotentiometerFunction::RfPower => self.last_rf_power,
            PotentiometerFunction::IfGain => self.last_if_gain,
            PotentiometerFunction::Clarifier => self.last_clarifier,
            PotentiometerFunction::Squelch => self.last_squelch,
        }
    }

    /// A potentiometer reading: published (and remembered) only when it
    /// differs from the last value published for that potentiometer. For
    /// the RF power potentiometer `value` is the power setting that the
    /// reading converts to, so that readings converting to the same setting
    /// publish nothing.
    pub fn handle(&mut self, function: PotentiometerFunction, value: u16) -> (publish: Option<u16>)
        ensures
            publish == (if value != old(self).last(function) { Some(value) } else { None }),
            final(self).last(function) == value,
            forall|g: PotentiometerFunction| g != function ==> #[trigger] final(self).last(g) == old(self).last(g),
    {
        let last = match function {
            PotentiometerFunction::Volume => &mut self.last_volume,
            PotentiometerFunction::Microphone => &mut self.last_microphone,
            PotentiometerFunction::RfPower => &mut self.last_rf_power,
            PotentiometerFunction::IfGain => &mut self.last_if_gain,
            PotentiometerFunction::Clarifier => &mut self.last_clarifier,
            PotentiometerFunction::Squelch => &mut self.last_squelch,
        };
        if value != *last {
            *last = value;
            Some(value)
        } else {
            None
        }
    }
}

} // verus!
