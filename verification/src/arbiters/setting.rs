//! A numeric setting adjusted by encoder steps and held within its range.
//! The level arbiters (volume, microphone gain, RF power, IF gain, clarifier,
//! compression, noise-blanker and noise-reduction levels, CW pitch and peak
//! width, DSP bandwidth and shift) each own one.

use vstd::prelude::*;

verus! {

pub struct Setting {
    value: i16,
    min: i16,
    max: i16,
}

/// A setting's value and range.
pub struct SettingView {
    pub value: i16,
    pub min: i16,
    pub max: i16,
}

impl View for Setting {
    type V = SettingView;

    closed spec fn view(&self) -> SettingView {
        SettingView { value: self.value, min: self.min, max: self.max }
    }
}

/// `v` held within `[lo, hi]`.
pub open spec fn clamp(v: int, lo: int, hi: int) -> int {
    if v < lo {
        lo
    } else if v > hi {
        hi
    } else {
        v
    }
}

/// The value lies within the range.
pub open spec fn setting_wf(s: SettingView) -> bool {
    s.min <= s.value <= s.max
}

/// A setting with range `[min, max]` that starts at `initial`, held within
/// the range.
pub open spec fn started_at(initial: int, min: i16, max: i16) -> SettingView {
    SettingView { value: clamp(initial, min as int, max as int) as i16, min, max }
}

/// The value after an adjustment by `delta`.
pub open spec fn adjusted(s: SettingView, delta: int) -> i16 {
    clamp(s.value + delta, s.min as int, s.max as int) as i16
}

impl Setting {
    /// A setting with range `[min, max]`, starting at `initial` held within it.
    pub fn new(initial: i16, min: i16, max: i16) -> (s: Self)
        requires
            min <= max,
        ensures
            s@ == (SettingView { value: clamp(initial as int, min as int, max as int) as i16, min, max }),
            setting_wf(s@),
    {
        let value = if initial < min {
            min
        } else if initial > max {
            max
        } else {
            initial
        };
        Setting { value, min, max }
    }

    pub fn value(&self) -> (v: i16)
        ensures
            v == self@.value,
    {
        self.value
    }

    /// Adjusts the value by `delta`, held within the range; returns the new
    /// value to publish when it changed.
    pub fn adjust(&mut self, delta: i16) -> (published: Option<i16>)
        requires
            setting_wf(old(self)@),
            i16::MIN <= old(self)@.value + delta <= i16::MAX,
        ensures
            setting_wf(final(self)@),
            final(self)@ == (SettingView { value: adjusted(old(self)@, delta as int), ..old(self)@ }),
            published == (if adjusted(old(self)@, delta as int) != old(self)@.value {
                Some(adjusted(old(self)@, delta as int))
            } else {
                None::<i16>
            }),
    {
        let sum = self.value + delta;
        let new_val = if sum < self.min {
            self.min
        } else if sum > self.max {
            self.max
        } else {
            sum
        };
        if new_val != self.value {
            self.value = new_val;
            Some(new_val)
        } else {
            None
        }
    }
}

/// An adjustment moves the value in the direction of `delta`, never past the
/// range, and publishes exactly when the value moved.
pub proof fn lemma_adjust_is_monotone_and_bounded(s: SettingView, delta: int)
    requires
        setting_wf(s),
    ensures
        s.min <= adjusted(s, delta) <= s.max,
        delta >= 0 ==> adjusted(s, delta) >= s.value,
        delta <= 0 ==> adjusted(s, delta) <= s.value,
        delta == 0 ==> adjusted(s, delta) == s.value,
        s.min <= s.value + delta <= s.max ==> adjusted(s, delta) == s.value + delta,
{
}

} // verus!
