//! Debouncing of the two paddle contacts: a contact's level is adopted once
//! it has differed from the adopted level on two consecutive samples.

use vstd::prelude::*;

verus! {

pub struct PaddleDebounce {
    dit_count: u8,
    dah_count: u8,
    dit_stable: bool,
    dah_stable: bool,
}

/// One contact's debouncer: samples seen differing, and the adopted level.
pub struct ContactView {
    pub count: u8,
    pub stable: bool,
}

/// The debouncer of both contacts: (dit, dah).
impl View for PaddleDebounce {
    type V = (ContactView, ContactView);

    closed spec fn view(&self) -> (ContactView, ContactView) {
        (
            ContactView { count: self.dit_count, stable: self.dit_stable },
            ContactView { count: self.dah_count, stable: self.dah_stable },
        )
    }
}

/// One sample of one contact.
pub open spec fn contact_step(c: ContactView, raw: bool) -> ContactView {
    if raw == c.stable {
        ContactView { count: 0, stable: c.stable }
    } else if c.count + 1 >= 2 {
        ContactView { count: 0, stable: raw }
    } else {
        ContactView { count: (c.count + 1) as u8, stable: c.stable }
    }
}

/// Both counters stay below the adoption threshold.
pub open spec fn debounce_wf(v: (ContactView, ContactView)) -> bool {
    v.0.count <= 1 && v.1.count <= 1
}

impl PaddleDebounce {
    pub fn new() -> (d: Self)
        ensures
            d@ == (ContactView { count: 0, stable: false }, ContactView { count: 0, stable: false }),
    {
        PaddleDebounce { dit_count: 0, dah_count: 0, dit_stable: false, dah_stable: false }
    }

    /// The adopted level of the dit contact.
    pub fn dit_stable(&self) -> (b: bool)
        ensures
            b == self@.0.stable,
    {
        self.dit_stable
    }

    /// The adopted level of the dah contact.
    pub fn dah_stable(&self) -> (b: bool)
        ensures
            b == self@.1.stable,
    {
        self.dah_stable
    }

    /// The levels both contacts would have after one more sample of each.
    pub fn next_levels(&self, dit_raw: bool, dah_raw: bool) -> (r: (bool, bool))
        requires
            debounce_wf(self@),
        ensures
            r == (contact_step(self@.0, dit_raw).stable, contact_step(self@.1, dah_raw).stable),
    {
        let dit = if dit_raw != self.dit_stable && self.dit_count >= 1 { dit_raw } else { self.dit_stable };
        let dah = if dah_raw != self.dah_stable && self.dah_count >= 1 { dah_raw } else { self.dah_stable };
        (dit, dah)
    }

    /// Takes one raw sample of each contact.
    pub fn update(&mut self, dit_raw: bool, dah_raw: bool)
        requires
            debounce_wf(old(self)@),
        ensures
            debounce_wf(final(self)@),
            final(self)@ == (contact_step(old(self)@.0, dit_raw), contact_step(old(self)@.1, dah_raw)),
    {
        if dit_raw == self.dit_stable {
            self.dit_count = 0;
        } else {
            self.dit_count += 1;
            if self.dit_count >= 2 {
                self.dit_stable = dit_raw;
                self.dit_count = 0;
            }
        }
        if dah_raw == self.dah_stable {
            self.dah_count = 0;
        } else {
            self.dah_count += 1;
            if self.dah_count >= 2 {
                self.dah_stable = dah_raw;
                self.dah_count = 0;
            }
        }
    }
}

/// Starting from a settled contact, its adopted level changes only on the
/// second consecutive sample that differs from it, and then takes that level;
/// a sample equal to the adopted level restarts the count.
pub proof fn lemma_level_changes_after_two_samples(c: ContactView, raw1: bool, raw2: bool)
    requires
        c.count == 0,
    ensures
        contact_step(c, raw1).stable == c.stable,
        contact_step(contact_step(c, raw1), raw2).stable != c.stable <==> (raw1 != c.stable && raw2
            != c.stable),
        raw1 == c.stable ==> contact_step(c, raw1).count == 0,
{
}

} // verus!
