//! The CW keying loop of the main controller, one paddle sample per
//! millisecond: the paddles (swapped on request) are debounced, the keyer
//! steps, and its changes become a sidetone switch and transmit requests.
//! Keying only runs while CW is the transmit mode.

use vstd::prelude::*;

use crate::arbiters::mode::ModeCommand;
use crate::cw_keyer::{initial_keyer, step, tick_defined, CwKeyer, KeyerView};
use crate::paddle::{contact_step, debounce_wf, ContactView, PaddleDebounce};
use crate::types::TransmitMode;

verus! {

/// The keyer, its paddle debouncer, the paddle swap and whether CW is the
/// transmit mode.
pub struct Keying {
    pub keyer: CwKeyer,
    pub paddles: PaddleDebounce,
    pub swap: bool,
    pub cw_active: bool,
}

/// What one sample asks for: the sidetone on or off, and a transmit request
/// for the mode arbiter.
#[derive(PartialEq, Eq, Structural, Clone, Copy, Debug)]
pub struct KeyingAction {
    pub sidetone: Option<bool>,
    pub mode: Option<ModeCommand>,
}

/// The raw contacts as (dit, dah), after the swap.
pub open spec fn paddle_inputs(swap: bool, dit_raw: bool, dah_raw: bool) -> (bool, bool) {
    if swap { (dah_raw, dit_raw) } else { (dit_raw, dah_raw) }
}

/// The debouncer after one sample of the (swapped) contacts.
pub open spec fn debounced(p: (ContactView, ContactView), swap: bool, dit_raw: bool, dah_raw: bool) -> (
    ContactView,
    ContactView,
) {
    let (d, h) = paddle_inputs(swap, dit_raw, dah_raw);
    (contact_step(p.0, d), contact_step(p.1, h))
}

/// The mode arbiter's command for a change of the keyer's transmit request.
pub open spec fn tx_command(tx: Option<bool>) -> Option<ModeCommand> {
    match tx {
        Some(true) => Some(ModeCommand::CwKeyDown),
        Some(false) => Some(ModeCommand::CwKeyUp),
        None => None,
    }
}

/// Whether the keyer can take the next sample without running a counter out
/// of its 16 bits.
pub open spec fn sample_defined(k: KeyerView, p: (ContactView, ContactView), swap: bool, dit_raw: bool, dah_raw: bool) -> bool {
    let q = debounced(p, swap, dit_raw, dah_raw);
    tick_defined(k, q.0.stable, q.1.stable)
}

impl Keying {
    /// A fresh keyer with unswapped paddles, CW not selected.
    pub fn new() -> (k: Self)
        ensures
            k.keyer@ == initial_keyer(),
            k.paddles@ == (ContactView { count: 0, stable: false }, ContactView { count: 0, stable: false }),
            !k.swap,
            !k.cw_active,
    {
        Keying { keyer: CwKeyer::new(), paddles: PaddleDebounce::new(), swap: false, cw_active: false }
    }

    /// The transmit mode changed: keying runs only in CW.
    pub fn on_transmit_mode(&mut self, mode: TransmitMode)
        ensures
            final(self).cw_active == (mode == TransmitMode::Cw),
            final(self).swap == old(self).swap,
            final(self).keyer@ == old(self).keyer@,
            final(self).paddles@ == old(self).paddles@,
    {
        self.cw_active = mode == TransmitMode::Cw;
    }

    /// Whether `sample` may take these raw contact levels now.
    pub fn sample_is_defined(&self, dit_raw: bool, dah_raw: bool) -> (b: bool)
        requires
            debounce_wf(self.paddles@),
        ensures
            b == (self.cw_active ==> sample_defined(self.keyer@, self.paddles@, self.swap, dit_raw, dah_raw)),
    {
        if !self.cw_active {
            return true;
        }
        let (d, h) = if self.swap { (dah_raw, dit_raw) } else { (dit_raw, dah_raw) };
        let (d_next, h_next) = self.paddles.next_levels(d, h);
        self.keyer.tick_is_defined(d_next, h_next)
    }

    /// One millisecond of keying with the raw contact levels (`true` while
    /// closed). Outside CW nothing changes and nothing is asked for.
    pub fn sample(&mut self, dit_raw: bool, dah_raw: bool) -> (a: KeyingAction)
        requires
            debounce_wf(old(self).paddles@),
            old(self).cw_active ==> sample_defined(old(self).keyer@, old(self).paddles@, old(self).swap, dit_raw, dah_raw),
        ensures
            debounce_wf(final(self).paddles@),
            final(self).swap == old(self).swap,
            final(self).cw_active == old(self).cw_active,
            !old(self).cw_active ==> {
                &&& final(self).keyer@ == old(self).keyer@
                &&& final(self).paddles@ == old(self).paddles@
                &&& a == (KeyingAction { sidetone: None, mode: None })
            },
            old(self).cw_active ==> {
                let q = debounced(old(self).paddles@, old(self).swap, dit_raw, dah_raw);
                let (k, key, tx) = step(old(self).keyer@, q.0.stable, q.1.stable);
                &&& final(self).paddles@ == q
                &&& final(self).keyer@ == k
                &&& a == (KeyingAction { sidetone: key, mode: tx_command(tx) })
            },
    {
        if !self.cw_active {
            return KeyingAction { sidetone: None, mode: None };
        }
        let (d, h) = if self.swap { (dah_raw, dit_raw) } else { (dit_raw, dah_raw) };
        self.paddles.update(d, h);
        let out = self.keyer.tick(self.paddles.dit_stable(), self.paddles.dah_stable());
        let mode = match out.tx_changed {
            Some(true) => Some(ModeCommand::CwKeyDown),
            Some(false) => Some(ModeCommand::CwKeyUp),
            None => None,
        };
        KeyingAction { sidetone: out.key_changed, mode }
    }
}

} // verus!
