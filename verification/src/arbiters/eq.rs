//! The receive and transmit equaliser arbiters: a switch and three band
//! gains (low, mid, high) each.

use vstd::prelude::*;

use crate::arbiters::setting::{adjusted, setting_wf, started_at, Setting, SettingView};

verus! {

#[derive(PartialEq, Eq, Structural, Clone, Copy, Debug)]
pub enum RxEqCommand {
    Toggle,
    SetLow(i8),
    SetMid(i8),
    SetHigh(i8),
}

#[derive(PartialEq, Eq, Structural, Clone, Copy, Debug)]
pub enum TxEqCommand {
    Toggle,
    SetLow(i8),
    SetMid(i8),
    SetHigh(i8),
}

/// What one equaliser command publishes.
#[derive(PartialEq, Eq, Structural, Clone, Copy, Debug)]
pub enum EqUpdate {
    Enabled(bool),
    Low(i16),
    Mid(i16),
    High(i16),
}

/// An equaliser's change: toggle, or move one band (0 low, 1 mid, 2 high)
/// by a step.
#[derive(PartialEq, Eq, Structural, Clone, Copy, Debug)]
pub enum EqChange {
    Toggle,
    Band(u8, i8),
}

pub struct EqArbiter {
    pub enabled: bool,
    pub low: Setting,
    pub mid: Setting,
    pub high: Setting,
}

/// The change a receive equaliser command asks for.
pub open spec fn rx_change(cmd: RxEqCommand) -> EqChange {
    match cmd {
        RxEqCommand::Toggle => EqChange::Toggle,
        RxEqCommand::SetLow(d) => EqChange::Band(0, d),
        RxEqCommand::SetMid(d) => EqChange::Band(1, d),
        RxEqCommand::SetHigh(d) => EqChange::Band(2, d),
    }
}

/// The change a transmit equaliser command asks for.
pub open spec fn tx_change(cmd: TxEqCommand) -> EqChange {
    match cmd {
        TxEqCommand::Toggle => EqChange::Toggle,
        TxEqCommand::SetLow(d) => EqChange::Band(0, d),
        TxEqCommand::SetMid(d) => EqChange::Band(1, d),
        TxEqCommand::SetHigh(d) => EqChange::Band(2, d),
    }
}

impl EqArbiter {
    /// Equaliser off, every band at 0 dB within the gain range `[min, max]`.
    pub fn new(min: i16, max: i16) -> (a: Self)
        requires
            min <= max,
        ensures
            a.wf(),
            !a.enabled,
            a.low@ == started_at(0, min, max),
            a.mid@ == started_at(0, min, max),
            a.high@ == started_at(0, min, max),
    {
        EqArbiter {
            enabled: false,
            low: Setting::new(0, min, max),
            mid: Setting::new(0, min, max),
            high: Setting::new(0, min, max),
        }
    }

    pub open spec fn wf(&self) -> bool {
        setting_wf(self.low@) && setting_wf(self.mid@) && setting_wf(self.high@)
    }

    /// The band setting a change moves.
    pub open spec fn band(&self, i: u8) -> SettingView {
        if i == 0 {
            self.low@
        } else if i == 1 {
            self.mid@
        } else {
            self.high@
        }
    }

    /// Whether the change can be applied without leaving 16 bits.
    pub open spec fn change_fits(&self, ch: EqChange) -> bool {
        ch matches EqChange::Band(i, d) ==> (i <= 2 && i16::MIN <= self.band(i).value + d <= i16::MAX)
    }

    /// The arbiter after the change: only the switch or the one band moves.
    pub open spec fn changed(&self, after: &Self, ch: EqChange, update: Option<EqUpdate>) -> bool {
        match ch {
            EqChange::Toggle => {
                &&& after.enabled == !self.enabled
                &&& after.low@ == self.low@ && after.mid@ == self.mid@ && after.high@ == self.high@
                &&& update == Some(EqUpdate::Enabled(after.enabled))
            },
            EqChange::Band(i, d) => {
                let v = adjusted(self.band(i), d as int);
                &&& after.enabled == self.enabled
                &&& after.band(i) == (SettingView { value: v, ..self.band(i) })
                &&& forall|j: u8| j <= 2 && j != i ==> #[trigger] after.band(j) == self.band(j)
                &&& update == (if v != self.band(i).value {
                    Some(
                        if i == 0 {
                            EqUpdate::Low(v)
                        } else if i == 1 {
                            EqUpdate::Mid(v)
                        } else {
                            EqUpdate::High(v)
                        },
                    )
                } else {
                    None
                })
            },
        }
    }

    fn apply(&mut self, ch: EqChange) -> (update: Option<EqUpdate>)
        requires
            old(self).wf(),
            old(self).change_fits(ch),
        ensures
            final(self).wf(),
            old(self).changed(final(self), ch, update),
    {
        match ch {
            EqChange::Toggle => {
                self.enabled = !self.enabled;
                Some(EqUpdate::Enabled(self.enabled))
            },
            EqChange::Band(i, delta) => {
                if i == 0 {
                    match self.low.adjust(delta as i16) {
                        Some(v) => Some(EqUpdate::Low(v)),
                        None => None,
                    }
                } else if i == 1 {
                    match self.mid.adjust(delta as i16) {
                        Some(v) => Some(EqUpdate::Mid(v)),
                        None => None,
                    }
                } else {
                    match self.high.adjust(delta as i16) {
                        Some(v) => Some(EqUpdate::High(v)),
                        None => None,
                    }
                }
            },
        }
    }

    /// Applies a receive equaliser command.
    pub fn handle_rx(&mut self, cmd: RxEqCommand) -> (update: Option<EqUpdate>)
        requires
            old(self).wf(),
            old(self).change_fits(rx_change(cmd)),
        ensures
            final(self).wf(),
            old(self).changed(final(self), rx_change(cmd), update),
    {
        let ch = match cmd {
            RxEqCommand::Toggle => EqChange::Toggle,
            RxEqCommand::SetLow(d) => EqChange::Band(0, d),
            RxEqCommand::SetMid(d) => EqChange::Band(1, d),
            RxEqCommand::SetHigh(d) => EqChange::Band(2, d),
        };
        self.apply(ch)
    }

    /// Applies a transmit equaliser command.
    pub fn handle_tx(&mut self, cmd: TxEqCommand) -> (update: Option<EqUpdate>)
        requires
            old(self).wf(),
            old(self).change_fits(tx_change(cmd)),
        ensures
            final(self).wf(),
            old(self).changed(final(self), tx_change(cmd), update),
    {
        let ch = match cmd {
            TxEqCommand::Toggle => EqChange::Toggle,
            TxEqCommand::SetLow(d) => EqChange::Band(0, d),
            TxEqCommand::SetMid(d) => EqChange::Band(1, d),
            TxEqCommand::SetHigh(d) => EqChange::Band(2, d),
        };
        self.apply(ch)
    }
}

} // verus!
