//! The operating-mode arbiter: power on/off, and the switch between receive
//! and transmit driven by every push-to-talk source.

use vstd::prelude::*;

use crate::types::Mode;

verus! {

/// A request to the mode arbiter.
#[derive(PartialEq, Eq, Structural, Clone, Copy, Debug)]
pub enum ModeCommand {
    PowerToggle,
    PttFrontPress,
    PttFrontRelease,
    PttRearPress,
    PttRearRelease,
    PttCatPress,
    PttCatRelease,
    PttMicPress,
    PttMicRelease,
    TonePress,
    ToneRelease,
    VoxActivate,
    VoxDeactivate,
    CwKeyDown,
    CwKeyUp,
}

/// The mode and which transmit sources are held.
#[derive(PartialEq, Eq, Structural, Clone, Copy, Debug)]
pub struct ModeArbiter {
    pub mode: Mode,
    pub ptt_front: bool,
    pub ptt_rear: bool,
    pub ptt_cat: bool,
    pub ptt_mic: bool,
    pub tone_held: bool,
    pub vox_active: bool,
    pub cw_key_active: bool,
}

/// Whether any transmit source is held.
pub open spec fn any_tx(a: ModeArbiter) -> bool {
    a.ptt_front || a.ptt_rear || a.ptt_cat || a.ptt_mic || a.tone_held || a.vox_active
        || a.cw_key_active
}

/// Whether the command presses a transmit source.
pub open spec fn is_press(cmd: ModeCommand) -> bool {
    match cmd {
        ModeCommand::PttFrontPress | ModeCommand::PttRearPress | ModeCommand::PttCatPress
        | ModeCommand::PttMicPress | ModeCommand::TonePress | ModeCommand::VoxActivate
        | ModeCommand::CwKeyDown => true,
        _ => false,
    }
}

/// The transmit sources after the command.
pub open spec fn sources_after(a: ModeArbiter, cmd: ModeCommand) -> ModeArbiter {
    match cmd {
        ModeCommand::PttFrontPress => ModeArbiter { ptt_front: true, ..a },
        ModeCommand::PttFrontRelease => ModeArbiter { ptt_front: false, ..a },
        ModeCommand::PttRearPress => ModeArbiter { ptt_rear: true, ..a },
        ModeCommand::PttRearRelease => ModeArbiter { ptt_rear: false, ..a },
        ModeCommand::PttCatPress => ModeArbiter { ptt_cat: true, ..a },
        ModeCommand::PttCatRelease => ModeArbiter { ptt_cat: false, ..a },
        ModeCommand::PttMicPress => ModeArbiter { ptt_mic: true, ..a },
        ModeCommand::PttMicRelease => ModeArbiter { ptt_mic: false, ..a },
        ModeCommand::TonePress => ModeArbiter { tone_held: true, ..a },
        ModeCommand::ToneRelease => ModeArbiter { tone_held: false, ..a },
        ModeCommand::VoxActivate => ModeArbiter { vox_active: true, ..a },
        ModeCommand::VoxDeactivate => ModeArbiter { vox_active: false, ..a },
        ModeCommand::CwKeyDown => ModeArbiter { cw_key_active: true, ..a },
        ModeCommand::CwKeyUp => ModeArbiter { cw_key_active: false, ..a },
        ModeCommand::PowerToggle => a,
    }
}

/// The mode to switch to after the command, if it switches: power toggles
/// between stand-by and warm-up (or stand-by from any other mode); a press
/// turns receive into transmit; a release returns to receive once no
/// source is held.
pub open spec fn mode_change(a: ModeArbiter, cmd: ModeCommand) -> Option<Mode> {
    let b = sources_after(a, cmd);
    if cmd == ModeCommand::PowerToggle {
        Some(if a.mode == Mode::StandBy { Mode::WarmUp } else { Mode::StandBy })
    } else if is_press(cmd) {
        if a.mode == Mode::Rx { Some(Mode::Tx) } else { None }
    } else {
        if a.mode == Mode::Tx && !any_tx(b) { Some(Mode::Rx) } else { None }
    }
}

impl ModeArbiter {
    /// Stand-by with no source held.
    pub fn new() -> (a: Self)
        ensures
            a.mode == Mode::StandBy,
            !any_tx(a),
    {
        ModeArbiter {
            mode: Mode::StandBy,
            ptt_front: false,
            ptt_rear: false,
            ptt_cat: false,
            ptt_mic: false,
            tone_held: false,
            vox_active: false,
            cw_key_active: false,
        }
    }

    /// Applies one command; returns the new mode to publish when it changes.
    pub fn handle(&mut self, cmd: ModeCommand) -> (sent: Option<Mode>)
        ensures
            sent == mode_change(*old(self), cmd),
            *final(self) == (ModeArbiter {
                mode: match sent {
                    Some(m) => m,
                    None => old(self).mode,
                },
                ..sources_after(*old(self), cmd)
            }),
    {
        match cmd {
            ModeCommand::PttFrontPress => self.ptt_front = true,
            ModeCommand::PttFrontRelease => self.ptt_front = false,
            ModeCommand::PttRearPress => self.ptt_rear = true,
            ModeCommand::PttRearRelease => self.ptt_rear = false,
            ModeCommand::PttCatPress => self.ptt_cat = true,
            ModeCommand::PttCatRelease => self.ptt_cat = false,
            ModeCommand::PttMicPress => self.ptt_mic = true,
            ModeCommand::PttMicRelease => self.ptt_mic = false,
            ModeCommand::TonePress => self.tone_held = true,
            ModeCommand::ToneRelease => self.tone_held = false,
            ModeCommand::VoxActivate => self.vox_active = true,
            ModeCommand::VoxDeactivate => self.vox_active = false,
            ModeCommand::CwKeyDown => self.cw_key_active = true,
            ModeCommand::CwKeyUp => self.cw_key_active = false,
            ModeCommand::PowerToggle => {},
        }

        let any_tx = self.ptt_front || self.ptt_rear || self.ptt_cat || self.ptt_mic
            || self.tone_held || self.vox_active || self.cw_key_active;

        let new_mode = match cmd {
            ModeCommand::PowerToggle => {
                if self.mode == Mode::StandBy {
                    Mode::WarmUp
                } else {
                    Mode::StandBy
                }
            },
            ModeCommand::PttFrontPress | ModeCommand::PttRearPress | ModeCommand::PttCatPress
            | ModeCommand::PttMicPress | ModeCommand::TonePress | ModeCommand::VoxActivate
            | ModeCommand::CwKeyDown => {
                if self.mode == Mode::Rx {
                    Mode::Tx
                } else {
                    return None;
                }
            },
            ModeCommand::PttFrontRelease | ModeCommand::PttRearRelease
            | ModeCommand::PttCatRelease | ModeCommand::PttMicRelease | ModeCommand::ToneRelease
            | ModeCommand::VoxDeactivate | ModeCommand::CwKeyUp => {
                if self.mode == Mode::Tx && !any_tx {
                    Mode::Rx
                } else {
                    return None;
                }
            },
        };
        self.mode = new_mode;
        Some(new_mode)
    }
}

/// The arbiter after `handle` with this command.
pub open spec fn mode_step(a: ModeArbiter, cmd: ModeCommand) -> ModeArbiter {
    ModeArbiter {
        mode: match mode_change(a, cmd) {
            Some(m) => m,
            None => a.mode,
        },
        ..sources_after(a, cmd)
    }
}

/// The radio transmits only while some transmit source is held: a state in
/// which that holds keeps it through every command.
pub proof fn lemma_tx_only_while_source_held(a: ModeArbiter, cmd: ModeCommand)
    requires
        a.mode == Mode::Tx ==> any_tx(a),
    ensures
        mode_step(a, cmd).mode == Mode::Tx ==> any_tx(mode_step(a, cmd)),
{
}

/// Transmit is entered only from receive, by a press; stand-by and warm-up
/// never switch to transmit.
pub proof fn lemma_tx_entered_only_from_rx(a: ModeArbiter, cmd: ModeCommand)
    requires
        a.mode != Mode::Tx,
        mode_step(a, cmd).mode == Mode::Tx,
    ensures
        a.mode == Mode::Rx,
        is_press(cmd),
{
}

/// Releasing the last held source while transmitting returns to receive.
pub proof fn lemma_last_release_returns_to_rx(a: ModeArbiter, cmd: ModeCommand)
    requires
        a.mode == Mode::Tx,
        cmd != ModeCommand::PowerToggle,
        !is_press(cmd),
        !any_tx(sources_after(a, cmd)),
    ensures
        mode_change(a, cmd) == Some(Mode::Rx),
{
}

/// The power button turns a radio that is on (warming up, receiving or
/// transmitting) off to stand-by, and only a radio in stand-by starts its
/// warm-up; the held transmit sources neither change nor matter. Pressed
/// twice, it brings a radio in stand-by back to stand-by and any other radio
/// to warm-up.
pub proof fn lemma_power_toggle(a: ModeArbiter)
    ensures
        a.mode != Mode::StandBy ==> mode_change(a, ModeCommand::PowerToggle) == Some(Mode::StandBy),
        a.mode == Mode::StandBy ==> mode_change(a, ModeCommand::PowerToggle) == Some(Mode::WarmUp),
        mode_step(a, ModeCommand::PowerToggle) == (ModeArbiter {
            mode: mode_step(a, ModeCommand::PowerToggle).mode,
            ..a
        }),
        mode_step(mode_step(a, ModeCommand::PowerToggle), ModeCommand::PowerToggle).mode == (if a.mode
            == Mode::StandBy {
            Mode::StandBy
        } else {
            Mode::WarmUp
        }),
{
}

/// A press of any transmit source switches a receiving radio to transmit
/// and leaves stand-by, warm-up and transmit as they are; a release switches
/// a transmitting radio back to receive exactly when no source is left
/// held, and never changes any other mode.
pub proof fn lemma_press_and_release(a: ModeArbiter, cmd: ModeCommand)
    requires
        cmd != ModeCommand::PowerToggle,
    ensures
        is_press(cmd) ==> mode_change(a, cmd) == (if a.mode == Mode::Rx { Some(Mode::Tx) } else { None::<Mode> }),
        !is_press(cmd) ==> mode_change(a, cmd) == (if a.mode == Mode::Tx && !any_tx(sources_after(a, cmd)) {
            Some(Mode::Rx)
        } else {
            None::<Mode>
        }),
        is_press(cmd) ==> any_tx(sources_after(a, cmd)),
{
}

} // verus!
