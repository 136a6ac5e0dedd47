//! The arbiters of on/off switches and cycled selections. Each takes the
//! current value and a command and returns the new value, which is also the
//! value the arbiter publishes.

use vstd::prelude::*;

use crate::types::{AudioAgcMode, ClarifierMode, RfGainMode, TransmitMode};

verus! {

#[derive(PartialEq, Eq, Structural, Clone, Copy, Debug)]
pub enum AnfCommand {
    Toggle,
}

#[derive(PartialEq, Eq, Structural, Clone, Copy, Debug)]
pub enum AudioAgcCommand {
    Cycle,
}

#[derive(PartialEq, Eq, Structural, Clone, Copy, Debug)]
pub enum ClarifierModeCommand {
    Toggle,
}

#[derive(PartialEq, Eq, Structural, Clone, Copy, Debug)]
pub enum CwPeakCommand {
    Toggle,
}

#[derive(PartialEq, Eq, Structural, Clone, Copy, Debug)]
pub enum DspFilterCommand {
    Toggle,
}

#[derive(PartialEq, Eq, Structural, Clone, Copy, Debug)]
pub enum NbCommand {
    Toggle,
    SetTo(bool),
}

#[derive(PartialEq, Eq, Structural, Clone, Copy, Debug)]
pub enum NrCommand {
    Toggle,
}

#[derive(PartialEq, Eq, Structural, Clone, Copy, Debug)]
pub enum RfGainModeCommand {
    Cycle,
    SetTo(RfGainMode),
}

#[derive(PartialEq, Eq, Structural, Clone, Copy, Debug)]
pub enum ToneCommand {
    Press,
    Release,
}

#[derive(PartialEq, Eq, Structural, Clone, Copy, Debug)]
pub enum TransmitModeCommand {
    Cycle,
}

/// The automatic notch filter's switch.
pub fn anf_handle(enabled: bool, cmd: AnfCommand) -> (r: bool)
    ensures
        r == !enabled,
{
    match cmd {
        AnfCommand::Toggle => !enabled,
    }
}

/// The audio AGC's speed.
pub fn audio_agc_handle(mode: AudioAgcMode, cmd: AudioAgcCommand) -> (r: AudioAgcMode)
    ensures
        r == match mode {
            AudioAgcMode::Off => AudioAgcMode::Slow,
            AudioAgcMode::Slow => AudioAgcMode::Med,
            AudioAgcMode::Med => AudioAgcMode::Fast,
            AudioAgcMode::Fast => AudioAgcMode::Off,
        },
{
    match cmd {
        AudioAgcCommand::Cycle => mode.next(),
    }
}

/// The clarifier's mode.
pub fn clarifier_mode_handle(mode: ClarifierMode, cmd: ClarifierModeCommand) -> (r: ClarifierMode)
    ensures
        r == (if mode == ClarifierMode::Off { ClarifierMode::Rit } else { ClarifierMode::Off }),
{
    match cmd {
        ClarifierModeCommand::Toggle => mode.toggle(),
    }
}

/// The CW peaking filter's switch.
pub fn cw_peak_handle(enabled: bool, cmd: CwPeakCommand) -> (r: bool)
    ensures
        r == !enabled,
{
    match cmd {
        CwPeakCommand::Toggle => !enabled,
    }
}

/// The DSP filter's switch.
pub fn dsp_filter_handle(enabled: bool, cmd: DspFilterCommand) -> (r: bool)
    ensures
        r == !enabled,
{
    match cmd {
        DspFilterCommand::Toggle => !enabled,
    }
}

/// The noise blanker's switch.
pub fn nb_handle(enabled: bool, cmd: NbCommand) -> (r: bool)
    ensures
        r == match cmd {
            NbCommand::Toggle => !enabled,
            NbCommand::SetTo(e) => e,
        },
{
    match cmd {
        NbCommand::Toggle => !enabled,
        NbCommand::SetTo(e) => e,
    }
}

/// The noise reduction's switch.
pub fn nr_handle(enabled: bool, cmd: NrCommand) -> (r: bool)
    ensures
        r == !enabled,
{
    match cmd {
        NrCommand::Toggle => !enabled,
    }
}

/// The RF front end's gain.
pub fn rf_gain_mode_handle(mode: RfGainMode, cmd: RfGainModeCommand) -> (r: RfGainMode)
    ensures
        r == match cmd {
            RfGainModeCommand::Cycle => match mode {
                RfGainMode::Attenuator => RfGainMode::Normal,
                RfGainMode::Normal => RfGainMode::RfSingle,
                RfGainMode::RfSingle => RfGainMode::RfDouble,
                RfGainMode::RfDouble => RfGainMode::Attenuator,
            },
            RfGainModeCommand::SetTo(m) => m,
        },
{
    match cmd {
        RfGainModeCommand::Cycle => mode.next(),
        RfGainModeCommand::SetTo(m) => m,
    }
}

/// The tune tone: on while the tone button is held.
pub fn tone_handle(cmd: ToneCommand) -> (active: bool)
    ensures
        active == (cmd == ToneCommand::Press),
{
    match cmd {
        ToneCommand::Press => true,
        ToneCommand::Release => false,
    }
}

/// The transmit mode.
pub fn transmit_mode_handle(mode: TransmitMode, cmd: TransmitModeCommand) -> (r: TransmitMode)
    ensures
        r == match mode {
            TransmitMode::Usb => TransmitMode::Lsb,
            TransmitMode::Lsb => TransmitMode::Cw,
            TransmitMode::Cw => TransmitMode::Am,
            TransmitMode::Am => TransmitMode::Usb,
        },
{
    match cmd {
        TransmitModeCommand::Cycle => mode.next(),
    }
}

} // verus!
