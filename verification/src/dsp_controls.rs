//! How the radio's settings configure the receive DSP chain: demodulator and
//! AGC presets per mode, filter presets, the clarifier's receive offset and
//! the VOX's voice mode.

use vstd::prelude::*;

use crate::arbiters::mode::ModeCommand;
use crate::arbiters::scan::ScanCommand;
use crate::types::{AudioAgcMode, ClarifierMode, FilterType, TransmitMode};

verus! {

#[derive(PartialEq, Eq, Structural, Clone, Copy, Debug)]
pub enum DemodMode {
    Usb,
    Lsb,
    Cw,
    Am,
}

#[derive(PartialEq, Eq, Structural, Clone, Copy, Debug)]
pub enum AgcPreset {
    Off,
    SsbSlow,
    SsbFast,
    Cw,
    Am,
}

/// The demodulator and the default AGC preset of a transmit mode.
pub fn demod_for_mode(mode: TransmitMode) -> (r: (DemodMode, AgcPreset))
    ensures
        r == match mode {
            TransmitMode::Usb => (DemodMode::Usb, AgcPreset::SsbFast),
            TransmitMode::Lsb => (DemodMode::Lsb, AgcPreset::SsbFast),
            TransmitMode::Cw => (DemodMode::Cw, AgcPreset::Cw),
            TransmitMode::Am => (DemodMode::Am, AgcPreset::Am),
        },
{
    match mode {
        TransmitMode::Usb => (DemodMode::Usb, AgcPreset::SsbFast),
        TransmitMode::Lsb => (DemodMode::Lsb, AgcPreset::SsbFast),
        TransmitMode::Cw => (DemodMode::Cw, AgcPreset::Cw),
        TransmitMode::Am => (DemodMode::Am, AgcPreset::Am),
    }
}

/// The AGC preset for an audio AGC speed.
pub fn agc_preset_for(mode: AudioAgcMode) -> (p: AgcPreset)
    ensures
        p == match mode {
            AudioAgcMode::Off => AgcPreset::Off,
            AudioAgcMode::Slow => AgcPreset::SsbSlow,
            AudioAgcMode::Med => AgcPreset::SsbFast,
            AudioAgcMode::Fast => AgcPreset::SsbFast,
        },
{
    match mode {
        AudioAgcMode::Off => AgcPreset::Off,
        AudioAgcMode::Slow => AgcPreset::SsbSlow,
        AudioAgcMode::Med => AgcPreset::SsbFast,
        AudioAgcMode::Fast => AgcPreset::SsbFast,
    }
}

/// The DSP filter preset for a receive filter.
pub fn filter_preset_index(f: FilterType) -> (i: u8)
    ensures
        i == match f {
            FilterType::Wide => 3u8,
            FilterType::Medium => 2u8,
            FilterType::Narrow => 2u8,
            FilterType::CwNarrow => 0u8,
        },
{
    match f {
        FilterType::Wide => 3,
        FilterType::Medium => 2,
        FilterType::Narrow => 2,
        FilterType::CwNarrow => 0,
    }
}

/// Whether VOX listens for voice: in the sideband modes.
pub fn vox_voice_mode(mode: TransmitMode) -> (voice: bool)
    ensures
        voice == (mode == TransmitMode::Usb || mode == TransmitMode::Lsb),
{
    match mode {
        TransmitMode::Usb | TransmitMode::Lsb => true,
        _ => false,
    }
}

/// What a VOX transition asks of the arbiters.
#[derive(PartialEq, Eq, Structural, Clone, Copy, Debug)]
pub struct VoxCommands {
    pub mode: ModeCommand,
    pub scan: Option<ScanCommand>,
}

/// The commands for a VOX transition: voice starting keys the transmitter
/// and stops a running scan; voice ending releases the transmitter.
pub fn vox_transition_commands(activate: bool) -> (c: VoxCommands)
    ensures
        c == (if activate {
            VoxCommands { mode: ModeCommand::VoxActivate, scan: Some(ScanCommand::Stop) }
        } else {
            VoxCommands { mode: ModeCommand::VoxDeactivate, scan: None }
        }),
{
    if activate {
        VoxCommands { mode: ModeCommand::VoxActivate, scan: Some(ScanCommand::Stop) }
    } else {
        VoxCommands { mode: ModeCommand::VoxDeactivate, scan: None }
    }
}

/// The clarifier as the receiver applies it: an offset only in RIT mode.
#[derive(PartialEq, Eq, Structural, Clone, Copy, Debug)]
pub struct ClarifierTracker {
    pub mode: ClarifierMode,
}

impl ClarifierTracker {
    pub fn new() -> (t: Self)
        ensures
            t.mode == ClarifierMode::Off,
    {
        ClarifierTracker { mode: ClarifierMode::Off }
    }

    /// A new clarifier mode; switching it off removes the receive offset.
    pub fn on_mode(&mut self, mode: ClarifierMode) -> (offset: Option<i32>)
        ensures
            final(self).mode == mode,
            offset == (if mode == ClarifierMode::Off { Some(0i32) } else { None }),
    {
        self.mode = mode;
        if mode == ClarifierMode::Off {
            Some(0)
        } else {
            None
        }
    }

    /// A new clarifier value: it becomes the receive offset in RIT mode.
    pub fn on_value(&self, value: i16) -> (offset: Option<i32>)
        ensures
            offset == (if self.mode == ClarifierMode::Rit { Some(value as i32) } else { None }),
    {
        if self.mode == ClarifierMode::Rit {
            Some(value as i32)
        } else {
            None
        }
    }
}

} // verus!
