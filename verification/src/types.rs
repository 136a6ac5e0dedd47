//! Plain radio settings shared by the arbiters, the keyer and the displays.

use vstd::prelude::*;

verus! {

/// Operating mode of the radio.
#[derive(PartialEq, Eq, Structural, Clone, Copy, Debug)]
pub enum Mode {
    StandBy,
    WarmUp,
    Rx,
    Tx,
}

/// Keying mode of the CW keyer.
#[derive(PartialEq, Eq, Structural, Clone, Copy, Debug)]
pub enum CwKeyMode {
    Straight,
    IambicA,
    IambicB,
}

impl CwKeyMode {
    /// The next mode in the cycle straight key, iambic A, iambic B.
    pub fn next(self) -> (m: CwKeyMode)
        ensures
            m == match self {
                CwKeyMode::Straight => CwKeyMode::IambicA,
                CwKeyMode::IambicA => CwKeyMode::IambicB,
                CwKeyMode::IambicB => CwKeyMode::Straight,
            },
    {
        match self {
            CwKeyMode::Straight => CwKeyMode::IambicA,
            CwKeyMode::IambicA => CwKeyMode::IambicB,
            CwKeyMode::IambicB => CwKeyMode::Straight,
        }
    }
}

} // verus!

verus! {

/// Demodulation/transmission mode.
#[derive(PartialEq, Eq, Structural, Clone, Copy, Debug)]
pub enum TransmitMode {
    Usb,
    Lsb,
    Cw,
    Am,
}

impl TransmitMode {
    /// The next mode in the cycle USB, LSB, CW, AM.
    pub fn next(self) -> (m: TransmitMode)
        ensures
            m == match self {
                TransmitMode::Usb => TransmitMode::Lsb,
                TransmitMode::Lsb => TransmitMode::Cw,
                TransmitMode::Cw => TransmitMode::Am,
                TransmitMode::Am => TransmitMode::Usb,
            },
    {
        match self {
            TransmitMode::Usb => TransmitMode::Lsb,
            TransmitMode::Lsb => TransmitMode::Cw,
            TransmitMode::Cw => TransmitMode::Am,
            TransmitMode::Am => TransmitMode::Usb,
        }
    }
}

/// Audio AGC speed.
#[derive(PartialEq, Eq, Structural, Clone, Copy, Debug)]
pub enum AudioAgcMode {
    Off,
    Slow,
    Med,
    Fast,
}

impl AudioAgcMode {
    /// The next speed in the cycle off, slow, medium, fast.
    pub fn next(self) -> (m: AudioAgcMode)
        ensures
            m == match self {
                AudioAgcMode::Off => AudioAgcMode::Slow,
                AudioAgcMode::Slow => AudioAgcMode::Med,
                AudioAgcMode::Med => AudioAgcMode::Fast,
                AudioAgcMode::Fast => AudioAgcMode::Off,
            },
    {
        match self {
            AudioAgcMode::Off => AudioAgcMode::Slow,
            AudioAgcMode::Slow => AudioAgcMode::Med,
            AudioAgcMode::Med => AudioAgcMode::Fast,
            AudioAgcMode::Fast => AudioAgcMode::Off,
        }
    }
}

/// Receive filter width.
#[derive(PartialEq, Eq, Structural, Clone, Copy, Debug)]
pub enum FilterType {
    Wide,
    Medium,
    Narrow,
    CwNarrow,
}

impl FilterType {
    /// The next filter in the cycle wide, medium, narrow, CW narrow.
    pub fn next(self) -> (f: FilterType)
        ensures
            f == match self {
                FilterType::Wide => FilterType::Medium,
                FilterType::Medium => FilterType::Narrow,
                FilterType::Narrow => FilterType::CwNarrow,
                FilterType::CwNarrow => FilterType::Wide,
            },
    {
        match self {
            FilterType::Wide => FilterType::Medium,
            FilterType::Medium => FilterType::Narrow,
            FilterType::Narrow => FilterType::CwNarrow,
            FilterType::CwNarrow => FilterType::Wide,
        }
    }

    /// The filter selected when the transmit mode changes: the CW filter
    /// for CW, the wide filter for AM, the narrow filter for sideband.
    pub fn default_for_mode(mode: TransmitMode) -> (f: FilterType)
        ensures
            f == match mode {
                TransmitMode::Cw => FilterType::CwNarrow,
                TransmitMode::Am => FilterType::Wide,
                _ => FilterType::Narrow,
            },
    {
        match mode {
            TransmitMode::Cw => FilterType::CwNarrow,
            TransmitMode::Am => FilterType::Wide,
            _ => FilterType::Narrow,
        }
    }
}

/// IF gain control: manual, or AGC at one of two speeds.
#[derive(PartialEq, Eq, Structural, Clone, Copy, Debug)]
pub enum IfGainMode {
    Manual,
    AgcFast,
    AgcSlow,
}

impl IfGainMode {
    /// Switches between manual gain and AGC: any AGC speed goes to manual,
    /// manual goes to fast AGC.
    pub fn toggle(self) -> (m: IfGainMode)
        ensures
            m == (if self == IfGainMode::Manual { IfGainMode::AgcFast } else { IfGainMode::Manual }),
    {
        match self {
            IfGainMode::Manual => IfGainMode::AgcFast,
            _ => IfGainMode::Manual,
        }
    }
}

/// RF front-end gain.
#[derive(PartialEq, Eq, Structural, Clone, Copy, Debug)]
pub enum RfGainMode {
    Attenuator,
    Normal,
    RfSingle,
    RfDouble,
}

impl RfGainMode {
    /// The next gain in the cycle attenuator, normal, one preamp, two preamps.
    pub fn next(self) -> (m: RfGainMode)
        ensures
            m == match self {
                RfGainMode::Attenuator => RfGainMode::Normal,
                RfGainMode::Normal => RfGainMode::RfSingle,
                RfGainMode::RfSingle => RfGainMode::RfDouble,
                RfGainMode::RfDouble => RfGainMode::Attenuator,
            },
    {
        match self {
            RfGainMode::Attenuator => RfGainMode::Normal,
            RfGainMode::Normal => RfGainMode::RfSingle,
            RfGainMode::RfSingle => RfGainMode::RfDouble,
            RfGainMode::RfDouble => RfGainMode::Attenuator,
        }
    }
}

/// Clarifier: off, receive offset (RIT) or transmit offset (XIT).
#[derive(PartialEq, Eq, Structural, Clone, Copy, Debug)]
pub enum ClarifierMode {
    Off,
    Rit,
    Xit,
}

impl ClarifierMode {
    /// Switches the clarifier on (as RIT) when off, and off otherwise.
    pub fn toggle(self) -> (m: ClarifierMode)
        ensures
            m == (if self == ClarifierMode::Off { ClarifierMode::Rit } else { ClarifierMode::Off }),
    {
        match self {
            ClarifierMode::Off => ClarifierMode::Rit,
            _ => ClarifierMode::Off,
        }
    }
}

/// Request from the sweep scheduler to the frequency arbiter.
#[derive(PartialEq, Eq, Structural, Clone, Copy, Debug)]
pub enum SweepRequest {
    SetFrequency(u32),
    Done,
}

} // verus!

verus! {

/// An amateur HF band.
#[derive(PartialEq, Eq, Structural, Clone, Copy, Debug)]
pub enum Band {
    Band160m,
    Band80m,
    Band40m,
    Band30m,
    Band20m,
    Band17m,
    Band15m,
    Band12m,
    Band10m,
}

/// Position of a band from the lowest (160 m, 0) to the highest (10 m, 8).
pub open spec fn band_index(b: Band) -> int {
    match b {
        Band::Band160m => 0,
        Band::Band80m => 1,
        Band::Band40m => 2,
        Band::Band30m => 3,
        Band::Band20m => 4,
        Band::Band17m => 5,
        Band::Band15m => 6,
        Band::Band12m => 7,
        Band::Band10m => 8,
    }
}

/// The band at a position, wrapping around the nine bands.
pub open spec fn band_at(i: int) -> Band {
    let j = i % 9;
    if j == 0 {
        Band::Band160m
    } else if j == 1 {
        Band::Band80m
    } else if j == 2 {
        Band::Band40m
    } else if j == 3 {
        Band::Band30m
    } else if j == 4 {
        Band::Band20m
    } else if j == 5 {
        Band::Band17m
    } else if j == 6 {
        Band::Band15m
    } else if j == 7 {
        Band::Band12m
    } else {
        Band::Band10m
    }
}

/// Lower and upper edges of a band, in Hz.
pub open spec fn band_edges(b: Band) -> (u32, u32) {
    match b {
        Band::Band160m => (1_810_000, 2_000_000),
        Band::Band80m => (3_500_000, 3_800_000),
        Band::Band40m => (7_000_000, 7_200_000),
        Band::Band30m => (10_100_000, 10_150_000),
        Band::Band20m => (14_000_000, 14_350_000),
        Band::Band17m => (18_068_000, 18_168_000),
        Band::Band15m => (21_000_000, 21_450_000),
        Band::Band12m => (24_890_000, 24_990_000),
        Band::Band10m => (28_000_000, 29_700_000),
    }
}

impl Band {
    /// The band's position, 0 for 160 m up to 8 for 10 m.
    pub fn index(self) -> (i: u8)
        ensures
            i == band_index(self),
    {
        match self {
            Band::Band160m => 0,
            Band::Band80m => 1,
            Band::Band40m => 2,
            Band::Band30m => 3,
            Band::Band20m => 4,
            Band::Band17m => 5,
            Band::Band15m => 6,
            Band::Band12m => 7,
            Band::Band10m => 8,
        }
    }

    pub fn lower_frequency(self) -> (f: u32)
        ensures
            f == band_edges(self).0,
    {
        match self {
            Band::Band160m => 1_810_000,
            Band::Band80m => 3_500_000,
            Band::Band40m => 7_000_000,
            Band::Band30m => 10_100_000,
            Band::Band20m => 14_000_000,
            Band::Band17m => 18_068_000,
            Band::Band15m => 21_000_000,
            Band::Band12m => 24_890_000,
            Band::Band10m => 28_000_000,
        }
    }

    pub fn upper_frequency(self) -> (f: u32)
        ensures
            f == band_edges(self).1,
    {
        match self {
            Band::Band160m => 2_000_000,
            Band::Band80m => 3_800_000,
            Band::Band40m => 7_200_000,
            Band::Band30m => 10_150_000,
            Band::Band20m => 14_350_000,
            Band::Band17m => 18_168_000,
            Band::Band15m => 21_450_000,
            Band::Band12m => 24_990_000,
            Band::Band10m => 29_700_000,
        }
    }

    /// The next higher band; above 10 m comes 160 m.
    pub fn next(self) -> (b: Band)
        ensures
            b == band_at(band_index(self) + 1),
    {
        match self {
            Band::Band160m => Band::Band80m,
            Band::Band80m => Band::Band40m,
            Band::Band40m => Band::Band30m,
            Band::Band30m => Band::Band20m,
            Band::Band20m => Band::Band17m,
            Band::Band17m => Band::Band15m,
            Band::Band15m => Band::Band12m,
            Band::Band12m => Band::Band10m,
            Band::Band10m => Band::Band160m,
        }
    }

    /// The next lower band; below 160 m comes 10 m.
    pub fn prev(self) -> (b: Band)
        ensures
            b == band_at(band_index(self) + 8),
    {
        match self {
            Band::Band160m => Band::Band10m,
            Band::Band80m => Band::Band160m,
            Band::Band40m => Band::Band80m,
            Band::Band30m => Band::Band40m,
            Band::Band20m => Band::Band30m,
            Band::Band17m => Band::Band20m,
            Band::Band15m => Band::Band17m,
            Band::Band12m => Band::Band15m,
            Band::Band10m => Band::Band12m,
        }
    }
}

/// Stepping a band up and then down, or down and then up, returns to it.
pub proof fn lemma_band_next_prev_inverse(b: Band)
    ensures
        band_at(band_index(band_at(band_index(b) + 1)) + 8) == b,
        band_at(band_index(band_at(band_index(b) + 8)) + 1) == b,
{
}

} // verus!
