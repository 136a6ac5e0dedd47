//! What the front panel's screens show: labels, cursor highlighting, the
//! layout of the status bar, the digits of frequencies and bandwidths, the
//! clarifier offset and the menu's scrolling.

use vstd::prelude::*;

use crate::types::{IfGainMode, Mode, RfGainMode, TransmitMode};

verus! {

/// Width of one character of the status font, in pixels.
pub const CHAR_W: u32 = 6;
/// Rows of the menu that fit below its title.
pub const MENU_VISIBLE_ROWS: u8 = 8;
/// Full scale of a front-panel control.
pub const ACCUMULATOR_MAX: i16 = 1000;

/// How the cursor marks an item.
#[derive(PartialEq, Eq, Structural, Clone, Copy, Debug)]
pub enum Highlight {
    /// The cursor rests on the item.
    Selected,
    /// The item under the cursor is being edited.
    Editing,
}

/// The highlight of item `index`: none unless the cursor is on it.
pub fn cursor_highlight(cursor_index: u8, cursor_editing: bool, index: u8) -> (h: Option<Highlight>)
    ensures
        h == (if cursor_index != index {
            None
        } else if cursor_editing {
            Some(Highlight::Editing)
        } else {
            Some(Highlight::Selected)
        }),
{
    if cursor_index != index {
        return None;
    }
    if cursor_editing {
        Some(Highlight::Editing)
    } else {
        Some(Highlight::Selected)
    }
}

pub fn transmit_mode_label(m: TransmitMode) -> (l: &'static str)
    ensures
        l@ == match m {
            TransmitMode::Usb => "USB"@,
            TransmitMode::Lsb => "LSB"@,
            TransmitMode::Cw => "CW"@,
            TransmitMode::Am => "AM"@,
        },
{
    match m {
        TransmitMode::Usb => "USB",
        TransmitMode::Lsb => "LSB",
        TransmitMode::Cw => "CW",
        TransmitMode::Am => "AM",
    }
}

/// The AGC label of the main screen.
pub fn agc_label_short(m: IfGainMode) -> (l: &'static str)
    ensures
        l@ == match m {
            IfGainMode::Manual => "AGC:M"@,
            IfGainMode::AgcFast => "AGC:F"@,
            IfGainMode::AgcSlow => "AGC:S"@,
        },
{
    match m {
        IfGainMode::Manual => "AGC:M",
        IfGainMode::AgcFast => "AGC:F",
        IfGainMode::AgcSlow => "AGC:S",
    }
}

/// The AGC label of the meter screen.
pub fn agc_label_long(m: IfGainMode) -> (l: &'static str)
    ensures
        l@ == match m {
            IfGainMode::Manual => "AGC:MAN"@,
            IfGainMode::AgcFast => "AGC:FAST"@,
            IfGainMode::AgcSlow => "AGC:SLOW"@,
        },
{
    match m {
        IfGainMode::Manual => "AGC:MAN",
        IfGainMode::AgcFast => "AGC:FAST",
        IfGainMode::AgcSlow => "AGC:SLOW",
    }
}

/// The RF gain label; normal gain shows nothing.
pub fn rf_gain_label(m: RfGainMode) -> (l: &'static str)
    ensures
        l@ == match m {
            RfGainMode::Attenuator => "ATT"@,
            RfGainMode::Normal => ""@,
            RfGainMode::RfSingle => "PRE1"@,
            RfGainMode::RfDouble => "PRE2"@,
        },
{
    match m {
        RfGainMode::Attenuator => "ATT",
        RfGainMode::Normal => "",
        RfGainMode::RfSingle => "PRE1",
        RfGainMode::RfDouble => "PRE2",
    }
}

/// Colour class of the operating-mode label.
#[derive(PartialEq, Eq, Structural, Clone, Copy, Debug)]
pub enum ModeColor {
    Gray,
    Orange,
    BrightGreen,
    Red,
}

/// The operating-mode label and its colour.
pub fn mode_label(m: Mode) -> (r: (&'static str, ModeColor))
    ensures
        r.0@ == match m {
            Mode::StandBy => "STBY"@,
            Mode::WarmUp => "WARM"@,
            Mode::Rx => "RX"@,
            Mode::Tx => "TX"@,
        },
        r.1 == match m {
            Mode::StandBy => ModeColor::Gray,
            Mode::WarmUp => ModeColor::Orange,
            Mode::Rx => ModeColor::BrightGreen,
            Mode::Tx => ModeColor::Red,
        },
{
    match m {
        Mode::StandBy => ("STBY", ModeColor::Gray),
        Mode::WarmUp => ("WARM", ModeColor::Orange),
        Mode::Rx => ("RX", ModeColor::BrightGreen),
        Mode::Tx => ("TX", ModeColor::Red),
    }
}

/// Where the operating-mode label of `len` characters starts: right-aligned
/// two pixels from the 240-pixel screen's edge.
pub fn mode_label_x(len: u32) -> (x: i32)
    requires
        len * 6 <= i32::MAX,
    ensures
        x == 240 - 6 * len - 2,
{
    240 - (len as i32) * 6 - 2
}

/// One item of the status bar: where it starts, how wide it is, and whether
/// its label is drawn (an empty item may still carry the cursor outline).
#[derive(PartialEq, Eq, Structural, Clone, Copy, Debug)]
pub struct BarItem {
    pub x: u32,
    pub w: u32,
    pub drawn: bool,
}

/// The main screen's status bar: band, transmit mode, AGC, RF gain and
/// noise blanker, left to right, four pixels apart.
#[derive(PartialEq, Eq, Structural, Clone, Copy, Debug)]
pub struct StatusBarLayout {
    pub band: BarItem,
    pub transmit_mode: BarItem,
    pub agc: BarItem,
    pub rf: Option<BarItem>,
    pub nb: Option<BarItem>,
}

/// Lays out the status bar from the label lengths (in characters). An empty
/// RF label takes an 18-pixel slot only while the cursor is on it; the
/// noise blanker takes a 12-pixel slot while enabled or under the cursor.
pub fn status_bar_layout(
    band_len: u32,
    mode_len: u32,
    agc_len: u32,
    rf_len: u32,
    rf_highlighted: bool,
    nb_enabled: bool,
    nb_highlighted: bool,
) -> (l: StatusBarLayout)
    requires
        2 + band_len * 6 + 4 + mode_len * 6 + 4 + agc_len * 6 + 4 + (if rf_len > 0 {
            rf_len * 6 + 4
        } else if rf_highlighted {
            22
        } else {
            0
        }) <= u32::MAX,
    ensures
        l.band == (BarItem { x: 2, w: (band_len * 6) as u32, drawn: true }),
        l.transmit_mode == (BarItem { x: (l.band.x + l.band.w + 4) as u32, w: (mode_len * 6) as u32, drawn: true }),
        l.agc == (BarItem { x: (l.transmit_mode.x + l.transmit_mode.w + 4) as u32, w: (agc_len * 6) as u32, drawn: true }),
        l.rf == (if rf_len > 0 {
            Some(BarItem { x: (l.agc.x + l.agc.w + 4) as u32, w: (rf_len * 6) as u32, drawn: true })
        } else if rf_highlighted {
            Some(BarItem { x: (l.agc.x + l.agc.w + 4) as u32, w: 18, drawn: false })
        } else {
            None
        }),
        ({
            let nb_x = match l.rf {
                Some(r) => r.x + r.w + 4,
                None => l.agc.x + l.agc.w + 4,
            };
            l.nb == (if nb_enabled || nb_highlighted {
                Some(BarItem { x: nb_x as u32, w: 12, drawn: nb_enabled })
            } else {
                None
            })
        }),
{
    let band = BarItem { x: 2, w: band_len * CHAR_W, drawn: true };
    let mut x = band.x + band.w + 4;
    let transmit_mode = BarItem { x, w: mode_len * CHAR_W, drawn: true };
    x += transmit_mode.w + 4;
    let agc = BarItem { x, w: agc_len * CHAR_W, drawn: true };
    x += agc.w + 4;
    let rf = if rf_len > 0 {
        let item = BarItem { x, w: rf_len * CHAR_W, drawn: true };
        x += item.w + 4;
        Some(item)
    } else if rf_highlighted {
        let item = BarItem { x, w: 18, drawn: false };
        x += item.w + 4;
        Some(item)
    } else {
        None
    };
    let nb = if nb_enabled || nb_highlighted {
        Some(BarItem { x, w: 12, drawn: nb_enabled })
    } else {
        None
    };
    StatusBarLayout { band, transmit_mode, agc, rf, nb }
}

/// A frequency's megahertz, kilohertz and hertz digits.
pub fn frequency_parts(frequency: u32) -> (r: (u32, u32, u32))
    ensures
        r == (frequency / 1_000_000, (frequency % 1_000_000) / 1_000, frequency % 1_000),
        r.0 * 1_000_000 + r.1 * 1_000 + r.2 == frequency,
        r.1 < 1000 && r.2 < 1000,
{
    (frequency / 1_000_000, (frequency % 1_000_000) / 1_000, frequency % 1_000)
}

/// A bandwidth as the screens show it: kilohertz with one decimal from 1 kHz
/// up, hertz below.
#[derive(PartialEq, Eq, Structural, Clone, Copy, Debug)]
pub enum BandwidthText {
    Khz(u16, u16),
    Hz(u16),
}

pub fn bandwidth_text(bw_hz: u16) -> (t: BandwidthText)
    ensures
        t == (if bw_hz >= 1000 {
            BandwidthText::Khz(bw_hz / 1000, (bw_hz % 1000) / 100)
        } else {
            BandwidthText::Hz(bw_hz)
        }),
{
    if bw_hz >= 1000 {
        BandwidthText::Khz(bw_hz / 1000, (bw_hz % 1000) / 100)
    } else {
        BandwidthText::Hz(bw_hz)
    }
}

/// The clarifier offset in Hz for a control position: the control's centre
/// is no offset, its ends are 5 kHz either way.
pub open spec fn clarifier_offset(raw: i16) -> int {
    let c = raw - ACCUMULATOR_MAX / 2;
    let p = c * 5000;
    if p >= 0 { p / 500 } else { -((-p) / 500) }
}

pub fn clarifier_offset_hz(raw: i16) -> (hz: i32)
    ensures
        hz == clarifier_offset(raw),
{
    let offset_from_center = raw as i32 - (ACCUMULATOR_MAX as i32 / 2);
    proof {
        let c = offset_from_center as int;
        assert(-40000 <= c <= 40000);
        assert(-200_000_000 <= c * 5000 <= 200_000_000) by (nonlinear_arith)
            requires -40000 <= c <= 40000;
    }
    (offset_from_center * 5000) / (ACCUMULATOR_MAX as i32 / 2)
}

/// The clarifier offset as it is written: sign, kilohertz and tens of hertz.
pub fn clarifier_offset_text(offset_hz: i32) -> (r: (bool, u32, u32))
    requires
        offset_hz > i32::MIN,
    ensures
        r.0 == (offset_hz >= 0),
        ({
            let a = if offset_hz >= 0 { offset_hz as int } else { -offset_hz };
            r.1 == a / 1000 && r.2 == (a % 1000) / 10
        }),
{
    let a: u32 = if offset_hz >= 0 { offset_hz as u32 } else { (-offset_hz) as u32 };
    (offset_hz >= 0, a / 1000, (a % 1000) / 10)
}

/// The first menu item shown: the list scrolls so that the cursor's item is
/// the last visible row.
pub fn menu_scroll_offset(cursor: u8) -> (o: u8)
    ensures
        o == (if cursor >= MENU_VISIBLE_ROWS { cursor - MENU_VISIBLE_ROWS + 1 } else { 0 }),
{
    if cursor >= MENU_VISIBLE_ROWS {
        cursor - MENU_VISIBLE_ROWS + 1
    } else {
        0
    }
}

/// The screen row of menu item `idx`, if it is visible.
pub fn menu_row(idx: u8, scroll_offset: u8) -> (row: Option<u8>)
    ensures
        row == (if idx >= scroll_offset && idx - scroll_offset < MENU_VISIBLE_ROWS {
            Some((idx - scroll_offset) as u8)
        } else {
            None
        }),
{
    if idx < scroll_offset {
        return None;
    }
    let row = idx - scroll_offset;
    if row >= MENU_VISIBLE_ROWS {
        None
    } else {
        Some(row)
    }
}

/// The item under the cursor is always on screen.
pub proof fn lemma_cursor_item_visible(cursor: u8)
    ensures
        ({
            let o = if cursor >= MENU_VISIBLE_ROWS { cursor - MENU_VISIBLE_ROWS + 1 } else { 0 };
            cursor >= o && cursor - o < MENU_VISIBLE_ROWS
        }),
{
}

/// Why the radio stopped during start-up.
#[derive(PartialEq, Eq, Structural, Clone, Copy, Debug)]
pub enum BsodError {
    FrontPanelInitFailed,
    DisplayInitFailed,
    MainBoardInitFailed,
    Crash,
}

/// The fatal-error screen's message for a start-up failure.
pub fn fatal_message(e: BsodError) -> (m: &'static str)
    ensures
        m@ == match e {
            BsodError::FrontPanelInitFailed => "Front panel init failed"@,
            BsodError::DisplayInitFailed => "Display init failed"@,
            BsodError::MainBoardInitFailed => "Main board init failed"@,
            BsodError::Crash => "Main board crashed"@,
        },
{
    match e {
        BsodError::FrontPanelInitFailed => "Front panel init failed",
        BsodError::DisplayInitFailed => "Display init failed",
        BsodError::MainBoardInitFailed => "Main board init failed",
        BsodError::Crash => "Main board crashed",
    }
}

/// The SWR readout: whole part and the decimals as written (`.0x` below
/// 0.10, one decimal from there up).
#[derive(PartialEq, Eq, Structural, Clone, Copy, Debug)]
pub enum SwrText {
    /// `whole.0hundredths`
    Hundredths(u16, u16),
    /// `whole.tenths`
    Tenths(u16, u16),
}

pub fn swr_text(vswr_x100: u16) -> (t: SwrText)
    ensures
        t == (if vswr_x100 % 100 < 10 {
            SwrText::Hundredths(vswr_x100 / 100, vswr_x100 % 100)
        } else {
            SwrText::Tenths(vswr_x100 / 100, (vswr_x100 % 100) / 10)
        }),
{
    let whole = vswr_x100 / 100;
    let frac = vswr_x100 % 100;
    if frac < 10 {
        SwrText::Hundredths(whole, frac)
    } else {
        SwrText::Tenths(whole, frac / 10)
    }
}

/// Milliwatts as whole watts and tenths.
pub fn watts_text(mw: u16) -> (r: (u16, u16))
    ensures
        r == (mw / 1000, (mw % 1000) / 100),
{
    (mw / 1000, (mw % 1000) / 100)
}

} // verus!
