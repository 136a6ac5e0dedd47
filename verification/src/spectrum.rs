//! The spectrum and waterfall screen: column heights, pixel colours, the
//! frequency scale and the sweep indicator.

use vstd::prelude::*;

use crate::colors::{dbm_to_color, dbm_to_norm, dim_color, norm, rgb565, scale_channels};
use crate::waterfall::{SweepStatus, NO_DATA};

verus! {

/// Top of the spectrum plot, in pixels.
pub const SPECTRUM_Y: i32 = 12;
/// Height of the spectrum plot, in pixels.
pub const SPECTRUM_HEIGHT: i32 = 33;

/// The row of the spectrum trace for a level: the bottom row for the scale's
/// floor, the top row for its top.
pub fn spectrum_trace_y(dbm: i8) -> (y: i32)
    ensures
        y == SPECTRUM_Y + SPECTRUM_HEIGHT - 1 - norm(dbm) * (SPECTRUM_HEIGHT - 1) / 255,
        SPECTRUM_Y <= y <= SPECTRUM_Y + SPECTRUM_HEIGHT - 1,
{
    let n = dbm_to_norm(dbm);
    proof {
        let ni = n as int;
        assert(ni * 32 / 255 <= 32) by (nonlinear_arith)
            requires 0 <= ni <= 255;
        assert(ni * 32 / 255 >= 0) by (nonlinear_arith)
            requires 0 <= ni;
    }
    let bar_h = (n as i32 * (SPECTRUM_HEIGHT - 1)) / 255;
    SPECTRUM_Y + SPECTRUM_HEIGHT - 1 - bar_h
}

/// The fill and trace colours of a spectrum column: bright inside the live
/// range and where nothing was measured, dim elsewhere.
pub fn spectrum_column_colors(x: usize, live_start: usize, live_end: usize, dbm: i8) -> (c: (u16, u16))
    ensures
        c == (if (live_start <= x && x < live_end) || dbm == NO_DATA {
            (rgb565(0, 12, 0), rgb565(0, 50, 0))
        } else {
            (rgb565(0, 6, 0), rgb565(0, 40, 0))
        }),
{
    if (x >= live_start && x < live_end) || dbm == NO_DATA {
        (crate::colors::rgb(0, 12, 0), crate::colors::rgb(0, 50, 0))
    } else {
        (crate::colors::rgb(0, 6, 0), crate::colors::rgb(0, 40, 0))
    }
}

/// The colour of a waterfall pixel: a fixed dark blue where nothing was
/// measured, the level's colour in the live range, half of it elsewhere.
pub fn waterfall_pixel(dbm: i8, x: usize, live_start: usize, live_end: usize) -> (c: u16)
    ensures
        ({
            let (r, g, b) = scale_channels(norm(dbm));
            let full = rgb565(r as u8, g as u8, b as u8);
            c == (if dbm == NO_DATA {
                rgb565(2, 2, 4)
            } else if live_start <= x && x < live_end {
                full
            } else {
                rgb565(((full / 2048) % 32 / 2) as u8, ((full / 32) % 64 / 2) as u8, (full % 32 / 2) as u8)
            })
        }),
{
    if dbm == NO_DATA {
        crate::colors::rgb(2, 2, 4)
    } else if x >= live_start && x < live_end {
        dbm_to_color(dbm)
    } else {
        dim_color(dbm_to_color(dbm))
    }
}

/// The centre line of a waterfall row is drawn bright where the level is
/// more than 10 dB above the display floor.
pub fn center_marker_bright(dbm: i8) -> (b: bool)
    ensures
        b == (dbm > -110),
{
    dbm > -120 + 10
}

/// The frequencies at the left and right edges of the display.
pub fn display_edges(center_freq: u32, span_hz: u32) -> (r: (u32, u32))
    requires
        center_freq + span_hz / 2 <= u32::MAX,
    ensures
        r.0 == (if center_freq >= span_hz / 2 { center_freq - span_hz / 2 } else { 0 }),
        r.1 == center_freq + span_hz / 2,
{
    let half_span = span_hz / 2;
    let left = if center_freq >= half_span { center_freq - half_span } else { 0 };
    (left, center_freq + half_span)
}

/// Colour class of the sweep indicator.
#[derive(PartialEq, Eq, Structural, Clone, Copy, Debug)]
pub enum SweepDot {
    Gray,
    Green,
    Yellow,
}

/// The sweep indicator: gray when the data is stale or the sweep idle,
/// green while sweeping, yellow while listening.
pub fn sweep_dot(stale: bool, status: SweepStatus) -> (d: SweepDot)
    ensures
        d == (if stale {
            SweepDot::Gray
        } else {
            match status {
                SweepStatus::Sweeping => SweepDot::Green,
                SweepStatus::Listening => SweepDot::Yellow,
                SweepStatus::Idle => SweepDot::Gray,
            }
        }),
{
    if stale {
        SweepDot::Gray
    } else {
        match status {
            SweepStatus::Sweeping => SweepDot::Green,
            SweepStatus::Listening => SweepDot::Yellow,
            SweepStatus::Idle => SweepDot::Gray,
        }
    }
}

} // verus!
