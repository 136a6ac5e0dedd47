//! Colours of the spectrum and waterfall display, as RGB565 pixel values.

use embedded_graphics::pixelcolor::raw::{RawData, RawU16};
use embedded_graphics::pixelcolor::Rgb565;
use vstd::prelude::*;

verus! {

/// Bottom of the waterfall's colour scale, in dBm.
pub const WF_DBM_MIN: i8 = -120;
/// Top of the waterfall's colour scale, in dBm.
pub const WF_DBM_MAX: i8 = -20;

/// The RGB565 pixel value of a colour: red in bits 11 to 15, green in bits
/// 5 to 10, blue in bits 0 to 4, each channel cut to its width.
pub open spec fn rgb565(r: u8, g: u8, b: u8) -> u16 {
    ((r % 32) * 2048 + (g % 64) * 32 + (b % 32)) as u16
}

/// `embedded_graphics`' `Rgb565::new`, read back as its raw 16-bit value.
/// The contract claims that the constructor keeps the low five bits of red,
/// the low six bits of green and the low five bits of blue, and that the raw
/// value places them at bits 11, 5 and 0.
#[verifier::external_body]
fn rgb565_raw(r: u8, g: u8, b: u8) -> (raw: u16)
    ensures
        raw == rgb565(r, g, b),
{
    RawU16::from(Rgb565::new(r, g, b)).into_inner()
}

/// The RGB565 pixel value of a colour given by its channels.
pub fn rgb(r: u8, g: u8, b: u8) -> (c: u16)
    ensures
        c == rgb565(r, g, b),
{
    rgb565_raw(r, g, b)
}

/// A level's position on the colour scale: -120 dBm to -20 dBm spread over
/// 0 to 255.
pub open spec fn norm(dbm: i8) -> int {
    let c = if dbm < WF_DBM_MIN { WF_DBM_MIN as int } else if dbm > WF_DBM_MAX { WF_DBM_MAX as int } else { dbm as int };
    (c + 120) * 255 / 100
}

/// A level's position on the colour scale.
pub fn dbm_to_norm(dbm: i8) -> (n: u8)
    ensures
        n == norm(dbm),
{
    let clamped = if dbm < WF_DBM_MIN { WF_DBM_MIN } else if dbm > WF_DBM_MAX { WF_DBM_MAX } else { dbm };
    proof {
        let c = clamped as int + 120;
        assert(c * 255 / 100 <= 255) by (nonlinear_arith)
            requires 0 <= c <= 100;
        assert(c * 255 / 100 >= 0) by (nonlinear_arith)
            requires 0 <= c;
    }
    ((clamped as i32 - WF_DBM_MIN as i32) * 255 / (WF_DBM_MAX as i32 - WF_DBM_MIN as i32)) as u8
}

/// The channels of the colour for scale position `n`: dark blue rising to
/// blue, then through cyan and green to yellow, then to red.
pub open spec fn scale_channels(n: int) -> (int, int, int) {
    if n < 64 {
        (n / 4, n / 4, 4 + n / 2)
    } else if n < 128 {
        let t = n - 64;
        (0, t / 2, 31 - t / 4)
    } else if n < 192 {
        let t = n - 128;
        (t / 2, if 31 + t / 2 < 63 { 31 + t / 2 } else { 63 }, 0)
    } else {
        let t = n - 192;
        (if 16 + t / 4 < 31 { 16 + t / 4 } else { 31 }, if 63 - t > 0 { 63 - t } else { 0 }, 0)
    }
}

/// The waterfall colour of a level, as an RGB565 pixel value.
pub fn dbm_to_color(dbm: i8) -> (c: u16)
    ensures
        c == rgb565(
            scale_channels(norm(dbm)).0 as u8,
            scale_channels(norm(dbm)).1 as u8,
            scale_channels(norm(dbm)).2 as u8,
        ),
{
    let n = dbm_to_norm(dbm) as u16;
    if n < 64 {
        let t = n;
        rgb565_raw((t / 4) as u8, (t / 4) as u8, (4 + t / 2) as u8)
    } else if n < 128 {
        let t = n - 64;
        rgb565_raw(0, (t / 2) as u8, (31 - t / 4) as u8)
    } else if n < 192 {
        let t = n - 128;
        let g = if 31 + t / 2 < 63 { 31 + t / 2 } else { 63 };
        rgb565_raw((t / 2) as u8, g as u8, 0)
    } else {
        let t = n - 192;
        let r = if 16 + t / 4 < 31 { 16 + t / 4 } else { 31 };
        let g = if 63 > t { 63 - t } else { 0 };
        rgb565_raw(r as u8, g as u8, 0)
    }
}

/// A colour at half brightness: each channel halved.
pub fn dim_color(c: u16) -> (d: u16)
    ensures
        d == rgb565(((c / 2048) % 32 / 2) as u8, ((c / 32) % 64 / 2) as u8, (c % 32 / 2) as u8),
{
    let r = (c / 2048) % 32;
    let g = (c / 32) % 64;
    let b = c % 32;
    rgb565_raw((r / 2) as u8, (g / 2) as u8, (b / 2) as u8)
}

/// Halving never brightens: each channel of the dimmed colour is at most
/// that of the colour it was made from.
pub proof fn lemma_dim_never_brightens(c: u16)
    ensures
        ({
            let d = rgb565(((c / 2048) % 32 / 2) as u8, ((c / 32) % 64 / 2) as u8, (c % 32 / 2) as u8);
            &&& (d / 2048) % 32 <= (c / 2048) % 32
            &&& (d / 32) % 64 <= (c / 32) % 64
            &&& d % 32 <= c % 32
        }),
{
    let r = (c / 2048) % 32;
    let g = (c / 32) % 64;
    let b = c % 32;
    let rr = r / 2;
    let gg = g / 2;
    let bb = b / 2;
    let d = rr * 2048 + gg * 32 + bb;
    assert(0 <= rr <= 15 && 0 <= gg <= 31 && 0 <= bb <= 15);
    assert(d / 2048 == rr && (d / 32) % 64 == gg && d % 32 == bb) by (nonlinear_arith)
        requires d == rr * 2048 + gg * 32 + bb, 0 <= rr <= 15, 0 <= gg <= 31, 0 <= bb <= 15;
    assert(rgb565(rr as u8, gg as u8, bb as u8) == d);
}

} // verus!
