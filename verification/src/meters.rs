//! Display arithmetic of the front panel's meters: the S-meter scale and
//! reading, bar widths, the power and SWR readouts, and the reflected power.

use vstd::prelude::*;

verus! {

/// Bottom of the S-meter scale, in dBm.
pub const SMETER_DBM_MIN: i8 = -120;
/// S9, in dBm.
pub const DBM_S9: i8 = -73;
/// Top of the S-meter scale, in dBm.
pub const SMETER_DBM_MAX: i8 = -13;
/// Full scale of the S-meter bar.
pub const BAR_FULL_SCALE: u16 = 4095;
/// Full scale of the power meter, in mW.
pub const MAX_POWER_MW: u16 = 50_000;

/// Integer division rounding towards zero.
pub open spec fn div_toward_zero(a: int, b: int) -> int {
    if a >= 0 { a / b } else { -((-a) / b) }
}

/// `v` held within `[lo, hi]`.
pub open spec fn clamped(v: int, lo: int, hi: int) -> int {
    if v < lo { lo } else if v > hi { hi } else { v }
}

/// The S-meter bar value for a level: the scale from -120 dBm to -13 dBm
/// spread over 0 to 4095.
pub open spec fn smeter_bar(dbm: i8) -> int {
    (clamped(dbm as int, SMETER_DBM_MIN as int, SMETER_DBM_MAX as int) - SMETER_DBM_MIN) * 4095 / (
    SMETER_DBM_MAX - SMETER_DBM_MIN)
}

/// The S-meter bar value for a level.
pub fn dbm_to_bar(dbm: i8) -> (bar: u16)
    ensures
        bar == smeter_bar(dbm),
        bar <= BAR_FULL_SCALE,
{
    let clamped = if dbm < SMETER_DBM_MIN {
        SMETER_DBM_MIN
    } else if dbm > SMETER_DBM_MAX {
        SMETER_DBM_MAX
    } else {
        dbm
    };
    proof {
        let c = clamped as int + 120;
        assert(c * 4095 / 107 <= 4095) by (nonlinear_arith)
            requires 0 <= c <= 107;
        assert(c * 4095 / 107 >= 0) by (nonlinear_arith)
            requires 0 <= c;
    }
    ((clamped as i32 - SMETER_DBM_MIN as i32) * 4095 / (SMETER_DBM_MAX as i32 - SMETER_DBM_MIN as i32)) as u16
}

/// The bar value of S9, where the bar changes colour.
pub fn s9_bar() -> (bar: u16)
    ensures
        bar == smeter_bar(DBM_S9),
{
    dbm_to_bar(DBM_S9)
}

/// An S-meter reading: S0 to S9, or decibels over S9 in steps of ten.
#[derive(PartialEq, Eq, Structural, Clone, Copy, Debug)]
pub enum SReading {
    S(u8),
    S9Plus(u8),
}

/// The S-meter reading for a level.
pub open spec fn s_reading(dbm: i8) -> SReading {
    if dbm <= DBM_S9 {
        SReading::S(clamped(div_toward_zero((dbm - SMETER_DBM_MIN) * 9, DBM_S9 - SMETER_DBM_MIN), 0, 9) as u8)
    } else {
        SReading::S9Plus(((dbm - DBM_S9) / 10 * 10) as u8)
    }
}

/// The S-meter reading for a level: S units up to S9 (47 dB spread over nine
/// units), then the excess over S9 rounded down to ten dB.
pub fn s_meter_reading(dbm: i8) -> (r: SReading)
    ensures
        r == s_reading(dbm),
{
    if dbm <= DBM_S9 {
        let s_unit = ((dbm as i32 - SMETER_DBM_MIN as i32) * 9) / (DBM_S9 as i32 - SMETER_DBM_MIN as i32);
        let s_unit = if s_unit < 0 { 0 } else if s_unit > 9 { 9 } else { s_unit };
        SReading::S(s_unit as u8)
    } else {
        let over = dbm as i32 - DBM_S9 as i32;
        SReading::S9Plus(((over / 10) * 10) as u8)
    }
}

/// The filled width of a bar of `width` pixels showing `value` of `max`.
pub open spec fn fill_width(value: u16, max: u16, width: u32) -> int {
    if max > 0 {
        (if value < max { value as int } else { max as int }) * width / (max as int)
    } else {
        0
    }
}

/// The filled and the remaining width of a meter bar.
pub fn meter_bar_widths(value: u16, max: u16, width: u32) -> (r: (u32, u32))
    requires
        max > 0 ==> (if value < max { value as int } else { max as int }) * width <= u32::MAX,
    ensures
        r.0 == fill_width(value, max, width),
        r.0 <= width,
        r.1 == width - r.0,
{
    let fill_w = if max > 0 {
        let v = if (value as u32) < (max as u32) { value as u32 } else { max as u32 };
        proof {
            let vi = v as int;
            let m = max as int;
            let w = width as int;
            assert(vi * w / m <= w) by (nonlinear_arith)
                requires 0 <= vi <= m, m > 0, w >= 0;
        }
        (v * width) / max as u32
    } else {
        0
    };
    (fill_w, width - fill_w)
}

/// The segments of a two-colour meter: the part below the threshold, the
/// part above it, and the unfilled rest.
pub fn gradient_meter_widths(value: u16, max: u16, threshold: u16, width: u32) -> (r: (u32, u32, u32))
    requires
        max > 0,
        (if value < max { value as int } else { max as int }) * width <= u32::MAX,
        (if threshold < max { threshold as int } else { max as int }) * width <= u32::MAX,
    ensures
        ({
            let fill = fill_width(value, max, width);
            let thr = fill_width(threshold, max, width);
            &&& r.0 == (if fill < thr { fill } else { thr })
            &&& r.1 == (if fill > thr { fill - thr } else { 0 })
            &&& r.2 == width - fill
            &&& r.0 + r.1 + r.2 == width
        }),
{
    let (fill_w, remaining) = meter_bar_widths(value, max, width);
    let (threshold_w, _) = meter_bar_widths(threshold, max, width);
    let low_w = if fill_w < threshold_w { fill_w } else { threshold_w };
    let high_w = if fill_w > threshold_w { fill_w - threshold_w } else { 0 };
    (low_w, high_w, remaining)
}

/// The S-meter's peak marker: shown when the peak is more than 40 bar steps
/// above the current value, at this pixel offset in a bar of `width`.
pub fn peak_marker(value: u16, peak: u16, width: u32) -> (x: Option<u32>)
    requires
        peak > (if value + 40 > u16::MAX { u16::MAX as int } else { value + 40 }) ==> peak * width <= u32::MAX,
    ensures
        x == (if peak > (if value + 40 > u16::MAX { u16::MAX as int } else { value + 40 }) {
            Some((peak * width / 4095) as u32)
        } else {
            None::<u32>
        }),
{
    let limit: u16 = if value > 65535 - 40 { 65535 } else { value + 40 };
    if peak > limit {
        Some((peak as u32 * width) / 4095)
    } else {
        None
    }
}

/// The power meter's target mark: the power setting (in hundredths of a
/// percent) as milliwatts of the 50 W full scale, and its pixel offset in a
/// bar of `bar_w`.
pub fn power_target_mark(rf_power_centipercent: u16, bar_w: u32) -> (r: (u16, u32))
    requires
        ((rf_power_centipercent * 50_000 / 10_000) as u16) * bar_w <= u32::MAX,
    ensures
        r.0 == (rf_power_centipercent * 50_000 / 10_000) as u16,
        r.1 == r.0 * bar_w / 50_000,
{
    proof {
        let c = rf_power_centipercent as int;
        assert(c * 50_000 <= 65535 * 50_000) by (nonlinear_arith)
            requires 0 <= c <= 65535;
    }
    let target_mw = (rf_power_centipercent as u32 * MAX_POWER_MW as u32 / 10000) as u16;
    let target_x = (target_mw as u32 * bar_w) / MAX_POWER_MW as u32;
    (target_mw, target_x)
}

/// Reflected power, in mW, from forward power and SWR (in hundredths):
/// forward power times the squared reflection coefficient
/// ((SWR - 1) / (SWR + 1))².
pub open spec fn reflected_power(forward_mw: u16, vswr_x100: u16) -> int {
    if vswr_x100 > 100 {
        let num = vswr_x100 - 100;
        let den = vswr_x100 + 100;
        forward_mw * num * num / (den * den)
    } else {
        0
    }
}

/// Reflected power, in mW, as the meter screen shows it.
pub fn reflected_mw(forward_power_mw: u16, vswr_x100: u16) -> (r: u16)
    requires
        vswr_x100 > 100 ==> forward_power_mw * (vswr_x100 - 100) * (vswr_x100 - 100) <= u32::MAX,
        vswr_x100 > 100 ==> (vswr_x100 + 100) * (vswr_x100 + 100) <= u32::MAX,
    ensures
        r == reflected_power(forward_power_mw, vswr_x100),
{
    if vswr_x100 > 100 {
        let gamma_num: u32 = vswr_x100 as u32 - 100;
        let gamma_den: u32 = vswr_x100 as u32 + 100;
        proof {
            let f = forward_power_mw as int;
            let n = gamma_num as int;
            let d = gamma_den as int;
            assert(d * d > 0) by (nonlinear_arith)
                requires d > 0;
            assert(f * n * n / (d * d) <= f) by (nonlinear_arith)
                requires 0 <= n < d, 0 <= f;
            assert(f * n <= f * n * n || n == 0) by (nonlinear_arith)
                requires 0 <= n, 0 <= f;
            assert(f * n <= u32::MAX) by (nonlinear_arith)
                requires 0 <= n, 0 <= f, f * n * n <= u32::MAX, n >= 1;
        }
        ((forward_power_mw as u32 * gamma_num * gamma_num) / (gamma_den * gamma_den)) as u16
    } else {
        0
    }
}

/// Reflected power never exceeds forward power, and is zero for a perfect
/// match.
pub proof fn lemma_reflected_within_forward(forward_mw: u16, vswr_x100: u16)
    ensures
        0 <= reflected_power(forward_mw, vswr_x100) <= forward_mw,
        vswr_x100 <= 100 ==> reflected_power(forward_mw, vswr_x100) == 0,
{
    if vswr_x100 > 100 {
        let f = forward_mw as int;
        let n = vswr_x100 - 100;
        let d = vswr_x100 + 100;
        assert(f * n * n / (d * d) <= f) by (nonlinear_arith)
            requires 0 <= n < d, 0 <= f;
        assert(f * n * n / (d * d) >= 0) by (nonlinear_arith)
            requires 0 <= n < d, 0 <= f;
    }
}

/// The S-meter bar never runs backwards: a stronger signal never shows less.
pub proof fn lemma_smeter_bar_monotone(a: i8, b: i8)
    requires
        a <= b,
    ensures
        0 <= smeter_bar(a) <= smeter_bar(b) <= BAR_FULL_SCALE,
{
    let ca = clamped(a as int, -120, -13) + 120;
    let cb = clamped(b as int, -120, -13) + 120;
    assert(ca * 4095 / 107 <= cb * 4095 / 107) by (nonlinear_arith)
        requires 0 <= ca <= cb;
    assert(cb * 4095 / 107 <= 4095) by (nonlinear_arith)
        requires cb <= 107;
    assert(ca * 4095 / 107 >= 0) by (nonlinear_arith)
        requires 0 <= ca;
}

} // verus!
