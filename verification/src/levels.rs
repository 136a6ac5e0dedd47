//! Conversions between control positions and signal levels.

use vstd::prelude::*;

verus! {

/// The squelch threshold, in dBm, for a squelch control position: fully
/// open (-128 dBm) at zero and below; otherwise -120 dBm plus one dB per
/// ten steps, wrapped into the signed 8-bit range.
pub open spec fn squelch_dbm(raw: i16) -> i8 {
    if raw <= 0 {
        -128i8
    } else {
        (-120 + raw * 100 / 1000) as i8
    }
}

/// The squelch threshold for a squelch control position.
pub fn squelch_to_dbm(raw: i16) -> (dbm: i8)
    ensures
        dbm == squelch_dbm(raw),
{
    if raw <= 0 {
        return -128;
    }
    let dbm_min: i32 = -120;
    let dbm_max: i32 = -20;
    let raw_max: i32 = 1000;
    assert(raw as i32 * (dbm_max - dbm_min) == raw * 100);
    (dbm_min + (raw as i32 * (dbm_max - dbm_min) / raw_max)) as i8
}

/// Over the control's range the threshold rises with the control, from
/// -120 dBm just above zero to -20 dBm at full scale.
pub proof fn lemma_squelch_threshold_is_monotone(a: i16, b: i16)
    requires
        0 < a <= b <= 1000,
    ensures
        -120 <= squelch_dbm(a) <= squelch_dbm(b) <= -20,
        squelch_dbm(1000) == -20,
{
    assert(a * 100 / 1000 <= b * 100 / 1000) by (nonlinear_arith)
        requires 0 < a <= b;
    assert(b * 100 / 1000 <= 100) by (nonlinear_arith)
        requires 0 < b <= 1000;
    assert(0 <= a * 100 / 1000) by (nonlinear_arith)
        requires 0 < a;
}

/// Processor load in percent from the idle loop's count over one second and
/// the count of an idle second.
pub fn cpu_percent(idle: u32, cal: u32) -> (pct: u8)
    requires
        cal > 0 ==> (if idle < cal { idle } else { cal }) * 100 <= u32::MAX,
    ensures
        pct == (if cal > 0 {
            100 - ((if idle < cal { idle } else { cal }) * 100) as int / (cal as int)
        } else {
            0
        }),
        pct <= 100,
{
    if cal > 0 {
        let m = if idle < cal { idle } else { cal };
        let busy_free = m * 100 / cal;
        proof {
            let mi = m as int;
            let ci = cal as int;
            assert(mi * 100 / ci <= 100) by (nonlinear_arith)
                requires mi <= ci, ci > 0, mi >= 0;
        }
        100u8 - busy_free as u8
    } else {
        0
    }
}

} // verus!
