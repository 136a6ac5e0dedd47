//! The main screen's receive information line: the clarifier offset (when
//! the clarifier is on), the filter bandwidth and the power setting, as the
//! texts drawn and where each starts.

use vstd::prelude::*;

use crate::display::{clarifier_offset, clarifier_offset_hz};
use crate::text::{copy_bytes, decimal_text, fmt_u32_decimal, lemma_decimal_text_len};
use crate::types::ClarifierMode;

verus! {

/// Where a text starts, and its length in characters.
#[derive(PartialEq, Eq, Structural, Clone, Copy, Debug)]
pub struct TextAt {
    pub x: i32,
    pub len: usize,
}

/// Where the info line's texts start, and how long each is; the clarifier's
/// text is there only while the clarifier is on.
#[derive(PartialEq, Eq, Structural, Clone, Copy, Debug)]
pub struct InfoLine {
    pub clarifier: Option<TextAt>,
    pub bw_x: i32,
    pub bw_len: usize,
    pub pwr_x: i32,
    pub pwr_len: usize,
}

/// The two digits of `v` (below a hundred), zero-padded.
pub open spec fn two_digits(v: int) -> Seq<u8> {
    seq![(48 + v / 10) as u8, (48 + v % 10) as u8]
}

/// The clarifier's text: `RIT` or `XIT`, a space, the sign, the offset's
/// kilohertz, a point, its tens of hertz in two digits, and `k`.
pub open spec fn clarifier_text(mode: ClarifierMode, raw: i16) -> Seq<u8> {
    let off = clarifier_offset(raw);
    let a = if off >= 0 { off } else { -off };
    (if mode == ClarifierMode::Rit { seq![82u8, 73u8, 84u8] } else { seq![88u8, 73u8, 84u8] }) + seq![
        32u8,
        if off >= 0 { 43u8 } else { 45u8 },
    ] + decimal_text((a / 1000) as nat) + seq![46u8] + two_digits((a % 1000) / 10) + seq![107u8]
}

/// The bandwidth's text: `BW:` and kilohertz with one decimal and `k` from
/// 1 kHz up, hertz and `Hz` below.
pub open spec fn bandwidth_line_text(bw_hz: u16) -> Seq<u8> {
    seq![66u8, 87u8, 58u8] + if bw_hz >= 1000 {
        decimal_text((bw_hz / 1000) as nat) + seq![46u8] + decimal_text(((bw_hz % 1000) / 100) as nat) + seq![107u8]
    } else {
        decimal_text(bw_hz as nat) + seq![72u8, 122u8]
    }
}

/// The power setting's text: `PWR:`, the whole percent and `%`.
pub open spec fn power_text(rf_power_centipercent: u16) -> Seq<u8> {
    seq![80u8, 87u8, 82u8, 58u8] + decimal_text((rf_power_centipercent / 100) as nat) + seq![37u8]
}

/// Writes `src` at `pos`, after the bytes already there.
fn push_bytes(buf: &mut [u8], pos: usize, src: &[u8]) -> (n: usize)
    requires
        pos + src@.len() <= old(buf)@.len(),
    ensures
        n == src@.len(),
        final(buf)@.len() == old(buf)@.len(),
        final(buf)@.subrange(0, pos + n) == old(buf)@.subrange(0, pos as int) + src@,
{
    let ghost before = buf@;
    let n = copy_bytes(buf, pos, src);
    assert(buf@.subrange(0, pos + n) =~= before.subrange(0, pos as int) + src@) by {
        assert forall|j: int| 0 <= j < pos + n implies #[trigger] buf@.subrange(0, pos + n)[j] == (before.subrange(
            0,
            pos as int,
        ) + src@)[j] by {
            if j >= pos {
                assert(buf@.subrange(pos as int, pos + n)[j - pos] == buf@[j]);
            }
        }
    }
    n
}

/// Writes the byte `b` at `pos`, after the bytes already there.
fn push_byte(buf: &mut [u8], pos: usize, b: u8) -> (n: usize)
    requires
        pos + 1 <= old(buf)@.len(),
    ensures
        n == 1,
        final(buf)@.len() == old(buf)@.len(),
        final(buf)@.subrange(0, pos + 1) == old(buf)@.subrange(0, pos as int) + seq![b],
{
    let ghost before = buf@;
    buf[pos] = b;
    assert(buf@.subrange(0, pos + 1) =~= before.subrange(0, pos as int) + seq![b]);
    1
}

/// Writes `val` in decimal at `pos`, after the bytes already there.
fn push_decimal(buf: &mut [u8], pos: usize, val: u32) -> (n: usize)
    requires
        pos + decimal_text(val as nat).len() <= old(buf)@.len(),
    ensures
        n == decimal_text(val as nat).len(),
        final(buf)@.len() == old(buf)@.len(),
        final(buf)@.subrange(0, pos + n) == old(buf)@.subrange(0, pos as int) + decimal_text(val as nat),
{
    let ghost before = buf@;
    let n = fmt_u32_decimal(buf, pos, val);
    assert(buf@.subrange(0, pos + n) =~= before.subrange(0, pos as int) + decimal_text(val as nat)) by {
        assert forall|j: int| 0 <= j < pos + n implies #[trigger] buf@.subrange(0, pos + n)[j] == (before.subrange(
            0,
            pos as int,
        ) + decimal_text(val as nat))[j] by {
            if j >= pos {
                assert(buf@.subrange(pos as int, pos + n)[j - pos] == buf@[j]);
            } else {
                assert(buf@[j] == before[j]);
            }
        }
    }
    n
}

/// The clarifier's text, written from the start of `buf`.
fn write_clarifier(buf: &mut [u8; 16], mode: ClarifierMode, raw: i16) -> (n: usize)
    ensures
        n <= 16,
        final(buf)@.subrange(0, n as int) == clarifier_text(mode, raw),
{
    let offset: i32 = clarifier_offset_hz(raw);
    proof {
        assert(-400000 <= clarifier_offset(raw) <= 400000) by (nonlinear_arith)
            requires -33268 <= raw - 500 <= 32267;
    }
    let a: u32 = if offset >= 0 { offset as u32 } else { (-offset) as u32 };
    let khz: u32 = a / 1000;
    let tens: u32 = (a % 1000) / 10;
    proof {
        lemma_decimal_text_len(khz);
    }
    let label: [u8; 3] = if mode == ClarifierMode::Rit { [82, 73, 84] } else { [88, 73, 84] };
    let sign: u8 = if offset >= 0 { 43 } else { 45 };
    let d1: u8 = (48 + tens / 10) as u8;
    let d2: u8 = (48 + tens % 10) as u8;
    let mut pos: usize = push_bytes(buf, 0, &label);
    let ghost acc = label@;
    assert(buf@.subrange(0, pos as int) =~= acc);
    pos += push_byte(buf, pos, 32);
    proof { acc = acc + seq![32u8]; }
    assert(buf@.subrange(0, pos as int) =~= acc);
    pos += push_byte(buf, pos, sign);
    proof { acc = acc + seq![sign]; }
    assert(buf@.subrange(0, pos as int) =~= acc);
    pos += push_decimal(buf, pos, khz);
    proof { acc = acc + decimal_text(khz as nat); }
    assert(buf@.subrange(0, pos as int) =~= acc);
    pos += push_byte(buf, pos, 46);
    proof { acc = acc + seq![46u8]; }
    assert(buf@.subrange(0, pos as int) =~= acc);
    pos += push_byte(buf, pos, d1);
    proof { acc = acc + seq![d1]; }
    assert(buf@.subrange(0, pos as int) =~= acc);
    pos += push_byte(buf, pos, d2);
    proof { acc = acc + seq![d2]; }
    assert(buf@.subrange(0, pos as int) =~= acc);
    pos += push_byte(buf, pos, 107);
    proof { acc = acc + seq![107u8]; }
    assert(buf@.subrange(0, pos as int) =~= acc);
    proof {
        let off = clarifier_offset(raw);
        let ai = if off >= 0 { off } else { -off };
        assert(a == ai);
        assert(seq![d1, d2] =~= two_digits((ai % 1000) / 10));
        assert(label@ =~= (if mode == ClarifierMode::Rit { seq![82u8, 73u8, 84u8] } else { seq![88u8, 73u8, 84u8] }));
        assert(acc =~= clarifier_text(mode, raw));
    }
    pos
}

/// The bandwidth's text, written from the start of `buf`.
fn write_bandwidth(buf: &mut [u8; 12], bw_hz: u16) -> (n: usize)
    ensures
        n <= 12,
        final(buf)@.subrange(0, n as int) == bandwidth_line_text(bw_hz),
{
    let prefix: [u8; 3] = [66, 87, 58];
    let mut pos: usize = push_bytes(buf, 0, &prefix);
    if bw_hz >= 1000 {
        let k = (bw_hz / 1000) as u32;
        let t = ((bw_hz % 1000) / 100) as u32;
        proof {
            lemma_decimal_text_len(k);
            lemma_decimal_text_len(t);
        }
        pos += push_decimal(buf, pos, k);
        pos += push_byte(buf, pos, 46);
        pos += push_decimal(buf, pos, t);
        pos += push_byte(buf, pos, 107);
    } else {
        proof {
            lemma_decimal_text_len(bw_hz as u32);
        }
        pos += push_decimal(buf, pos, bw_hz as u32);
        pos += push_byte(buf, pos, 72);
        pos += push_byte(buf, pos, 122);
    }
    assert(buf@.subrange(0, pos as int) =~= bandwidth_line_text(bw_hz));
    pos
}

/// The power setting's text, written from the start of `buf`.
fn write_power(buf: &mut [u8; 12], rf_power_centipercent: u16) -> (n: usize)
    ensures
        n <= 12,
        final(buf)@.subrange(0, n as int) == power_text(rf_power_centipercent),
{
    let prefix: [u8; 4] = [80, 87, 82, 58];
    let p = (rf_power_centipercent / 100) as u32;
    proof {
        lemma_decimal_text_len(p);
    }
    let mut pos: usize = push_bytes(buf, 0, &prefix);
    pos += push_decimal(buf, pos, p);
    pos += push_byte(buf, pos, 37);
    assert(buf@.subrange(0, pos as int) =~= power_text(rf_power_centipercent));
    pos
}

/// Writes the info line's texts into the three buffers and places them: the
/// clarifier's text (while the clarifier is on) from x = 2, then the
/// bandwidth six pixels after the text before it (or from x = 2), then the
/// power setting six pixels after the bandwidth, each character six pixels
/// wide.
pub fn info_line(
    clarifier: ClarifierMode,
    clarifier_raw: i16,
    bw_hz: u16,
    rf_power_centipercent: u16,
    clarifier_buf: &mut [u8; 16],
    bw_buf: &mut [u8; 12],
    pwr_buf: &mut [u8; 12],
) -> (l: InfoLine)
    ensures
        l.bw_len == bandwidth_line_text(bw_hz).len(),
        l.pwr_len == power_text(rf_power_centipercent).len(),
        final(bw_buf)@.subrange(0, l.bw_len as int) == bandwidth_line_text(bw_hz),
        final(pwr_buf)@.subrange(0, l.pwr_len as int) == power_text(rf_power_centipercent),
        clarifier == ClarifierMode::Off ==> l.clarifier is None && l.bw_x == 2,
        clarifier != ClarifierMode::Off ==> {
            let n = clarifier_text(clarifier, clarifier_raw).len();
            &&& l.clarifier == Some(TextAt { x: 2, len: n as usize })
            &&& final(clarifier_buf)@.subrange(0, n as int) == clarifier_text(clarifier, clarifier_raw)
            &&& l.bw_x == 2 + n * 6 + 6
        },
        l.pwr_x == l.bw_x + l.bw_len * 6 + 6,
{
    let mut x: i32 = 2;
    let clar = if clarifier != ClarifierMode::Off {
        let n = write_clarifier(clarifier_buf, clarifier, clarifier_raw);
        let at = x;
        x = x + n as i32 * 6 + 6;
        Some(TextAt { x: at, len: n })
    } else {
        None
    };
    let bw_len = write_bandwidth(bw_buf, bw_hz);
    let bw_x = x;
    x = x + bw_len as i32 * 6 + 6;
    let pwr_len = write_power(pwr_buf, rf_power_centipercent);
    InfoLine { clarifier: clar, bw_x, bw_len, pwr_x: x, pwr_len }
}

} // verus!
