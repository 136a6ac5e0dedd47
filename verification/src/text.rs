//! Text of the front panel: labels, and the hexadecimal and decimal numbers
//! of the crash screen, written into byte buffers.

use vstd::prelude::*;

verus! {

/// ASCII digit or capital letter for a nibble.
pub open spec fn hex_digit(n: int) -> u8 {
    if n < 10 { (48 + n) as u8 } else { (65 + n - 10) as u8 }
}

/// The `i`-th nibble of `v` from the most significant.
pub open spec fn nibble(v: u32, i: int) -> int {
    ((v >> ((28 - i * 4) as u32)) & 0xF) as int
}

/// `0x` followed by eight upper-case hexadecimal digits.
pub open spec fn hex32_text(v: u32) -> Seq<u8> {
    seq![48u8, 120u8] + Seq::new(8, |i: int| hex_digit(nibble(v, i)))
}

/// The decimal digits of `v`, least significant first (none for zero).
pub open spec fn digits_lsb_first(v: nat) -> Seq<u8>
    decreases v,
{
    if v == 0 {
        Seq::empty()
    } else {
        seq![(48 + v % 10) as u8] + digits_lsb_first(v / 10)
    }
}

/// `v` in decimal, without leading zeros.
pub open spec fn decimal_text(v: nat) -> Seq<u8> {
    if v == 0 { seq![48u8] } else { digits_lsb_first(v).reverse() }
}

/// Ten to the `k`.
pub open spec fn pow10(k: nat) -> nat
    decreases k,
{
    if k == 0 { 1 } else { 10 * pow10((k - 1) as nat) }
}

/// A number of at most `k` digits has at most `k` digits' text.
proof fn lemma_digits_len(v: nat, k: nat)
    requires
        v < pow10(k),
    ensures
        digits_lsb_first(v).len() <= k,
    decreases v,
{
    if v > 0 {
        assert(k > 0);
        assert(v / 10 < pow10((k - 1) as nat)) by (nonlinear_arith)
            requires v < 10 * pow10((k - 1) as nat), v > 0;
        lemma_digits_len(v / 10, (k - 1) as nat);
    }
}

/// A number below a thousand is written in at most three digits, and any
/// `u32` in at most ten.
pub proof fn lemma_decimal_text_len(v: u32)
    ensures
        1 <= decimal_text(v as nat).len() <= 10,
        v < 1000 ==> decimal_text(v as nat).len() <= 3,
{
    reveal_with_fuel(pow10, 11);
    lemma_digits_len(v as nat, 10);
    if v < 1000 {
        lemma_digits_len(v as nat, 3);
    }
}

/// Every byte of a decimal text is an ASCII digit.
proof fn lemma_digits_are_ascii(v: nat)
    ensures
        forall|i: int| 0 <= i < digits_lsb_first(v).len() ==> 48 <= #[trigger] digits_lsb_first(v)[i] <= 57,
    decreases v,
{
    if v > 0 {
        lemma_digits_are_ascii(v / 10);
        let d = seq![(48 + v % 10) as u8];
        let rest = digits_lsb_first(v / 10);
        assert(digits_lsb_first(v) == d + rest);
        assert forall|i: int| 0 <= i < digits_lsb_first(v).len() implies 48 <= #[trigger] digits_lsb_first(v)[i] <= 57 by {
            if i == 0 {
                assert(digits_lsb_first(v)[i] == d[0]);
            } else {
                assert(digits_lsb_first(v)[i] == rest[i - 1]);
            }
        }
    }
}

/// Writes `0x` and the eight hexadecimal digits of `val` at `pos`; returns
/// the number of bytes written (ten).
pub fn fmt_hex32(buf: &mut [u8], pos: usize, val: u32) -> (n: usize)
    requires
        pos + 10 <= old(buf)@.len(),
    ensures
        n == 10,
        final(buf)@.len() == old(buf)@.len(),
        final(buf)@.subrange(pos as int, pos + 10) == hex32_text(val),
        forall|j: int| 0 <= j < old(buf)@.len() && !(pos <= j < pos + 10) ==> #[trigger] final(buf)@[j] == old(buf)@[j],
{
    let blen = buf.len();
    buf[pos] = 48;
    buf[pos + 1] = 120;
    let mut i: usize = 0;
    while i < 8
        invariant
            0 <= i <= 8,
            pos + 10 <= buf@.len(),
            buf@.len() == blen,
            buf@.len() == old(buf)@.len(),
            buf@[pos as int] == 48,
            buf@[pos + 1] == 120,
            forall|k: int| 0 <= k < i ==> #[trigger] buf@[pos + 2 + k] == hex_digit(nibble(val, k)),
            forall|j: int| 0 <= j < old(buf)@.len() && !(pos <= j < pos + 10) ==> #[trigger] buf@[j] == old(buf)@[j],
        decreases 8 - i,
    {
        let shift: u32 = 28 - (i as u32) * 4;
        let nib = ((val >> shift) & 0xF) as u8;
        proof {
            assert((val >> shift) & 0xF <= 15) by (bit_vector);
        }
        buf[pos + 2 + i] = if nib < 10 { 48 + nib } else { 65 + nib - 10 };
        i += 1;
    }
    assert forall|k: int| 0 <= k < 10 implies #[trigger] buf@.subrange(pos as int, pos + 10)[k] == hex32_text(val)[k] by {
        assert(buf@.subrange(pos as int, pos + 10)[k] == buf@[pos + k]);
        if k >= 2 {
            assert(buf@[pos + 2 + (k - 2)] == hex_digit(nibble(val, k - 2)));
        }
    }
    assert(buf@.subrange(pos as int, pos + 10) =~= hex32_text(val));
    10
}

/// Writes `val` in decimal at `pos`; returns the number of digits written.
pub fn fmt_u32_decimal(buf: &mut [u8], pos: usize, val: u32) -> (n: usize)
    requires
        pos + decimal_text(val as nat).len() <= old(buf)@.len(),
    ensures
        n == decimal_text(val as nat).len(),
        1 <= n <= 10,
        final(buf)@.len() == old(buf)@.len(),
        final(buf)@.subrange(pos as int, pos + n) == decimal_text(val as nat),
        forall|j: int| 0 <= j < old(buf)@.len() && !(pos <= j < pos + n) ==> #[trigger] final(buf)@[j] == old(buf)@[j],
{
    proof {
        reveal_with_fuel(pow10, 11);
        assert(pow10(10) == 10_000_000_000);
        lemma_digits_len(val as nat, 10);
        lemma_digits_are_ascii(val as nat);
    }
    if val == 0 {
        buf[pos] = 48;
        assert(buf@.subrange(pos as int, pos + 1) =~= decimal_text(0));
        return 1;
    }
    let mut tmp = [0u8; 10];
    let mut len: usize = 0;
    let mut v = val;
    while v > 0
        invariant
            0 <= len <= 10,
            tmp@.len() == 10,
            tmp@.take(len as int) + digits_lsb_first(v as nat) == digits_lsb_first(val as nat),
            digits_lsb_first(val as nat).len() <= 10,
        decreases v,
    {
        assert(digits_lsb_first(v as nat) == seq![(48 + v % 10) as u8] + digits_lsb_first((v / 10) as nat));
        tmp[len] = 48 + (v % 10) as u8;
        assert(tmp@.take(len + 1) =~= tmp@.take(len as int).push((48 + v % 10) as u8));
        assert(tmp@.take(len + 1) + digits_lsb_first((v / 10) as nat) =~= tmp@.take(len as int)
            + digits_lsb_first(v as nat));
        v = v / 10;
        len += 1;
    }
    assert(tmp@.take(len as int) =~= digits_lsb_first(val as nat));
    let blen = buf.len();
    let mut i: usize = 0;
    while i < len
        invariant
            0 <= i <= len <= 10,
            buf@.len() == blen,
            len == digits_lsb_first(val as nat).len(),
            tmp@.take(len as int) == digits_lsb_first(val as nat),
            pos + len <= buf@.len(),
            buf@.len() == old(buf)@.len(),
            forall|k: int| 0 <= k < i ==> #[trigger] buf@[pos + k] == tmp@[len - 1 - k],
            forall|j: int| 0 <= j < old(buf)@.len() && !(pos <= j < pos + len) ==> #[trigger] buf@[j] == old(buf)@[j],
        decreases len - i,
    {
        buf[pos + i] = tmp[len - 1 - i];
        i += 1;
    }
    assert forall|k: int| 0 <= k < len implies #[trigger] buf@.subrange(pos as int, pos + len)[k] == decimal_text(val as nat)[k] by {
        assert(buf@.subrange(pos as int, pos + len)[k] == buf@[pos + k]);
        assert(buf@[pos + k] == tmp@[len - 1 - k]);
        assert(tmp@[len - 1 - k] == tmp@.take(len as int)[len - 1 - k]);
    }
    assert(buf@.subrange(pos as int, pos + len) =~= decimal_text(val as nat));
    len
}

/// Writes `prefix1`, `val1` in hexadecimal, `prefix2` and `val2` in
/// hexadecimal from the start of `buf`; returns the length written.
pub fn fmt_hex_line(buf: &mut [u8], prefix1: &[u8], val1: u32, prefix2: &[u8], val2: u32) -> (n: usize)
    requires
        prefix1@.len() + 10 + prefix2@.len() + 10 <= old(buf)@.len(),
    ensures
        n == prefix1@.len() + 10 + prefix2@.len() + 10,
        final(buf)@.len() == old(buf)@.len(),
        final(buf)@.subrange(0, n as int) == prefix1@ + hex32_text(val1) + prefix2@ + hex32_text(val2),
        forall|j: int| n <= j < old(buf)@.len() ==> #[trigger] final(buf)@[j] == old(buf)@[j],
{
    let blen = buf.len();
    let mut pos: usize = copy_bytes(buf, 0, prefix1);
    let ghost after1 = buf@;
    pos += fmt_hex32(buf, pos, val1);
    let ghost after2 = buf@;
    let p2 = copy_bytes(buf, pos, prefix2);
    pos += p2;
    let ghost after3 = buf@;
    pos += fmt_hex32(buf, pos, val2);
    proof {
        let l1 = prefix1@.len() as int;
        let l2 = prefix2@.len() as int;
        assert(buf@.subrange(0, l1) =~= after1.subrange(0, l1));
        assert(buf@.subrange(l1, l1 + 10) =~= after2.subrange(l1, l1 + 10));
        assert(buf@.subrange(l1 + 10, l1 + 10 + l2) =~= after3.subrange(l1 + 10, l1 + 10 + l2));
        assert(buf@.subrange(0, pos as int) =~= buf@.subrange(0, l1) + buf@.subrange(l1, l1 + 10)
            + buf@.subrange(l1 + 10, l1 + 10 + l2) + buf@.subrange(l1 + 10 + l2, pos as int));
    }
    pos
}

/// Copies `src` into `buf` at `pos`; returns its length.
pub(crate) fn copy_bytes(buf: &mut [u8], pos: usize, src: &[u8]) -> (n: usize)
    requires
        pos + src@.len() <= old(buf)@.len(),
    ensures
        n == src@.len(),
        final(buf)@.len() == old(buf)@.len(),
        final(buf)@.subrange(pos as int, pos + n) == src@,
        forall|j: int| 0 <= j < old(buf)@.len() && !(pos <= j < pos + n) ==> #[trigger] final(buf)@[j] == old(buf)@[j],
{
    let blen = buf.len();
    let mut i: usize = 0;
    while i < src.len()
        invariant
            0 <= i <= src@.len(),
            buf@.len() == blen,
            pos + src@.len() <= buf@.len(),
            buf@.len() == old(buf)@.len(),
            forall|k: int| 0 <= k < i ==> #[trigger] buf@[pos + k] == src@[k],
            forall|j: int| 0 <= j < old(buf)@.len() && !(pos <= j < pos + src@.len()) ==> #[trigger] buf@[j] == old(buf)@[j],
        decreases src@.len() - i,
    {
        buf[pos + i] = src[i];
        i += 1;
    }
    assert forall|k: int| 0 <= k < src@.len() implies #[trigger] buf@.subrange(pos as int, pos + src@.len())[k] == src@[k] by {
        assert(buf@.subrange(pos as int, pos + src@.len())[k] == buf@[pos + k]);
    }
    assert(buf@.subrange(pos as int, pos + src@.len()) =~= src@);
    src.len()
}

/// Position of the first NUL byte of `f` at or after `i`, or its length.
pub open spec fn nul_position(f: Seq<u8>, i: int) -> int
    decreases f.len() - i,
{
    if i >= f.len() {
        f.len() as int
    } else if f[i] == 0 {
        i
    } else {
        nul_position(f, i + 1)
    }
}

/// The file name a panic report shows: the NUL-terminated name, cut to 28
/// bytes.
pub open spec fn shown_file(f: Seq<u8>) -> Seq<u8> {
    let n = nul_position(f, 0);
    f.take(if n < 28 { n } else { 28 })
}

proof fn lemma_nul_position_bounds(f: Seq<u8>, i: int)
    requires
        0 <= i <= f.len(),
    ensures
        i <= nul_position(f, i) <= f.len(),
    decreases f.len() - i,
{
    if i < f.len() && f[i] != 0 {
        lemma_nul_position_bounds(f, i + 1);
    }
}

/// Length of the file name that a panic report shows.
fn shown_file_len(panic_file: &[u8; 64]) -> (n: usize)
    ensures
        n == shown_file(panic_file@).len(),
        n <= 28,
{
    let mut i: usize = 0;
    while i < 64 && panic_file[i] != 0
        invariant
            0 <= i <= 64,
            panic_file@.len() == 64,
            nul_position(panic_file@, i as int) == nul_position(panic_file@, 0),
        decreases 64 - i,
    {
        i += 1;
    }
    proof {
        lemma_nul_position_bounds(panic_file@, 0);
        if i < 64 {
            assert(panic_file@[i as int] == 0);
        }
        assert(nul_position(panic_file@, i as int) == i);
    }
    if i < 28 { i } else { 28 }
}

/// The second line of the crash screen for a panic: the source file, a
/// colon and the line number. Returns the length written.
pub fn crash_panic_line(panic_file: &[u8; 64], panic_line: u32, line: &mut [u8; 40]) -> (n: usize)
    ensures
        n <= 40,
        final(line)@.subrange(0, n as int) == shown_file(panic_file@) + seq![58u8] + decimal_text(panic_line as nat),
{
    let file_len = shown_file_len(panic_file);
    let mut i: usize = 0;
    while i < file_len
        invariant
            0 <= i <= file_len <= 28,
            file_len == shown_file(panic_file@).len(),
            panic_file@.len() == 64,
            line@.len() == 40,
            forall|k: int| 0 <= k < i ==> #[trigger] line@[k] == panic_file@[k],
        decreases file_len - i,
    {
        line[i] = panic_file[i];
        i += 1;
    }
    line[file_len] = 58;
    let ghost before = line@;
    proof {
        reveal_with_fuel(pow10, 11);
        assert(pow10(10) == 10_000_000_000);
        lemma_digits_len(panic_line as nat, 10);
    }
    let digits = fmt_u32_decimal(line, file_len + 1, panic_line);
    let n = file_len + 1 + digits;
    proof {
        let f = shown_file(panic_file@);
        lemma_nul_position_bounds(panic_file@, 0);
        assert forall|k: int| 0 <= k < file_len implies #[trigger] line@[k] == f[k] by {
            assert(line@[k] == before[k]);
            assert(f[k] == panic_file@[k]);
        }
        assert(line@[file_len as int] == 58u8);
        assert(line@.subrange(0, n as int) =~= line@.subrange(0, file_len as int) + seq![58u8]
            + line@.subrange(file_len + 1, n as int));
        assert(line@.subrange(0, file_len as int) =~= f);
    }
    n
}

/// The uptime line of the crash screen: `Uptime: ` and the seconds followed
/// by `s`. Returns the length written.
pub fn crash_uptime_line(uptime_secs: u32, line: &mut [u8; 20]) -> (n: usize)
    ensures
        n <= 20,
        final(line)@.subrange(0, n as int) == seq![85u8, 112u8, 116u8, 105u8, 109u8, 101u8, 58u8, 32u8]
            + decimal_text(uptime_secs as nat) + seq![115u8],
{
    let prefix: [u8; 8] = [85, 112, 116, 105, 109, 101, 58, 32];
    let mut pos = copy_bytes(line, 0, &prefix);
    let ghost after_prefix = line@;
    proof {
        reveal_with_fuel(pow10, 11);
        assert(pow10(10) == 10_000_000_000);
        lemma_digits_len(uptime_secs as nat, 10);
    }
    let digits = fmt_u32_decimal(line, pos, uptime_secs);
    pos += digits;
    let ghost after_digits = line@;
    line[pos] = 115;
    pos += 1;
    proof {
        assert(line@.subrange(0, 8) =~= after_prefix.subrange(0, 8));
        assert(line@.subrange(8, 8 + digits) =~= after_digits.subrange(8, 8 + digits));
        assert(line@.subrange(0, pos as int) =~= line@.subrange(0, 8) + line@.subrange(8, 8 + digits)
            + seq![115u8]);
        assert(prefix@ =~= seq![85u8, 112u8, 116u8, 105u8, 109u8, 101u8, 58u8, 32u8]);
    }
    pos
}

/// The crash screen's second line for a reset reason: program counter and
/// link register after a hard fault, file and line after a panic, nothing
/// otherwise. Returns the length written.
pub fn crash_detail_line(
    reset_reason: u8,
    pc: u32,
    lr: u32,
    panic_file: &[u8; 64],
    panic_line: u32,
    line: &mut [u8; 40],
) -> (n: usize)
    ensures
        n <= 40,
        reset_reason == 1 ==> final(line)@.subrange(0, n as int) == seq![80u8, 67u8, 58u8] + hex32_text(pc)
            + seq![32u8, 76u8, 82u8, 58u8] + hex32_text(lr),
        reset_reason == 2 ==> final(line)@.subrange(0, n as int) == shown_file(panic_file@) + seq![58u8]
            + decimal_text(panic_line as nat),
        reset_reason != 1 && reset_reason != 2 ==> n == 0,
{
    if reset_reason == 1 {
        let p1: [u8; 3] = [80, 67, 58];
        let p2: [u8; 4] = [32, 76, 82, 58];
        assert(p1@ =~= seq![80u8, 67u8, 58u8]);
        assert(p2@ =~= seq![32u8, 76u8, 82u8, 58u8]);
        fmt_hex_line(line, &p1, pc, &p2, lr)
    } else if reset_reason == 2 {
        crash_panic_line(panic_file, panic_line, line)
    } else {
        0
    }
}

/// The crash screen's title for a reset reason.
pub fn crash_title(reset_reason: u8) -> (t: &'static str)
    ensures
        t@ == (if reset_reason == 1 {
            "CRASH: HardFault"@
        } else if reset_reason == 2 {
            "CRASH: Panic"@
        } else if reset_reason == 3 {
            "CRASH: Watchdog"@
        } else {
            "CRASH: Unknown"@
        }),
{
    match reset_reason {
        1 => "CRASH: HardFault",
        2 => "CRASH: Panic",
        3 => "CRASH: Watchdog",
        _ => "CRASH: Unknown",
    }
}

/// The status bar's label for a band number, 0 (160 m) to 8 (10 m).
pub fn band_label(band: u8) -> (l: &'static str)
    ensures
        l@ == (if band == 0 {
            "160m"@
        } else if band == 1 {
            "80m"@
        } else if band == 2 {
            "40m"@
        } else if band == 3 {
            "30m"@
        } else if band == 4 {
            "20m"@
        } else if band == 5 {
            "17m"@
        } else if band == 6 {
            "15m"@
        } else if band == 7 {
            "12m"@
        } else if band == 8 {
            "10m"@
        } else {
            "??m"@
        }),
{
    match band {
        0 => "160m",
        1 => "80m",
        2 => "40m",
        3 => "30m",
        4 => "20m",
        5 => "17m",
        6 => "15m",
        7 => "12m",
        8 => "10m",
        _ => "??m",
    }
}

} // verus!
