use druzhba_logic::text::{
    band_label, crash_detail_line, crash_panic_line, crash_title, crash_uptime_line, fmt_hex32, fmt_hex_line,
    fmt_u32_decimal,
};
use druzhba_logic::waterfall::{
    emit_composite_waterfall, waterfall_span, SweepStatus, WaterfallDisplayBuffer, WaterfallLineData, WATERFALL_BINS,
    WATERFALL_HEIGHT,
};

fn fft_ramp() -> Vec<i8> {
    (0..512).map(|k| ((k % 50) as i8) - 100).collect()
}

fn sweep_cache() -> [i8; WATERFALL_BINS] {
    let mut s = [0i8; WATERFALL_BINS];
    for (i, v) in s.iter_mut().enumerate() {
        *v = -((i % 20) as i8) - 60;
    }
    s
}

#[test]
fn live_spectrum_fills_line_at_narrow_span() {
    let fft = fft_ramp();
    let sweep = sweep_cache();
    let line = emit_composite_waterfall(&fft, &sweep, 50_000);
    assert_eq!((line.live_start, line.live_end), (0, 240));
    assert!(line.complete);
    assert_eq!(line.bins[0], fft[133]);
    assert_eq!(line.bins[239], fft[398]);
}

#[test]
fn live_spectrum_is_centred_in_sweep_at_wide_span() {
    let fft = fft_ramp();
    let sweep = sweep_cache();
    let line = emit_composite_waterfall(&fft, &sweep, 200_000);
    assert_eq!((line.live_start, line.live_end), (90, 150));
    assert_eq!(line.bins[89], sweep[89]);
    assert_eq!(line.bins[90], fft[133]);
    assert_eq!(line.bins[149], fft[395]);
    assert_eq!(line.bins[150], sweep[150]);
    assert_eq!(line.bins[0], sweep[0]);
}

#[test]
fn very_wide_span_keeps_one_live_column() {
    let fft = fft_ramp();
    let sweep = sweep_cache();
    let line = emit_composite_waterfall(&fft, &sweep, 100_000_000);
    assert_eq!((line.live_start, line.live_end), (119, 120));
    assert_eq!(line.bins[119], fft[133]);
    assert_eq!(line.bins[120], sweep[120]);
}

fn data(level: i8, start: u8) -> WaterfallLineData {
    WaterfallLineData {
        bins: [level; WATERFALL_BINS],
        live_start: start,
        live_end: start + 10,
        center_freq: 7_000_000 + level as u32,
        span_hz: 100_000,
        sweep_status: SweepStatus::Listening,
    }
}

#[test]
fn history_keeps_lines_oldest_first() {
    let mut b = WaterfallDisplayBuffer::new();
    assert_eq!(b.count(), 0);
    assert_eq!(b.center_freq(), 7_100_000);
    assert_eq!(b.sweep_status(), SweepStatus::Idle);
    b.push(&data(1, 0));
    b.push(&data(2, 5));
    b.push(&data(3, 9));
    assert_eq!(b.count(), 3);
    assert_eq!(b.line_at(0)[0], 1);
    assert_eq!(b.line_at(2)[0], 3);
    assert_eq!(b.newest_line()[0], 3);
    assert_eq!(b.live_range_at(1), (5, 15));
    assert_eq!(b.current_live_range(), (9, 19));
    assert_eq!(b.center_freq(), 7_000_003);
    assert_eq!(b.sweep_status(), SweepStatus::Listening);
}

#[test]
fn full_history_drops_the_oldest_line() {
    let mut b = WaterfallDisplayBuffer::new();
    for k in 0..(WATERFALL_HEIGHT + 2) {
        b.push(&data(k as i8, 0));
    }
    assert_eq!(b.count(), WATERFALL_HEIGHT);
    assert_eq!(b.line_at(0)[0], 2);
    assert_eq!(b.line_at(WATERFALL_HEIGHT - 1)[0], (WATERFALL_HEIGHT + 1) as i8);
    assert_eq!(b.newest_line()[0], (WATERFALL_HEIGHT + 1) as i8);
}

#[test]
fn hex_formatting() {
    let mut buf = [b'.'; 14];
    assert_eq!(fmt_hex32(&mut buf, 2, 0xDEAD_BEEF), 10);
    assert_eq!(&buf, b"..0xDEADBEEF..");
    let mut buf = [0u8; 10];
    fmt_hex32(&mut buf, 0, 0x0000_00A5);
    assert_eq!(&buf, b"0x000000A5");
}

#[test]
fn decimal_formatting() {
    let mut buf = [b'.'; 12];
    assert_eq!(fmt_u32_decimal(&mut buf, 1, 0), 1);
    assert_eq!(&buf[..3], b".0.");
    let mut buf = [b'.'; 12];
    assert_eq!(fmt_u32_decimal(&mut buf, 0, 4_294_967_295), 10);
    assert_eq!(&buf[..11], b"4294967295.");
    let mut buf = [b'.'; 12];
    assert_eq!(fmt_u32_decimal(&mut buf, 2, 907), 3);
    assert_eq!(&buf[..6], b"..907.");
}

#[test]
fn hex_line_formatting() {
    let mut buf = [b'.'; 30];
    let n = fmt_hex_line(&mut buf, b"A=", 1, b" B=", 0xFF);
    assert_eq!(n, 25);
    assert_eq!(&buf[..26], b"A=0x00000001 B=0x000000FF.");
}

#[test]
fn crash_screen_lines() {
    let mut file = [0u8; 64];
    file[..11].copy_from_slice(b"src/main.rs");
    let mut line = [0u8; 40];
    let n = crash_panic_line(&file, 42, &mut line);
    assert_eq!(&line[..n], b"src/main.rs:42");

    let long = [b'a'; 64];
    let mut line = [0u8; 40];
    let n = crash_panic_line(&long, 7, &mut line);
    assert_eq!(n, 30);
    assert_eq!(&line[..28], &[b'a'; 28]);
    assert_eq!(&line[28..30], b":7");

    let mut up = [0u8; 20];
    let n = crash_uptime_line(3600, &mut up);
    assert_eq!(&up[..n], b"Uptime: 3600s");

    let mut line = [0u8; 40];
    let n = crash_detail_line(1, 0x0800_1234, 0xFFFF_FFF9, &file, 0, &mut line);
    assert_eq!(&line[..n], b"PC:0x08001234 LR:0xFFFFFFF9");
    let mut line = [0u8; 40];
    let n = crash_detail_line(2, 0, 0, &file, 42, &mut line);
    assert_eq!(&line[..n], b"src/main.rs:42");
    let mut line = [0u8; 40];
    assert_eq!(crash_detail_line(3, 0, 0, &file, 42, &mut line), 0);
}

#[test]
fn crash_titles_and_band_labels() {
    assert_eq!(crash_title(1), "CRASH: HardFault");
    assert_eq!(crash_title(2), "CRASH: Panic");
    assert_eq!(crash_title(3), "CRASH: Watchdog");
    assert_eq!(crash_title(0), "CRASH: Unknown");
    assert_eq!(band_label(0), "160m");
    assert_eq!(band_label(4), "20m");
    assert_eq!(band_label(8), "10m");
    assert_eq!(band_label(9), "??m");
}

#[test]
fn waterfall_span_never_below_if_bandwidth() {
    assert_eq!(waterfall_span(20_000), 50_000);
    assert_eq!(waterfall_span(50_000), 50_000);
    assert_eq!(waterfall_span(100_000), 100_000);
}
