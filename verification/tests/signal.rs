use druzhba_logic::alc::{run_alc, AlcAdjust, AlcEvent, AlcState, FULL_POWER_CP};
use druzhba_logic::colors::{dbm_to_color, dbm_to_norm, dim_color, rgb};
use druzhba_logic::levels::{cpu_percent, squelch_to_dbm};
use druzhba_logic::meters::{
    dbm_to_bar, gradient_meter_widths, meter_bar_widths, peak_marker, power_target_mark, reflected_mw,
    s9_bar, s_meter_reading, SReading,
};
use druzhba_logic::mixer::{sat_add, scale_u8, AudioMixer, AUDIO_BUFFER_SIZE};
use druzhba_logic::types::Mode;

#[test]
fn squelch_positions_map_to_thresholds() {
    assert_eq!(squelch_to_dbm(0), -128);
    assert_eq!(squelch_to_dbm(-5), -128);
    assert_eq!(squelch_to_dbm(15), -119);
    assert_eq!(squelch_to_dbm(500), -70);
    assert_eq!(squelch_to_dbm(1000), -20);
}

#[test]
fn squelch_position_beyond_scale_wraps_in_eight_bits() {
    // -120 + 3000 = 2880, which is 64 in a signed byte.
    assert_eq!(squelch_to_dbm(30000), 64);
}

#[test]
fn cpu_load_from_idle_counts() {
    assert_eq!(cpu_percent(500, 1000), 50);
    assert_eq!(cpu_percent(0, 1000), 100);
    assert_eq!(cpu_percent(2000, 1000), 0);
    assert_eq!(cpu_percent(123, 0), 0);
}

#[test]
fn alc_reduces_recovers_and_holds_in_range() {
    let mut s = AlcState::new();
    s.alc_cp = 300;
    run_alc(&mut s, AlcAdjust::Reduce);
    assert_eq!(s.alc_cp, 0);
    run_alc(&mut s, AlcAdjust::Recover);
    assert_eq!(s.alc_cp, 100);
    run_alc(&mut s, AlcAdjust::Hold);
    assert_eq!(s.alc_cp, 100);
    s.alc_cp = 9950;
    run_alc(&mut s, AlcAdjust::Recover);
    assert_eq!(s.alc_cp, FULL_POWER_CP);
}

#[test]
fn alc_measurements_only_count_while_transmitting() {
    let mut s = AlcState::new();
    assert_eq!(s.handle(AlcEvent::Metrics(AlcAdjust::Reduce)), None);
    assert_eq!(s.alc_cp, 10000);
    assert_eq!(s.handle(AlcEvent::ModeChanged(Mode::Tx)), None);
    assert_eq!(s.handle(AlcEvent::Metrics(AlcAdjust::Reduce)), Some(9500));
    assert_eq!(s.handle(AlcEvent::ModeChanged(Mode::Rx)), Some(10000));
    assert_eq!(s.handle(AlcEvent::RfPower(5000)), None);
    assert_eq!(s.user_power_cp, 5000);
}

#[test]
fn alc_cuts_power_after_five_silent_ticks() {
    let mut s = AlcState::new();
    s.handle(AlcEvent::ModeChanged(Mode::Tx));
    for _ in 0..4 {
        assert_eq!(s.handle(AlcEvent::Timeout), None);
    }
    assert_eq!(s.handle(AlcEvent::Timeout), Some(0));
    assert_eq!(s.alc_cp, 0);
    // a fresh measurement restarts the count and lets power recover
    assert_eq!(s.handle(AlcEvent::Metrics(AlcAdjust::Recover)), Some(100));
    assert_eq!(s.stale_ticks, 0);
}

#[test]
fn alc_timeouts_outside_transmit_change_nothing() {
    let mut s = AlcState::new();
    for _ in 0..10 {
        assert_eq!(s.handle(AlcEvent::Timeout), None);
    }
    assert_eq!(s.alc_cp, 10000);
}

#[test]
fn rgb565_packs_and_masks_channels() {
    assert_eq!(rgb(31, 63, 0), 0xFFE0);
    assert_eq!(rgb(0, 0, 31), 0x001F);
    assert_eq!(rgb(255, 255, 255), 0xFFFF);
    assert_eq!(rgb(32, 64, 32), 0);
}

#[test]
fn waterfall_colour_scale() {
    assert_eq!(dbm_to_norm(-120), 0);
    assert_eq!(dbm_to_norm(-127), 0);
    assert_eq!(dbm_to_norm(-70), 127);
    assert_eq!(dbm_to_norm(-20), 255);
    assert_eq!(dbm_to_norm(10), 255);
    assert_eq!(dbm_to_color(-120), 4);
    assert_eq!(dbm_to_color(-20), 31 << 11);
    // scale position 63: blue channel 35 keeps its low five bits
    assert_eq!(dbm_to_color(-95), 31203);
}

#[test]
fn dimming_halves_each_channel() {
    assert_eq!(dim_color(0xFFFF), (15 << 11) | (31 << 5) | 15);
    assert_eq!(dim_color(0), 0);
    assert_eq!(dim_color(1), 0);
}

#[test]
fn s_meter_bar_values() {
    assert_eq!(dbm_to_bar(-120), 0);
    assert_eq!(dbm_to_bar(-128), 0);
    assert_eq!(dbm_to_bar(-13), 4095);
    assert_eq!(dbm_to_bar(0), 4095);
    assert_eq!(dbm_to_bar(-73), 1798);
    assert_eq!(s9_bar(), 1798);
}

#[test]
fn s_meter_readings() {
    assert_eq!(s_meter_reading(-120), SReading::S(0));
    assert_eq!(s_meter_reading(-127), SReading::S(0));
    assert_eq!(s_meter_reading(-100), SReading::S(3));
    assert_eq!(s_meter_reading(-73), SReading::S(9));
    assert_eq!(s_meter_reading(-63), SReading::S9Plus(10));
    assert_eq!(s_meter_reading(-52), SReading::S9Plus(20));
}

#[test]
fn meter_bar_geometry() {
    assert_eq!(meter_bar_widths(50, 100, 200), (100, 100));
    assert_eq!(meter_bar_widths(150, 100, 200), (200, 0));
    assert_eq!(meter_bar_widths(5, 0, 200), (0, 200));
    assert_eq!(gradient_meter_widths(80, 100, 50, 100), (50, 30, 20));
    assert_eq!(gradient_meter_widths(30, 100, 50, 100), (30, 0, 70));
    assert_eq!(peak_marker(100, 200, 100), Some(4));
    assert_eq!(peak_marker(100, 140, 100), None);
    assert_eq!(power_target_mark(5000, 200), (25000, 100));
    assert_eq!(reflected_mw(10000, 300), 2500);
    assert_eq!(reflected_mw(10000, 100), 0);
}

#[test]
fn sample_scaling_and_saturation() {
    assert_eq!(scale_u8(40000, 255), 40000);
    assert_eq!(scale_u8(40000, 0), 0);
    assert_eq!(scale_u8(51000, 127), 25400);
    assert_eq!(sat_add(60000, 10000), 65535);
    assert_eq!(sat_add(1000, 2000), 3000);
}

#[test]
fn mixer_routes_receive_audio_to_headphones_or_speakers() {
    let mut m = AudioMixer::new();
    m.set_buffer_rx([40000; AUDIO_BUFFER_SIZE]);
    m.mix();
    assert!(m.get_buffer_headphones().iter().all(|&s| s == 40000));
    assert!(m.get_buffer_speakers().iter().all(|&s| s == 0));
    m.set_headphones_connected(false);
    m.set_volume(500);
    m.mix();
    assert!(m.get_buffer_headphones().iter().all(|&s| s == 0));
    assert!(m.get_buffer_speakers().iter().all(|&s| s == 19921));
}

#[test]
fn closed_squelch_silences_receive_audio() {
    let mut m = AudioMixer::new();
    m.set_buffer_rx([40000; AUDIO_BUFFER_SIZE]);
    m.set_buffer_generator([1000; AUDIO_BUFFER_SIZE]);
    m.set_squelch_threshold(-100);
    m.update_squelch(-110);
    m.mix();
    assert!(m.get_buffer_headphones().iter().all(|&s| s == 1000));
    m.update_squelch(-90);
    m.mix();
    assert!(m.get_buffer_headphones().iter().all(|&s| s == 41000));
}

#[test]
fn usb_audio_replaces_microphone_until_it_stops() {
    let mut m = AudioMixer::new();
    m.set_buffer_mic([2000; AUDIO_BUFFER_SIZE]);
    m.set_buffer_usb_tx([1000; AUDIO_BUFFER_SIZE]);
    for _ in 0..50 {
        m.mix();
        assert!(m.get_buffer_tx().iter().all(|&s| s == 1000));
    }
    m.mix();
    assert!(m.get_buffer_tx().iter().all(|&s| s == 2000));
}

#[test]
fn compressor_off_leaves_microphone_alone() {
    let mut m = AudioMixer::new();
    m.set_buffer_mic([52768; AUDIO_BUFFER_SIZE]);
    m.compress_mic();
    assert_eq!(m.gain_reduction(), 0);
    assert!(m.get_buffer_mic().iter().all(|&s| s == 52768));
}

#[test]
fn compressor_scales_loud_buffer_towards_mid_scale() {
    let mut m = AudioMixer::new();
    let mut buf = [52768u16; AUDIO_BUFFER_SIZE];
    buf[1] = 12768;
    m.set_buffer_mic(buf);
    m.set_compression(1000);
    m.compress_mic();
    assert_eq!(m.gain_reduction(), 202);
    let out = m.get_buffer_mic();
    assert_eq!(out[0], 36986);
    assert_eq!(out[1], 28550);
}
