use druzhba_logic::arbiters::filter::FilterCommand;
use druzhba_logic::arbiters::frequency::BandCommand;
use druzhba_logic::arbiters::mode::ModeCommand;
use druzhba_logic::arbiters::scan::ScanCommand;
use druzhba_logic::arbiters::setting::Setting;
use druzhba_logic::arbiters::squelch::SquelchCommand;
use druzhba_logic::arbiters::switches::{NbCommand, ToneCommand};
use druzhba_logic::arbiters::eq::TxEqCommand;
use druzhba_logic::controls::{
    button_action, debounce, encoder_action, try_debounce, ButtonEvent, ButtonFunction, ButtonTimes, EncoderAction,
    EncoderFunction, LevelTarget,
};
use druzhba_logic::display::{
    agc_label_long, agc_label_short, bandwidth_text, clarifier_offset_hz, clarifier_offset_text,
    cursor_highlight, fatal_message, frequency_parts, menu_row, menu_scroll_offset, mode_label, mode_label_x, rf_gain_label,
    status_bar_layout, swr_text, transmit_mode_label, watts_text, BandwidthText, BarItem, BsodError, Highlight,
    ModeColor, SwrText,
};
use druzhba_logic::dsp_controls::{
    agc_preset_for, demod_for_mode, filter_preset_index, vox_transition_commands, vox_voice_mode, AgcPreset,
    ClarifierTracker, DemodMode, VoxCommands,
};
use druzhba_logic::info_line::{info_line, InfoLine, TextAt};
use druzhba_logic::panel_levels::{ControlEncoderState, ControlUpdate, PotentiometerFunction, PotentiometerState};
use druzhba_logic::scan::{ScanCheck, ScanMachine, ScanState};
use druzhba_logic::spectrum::{
    center_marker_bright, display_edges, spectrum_column_colors, spectrum_trace_y, sweep_dot, waterfall_pixel,
    SweepDot,
};
use druzhba_logic::sweep::SweepGate;
use druzhba_logic::types::{AudioAgcMode, Band, ClarifierMode, FilterType, IfGainMode, Mode, RfGainMode, TransmitMode};
use druzhba_logic::waterfall::SweepStatus;

#[test]
fn encoder_turns_map_to_commands() {
    assert_eq!(encoder_action(EncoderFunction::Band, 2), EncoderAction::Band(Some(BandCommand::Up)));
    assert_eq!(encoder_action(EncoderFunction::Band, -1), EncoderAction::Band(Some(BandCommand::Down)));
    assert_eq!(encoder_action(EncoderFunction::Band, 0), EncoderAction::Band(None));
    assert_eq!(encoder_action(EncoderFunction::Vfo, -3), EncoderAction::Tune(-3000));
    assert_eq!(encoder_action(EncoderFunction::Volume, 2), EncoderAction::Level(LevelTarget::Volume, 8));
    assert_eq!(encoder_action(EncoderFunction::Squelch, -1), EncoderAction::Squelch(SquelchCommand::Delta(-4)));
    assert_eq!(encoder_action(EncoderFunction::TxEqLow, 3), EncoderAction::TxEq(TxEqCommand::SetLow(3)));
    assert_eq!(encoder_action(EncoderFunction::ScanResume, 5), EncoderAction::Scan(ScanCommand::ResumeDelta(5)));
    assert_eq!(encoder_action(EncoderFunction::ScanStep, 5), EncoderAction::Scan(ScanCommand::StepDelta(20)));
    assert_eq!(encoder_action(EncoderFunction::Menu, 5), EncoderAction::Nothing);
}

#[test]
fn button_events_map_to_commands() {
    let a = button_action(ButtonEvent::Press(ButtonFunction::Power));
    assert!(a.beep);
    assert_eq!(a.mode, None);
    let a = button_action(ButtonEvent::Release(ButtonFunction::Power));
    assert!(!a.beep);
    assert_eq!(a.mode, Some(ModeCommand::PowerToggle));
    let a = button_action(ButtonEvent::Press(ButtonFunction::Transmit));
    assert_eq!(a.mode, Some(ModeCommand::PttFrontPress));
    let a = button_action(ButtonEvent::Release(ButtonFunction::Tone));
    assert_eq!((a.mode, a.tone), (Some(ModeCommand::ToneRelease), Some(ToneCommand::Release)));
    let a = button_action(ButtonEvent::Press(ButtonFunction::Filter));
    assert_eq!(a.filter, Some(FilterCommand::Cycle));
    let a = button_action(ButtonEvent::Press(ButtonFunction::NoiseBlanker));
    assert_eq!(a.nb, Some(NbCommand::Toggle));
    let a = button_action(ButtonEvent::Release(ButtonFunction::Filter));
    assert_eq!(a.filter, None);
    assert_eq!(ButtonFunction::NoiseBlanker.code(), 8);
}

#[test]
fn debounce_rejects_repeats_within_window() {
    let mut t = ButtonTimes::new();
    assert!(debounce(&mut t, ButtonFunction::Filter, true, 1000, 50));
    assert!(!debounce(&mut t, ButtonFunction::Filter, true, 1020, 50));
    // a release is a separate event
    assert!(debounce(&mut t, ButtonFunction::Filter, false, 1020, 50));
    assert!(debounce(&mut t, ButtonFunction::Filter, true, 1050, 50));
    assert!(!debounce(&mut t, ButtonFunction::Filter, true, 1099, 50));
    assert!(debounce(&mut t, ButtonFunction::Agc, true, 1099, 50));
}

#[test]
fn debounce_with_full_table_still_accepts() {
    let mut t = ButtonTimes::new();
    let all = [
        ButtonFunction::Power,
        ButtonFunction::Transmit,
        ButtonFunction::Tone,
        ButtonFunction::TransmitMode,
        ButtonFunction::Filter,
        ButtonFunction::Rit,
        ButtonFunction::RfGain,
        ButtonFunction::Agc,
    ];
    for f in all {
        assert!(debounce(&mut t, f, true, 10, 50));
        assert!(debounce(&mut t, f, false, 10, 50));
    }
    // sixteen events are recorded; a new one is accepted but not recorded
    assert!(debounce(&mut t, ButtonFunction::NoiseBlanker, true, 10, 50));
    assert!(debounce(&mut t, ButtonFunction::NoiseBlanker, true, 11, 50));
    assert!(!debounce(&mut t, ButtonFunction::Power, true, 11, 50));
}

#[test]
fn checked_debounce_refuses_a_clock_that_went_back() {
    let mut t = ButtonTimes::new();
    assert_eq!(try_debounce(&mut t, ButtonFunction::Rit, true, 100, 50), Some(true));
    assert_eq!(try_debounce(&mut t, ButtonFunction::Rit, true, 99, 50), None);
    assert_eq!(try_debounce(&mut t, ButtonFunction::Rit, false, 99, 50), Some(true));
    assert_eq!(try_debounce(&mut t, ButtonFunction::Rit, true, 120, 50), Some(false));
    assert_eq!(try_debounce(&mut t, ButtonFunction::Rit, true, 150, 50), Some(true));
}

#[test]
fn display_labels() {
    assert_eq!(cursor_highlight(3, false, 3), Some(Highlight::Selected));
    assert_eq!(cursor_highlight(3, true, 3), Some(Highlight::Editing));
    assert_eq!(cursor_highlight(2, true, 3), None);
    assert_eq!(transmit_mode_label(TransmitMode::Lsb), "LSB");
    assert_eq!(agc_label_short(IfGainMode::AgcSlow), "AGC:S");
    assert_eq!(agc_label_long(IfGainMode::Manual), "AGC:MAN");
    assert_eq!(rf_gain_label(RfGainMode::Normal), "");
    assert_eq!(rf_gain_label(RfGainMode::RfDouble), "PRE2");
    assert_eq!(mode_label(Mode::Tx), ("TX", ModeColor::Red));
    assert_eq!(mode_label(Mode::WarmUp), ("WARM", ModeColor::Orange));
    assert_eq!(fatal_message(BsodError::Crash), "Main board crashed");
}

#[test]
fn status_bar_positions() {
    let l = status_bar_layout(3, 3, 5, 0, false, true, false);
    assert_eq!(l.band, BarItem { x: 2, w: 18, drawn: true });
    assert_eq!(l.transmit_mode, BarItem { x: 24, w: 18, drawn: true });
    assert_eq!(l.agc, BarItem { x: 46, w: 30, drawn: true });
    assert_eq!(l.rf, None);
    assert_eq!(l.nb, Some(BarItem { x: 80, w: 12, drawn: true }));
    let l = status_bar_layout(3, 3, 5, 0, true, false, true);
    assert_eq!(l.rf, Some(BarItem { x: 80, w: 18, drawn: false }));
    assert_eq!(l.nb, Some(BarItem { x: 102, w: 12, drawn: false }));
    let l = status_bar_layout(4, 2, 5, 4, false, false, false);
    assert_eq!(l.transmit_mode, BarItem { x: 30, w: 12, drawn: true });
    assert_eq!(l.rf, Some(BarItem { x: 80, w: 24, drawn: true }));
    assert_eq!(l.nb, None);
}

#[test]
fn numeric_readouts() {
    assert_eq!(frequency_parts(14_074_500), (14, 74, 500));
    assert_eq!(bandwidth_text(2400), BandwidthText::Khz(2, 4));
    assert_eq!(bandwidth_text(500), BandwidthText::Hz(500));
    assert_eq!(clarifier_offset_hz(500), 0);
    assert_eq!(clarifier_offset_hz(1000), 5000);
    assert_eq!(clarifier_offset_hz(0), -5000);
    assert_eq!(clarifier_offset_hz(499), -10);
    assert_eq!(clarifier_offset_text(-1230), (false, 1, 23));
    assert_eq!(clarifier_offset_text(4999), (true, 4, 99));
    assert_eq!(swr_text(105), SwrText::Hundredths(1, 5));
    assert_eq!(swr_text(250), SwrText::Tenths(2, 5));
    assert_eq!(watts_text(12_345), (12, 3));
}

#[test]
fn menu_keeps_cursor_visible() {
    assert_eq!(menu_scroll_offset(3), 0);
    assert_eq!(menu_scroll_offset(10), 3);
    assert_eq!(menu_row(10, 3), Some(7));
    assert_eq!(menu_row(2, 3), None);
    assert_eq!(menu_row(11, 3), None);
}

#[test]
fn dsp_settings_per_mode() {
    assert_eq!(demod_for_mode(TransmitMode::Usb), (DemodMode::Usb, AgcPreset::SsbFast));
    assert_eq!(demod_for_mode(TransmitMode::Cw), (DemodMode::Cw, AgcPreset::Cw));
    assert_eq!(agc_preset_for(AudioAgcMode::Slow), AgcPreset::SsbSlow);
    assert_eq!(agc_preset_for(AudioAgcMode::Off), AgcPreset::Off);
    assert_eq!(filter_preset_index(FilterType::CwNarrow), 0);
    assert_eq!(filter_preset_index(FilterType::Wide), 3);
    assert!(vox_voice_mode(TransmitMode::Lsb));
    assert!(!vox_voice_mode(TransmitMode::Cw));
}

#[test]
fn clarifier_offset_only_in_rit() {
    let mut c = ClarifierTracker::new();
    assert_eq!(c.on_value(120), None);
    assert_eq!(c.on_mode(ClarifierMode::Rit), None);
    assert_eq!(c.on_value(120), Some(120));
    assert_eq!(c.on_mode(ClarifierMode::Xit), None);
    assert_eq!(c.on_value(120), None);
    assert_eq!(c.on_mode(ClarifierMode::Off), Some(0));
}

#[test]
fn control_encoder_levels() {
    let mut s = ControlEncoderState {
        volume: Setting::new(500, 0, 1000),
        microphone: Setting::new(500, 0, 1000),
        rf_power: Setting::new(10000, 0, 10000),
        if_gain: Setting::new(0, 0, 1000),
        clarifier: Setting::new(500, 0, 1000),
        squelch: Setting::new(0, 0, 1000),
        nb_level: Setting::new(0, 0, 1000),
    };
    assert_eq!(s.handle(EncoderFunction::Volume, 3), Some(ControlUpdate::Volume(512)));
    assert_eq!(s.handle(EncoderFunction::RfPower, 1), None);
    assert_eq!(s.handle(EncoderFunction::Squelch, -1), None);
    assert_eq!(s.handle(EncoderFunction::NbLevel, 2), Some(ControlUpdate::NbLevel(8)));
    assert_eq!(s.handle(EncoderFunction::Vfo, 2), None);
}

#[test]
fn potentiometers_publish_changes_only() {
    let mut p = PotentiometerState::new();
    assert_eq!(p.handle(PotentiometerFunction::Volume, 0), None);
    assert_eq!(p.handle(PotentiometerFunction::Volume, 300), Some(300));
    assert_eq!(p.handle(PotentiometerFunction::Volume, 300), None);
    assert_eq!(p.handle(PotentiometerFunction::Squelch, 300), Some(300));
}

#[test]
fn scan_steps_through_band_and_wraps() {
    let mut m = ScanMachine::new();
    m.start(Some(14_348_000));
    assert_eq!(m.state, ScanState::Scanning);
    assert_eq!(m.advance(), 14_349_000);
    assert_eq!(m.advance(), 14_350_000);
    assert_eq!(m.advance(), 14_000_000);
    let mut m = ScanMachine::new();
    m.apply_settings(Some(5000), None, None, Some(Band::Band40m));
    m.start(None);
    assert_eq!(m.freq, 7_000_000);
    assert_eq!(m.advance(), 7_005_000);
}

#[test]
fn scan_stops_on_signal_and_resumes_after_delay() {
    let mut m = ScanMachine::new();
    m.apply_settings(None, Some(2), Some(500), None);
    assert_eq!(m.squelch_dbm, -70);
    m.start(None);
    m.after_dwell(ScanCheck::Level(-90));
    assert_eq!(m.state, ScanState::Scanning);
    m.after_dwell(ScanCheck::Level(-60));
    assert_eq!(m.state, ScanState::Stopped);
    m.while_stopped(ScanCheck::Level(-65), 1000);
    assert_eq!(m.state, ScanState::Stopped);
    m.while_stopped(ScanCheck::Level(-80), 1100);
    assert_eq!(m.signal_lost_at, Some(1100));
    m.while_stopped(ScanCheck::Quiet, 3099);
    assert_eq!(m.state, ScanState::Stopped);
    m.while_stopped(ScanCheck::Quiet, 3100);
    assert_eq!(m.state, ScanState::Scanning);
    assert_eq!(m.signal_lost_at, None);
}

#[test]
fn scan_with_open_squelch_stops_even_without_signal() {
    let mut m = ScanMachine::new();
    m.start(None);
    m.after_dwell(ScanCheck::Quiet);
    assert_eq!(m.state, ScanState::Stopped);
    m.while_stopped(ScanCheck::Transmitting, 5);
    assert_eq!(m.state, ScanState::Idle);
}

#[test]
fn sweep_waits_for_a_closed_squelch_second() {
    let mut g = SweepGate::new();
    g.on_squelch(500);
    assert_eq!(g.squelch_threshold_dbm, -70);
    assert!(!g.ready(0));
    g.on_rssi(-90, 100);
    assert!(!g.ready(1099));
    assert!(g.ready(1100));
    g.on_rssi(-60, 1200);
    assert!(!g.ready(5000));
    g.on_rssi(-90, 5000);
    g.on_scan_active(true);
    assert!(!g.ready(9000));
    assert!(!g.on_frequency(7_110_000, 100_000));
    assert!(g.on_frequency(7_140_000, 100_000));
}

#[test]
fn spectrum_geometry_and_colours() {
    assert_eq!(spectrum_trace_y(-120), 44);
    assert_eq!(spectrum_trace_y(-20), 12);
    assert_eq!(spectrum_column_colors(10, 0, 240, -90), ((12 << 5), (50 << 5)));
    assert_eq!(spectrum_column_colors(10, 20, 240, -90), ((6 << 5), (40 << 5)));
    assert_eq!(spectrum_column_colors(10, 20, 240, -128), ((12 << 5), (50 << 5)));
    assert_eq!(waterfall_pixel(-128, 0, 0, 240), (2 << 11) | (2 << 5) | 4);
    assert_eq!(waterfall_pixel(-20, 0, 0, 240), 31 << 11);
    assert_eq!(waterfall_pixel(-20, 0, 10, 240), 15 << 11);
    assert!(center_marker_bright(-100));
    assert!(!center_marker_bright(-110));
    assert_eq!(display_edges(7_100_000, 100_000), (7_050_000, 7_150_000));
    assert_eq!(display_edges(10_000, 100_000), (0, 60_000));
    assert_eq!(sweep_dot(true, SweepStatus::Sweeping), SweepDot::Gray);
    assert_eq!(sweep_dot(false, SweepStatus::Listening), SweepDot::Yellow);
    assert_eq!(sweep_dot(false, SweepStatus::Sweeping), SweepDot::Green);
}

#[test]
fn control_encoder_starts_at_zero_and_caps_rf_power() {
    let mut s = ControlEncoderState::new();
    assert_eq!(s.handle(EncoderFunction::RfPower, -1), None);
    assert_eq!(s.handle(EncoderFunction::RfPower, 127), Some(ControlUpdate::RfPower(508)));
    assert_eq!(s.handle(EncoderFunction::RfPower, 127), Some(ControlUpdate::RfPower(1000)));
    assert_eq!(s.handle(EncoderFunction::RfPower, 1), None);
    assert_eq!(s.handle(EncoderFunction::Volume, 1), Some(ControlUpdate::Volume(4)));
    assert_eq!(s.handle(EncoderFunction::Clarifier, -1), None);
}

#[test]
fn mode_label_is_right_aligned() {
    assert_eq!(mode_label_x(4), 214);
    assert_eq!(mode_label_x(2), 226);
    assert_eq!(mode_label_x(0), 238);
}

#[test]
fn info_line_for_receive_state() {
    let mut c = [0u8; 16];
    let mut b = [0u8; 12];
    let mut p = [0u8; 12];
    let l = info_line(ClarifierMode::Rit, 120, 2700, 10000, &mut c, &mut b, &mut p);
    assert_eq!(l.clarifier, Some(TextAt { x: 2, len: 10 }));
    assert_eq!(&c[..10], b"RIT -3.80k");
    assert_eq!(l.bw_x, 68);
    assert_eq!(&b[..l.bw_len], b"BW:2.7k");
    assert_eq!(l.pwr_x, 116);
    assert_eq!(&p[..l.pwr_len], b"PWR:100%");
}

#[test]
fn info_line_without_clarifier_and_narrow_filter() {
    let mut c = [0u8; 16];
    let mut b = [0u8; 12];
    let mut p = [0u8; 12];
    let l = info_line(ClarifierMode::Off, 120, 500, 2550, &mut c, &mut b, &mut p);
    assert_eq!(l, InfoLine { clarifier: None, bw_x: 2, bw_len: 8, pwr_x: 56, pwr_len: 7 });
    assert_eq!(&b[..8], b"BW:500Hz");
    assert_eq!(&p[..7], b"PWR:25%");
    let l = info_line(ClarifierMode::Xit, 700, 1000, 0, &mut c, &mut b, &mut p);
    assert_eq!(l.clarifier, Some(TextAt { x: 2, len: 10 }));
    assert_eq!(&c[..10], b"XIT +2.00k");
    assert_eq!(&b[..l.bw_len], b"BW:1.0k");
    assert_eq!(&p[..l.pwr_len], b"PWR:0%");
}

#[test]
fn vox_transitions_command_mode_and_scan() {
    assert_eq!(
        vox_transition_commands(true),
        VoxCommands { mode: ModeCommand::VoxActivate, scan: Some(ScanCommand::Stop) }
    );
    assert_eq!(vox_transition_commands(false), VoxCommands { mode: ModeCommand::VoxDeactivate, scan: None });
}

#[test]
fn scan_reports_when_it_ends() {
    let mut m = ScanMachine::new();
    m.apply_settings(None, None, Some(500), None);
    assert_eq!(m.start(None), Some(true));
    assert_eq!(m.after_dwell(ScanCheck::Level(-90)), None);
    assert_eq!(m.after_dwell(ScanCheck::Level(-60)), None);
    assert_eq!(m.state, ScanState::Stopped);
    assert_eq!(m.while_stopped(ScanCheck::Level(-60), 10), None);
    assert_eq!(m.while_stopped(ScanCheck::Disabled, 20), Some(false));
    assert_eq!(m.state, ScanState::Idle);
    assert_eq!(m.start(None), Some(true));
    assert_eq!(m.after_dwell(ScanCheck::Transmitting), Some(false));
    assert_eq!(m.state, ScanState::Idle);
}

#[test]
fn scan_resume_delay_beyond_millisecond_range() {
    let mut m = ScanMachine::new();
    m.apply_settings(None, Some(u64::MAX), Some(500), None);
    m.start(None);
    m.after_dwell(ScanCheck::Level(-60));
    assert_eq!(m.while_stopped(ScanCheck::Level(-90), 0), None);
    assert_eq!(m.while_stopped(ScanCheck::Quiet, u64::MAX), None);
    assert_eq!(m.state, ScanState::Stopped);
}
