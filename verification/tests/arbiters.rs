use druzhba_logic::arbiters::cw_keyer::{CwKeyerArbiter, CwKeyerCommand, CwKeyerUpdate};
use druzhba_logic::arbiters::eq::{EqArbiter, EqUpdate, RxEqCommand, TxEqCommand};
use druzhba_logic::arbiters::filter::{FilterArbiter, FilterCommand, FilterEvent};
use druzhba_logic::arbiters::frequency::{BandCommand, FrequencyArbiter, FrequencyEvent};
use druzhba_logic::arbiters::if_gain_mode::{IfGainModeArbiter, IfGainModeCommand, IfGainModeEvent};
use druzhba_logic::arbiters::mode::{ModeArbiter, ModeCommand};
use druzhba_logic::arbiters::scan::{ScanArbiter, ScanCommand, ScanUpdate};
use druzhba_logic::arbiters::setting::Setting;
use druzhba_logic::arbiters::squelch::{SquelchArbiter, SquelchCommand, SquelchUpdate};
use druzhba_logic::arbiters::sweep_target::{TargetArbiter, TargetEvent};
use druzhba_logic::arbiters::switches::{
    anf_handle, audio_agc_handle, clarifier_mode_handle, nb_handle, rf_gain_mode_handle, tone_handle,
    transmit_mode_handle, AnfCommand, AudioAgcCommand, ClarifierModeCommand, NbCommand, RfGainModeCommand,
    ToneCommand, TransmitModeCommand,
};
use druzhba_logic::arbiters::vox::{VoxArbiter, VoxCommand, VoxUpdate};
use druzhba_logic::types::{
    AudioAgcMode, Band, ClarifierMode, CwKeyMode, FilterType, IfGainMode, Mode, RfGainMode, SweepRequest,
    TransmitMode,
};

#[test]
fn power_toggle_goes_to_warm_up_and_back() {
    let mut a = ModeArbiter::new();
    assert_eq!(a.handle(ModeCommand::PowerToggle), Some(Mode::WarmUp));
    assert_eq!(a.handle(ModeCommand::PowerToggle), Some(Mode::StandBy));
}

#[test]
fn ptt_in_standby_does_not_transmit() {
    let mut a = ModeArbiter::new();
    assert_eq!(a.handle(ModeCommand::PttFrontPress), None);
    assert_eq!(a.mode, Mode::StandBy);
    assert!(a.ptt_front);
}

#[test]
fn transmit_ends_only_when_last_source_released() {
    let mut a = ModeArbiter::new();
    a.mode = Mode::Rx;
    assert_eq!(a.handle(ModeCommand::PttFrontPress), Some(Mode::Tx));
    assert_eq!(a.handle(ModeCommand::PttMicPress), None);
    assert_eq!(a.handle(ModeCommand::PttFrontRelease), None);
    assert_eq!(a.mode, Mode::Tx);
    assert_eq!(a.handle(ModeCommand::PttMicRelease), Some(Mode::Rx));
    assert_eq!(a.handle(ModeCommand::CwKeyDown), Some(Mode::Tx));
    assert_eq!(a.handle(ModeCommand::CwKeyUp), Some(Mode::Rx));
}

#[test]
fn power_toggle_while_transmitting_goes_to_standby() {
    let mut a = ModeArbiter::new();
    a.mode = Mode::Rx;
    a.handle(ModeCommand::VoxActivate);
    assert_eq!(a.handle(ModeCommand::PowerToggle), Some(Mode::StandBy));
}

#[test]
fn filter_cycles_and_sweep_restores_it() {
    let mut a = FilterArbiter::new();
    assert_eq!(a.handle(FilterEvent::Command(FilterCommand::Cycle)), FilterType::CwNarrow);
    assert_eq!(a.handle(FilterEvent::Command(FilterCommand::Cycle)), FilterType::Wide);
    assert_eq!(a.handle(FilterEvent::Command(FilterCommand::SetTo(FilterType::Medium))), FilterType::Medium);
    assert_eq!(a.handle(FilterEvent::SweepActive(true)), FilterType::Wide);
    assert_eq!(a.handle(FilterEvent::SweepActive(false)), FilterType::Medium);
}

#[test]
fn filter_follows_transmit_mode_default() {
    let mut a = FilterArbiter::new();
    assert_eq!(a.handle(FilterEvent::TransmitModeChanged(TransmitMode::Cw)), FilterType::CwNarrow);
    assert_eq!(a.handle(FilterEvent::TransmitModeChanged(TransmitMode::Am)), FilterType::Wide);
    assert_eq!(a.handle(FilterEvent::TransmitModeChanged(TransmitMode::Lsb)), FilterType::Narrow);
}

#[test]
fn if_gain_mode_toggles_and_sweep_forces_manual() {
    let mut a = IfGainModeArbiter::new();
    assert_eq!(a.handle(IfGainModeEvent::Command(IfGainModeCommand::Toggle)), IfGainMode::AgcFast);
    assert_eq!(a.handle(IfGainModeEvent::SweepActive(true)), IfGainMode::Manual);
    assert_eq!(a.handle(IfGainModeEvent::SweepActive(false)), IfGainMode::AgcFast);
    assert_eq!(
        a.handle(IfGainModeEvent::Command(IfGainModeCommand::SetTo(IfGainMode::AgcSlow))),
        IfGainMode::AgcSlow
    );
    assert_eq!(a.handle(IfGainModeEvent::Command(IfGainModeCommand::Toggle)), IfGainMode::Manual);
}

#[test]
fn tuning_within_band_publishes_frequency_only() {
    let mut a = FrequencyArbiter::new();
    let act = a.handle(FrequencyEvent::Delta(1000));
    assert_eq!(act.frequency, 14_201_000);
    assert_eq!(act.band, None);
    assert_eq!(act.rssi_fast_mode, None);
}

#[test]
fn tuning_past_band_edge_rolls_into_next_band() {
    let mut a = FrequencyArbiter::new();
    let act = a.handle(FrequencyEvent::Delta(200_000));
    assert_eq!(act.band, Some(Band::Band17m));
    assert_eq!(act.frequency, 18_068_000);
    let act = a.handle(FrequencyEvent::Delta(-1));
    assert_eq!(act.band, Some(Band::Band20m));
    assert_eq!(act.frequency, 14_350_000);
}

#[test]
fn band_steps_wrap_around() {
    let mut a = FrequencyArbiter::new();
    for _ in 0..4 {
        a.handle(FrequencyEvent::Band(BandCommand::Down));
    }
    assert_eq!(a.current_band, Band::Band160m);
    let act = a.handle(FrequencyEvent::Band(BandCommand::Down));
    assert_eq!(act.band, Some(Band::Band10m));
    assert_eq!(act.frequency, 29_700_000);
    let act = a.handle(FrequencyEvent::Band(BandCommand::Up));
    assert_eq!(act.band, Some(Band::Band160m));
    assert_eq!(act.frequency, 1_810_000);
}

#[test]
fn sweep_visits_frequencies_then_restores_user_frequency() {
    let mut a = FrequencyArbiter::new();
    let act = a.handle(FrequencyEvent::Sweep(SweepRequest::SetFrequency(7_100_000)));
    assert_eq!((act.frequency, act.rssi_fast_mode), (7_100_000, Some(true)));
    let act = a.handle(FrequencyEvent::Sweep(SweepRequest::SetFrequency(7_150_000)));
    assert_eq!((act.frequency, act.rssi_fast_mode), (7_150_000, None));
    let act = a.handle(FrequencyEvent::Sweep(SweepRequest::Done));
    assert_eq!((act.frequency, act.rssi_fast_mode), (14_200_000, Some(false)));
    assert!(!a.sweep_active);
}

#[test]
fn target_holds_user_settings_during_sweep() {
    let mut a = TargetArbiter::new();
    let act = a.handle(TargetEvent::UserFrequency(7_000_000));
    assert_eq!(act.frequency, Some(7_000_000));
    let act = a.handle(TargetEvent::Sweep(SweepRequest::SetFrequency(3_600_000)));
    assert_eq!(act.frequency, Some(3_600_000));
    assert_eq!(act.if_gain_mode, Some(IfGainMode::Manual));
    assert_eq!(act.rssi_fast_mode, Some(true));
    let act = a.handle(TargetEvent::UserFrequency(7_010_000));
    assert_eq!(act.frequency, None);
    let act = a.handle(TargetEvent::UserIfGainMode(IfGainMode::AgcSlow));
    assert_eq!(act.if_gain_mode, None);
    let act = a.handle(TargetEvent::Sweep(SweepRequest::Done));
    assert_eq!(act.frequency, Some(7_010_000));
    assert_eq!(act.if_gain_mode, Some(IfGainMode::AgcSlow));
    assert_eq!(act.rssi_fast_mode, Some(false));
}

#[test]
fn setting_adjust_clamps_and_reports_changes() {
    let mut s = Setting::new(5, 0, 10);
    assert_eq!(s.adjust(3), Some(8));
    assert_eq!(s.adjust(7), Some(10));
    assert_eq!(s.adjust(1), None);
    assert_eq!(s.adjust(-20), Some(0));
    assert_eq!(s.value(), 0);
    let t = Setting::new(50, 0, 10);
    assert_eq!(t.value(), 10);
}

#[test]
fn squelch_arbiter_levels_and_toggle() {
    let mut a = SquelchArbiter { squelch: Setting::new(0, 0, 1000), enabled: false };
    assert_eq!(a.handle(SquelchCommand::Delta(-4)), None);
    assert_eq!(a.handle(SquelchCommand::Delta(40)), Some(SquelchUpdate::Level(40)));
    assert_eq!(a.handle(SquelchCommand::Toggle), Some(SquelchUpdate::Enabled(true)));
}

#[test]
fn vox_arbiter_adjusts_each_setting() {
    let mut a = VoxArbiter {
        enabled: false,
        gain: Setting::new(50, 0, 100),
        delay: Setting::new(500, 100, 2000),
        anti_trip: Setting::new(50, 0, 100),
    };
    assert_eq!(a.handle(VoxCommand::GainDelta(10)), Some(VoxUpdate::Gain(60)));
    assert_eq!(a.handle(VoxCommand::DelayDelta(-1000)), Some(VoxUpdate::Delay(100)));
    assert_eq!(a.handle(VoxCommand::AntiTripDelta(0)), None);
    assert_eq!(a.handle(VoxCommand::Toggle), Some(VoxUpdate::Enabled(true)));
}

#[test]
fn eq_arbiter_rx_and_tx_bands() {
    let mut a = EqArbiter {
        enabled: false,
        low: Setting::new(0, -12, 12),
        mid: Setting::new(0, -12, 12),
        high: Setting::new(0, -12, 12),
    };
    assert_eq!(a.handle_rx(RxEqCommand::SetLow(3)), Some(EqUpdate::Low(3)));
    assert_eq!(a.handle_rx(RxEqCommand::SetMid(-20)), Some(EqUpdate::Mid(-12)));
    assert_eq!(a.handle_tx(TxEqCommand::SetHigh(0)), None);
    assert_eq!(a.handle_tx(TxEqCommand::Toggle), Some(EqUpdate::Enabled(true)));
}

#[test]
fn scan_arbiter_resume_and_stop() {
    let mut a = ScanArbiter { enabled: true, step: Setting::new(1000, 100, 10000), resume: 5, resume_min: 1, resume_max: 30 };
    assert_eq!(a.handle(ScanCommand::ResumeDelta(2)), Some(ScanUpdate::Resume(7)));
    // 7 - 10 = -3 is 253 in eight bits, held to the top of the range
    assert_eq!(a.handle(ScanCommand::ResumeDelta(-10)), Some(ScanUpdate::Resume(30)));
    assert_eq!(a.handle(ScanCommand::ResumeDelta(-29)), Some(ScanUpdate::Resume(1)));
    assert_eq!(a.handle(ScanCommand::StepDelta(500)), Some(ScanUpdate::Step(1500)));
    assert_eq!(a.handle(ScanCommand::Stop), Some(ScanUpdate::Enabled(false)));
    assert_eq!(a.handle(ScanCommand::Stop), None);
}

#[test]
fn scan_resume_wraps_in_eight_bits_before_clamping() {
    // 5 + 300 = 305, which is 49 in eight bits, then held to at most 30.
    let mut a = ScanArbiter { enabled: false, step: Setting::new(1000, 100, 10000), resume: 5, resume_min: 1, resume_max: 30 };
    assert_eq!(a.handle(ScanCommand::ResumeDelta(300)), Some(ScanUpdate::Resume(30)));
    // 30 + 250 = 280, which is 24 in eight bits.
    assert_eq!(a.handle(ScanCommand::ResumeDelta(250)), Some(ScanUpdate::Resume(24)));
}

#[test]
fn cw_keyer_arbiter_commands() {
    let mut a = CwKeyerArbiter {
        mode: CwKeyMode::IambicB,
        wpm: Setting::new(20, 5, 50),
        weight: Setting::new(50, 25, 75),
        swap: false,
        break_in_delay: Setting::new(500, 0, 2000),
    };
    assert_eq!(a.handle(CwKeyerCommand::CycleMode), Some(CwKeyerUpdate::Mode(CwKeyMode::Straight)));
    assert_eq!(a.handle(CwKeyerCommand::WpmDelta(5)), Some(CwKeyerUpdate::Wpm(25)));
    assert_eq!(a.handle(CwKeyerCommand::WeightDelta(100)), Some(CwKeyerUpdate::Weight(75)));
    assert_eq!(a.handle(CwKeyerCommand::ToggleSwap), Some(CwKeyerUpdate::Swap(true)));
    assert_eq!(a.handle(CwKeyerCommand::BreakInDelayDelta(0)), None);
}

#[test]
fn switch_handlers() {
    assert!(anf_handle(false, AnfCommand::Toggle));
    assert_eq!(audio_agc_handle(AudioAgcMode::Fast, AudioAgcCommand::Cycle), AudioAgcMode::Off);
    assert_eq!(clarifier_mode_handle(ClarifierMode::Off, ClarifierModeCommand::Toggle), ClarifierMode::Rit);
    assert!(!nb_handle(true, NbCommand::Toggle));
    assert!(nb_handle(false, NbCommand::SetTo(true)));
    assert_eq!(rf_gain_mode_handle(RfGainMode::RfDouble, RfGainModeCommand::Cycle), RfGainMode::Attenuator);
    assert_eq!(rf_gain_mode_handle(RfGainMode::Normal, RfGainModeCommand::SetTo(RfGainMode::RfSingle)), RfGainMode::RfSingle);
    assert!(tone_handle(ToneCommand::Press));
    assert!(!tone_handle(ToneCommand::Release));
    assert_eq!(transmit_mode_handle(TransmitMode::Am, TransmitModeCommand::Cycle), TransmitMode::Usb);
}

#[test]
fn arbiters_start_at_their_defaults() {
    let mut v = VoxArbiter::new((0, 1000), (0, 2000), (0, 1000));
    assert!(!v.enabled);
    assert_eq!(v.handle(VoxCommand::GainDelta(4)), Some(VoxUpdate::Gain(504)));
    assert_eq!(v.handle(VoxCommand::DelayDelta(-4)), Some(VoxUpdate::Delay(496)));
    assert_eq!(v.handle(VoxCommand::AntiTripDelta(0)), None);

    let mut s = ScanArbiter::new((100, 10000), (1, 30));
    assert_eq!(s.handle(ScanCommand::ResumeDelta(1)), Some(ScanUpdate::Resume(4)));
    assert_eq!(s.handle(ScanCommand::StepDelta(4)), Some(ScanUpdate::Step(1004)));
    assert_eq!(s.handle(ScanCommand::Toggle), Some(ScanUpdate::Enabled(true)));

    let mut k = CwKeyerArbiter::new((5, 50), (25, 75), (0, 2000));
    assert_eq!(k.handle(CwKeyerCommand::WpmDelta(1)), Some(CwKeyerUpdate::Wpm(21)));
    assert_eq!(k.handle(CwKeyerCommand::WeightDelta(-1)), Some(CwKeyerUpdate::Weight(49)));
    assert_eq!(k.handle(CwKeyerCommand::BreakInDelayDelta(10)), Some(CwKeyerUpdate::BreakInDelay(510)));
    assert_eq!(k.handle(CwKeyerCommand::CycleMode), Some(CwKeyerUpdate::Mode(CwKeyMode::Straight)));

    let mut e = EqArbiter::new(-12, 12);
    assert_eq!(e.handle_rx(RxEqCommand::SetHigh(-2)), Some(EqUpdate::High(-2)));
    assert_eq!(e.handle_rx(RxEqCommand::Toggle), Some(EqUpdate::Enabled(true)));

    let mut q = SquelchArbiter::new(0, 1000);
    assert_eq!(q.handle(SquelchCommand::Delta(-4)), None);
    assert_eq!(q.handle(SquelchCommand::Toggle), Some(SquelchUpdate::Enabled(true)));
}

#[test]
fn defaults_outside_a_range_are_held_within_it() {
    let s = ScanArbiter::new((2000, 5000), (5, 30));
    assert_eq!(s.resume, 5);
    assert_eq!(s.step.value(), 2000);
}
