//! The front panel's controls as commands: what each encoder turn and each
//! button press or release asks of the arbiters, and the debouncing of
//! buttons.

use heapless::index_map::FnvIndexMap;
use vstd::prelude::*;

use crate::arbiters::eq::{RxEqCommand, TxEqCommand};
use crate::arbiters::filter::FilterCommand;
use crate::arbiters::frequency::BandCommand;
use crate::arbiters::if_gain_mode::IfGainModeCommand;
use crate::arbiters::mode::ModeCommand;
use crate::arbiters::scan::ScanCommand;
use crate::arbiters::squelch::SquelchCommand;
use crate::arbiters::switches::{
    ClarifierModeCommand, NbCommand, RfGainModeCommand, ToneCommand, TransmitModeCommand,
};
use crate::arbiters::vox::VoxCommand;

verus! {

/// Encoder steps are multiplied by this for the level settings.
pub const STEP_SIZE: i16 = 4;
/// Tuning step per encoder step, in Hz.
pub const VFO_STEP_HZ: i32 = 1000;

/// What an encoder is assigned to.
#[derive(PartialEq, Eq, Structural, Clone, Copy, Debug)]
pub enum EncoderFunction {
    Band,
    Vfo,
    Volume,
    Microphone,
    RfPower,
    IfGain,
    Clarifier,
    Squelch,
    NbLevel,
    NrLevel,
    Compression,
    DspBandwidth,
    DspShift,
    CwPeakWidth,
    CwPitch,
    TxEqLow,
    TxEqMid,
    TxEqHigh,
    RxEqLow,
    RxEqMid,
    RxEqHigh,
    VoxGain,
    VoxDelay,
    VoxAntiTrip,
    ScanStep,
    ScanResume,
    Menu,
}

/// A level setting that takes encoder steps directly.
#[derive(PartialEq, Eq, Structural, Clone, Copy, Debug)]
pub enum LevelTarget {
    Volume,
    Microphone,
    RfPower,
    IfGain,
    Clarifier,
    NbLevel,
    NrLevel,
    Compression,
    DspBandwidth,
    DspShift,
    CwPeakWidth,
    CwPitch,
}

/// What an encoder turn asks for.
#[derive(PartialEq, Eq, Structural, Clone, Copy, Debug)]
pub enum EncoderAction {
    /// Stop the scan, then step the band if the turn had a direction.
    Band(Option<BandCommand>),
    /// Stop the scan, then tune by this many Hz.
    Tune(i32),
    Level(LevelTarget, i16),
    Squelch(SquelchCommand),
    TxEq(TxEqCommand),
    RxEq(RxEqCommand),
    Vox(VoxCommand),
    Scan(ScanCommand),
    Nothing,
}

/// The level setting an encoder function adjusts, if it is one.
pub open spec fn level_target(f: EncoderFunction) -> Option<LevelTarget> {
    match f {
        EncoderFunction::Volume => Some(LevelTarget::Volume),
        EncoderFunction::Microphone => Some(LevelTarget::Microphone),
        EncoderFunction::RfPower => Some(LevelTarget::RfPower),
        EncoderFunction::IfGain => Some(LevelTarget::IfGain),
        EncoderFunction::Clarifier => Some(LevelTarget::Clarifier),
        EncoderFunction::NbLevel => Some(LevelTarget::NbLevel),
        EncoderFunction::NrLevel => Some(LevelTarget::NrLevel),
        EncoderFunction::Compression => Some(LevelTarget::Compression),
        EncoderFunction::DspBandwidth => Some(LevelTarget::DspBandwidth),
        EncoderFunction::DspShift => Some(LevelTarget::DspShift),
        EncoderFunction::CwPeakWidth => Some(LevelTarget::CwPeakWidth),
        EncoderFunction::CwPitch => Some(LevelTarget::CwPitch),
        _ => None,
    }
}

/// The command for a turn of `delta` steps of an encoder.
pub open spec fn encoder_spec(f: EncoderFunction, delta: i8) -> EncoderAction {
    let d = (delta * STEP_SIZE) as i16;
    match f {
        EncoderFunction::Band => EncoderAction::Band(
            if delta > 0 {
                Some(BandCommand::Up)
            } else if delta < 0 {
                Some(BandCommand::Down)
            } else {
                None
            },
        ),
        EncoderFunction::Vfo => EncoderAction::Tune((delta * VFO_STEP_HZ) as i32),
        EncoderFunction::Squelch => EncoderAction::Squelch(SquelchCommand::Delta(d)),
        EncoderFunction::TxEqLow => EncoderAction::TxEq(TxEqCommand::SetLow(delta)),
        EncoderFunction::TxEqMid => EncoderAction::TxEq(TxEqCommand::SetMid(delta)),
        EncoderFunction::TxEqHigh => EncoderAction::TxEq(TxEqCommand::SetHigh(delta)),
        EncoderFunction::RxEqLow => EncoderAction::RxEq(RxEqCommand::SetLow(delta)),
        EncoderFunction::RxEqMid => EncoderAction::RxEq(RxEqCommand::SetMid(delta)),
        EncoderFunction::RxEqHigh => EncoderAction::RxEq(RxEqCommand::SetHigh(delta)),
        EncoderFunction::VoxGain => EncoderAction::Vox(VoxCommand::GainDelta(d)),
        EncoderFunction::VoxDelay => EncoderAction::Vox(VoxCommand::DelayDelta(d)),
        EncoderFunction::VoxAntiTrip => EncoderAction::Vox(VoxCommand::AntiTripDelta(d)),
        EncoderFunction::ScanStep => EncoderAction::Scan(ScanCommand::StepDelta(d)),
        EncoderFunction::ScanResume => EncoderAction::Scan(ScanCommand::ResumeDelta(delta as i16)),
        EncoderFunction::Menu => EncoderAction::Nothing,
        _ => match level_target(f) {
            Some(t) => EncoderAction::Level(t, d),
            None => EncoderAction::Nothing,
        },
    }
}

/// What a turn of `delta` steps of an encoder asks for: level settings move
/// by four units per step, tuning by 1 kHz per step, the equalisers and the
/// scan's resume delay by one unit per step; band and tuning turns stop a
/// running scan.
pub fn encoder_action(function: EncoderFunction, delta: i8) -> (a: EncoderAction)
    ensures
        a == encoder_spec(function, delta),
{
    let d: i16 = delta as i16 * STEP_SIZE;
    match function {
        EncoderFunction::Band => {
            if delta > 0 {
                EncoderAction::Band(Some(BandCommand::Up))
            } else if delta < 0 {
                EncoderAction::Band(Some(BandCommand::Down))
            } else {
                EncoderAction::Band(None)
            }
        },
        EncoderFunction::Vfo => EncoderAction::Tune(delta as i32 * VFO_STEP_HZ),
        EncoderFunction::Volume => EncoderAction::Level(LevelTarget::Volume, d),
        EncoderFunction::Microphone => EncoderAction::Level(LevelTarget::Microphone, d),
        EncoderFunction::RfPower => EncoderAction::Level(LevelTarget::RfPower, d),
        EncoderFunction::IfGain => EncoderAction::Level(LevelTarget::IfGain, d),
        EncoderFunction::Clarifier => EncoderAction::Level(LevelTarget::Clarifier, d),
        EncoderFunction::Squelch => EncoderAction::Squelch(SquelchCommand::Delta(d)),
        EncoderFunction::NbLevel => EncoderAction::Level(LevelTarget::NbLevel, d),
        EncoderFunction::NrLevel => EncoderAction::Level(LevelTarget::NrLevel, d),
        EncoderFunction::Compression => EncoderAction::Level(LevelTarget::Compression, d),
        EncoderFunction::DspBandwidth => EncoderAction::Level(LevelTarget::DspBandwidth, d),
        EncoderFunction::DspShift => EncoderAction::Level(LevelTarget::DspShift, d),
        EncoderFunction::CwPeakWidth => EncoderAction::Level(LevelTarget::CwPeakWidth, d),
        EncoderFunction::CwPitch => EncoderAction::Level(LevelTarget::CwPitch, d),
        EncoderFunction::TxEqLow => EncoderAction::TxEq(TxEqCommand::SetLow(delta)),
        EncoderFunction::TxEqMid => EncoderAction::TxEq(TxEqCommand::SetMid(delta)),
        EncoderFunction::TxEqHigh => EncoderAction::TxEq(TxEqCommand::SetHigh(delta)),
        EncoderFunction::RxEqLow => EncoderAction::RxEq(RxEqCommand::SetLow(delta)),
        EncoderFunction::RxEqMid => EncoderAction::RxEq(RxEqCommand::SetMid(delta)),
        EncoderFunction::RxEqHigh => EncoderAction::RxEq(RxEqCommand::SetHigh(delta)),
        EncoderFunction::VoxGain => EncoderAction::Vox(VoxCommand::GainDelta(d)),
        EncoderFunction::VoxDelay => EncoderAction::Vox(VoxCommand::DelayDelta(d)),
        EncoderFunction::VoxAntiTrip => EncoderAction::Vox(VoxCommand::AntiTripDelta(d)),
        EncoderFunction::ScanStep => EncoderAction::Scan(ScanCommand::StepDelta(d)),
        EncoderFunction::ScanResume => EncoderAction::Scan(ScanCommand::ResumeDelta(delta as i16)),
        EncoderFunction::Menu => EncoderAction::Nothing,
    }
}

/// A front-panel button.
#[derive(PartialEq, Eq, Structural, Clone, Copy, Debug)]
pub enum ButtonFunction {
    Power,
    Transmit,
    Tone,
    TransmitMode,
    Filter,
    Rit,
    RfGain,
    Agc,
    NoiseBlanker,
}

impl ButtonFunction {
    /// A number identifying the button.
    pub fn code(self) -> (c: u8)
        ensures
            c == button_code(self),
    {
        match self {
            ButtonFunction::Power => 0,
            ButtonFunction::Transmit => 1,
            ButtonFunction::Tone => 2,
            ButtonFunction::TransmitMode => 3,
            ButtonFunction::Filter => 4,
            ButtonFunction::Rit => 5,
            ButtonFunction::RfGain => 6,
            ButtonFunction::Agc => 7,
            ButtonFunction::NoiseBlanker => 8,
        }
    }
}

pub open spec fn button_code(f: ButtonFunction) -> u8 {
    match f {
        ButtonFunction::Power => 0,
        ButtonFunction::Transmit => 1,
        ButtonFunction::Tone => 2,
        ButtonFunction::TransmitMode => 3,
        ButtonFunction::Filter => 4,
        ButtonFunction::Rit => 5,
        ButtonFunction::RfGain => 6,
        ButtonFunction::Agc => 7,
        ButtonFunction::NoiseBlanker => 8,
    }
}

#[derive(PartialEq, Eq, Structural, Clone, Copy, Debug)]
pub enum ButtonEvent {
    Press(ButtonFunction),
    Release(ButtonFunction),
}

/// What a button event asks of the arbiters.
#[derive(PartialEq, Eq, Structural, Clone, Copy, Debug)]
pub struct ButtonAction {
    /// A key click for every press.
    pub beep: bool,
    pub mode: Option<ModeCommand>,
    pub tone: Option<ToneCommand>,
    pub transmit_mode: Option<TransmitModeCommand>,
    pub filter: Option<FilterCommand>,
    pub clarifier_mode: Option<ClarifierModeCommand>,
    pub rf_gain_mode: Option<RfGainModeCommand>,
    pub if_gain_mode: Option<IfGainModeCommand>,
    pub nb: Option<NbCommand>,
}

pub open spec fn no_command(beep: bool) -> ButtonAction {
    ButtonAction {
        beep,
        mode: None,
        tone: None,
        transmit_mode: None,
        filter: None,
        clarifier_mode: None,
        rf_gain_mode: None,
        if_gain_mode: None,
        nb: None,
    }
}

/// The commands of a button event: power toggles on release; transmit and
/// tone act on press and on release; the other buttons act on press.
pub open spec fn button_spec(ev: ButtonEvent) -> ButtonAction {
    match ev {
        ButtonEvent::Release(ButtonFunction::Power) => ButtonAction {
            mode: Some(ModeCommand::PowerToggle),
            ..no_command(false)
        },
        ButtonEvent::Press(ButtonFunction::Transmit) => ButtonAction {
            mode: Some(ModeCommand::PttFrontPress),
            ..no_command(true)
        },
        ButtonEvent::Release(ButtonFunction::Transmit) => ButtonAction {
            mode: Some(ModeCommand::PttFrontRelease),
            ..no_command(false)
        },
        ButtonEvent::Press(ButtonFunction::Tone) => ButtonAction {
            mode: Some(ModeCommand::TonePress),
            tone: Some(ToneCommand::Press),
            ..no_command(true)
        },
        ButtonEvent::Release(ButtonFunction::Tone) => ButtonAction {
            mode: Some(ModeCommand::ToneRelease),
            tone: Some(ToneCommand::Release),
            ..no_command(false)
        },
        ButtonEvent::Press(ButtonFunction::TransmitMode) => ButtonAction {
            transmit_mode: Some(TransmitModeCommand::Cycle),
            ..no_command(true)
        },
        ButtonEvent::Press(ButtonFunction::Filter) => ButtonAction {
            filter: Some(FilterCommand::Cycle),
            ..no_command(true)
        },
        ButtonEvent::Press(ButtonFunction::Rit) => ButtonAction {
            clarifier_mode: Some(ClarifierModeCommand::Toggle),
            ..no_command(true)
        },
        ButtonEvent::Press(ButtonFunction::RfGain) => ButtonAction {
            rf_gain_mode: Some(RfGainModeCommand::Cycle),
            ..no_command(true)
        },
        ButtonEvent::Press(ButtonFunction::Agc) => ButtonAction {
            if_gain_mode: Some(IfGainModeCommand::Toggle),
            ..no_command(true)
        },
        ButtonEvent::Press(ButtonFunction::NoiseBlanker) => ButtonAction {
            nb: Some(NbCommand::Toggle),
            ..no_command(true)
        },
        ButtonEvent::Press(_) => no_command(true),
        ButtonEvent::Release(_) => no_command(false),
    }
}

/// The commands of a (debounced) button event.
pub fn button_action(ev: ButtonEvent) -> (a: ButtonAction)
    ensures
        a == button_spec(ev),
{
    let is_press = match ev {
        ButtonEvent::Press(_) => true,
        ButtonEvent::Release(_) => false,
    };
    let mut a = ButtonAction {
        beep: is_press,
        mode: None,
        tone: None,
        transmit_mode: None,
        filter: None,
        clarifier_mode: None,
        rf_gain_mode: None,
        if_gain_mode: None,
        nb: None,
    };
    match ev {
        ButtonEvent::Release(ButtonFunction::Power) => {
            a.mode = Some(ModeCommand::PowerToggle);
        },
        ButtonEvent::Press(ButtonFunction::Transmit) => {
            a.mode = Some(ModeCommand::PttFrontPress);
        },
        ButtonEvent::Release(ButtonFunction::Transmit) => {
            a.mode = Some(ModeCommand::PttFrontRelease);
        },
        ButtonEvent::Press(ButtonFunction::Tone) => {
            a.mode = Some(ModeCommand::TonePress);
            a.tone = Some(ToneCommand::Press);
        },
        ButtonEvent::Release(ButtonFunction::Tone) => {
            a.mode = Some(ModeCommand::ToneRelease);
            a.tone = Some(ToneCommand::Release);
        },
        ButtonEvent::Press(ButtonFunction::TransmitMode) => {
            a.transmit_mode = Some(TransmitModeCommand::Cycle);
        },
        ButtonEvent::Press(ButtonFunction::Filter) => {
            a.filter = Some(FilterCommand::Cycle);
        },
        ButtonEvent::Press(ButtonFunction::Rit) => {
            a.clarifier_mode = Some(ClarifierModeCommand::Toggle);
        },
        ButtonEvent::Press(ButtonFunction::RfGain) => {
            a.rf_gain_mode = Some(RfGainModeCommand::Cycle);
        },
        ButtonEvent::Press(ButtonFunction::Agc) => {
            a.if_gain_mode = Some(IfGainModeCommand::Toggle);
        },
        ButtonEvent::Press(ButtonFunction::NoiseBlanker) => {
            a.nb = Some(NbCommand::Toggle);
        },
        _ => {},
    }
    a
}

/// When each (button, press-or-release) event was last accepted, in timer
/// ticks; it holds at most sixteen entries.
#[verifier::external_body]
pub struct ButtonTimes {
    map: FnvIndexMap<(u8, bool), u64, 16>,
}

/// No recorded times.
pub open spec fn no_button_times() -> Map<(u8, bool), u64> {
    Map::empty()
}

/// The times that a `ButtonTimes` holds.
pub uninterp spec fn button_times_contents(t: ButtonTimes) -> Map<(u8, bool), u64>;

/// `heapless`' `FnvIndexMap::new`: an empty map.
#[verifier::external_body]
fn button_times_empty() -> (times: ButtonTimes)
    ensures
        button_times_contents(times) == no_button_times(),
{
    ButtonTimes { map: FnvIndexMap::new() }
}

/// `heapless`' `IndexMap::get`: the value stored under the key, if any.
#[verifier::external_body]
fn button_times_get(t: &ButtonTimes, key: (u8, bool)) -> (r: Option<u64>)
    ensures
        r == (if button_times_contents(*t).contains_key(key) {
            Some(button_times_contents(*t)[key])
        } else {
            None::<u64>
        }),
{
    t.map.get(&key).copied()
}

/// `heapless`' `IndexMap::insert` with its result reduced to success: a key
/// already present gets the new value; a new key is added while fewer than
/// sixteen are stored; otherwise the map is left as it was and the call
/// fails.
#[verifier::external_body]
fn button_times_insert(t: &mut ButtonTimes, key: (u8, bool), value: u64) -> (ok: bool)
    ensures
        ok == (button_times_contents(*old(t)).contains_key(key) || button_times_contents(*old(t)).dom().len()
            < 16),
        ok ==> button_times_contents(*final(t)) == button_times_contents(*old(t)).insert(key, value),
        !ok ==> button_times_contents(*final(t)) == button_times_contents(*old(t)),
{
    t.map.insert(key, value).is_ok()
}

impl ButtonTimes {
    /// No event accepted yet.
    pub fn new() -> (t: Self)
        ensures
            button_times_contents(t) == no_button_times(),
    {
        button_times_empty()
    }
}

/// Whether an event is accepted: it is, unless the same event was accepted
/// less than `window` ticks before `now`.
pub open spec fn accepted(times: Map<(u8, bool), u64>, key: (u8, bool), now: u64, window: u64) -> bool {
    !(times.contains_key(key) && now - times[key] < window)
}

/// Whether the recorded time of an event, if any, lies no later than `now`.
pub open spec fn recorded_by(times: Map<(u8, bool), u64>, key: (u8, bool), now: u64) -> bool {
    times.contains_key(key) ==> times[key] <= now
}

/// Debounces a button event at time `now` (in ticks, not earlier than the
/// time recorded for the same event): rejects it when the same event was
/// accepted less than `window` ticks ago, and otherwise accepts it and
/// records `now` for it (unless sixteen other events are already recorded).
pub fn debounce(times: &mut ButtonTimes, function: ButtonFunction, is_press: bool, now: u64, window: u64) -> (ok:
    bool)
    requires
        recorded_by(button_times_contents(*old(times)), (button_code(function), is_press), now),
    ensures
        ({
            let key = (button_code(function), is_press);
            let before = button_times_contents(*old(times));
            let after = button_times_contents(*final(times));
            &&& ok == accepted(before, key, now, window)
            &&& !ok ==> after == before
            &&& ok ==> (after == before.insert(key, now) || (after == before && !before.contains_key(key)
                && before.dom().len() >= 16))
        }),
{
    let key = (function.code(), is_press);
    match button_times_get(times, key) {
        Some(last_time) => {
            if now - last_time < window {
                return false;
            }
        },
        None => {},
    }
    let _ = button_times_insert(times, key, now);
    true
}

/// Debounces a button event as `debounce` does, after checking that the time
/// recorded for the same event is not later than `now`; when it is (the
/// clock went backwards) nothing changes and `None` comes back.
pub fn try_debounce(
    times: &mut ButtonTimes,
    function: ButtonFunction,
    is_press: bool,
    now: u64,
    window: u64,
) -> (r: Option<bool>)
    ensures
        ({
            let key = (button_code(function), is_press);
            let before = button_times_contents(*old(times));
            let after = button_times_contents(*final(times));
            &&& r is None <==> !recorded_by(before, key, now)
            &&& r is None ==> after == before
            &&& r matches Some(ok) ==> {
                &&& ok == accepted(before, key, now, window)
                &&& !ok ==> after == before
                &&& ok ==> (after == before.insert(key, now) || (after == before && !before.contains_key(key)
                    && before.dom().len() >= 16))
            }
        }),
{
    let key = (function.code(), is_press);
    match button_times_get(times, key) {
        Some(last_time) => {
            if last_time > now {
                return None;
            }
        },
        None => {},
    }
    Some(debounce(times, function, is_press, now, window))
}

/// The equaliser band an encoder adjusts: the receive equaliser or not, and
/// low (0), mid (1) or high (2).
pub open spec fn eq_encoder_band(f: EncoderFunction) -> Option<(bool, int)> {
    match f {
        EncoderFunction::RxEqLow => Some((true, 0)),
        EncoderFunction::RxEqMid => Some((true, 1)),
        EncoderFunction::RxEqHigh => Some((true, 2)),
        EncoderFunction::TxEqLow => Some((false, 0)),
        EncoderFunction::TxEqMid => Some((false, 1)),
        EncoderFunction::TxEqHigh => Some((false, 2)),
        _ => None,
    }
}

/// The band a receive-equaliser command sets, and by how much.
pub open spec fn rx_eq_setting(c: RxEqCommand) -> Option<(int, i8)> {
    match c {
        RxEqCommand::SetLow(d) => Some((0, d)),
        RxEqCommand::SetMid(d) => Some((1, d)),
        RxEqCommand::SetHigh(d) => Some((2, d)),
        RxEqCommand::Toggle => None,
    }
}

/// The band a transmit-equaliser command sets, and by how much.
pub open spec fn tx_eq_setting(c: TxEqCommand) -> Option<(int, i8)> {
    match c {
        TxEqCommand::SetLow(d) => Some((0, d)),
        TxEqCommand::SetMid(d) => Some((1, d)),
        TxEqCommand::SetHigh(d) => Some((2, d)),
        TxEqCommand::Toggle => None,
    }
}

/// Each equaliser encoder moves its own band of its own equaliser by the
/// turn's steps; no other encoder touches an equaliser.
pub proof fn lemma_equaliser_encoders_move_their_band(f: EncoderFunction, delta: i8)
    ensures
        match eq_encoder_band(f) {
            Some((rx, band)) => match encoder_spec(f, delta) {
                EncoderAction::RxEq(c) => rx && rx_eq_setting(c) == Some((band, delta)),
                EncoderAction::TxEq(c) => !rx && tx_eq_setting(c) == Some((band, delta)),
                _ => false,
            },
            None => !(encoder_spec(f, delta) is RxEq) && !(encoder_spec(f, delta) is TxEq),
        },
{
}

/// The VOX and scan encoders each move their own setting: gain, delay and
/// anti-trip by four units per step, the scan step by four units per step
/// and the resume delay by one unit per step.
pub proof fn lemma_vox_and_scan_encoders_move_their_setting(delta: i8)
    ensures
        encoder_spec(EncoderFunction::VoxGain, delta) == EncoderAction::Vox(VoxCommand::GainDelta((4 * delta) as i16)),
        encoder_spec(EncoderFunction::VoxDelay, delta) == EncoderAction::Vox(VoxCommand::DelayDelta((4 * delta) as i16)),
        encoder_spec(EncoderFunction::VoxAntiTrip, delta) == EncoderAction::Vox(
            VoxCommand::AntiTripDelta((4 * delta) as i16),
        ),
        encoder_spec(EncoderFunction::ScanStep, delta) == EncoderAction::Scan(ScanCommand::StepDelta((4 * delta) as i16)),
        encoder_spec(EncoderFunction::ScanResume, delta) == EncoderAction::Scan(ScanCommand::ResumeDelta(delta as i16)),
{
}

/// Each level encoder moves its own level by four units per step; the band
/// encoder steps the band up or down with the turn's direction, and the
/// tuning encoder tunes by 1 kHz per step.
pub proof fn lemma_level_encoders_move_their_level(delta: i8)
    ensures
        encoder_spec(EncoderFunction::Volume, delta) == EncoderAction::Level(LevelTarget::Volume, (4 * delta) as i16),
        encoder_spec(EncoderFunction::Microphone, delta) == EncoderAction::Level(
            LevelTarget::Microphone,
            (4 * delta) as i16,
        ),
        encoder_spec(EncoderFunction::RfPower, delta) == EncoderAction::Level(LevelTarget::RfPower, (4 * delta) as i16),
        encoder_spec(EncoderFunction::IfGain, delta) == EncoderAction::Level(LevelTarget::IfGain, (4 * delta) as i16),
        encoder_spec(EncoderFunction::Clarifier, delta) == EncoderAction::Level(
            LevelTarget::Clarifier,
            (4 * delta) as i16,
        ),
        encoder_spec(EncoderFunction::NbLevel, delta) == EncoderAction::Level(LevelTarget::NbLevel, (4 * delta) as i16),
        encoder_spec(EncoderFunction::NrLevel, delta) == EncoderAction::Level(LevelTarget::NrLevel, (4 * delta) as i16),
        encoder_spec(EncoderFunction::Compression, delta) == EncoderAction::Level(
            LevelTarget::Compression,
            (4 * delta) as i16,
        ),
        encoder_spec(EncoderFunction::DspBandwidth, delta) == EncoderAction::Level(
            LevelTarget::DspBandwidth,
            (4 * delta) as i16,
        ),
        encoder_spec(EncoderFunction::DspShift, delta) == EncoderAction::Level(
            LevelTarget::DspShift,
            (4 * delta) as i16,
        ),
        encoder_spec(EncoderFunction::CwPeakWidth, delta) == EncoderAction::Level(
            LevelTarget::CwPeakWidth,
            (4 * delta) as i16,
        ),
        encoder_spec(EncoderFunction::CwPitch, delta) == EncoderAction::Level(LevelTarget::CwPitch, (4 * delta) as i16),
        encoder_spec(EncoderFunction::Squelch, delta) == EncoderAction::Squelch(
            SquelchCommand::Delta((4 * delta) as i16),
        ),
        encoder_spec(EncoderFunction::Vfo, delta) == EncoderAction::Tune((1000 * delta) as i32),
        delta > 0 ==> encoder_spec(EncoderFunction::Band, delta) == EncoderAction::Band(Some(BandCommand::Up)),
        delta < 0 ==> encoder_spec(EncoderFunction::Band, delta) == EncoderAction::Band(Some(BandCommand::Down)),
        delta == 0 ==> encoder_spec(EncoderFunction::Band, delta) == EncoderAction::Band(None),
        encoder_spec(EncoderFunction::Menu, delta) == EncoderAction::Nothing,
{
}

} // verus!
