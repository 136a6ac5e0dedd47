//! The integer stages of the audio mixer: the microphone compressor, and the
//! routing of receive audio, the tone generator and the microphone (or USB
//! audio) to headphones, speakers and the transmitter. Samples are unsigned
//! 16-bit values centred on 32768.

use vstd::prelude::*;

verus! {

/// Samples per audio buffer.
pub const AUDIO_BUFFER_SIZE: usize = 512;

/// Mid-scale: the zero level of a sample.
pub const MID_SCALE: u32 = 32768;
/// Envelope attack coefficient, in 1/256.
pub const ATTACK_COEFF: u32 = 128;
/// Envelope release coefficient, in 1/256.
pub const RELEASE_COEFF: u32 = 8;
/// Envelope level (in 1/256 of a sample step) below which nothing is compressed.
pub const NOISE_FLOOR: u32 = 400;
/// Buffers after the last USB audio buffer before the microphone takes over.
pub const USB_TX_TIMEOUT: u16 = 50;
/// Full-scale volume control position.
pub const MAX_VOLUME_RAW: i16 = 1000;

/// The gain of each route, in 1/255.
#[derive(PartialEq, Eq, Structural, Clone, Copy, Debug)]
pub struct Gains {
    pub rx_to_hp: u8,
    pub gen_to_hp: u8,
    pub rx_to_spk: u8,
    pub gen_to_spk: u8,
    pub mic_to_tx: u8,
    pub gen_to_tx: u8,
}

pub struct AudioMixer {
    rx: [u16; AUDIO_BUFFER_SIZE],
    generator: [u16; AUDIO_BUFFER_SIZE],
    mic: [u16; AUDIO_BUFFER_SIZE],
    out_headphones: [u16; AUDIO_BUFFER_SIZE],
    out_tx: [u16; AUDIO_BUFFER_SIZE],
    out_speakers: [u16; AUDIO_BUFFER_SIZE],
    usb_tx: [u16; AUDIO_BUFFER_SIZE],
    volume_gain: u8,
    headphones_connected: bool,
    squelch_open: bool,
    squelch_threshold_dbm: i8,
    gains: Gains,
    compression_level: i16,
    envelope: u32,
    gain_reduction: u8,
    usb_tx_active: bool,
    usb_tx_timeout: u16,
}

/// The mixer's state as plain values.
pub struct MixerView {
    pub rx: Seq<u16>,
    pub generator: Seq<u16>,
    pub mic: Seq<u16>,
    pub out_headphones: Seq<u16>,
    pub out_tx: Seq<u16>,
    pub out_speakers: Seq<u16>,
    pub usb_tx: Seq<u16>,
    pub volume_gain: u8,
    pub headphones_connected: bool,
    pub squelch_open: bool,
    pub squelch_threshold_dbm: i8,
    pub gains: Gains,
    pub compression_level: i16,
    pub envelope: u32,
    pub gain_reduction: u8,
    pub usb_tx_active: bool,
    pub usb_tx_timeout: u16,
}

impl View for AudioMixer {
    type V = MixerView;

    closed spec fn view(&self) -> MixerView {
        MixerView {
            rx: self.rx@,
            generator: self.generator@,
            mic: self.mic@,
            out_headphones: self.out_headphones@,
            out_tx: self.out_tx@,
            out_speakers: self.out_speakers@,
            usb_tx: self.usb_tx@,
            volume_gain: self.volume_gain,
            headphones_connected: self.headphones_connected,
            squelch_open: self.squelch_open,
            squelch_threshold_dbm: self.squelch_threshold_dbm,
            gains: self.gains,
            compression_level: self.compression_level,
            envelope: self.envelope,
            gain_reduction: self.gain_reduction,
            usb_tx_active: self.usb_tx_active,
            usb_tx_timeout: self.usb_tx_timeout,
        }
    }
}

/// The envelope never exceeds the largest peak, and USB audio times out.
pub open spec fn mixer_wf(m: MixerView) -> bool {
    &&& m.envelope <= MID_SCALE * 256
    &&& m.usb_tx_active ==> m.usb_tx_timeout <= USB_TX_TIMEOUT
}

/// Distance of a sample from mid-scale.
pub open spec fn deviation(x: u16) -> int {
    if x >= MID_SCALE { x - MID_SCALE } else { MID_SCALE - x }
}

/// The largest deviation from mid-scale in a buffer.
pub open spec fn peak(s: Seq<u16>) -> int
    decreases s.len(),
{
    if s.len() == 0 {
        0
    } else {
        let p = peak(s.drop_last());
        let d = deviation(s.last());
        if d > p { d } else { p }
    }
}

/// The envelope after a buffer whose scaled peak is `ps`: a fast attack
/// towards larger peaks, a slow release towards smaller ones.
pub open spec fn next_envelope(env: int, ps: int) -> int {
    if ps > env {
        env + ATTACK_COEFF * (ps - env) / 256
    } else {
        env - RELEASE_COEFF * (env - ps) / 256
    }
}

/// The compression threshold for a compression level.
pub open spec fn threshold(level: int) -> int {
    16384 * 256 - level * 15360 * 256 / 1000
}

/// The compression ratio for a compression level.
pub open spec fn ratio(level: int) -> int {
    2 + level * 6 / 1000
}

/// The gain, in 1/256, applied to a buffer with envelope `env`.
pub open spec fn compressor_gain(env: int, level: int) -> int {
    if env <= threshold(level) {
        256
    } else {
        (threshold(level) + (env - threshold(level)) / ratio(level)) * 256 / env
    }
}

/// Integer division rounding towards zero.
pub open spec fn div_toward_zero(a: int, b: int) -> int {
    if a >= 0 { a / b } else { -((-a) / b) }
}

/// One sample scaled by `gain` (in 1/256) about mid-scale.
pub open spec fn compress_sample(x: u16, gain: int) -> u16 {
    (div_toward_zero((x - MID_SCALE) * gain, 256) + MID_SCALE) as u16
}

/// The compression levels the compressor handles without overflow.
pub open spec fn level_supported(level: i16) -> bool {
    0 <= level && level * 15360 * 256 / 1000 <= 16384 * 256
}

/// A sample scaled by `gain` in 1/255.
pub open spec fn scaled(sample: u16, gain: u8) -> u16 {
    (sample * gain / 255) as u16
}

/// The sum of two samples, held at full scale.
pub open spec fn sat_sum(a: u16, b: u16) -> u16 {
    if a + b > u16::MAX { u16::MAX } else { (a + b) as u16 }
}

/// The three outputs at one sample position.
pub open spec fn mixed(m: MixerView, usb: bool, i: int) -> (u16, u16, u16) {
    let g = m.gains;
    let rx = scaled(m.rx[i], if m.squelch_open { 255 } else { 0 });
    let gen = m.generator[i];
    let src = if usb { m.usb_tx[i] } else { m.mic[i] };
    let hp = sat_sum(scaled(rx, g.rx_to_hp), scaled(gen, g.gen_to_hp));
    let spk = scaled(sat_sum(scaled(rx, g.rx_to_spk), scaled(gen, g.gen_to_spk)), m.volume_gain);
    let tx = sat_sum(scaled(src, g.mic_to_tx), scaled(gen, g.gen_to_tx));
    (
        if m.headphones_connected { hp } else { 0 },
        if !m.headphones_connected { spk } else { 0 },
        tx,
    )
}

/// (still active, timeout count) of USB audio after one more buffer.
pub open spec fn usb_after_buffer(active: bool, timeout: u16) -> (bool, u16) {
    if active {
        let t = (timeout + 1) as u16;
        (!(t > USB_TX_TIMEOUT), t)
    } else {
        (false, timeout)
    }
}

impl AudioMixer {
    /// Silence everywhere, full volume, headphones connected, squelch open,
    /// every route at full gain and no compression.
    pub fn new() -> (m: Self)
        ensures
            mixer_wf(m@),
            m@.volume_gain == 255,
            m@.headphones_connected,
            m@.squelch_open,
            m@.squelch_threshold_dbm == -120,
            m@.gains == (Gains {
                rx_to_hp: 255,
                gen_to_hp: 255,
                rx_to_spk: 255,
                gen_to_spk: 255,
                mic_to_tx: 255,
                gen_to_tx: 255,
            }),
            m@.compression_level == 0,
            m@.envelope == 0,
            m@.gain_reduction == 0,
            !m@.usb_tx_active,
            m@.usb_tx_timeout == 0,
            forall|i: int| 0 <= i < AUDIO_BUFFER_SIZE ==> m@.rx[i] == 0 && m@.generator[i] == 0 && m@.mic[i]
                == 0 && m@.out_headphones[i] == 0 && m@.out_tx[i] == 0 && m@.out_speakers[i] == 0
                && m@.usb_tx[i] == 32768,
    {
        AudioMixer {
            rx: [0; AUDIO_BUFFER_SIZE],
            generator: [0; AUDIO_BUFFER_SIZE],
            mic: [0; AUDIO_BUFFER_SIZE],
            out_headphones: [0; AUDIO_BUFFER_SIZE],
            out_tx: [0; AUDIO_BUFFER_SIZE],
            out_speakers: [0; AUDIO_BUFFER_SIZE],
            usb_tx: [32768; AUDIO_BUFFER_SIZE],
            volume_gain: 255,
            headphones_connected: true,
            squelch_open: true,
            squelch_threshold_dbm: -120,
            gains: Gains {
                rx_to_hp: 255,
                gen_to_hp: 255,
                rx_to_spk: 255,
                gen_to_spk: 255,
                mic_to_tx: 255,
                gen_to_tx: 255,
            },
            compression_level: 0,
            envelope: 0,
            gain_reduction: 0,
            usb_tx_active: false,
            usb_tx_timeout: 0,
        }
    }

    pub fn get_buffer_headphones(&self) -> (b: [u16; AUDIO_BUFFER_SIZE])
        ensures
            b@ == self@.out_headphones,
    {
        self.out_headphones
    }

    pub fn get_buffer_tx(&self) -> (b: [u16; AUDIO_BUFFER_SIZE])
        ensures
            b@ == self@.out_tx,
    {
        self.out_tx
    }

    pub fn get_buffer_speakers(&self) -> (b: [u16; AUDIO_BUFFER_SIZE])
        ensures
            b@ == self@.out_speakers,
    {
        self.out_speakers
    }

    /// The receive buffer, as the receive-side filters work on it.
    pub fn get_buffer_rx(&self) -> (b: [u16; AUDIO_BUFFER_SIZE])
        ensures
            b@ == self@.rx,
    {
        self.rx
    }

    /// The microphone buffer, as the transmit-side filters work on it.
    pub fn get_buffer_mic(&self) -> (b: [u16; AUDIO_BUFFER_SIZE])
        ensures
            b@ == self@.mic,
    {
        self.mic
    }

    pub fn set_buffer_rx(&mut self, buffer: [u16; AUDIO_BUFFER_SIZE])
        ensures
            final(self)@ == (MixerView { rx: buffer@, ..old(self)@ }),
    {
        self.rx = buffer;
    }

    pub fn set_buffer_generator(&mut self, buffer: [u16; AUDIO_BUFFER_SIZE])
        ensures
            final(self)@ == (MixerView { generator: buffer@, ..old(self)@ }),
    {
        self.generator = buffer;
    }

    pub fn set_buffer_mic(&mut self, buffer: [u16; AUDIO_BUFFER_SIZE])
        ensures
            final(self)@ == (MixerView { mic: buffer@, ..old(self)@ }),
    {
        self.mic = buffer;
    }

    /// Takes a buffer of USB audio; USB audio replaces the microphone until
    /// it stops arriving.
    pub fn set_buffer_usb_tx(&mut self, buffer: [u16; AUDIO_BUFFER_SIZE])
        ensures
            final(self)@ == (MixerView { usb_tx: buffer@, usb_tx_active: true, usb_tx_timeout: 0, ..old(self)@ }),
    {
        self.usb_tx = buffer;
        self.usb_tx_active = true;
        self.usb_tx_timeout = 0;
    }

    /// Sets the speaker volume from the volume control position: 0 to 1000
    /// maps onto a gain of 0 to 255 (a position below zero counts as zero).
    pub fn set_volume(&mut self, volume_raw: i16)
        ensures
            final(self)@ == (MixerView {
                volume_gain: ((if volume_raw < 0 { 0 } else { volume_raw as int }) * 255 / 1000) as u8,
                ..old(self)@
            }),
    {
        let raw: u32 = if volume_raw < 0 { 0 } else { volume_raw as u32 };
        self.volume_gain = ((raw * 255) / MAX_VOLUME_RAW as u32) as u8;
    }

    pub fn set_headphones_connected(&mut self, connected: bool)
        ensures
            final(self)@ == (MixerView { headphones_connected: connected, ..old(self)@ }),
    {
        self.headphones_connected = connected;
    }

    pub fn set_squelch_threshold(&mut self, threshold_dbm: i8)
        ensures
            final(self)@ == (MixerView { squelch_threshold_dbm: threshold_dbm, ..old(self)@ }),
    {
        self.squelch_threshold_dbm = threshold_dbm;
    }

    /// Opens the squelch when the signal reaches the threshold, closes it
    /// otherwise.
    pub fn update_squelch(&mut self, rssi_dbm: i8)
        ensures
            final(self)@ == (MixerView { squelch_open: rssi_dbm >= old(self)@.squelch_threshold_dbm, ..old(self)@ }),
    {
        self.squelch_open = rssi_dbm >= self.squelch_threshold_dbm;
    }

    /// Sets the compression level (0 is off).
    pub fn set_compression(&mut self, level: i16)
        ensures
            final(self)@ == (MixerView { compression_level: level, ..old(self)@ }),
    {
        self.compression_level = level;
    }

    /// How much the compressor reduced the last buffer, in 1/256.
    pub fn gain_reduction(&self) -> (g: u8)
        ensures
            g == self@.gain_reduction,
    {
        self.gain_reduction
    }

    /// The largest deviation from mid-scale in the microphone buffer.
    fn mic_peak(&self) -> (p: u32)
        ensures
            p == peak(self@.mic),
            p <= MID_SCALE,
    {
        let mut p: u32 = 0;
        let mut i: usize = 0;
        while i < AUDIO_BUFFER_SIZE
            invariant
                0 <= i <= AUDIO_BUFFER_SIZE,
                self@.mic.len() == AUDIO_BUFFER_SIZE,
                p == peak(self@.mic.take(i as int)),
                p <= MID_SCALE,
            decreases AUDIO_BUFFER_SIZE - i,
        {
            let sample = self.mic[i];
            let signed: i32 = sample as i32 - 32768;
            let abs: u32 = if signed < 0 { (-signed) as u32 } else { signed as u32 };
            assert(self@.mic.take(i + 1).drop_last() =~= self@.mic.take(i as int));
            assert(self@.mic.take(i + 1).last() == self@.mic[i as int]);
            if abs > p {
                p = abs;
            }
            i += 1;
        }
        assert(self@.mic.take(AUDIO_BUFFER_SIZE as int) =~= self@.mic);
        p
    }

    /// Compresses the microphone buffer: the envelope follows the buffer's
    /// peak, and above the level's threshold the excess is divided by the
    /// level's ratio. Level zero turns the compressor off.
    pub fn compress_mic(&mut self)
        requires
            mixer_wf(old(self)@),
            old(self)@.compression_level != 0 && next_envelope(old(self)@.envelope as int, peak(old(self)@.mic) * 256)
                >= NOISE_FLOOR * 256 ==> level_supported(old(self)@.compression_level),
        ensures
            mixer_wf(final(self)@),
            ({
                let o = old(self)@;
                let level = o.compression_level as int;
                let env = next_envelope(o.envelope as int, peak(o.mic) * 256);
                if level == 0 {
                    final(self)@ == (MixerView { gain_reduction: 0, ..o })
                } else if env < NOISE_FLOOR * 256 {
                    final(self)@ == (MixerView { envelope: env as u32, gain_reduction: 0, ..o })
                } else {
                    let gain = compressor_gain(env, level);
                    &&& final(self)@ == (MixerView {
                        envelope: env as u32,
                        gain_reduction: (if 256 - gain > 255 { 255 } else { 256 - gain }) as u8,
                        mic: final(self)@.mic,
                        ..o
                    })
                    &&& final(self)@.mic.len() == o.mic.len()
                    &&& forall|i: int| 0 <= i < o.mic.len() ==> #[trigger] final(self)@.mic[i] == compress_sample(o.mic[i], gain)
                }
            }),
    {
        if self.compression_level == 0 {
            self.gain_reduction = 0;
            return;
        }

        let peak = self.mic_peak();

        let peak_scaled = peak * 256;
        if peak_scaled > self.envelope {
            proof {
                let d = (peak_scaled - self.envelope) as int;
                assert(ATTACK_COEFF * d / 256 <= d) by (nonlinear_arith)
                    requires d >= 0;
            }
            self.envelope += ATTACK_COEFF * (peak_scaled - self.envelope) / 256;
        } else {
            proof {
                let d = (self.envelope - peak_scaled) as int;
                assert(RELEASE_COEFF * d / 256 <= d) by (nonlinear_arith)
                    requires d >= 0;
            }
            self.envelope -= RELEASE_COEFF * (self.envelope - peak_scaled) / 256;
        }

        if self.envelope < NOISE_FLOOR * 256 {
            self.gain_reduction = 0;
            return;
        }

        let level = self.compression_level as u32;
        proof {
            let l = level as int;
            assert(l * 15360 * 256 <= 1066 * 15360 * 256 + 15360 * 256) by (nonlinear_arith)
                requires l * 15360 * 256 / 1000 <= 16384 * 256, l >= 0;
            assert(l * 6 / 1000 <= 7) by (nonlinear_arith)
                requires l * 15360 * 256 / 1000 <= 16384 * 256, l >= 0;
        }
        let threshold = 16384 * 256 - (level * 15360 * 256 / 1000);
        let ratio = 2 + (level * 6 / 1000);

        let gain: u32;
        if self.envelope <= threshold {
            gain = 256;
            self.gain_reduction = 0;
        } else {
            let excess = self.envelope - threshold;
            let compressed_excess = excess / ratio;
            let output = threshold + compressed_excess;
            proof {
                let e = self.envelope as int;
                let o = output as int;
                assert(compressed_excess <= excess) by (nonlinear_arith)
                    requires compressed_excess == excess / ratio, ratio >= 2;
                assert(o * 256 <= e * 256) by (nonlinear_arith)
                    requires o <= e;
                assert(o * 256 / e <= 256) by (nonlinear_arith)
                    requires o <= e, e > 0, o >= 0;
            }
            gain = output * 256 / self.envelope;
            self.gain_reduction = if 256 - gain > 255 { 255 } else { (256 - gain) as u8 };
        }

        let ghost mic0 = self@.mic;
        let ghost pre = self@;
        let mut i: usize = 0;
        while i < AUDIO_BUFFER_SIZE
            invariant
                0 <= i <= AUDIO_BUFFER_SIZE,
                self@ == (MixerView { mic: self@.mic, ..pre }),
                mic0 == pre.mic,
                mic0.len() == AUDIO_BUFFER_SIZE,
                self@.mic.len() == AUDIO_BUFFER_SIZE,
                gain <= 256,
                forall|j: int| 0 <= j < i ==> #[trigger] self@.mic[j] == compress_sample(mic0[j], gain as int),
                forall|j: int| i <= j < AUDIO_BUFFER_SIZE ==> #[trigger] self@.mic[j] == mic0[j],
            decreases AUDIO_BUFFER_SIZE - i,
        {
            let signed: i32 = self.mic[i] as i32 - 32768;
            proof {
                let s = signed as int;
                let g = gain as int;
                assert(-32768 * 256 <= s * g <= 32767 * 256) by (nonlinear_arith)
                    requires -32768 <= s <= 32767, 0 <= g <= 256;
            }
            let compressed: i32 = signed * gain as i32 / 256;
            proof {
                let s = signed as int;
                let g = gain as int;
                assert(-32768 <= div_toward_zero(s * g, 256) <= 32767) by (nonlinear_arith)
                    requires -32768 <= s <= 32767, 0 <= g <= 256;
            }
            let out: i32 = compressed + 32768;
            let clamped: i32 = if out < 0 { 0 } else if out > 65535 { 65535 } else { out };
            self.mic[i] = clamped as u16;
            i += 1;
        }
    }

    /// Routes one buffer: receive audio (silenced while the squelch is
    /// closed) and the tone generator go to the headphones when they are
    /// connected, otherwise to the speakers at the set volume; the
    /// microphone, or USB audio while it keeps arriving, and the tone
    /// generator go to the transmitter.
    pub fn mix(&mut self)
        requires
            mixer_wf(old(self)@),
        ensures
            mixer_wf(final(self)@),
            ({
                let o = old(self)@;
                let (active, timeout) = usb_after_buffer(o.usb_tx_active, o.usb_tx_timeout);
                let m = MixerView { usb_tx_active: active, usb_tx_timeout: timeout, ..o };
                &&& final(self)@ == (MixerView {
                    out_headphones: final(self)@.out_headphones,
                    out_speakers: final(self)@.out_speakers,
                    out_tx: final(self)@.out_tx,
                    ..m
                })
                &&& final(self)@.out_headphones.len() == AUDIO_BUFFER_SIZE
                &&& final(self)@.out_speakers.len() == AUDIO_BUFFER_SIZE
                &&& final(self)@.out_tx.len() == AUDIO_BUFFER_SIZE
                &&& forall|i: int| 0 <= i < AUDIO_BUFFER_SIZE ==> (
                    #[trigger] final(self)@.out_headphones[i],
                    final(self)@.out_speakers[i],
                    final(self)@.out_tx[i],
                ) == mixed(o, active, i)
            }),
    {
        if self.usb_tx_active {
            self.usb_tx_timeout += 1;
            if self.usb_tx_timeout > USB_TX_TIMEOUT {
                self.usb_tx_active = false;
            }
        }

        let g = self.gains;
        let rx_gain: u8 = if self.squelch_open { 255 } else { 0 };
        let ghost m0 = self@;
        let mut i: usize = 0;
        while i < AUDIO_BUFFER_SIZE
            invariant
                0 <= i <= AUDIO_BUFFER_SIZE,
                g == m0.gains,
                rx_gain == (if m0.squelch_open { 255u8 } else { 0u8 }),
                self@ == (MixerView {
                    out_headphones: self@.out_headphones,
                    out_speakers: self@.out_speakers,
                    out_tx: self@.out_tx,
                    ..m0
                }),
                self@.out_headphones.len() == AUDIO_BUFFER_SIZE,
                self@.out_speakers.len() == AUDIO_BUFFER_SIZE,
                self@.out_tx.len() == AUDIO_BUFFER_SIZE,
                m0.rx.len() == AUDIO_BUFFER_SIZE,
                m0.generator.len() == AUDIO_BUFFER_SIZE,
                m0.mic.len() == AUDIO_BUFFER_SIZE,
                m0.usb_tx.len() == AUDIO_BUFFER_SIZE,
                forall|j: int| 0 <= j < i ==> (
                    #[trigger] self@.out_headphones[j],
                    self@.out_speakers[j],
                    self@.out_tx[j],
                ) == mixed(m0, m0.usb_tx_active, j),
            decreases AUDIO_BUFFER_SIZE - i,
        {
            let rx = scale_u8(self.rx[i], rx_gain);
            let gen = self.generator[i];
            let mic_or_usb = if self.usb_tx_active { self.usb_tx[i] } else { self.mic[i] };

            let hp = sat_add(scale_u8(rx, g.rx_to_hp), scale_u8(gen, g.gen_to_hp));
            let spk = scale_u8(sat_add(scale_u8(rx, g.rx_to_spk), scale_u8(gen, g.gen_to_spk)), self.volume_gain);
            let tx = sat_add(scale_u8(mic_or_usb, g.mic_to_tx), scale_u8(gen, g.gen_to_tx));

            self.out_headphones[i] = if self.headphones_connected { hp } else { 0 };
            self.out_speakers[i] = if !self.headphones_connected { spk } else { 0 };
            self.out_tx[i] = tx;
            i += 1;
        }
    }
}

/// A sample scaled by `gain` in 1/255.
pub fn scale_u8(sample: u16, gain: u8) -> (r: u16)
    ensures
        r == scaled(sample, gain),
        r <= sample,
{
    proof {
        let s = sample as int;
        let g = gain as int;
        assert(s * g <= 65535 * 255) by (nonlinear_arith)
            requires 0 <= s <= 65535, 0 <= g <= 255;
        assert(s * g / 255 <= s) by (nonlinear_arith)
            requires 0 <= s, 0 <= g <= 255;
    }
    let v = (sample as u32 * gain as u32) / 255;
    if v > 65535 { 65535 } else { v as u16 }
}

/// The sum of two samples, held at full scale.
pub fn sat_add(a: u16, b: u16) -> (r: u16)
    ensures
        r == sat_sum(a, b),
{
    let s: u32 = a as u32 + b as u32;
    if s > 65535 { 65535 } else { s as u16 }
}

/// At every supported level the compressor never raises a sample's distance
/// from mid-scale, and leaves samples untouched while the envelope stays at
/// or below the threshold.
pub proof fn lemma_compressor_never_amplifies(x: u16, env: int, level: int)
    requires
        0 <= level,
        level * 15360 * 256 / 1000 <= 16384 * 256,
    ensures
        0 <= compressor_gain(env, level) <= 256,
        deviation(compress_sample(x, compressor_gain(env, level))) <= deviation(x),
        env <= threshold(level) ==> compress_sample(x, compressor_gain(env, level)) == x,
{
    let t = threshold(level);
    let r = ratio(level);
    if env > t {
        let out = t + (env - t) / r;
        assert((env - t) / r <= env - t) by (nonlinear_arith)
            requires env - t > 0, r >= 2;
        assert(out * 256 / env <= 256) by (nonlinear_arith)
            requires 0 <= out <= env, env > 0;
        assert(0 <= out * 256 / env) by (nonlinear_arith)
            requires 0 <= out, env > 0;
    }
    let g = compressor_gain(env, level);
    let s = x - MID_SCALE;
    if s >= 0 {
        assert(s * g / 256 <= s) by (nonlinear_arith)
            requires s >= 0, 0 <= g <= 256;
        assert(s * g / 256 >= 0) by (nonlinear_arith)
            requires s >= 0, 0 <= g <= 256;
    } else {
        assert((-s) * g / 256 <= -s) by (nonlinear_arith)
            requires -s > 0, 0 <= g <= 256;
        assert((-s) * g / 256 >= 0) by (nonlinear_arith)
            requires -s > 0, 0 <= g <= 256;
        assert(-(s * g) == (-s) * g) by (nonlinear_arith);
    }
}

/// Headphones and speakers never sound at once: with headphones connected the
/// speakers are silent, and without them the headphone output is silent. A
/// closed squelch removes receive audio from both.
pub proof fn lemma_outputs_are_exclusive(m: MixerView, usb: bool, i: int)
    ensures
        m.headphones_connected ==> mixed(m, usb, i).1 == 0,
        !m.headphones_connected ==> mixed(m, usb, i).0 == 0,
        !m.squelch_open ==> mixed(m, usb, i).0 == (if m.headphones_connected {
            sat_sum(scaled(0, m.gains.rx_to_hp), scaled(m.generator[i], m.gains.gen_to_hp))
        } else {
            0
        }),
{
}

/// USB audio's (active, timeout count) after `n` more buffers with no new
/// USB audio.
pub open spec fn usb_after_buffers(active: bool, timeout: u16, n: nat) -> (bool, u16)
    decreases n,
{
    if n == 0 {
        (active, timeout)
    } else {
        let (a, t) = usb_after_buffers(active, timeout, (n - 1) as nat);
        usb_after_buffer(a, t)
    }
}

/// Once a USB buffer arrives, USB audio replaces the microphone for the next
/// fifty buffers and no longer: from the fifty-first buffer without new USB
/// audio on, the microphone is heard again.
pub proof fn lemma_usb_audio_expires(n: nat)
    ensures
        n <= 51 ==> usb_after_buffers(true, 0, n) == (n <= 50, n as u16),
        n >= 51 ==> usb_after_buffers(true, 0, n) == (false, 51u16),
    decreases n,
{
    if n > 0 {
        lemma_usb_audio_expires((n - 1) as nat);
    }
}

/// A sample at gain `g` in 1/255 is the exact quotient, never above the
/// sample, and the sample itself at full gain.
proof fn lemma_gain_product(x: u16, g: u8)
    ensures
        scaled(x, g) as int == x * g / 255,
        0 <= x * g / 255 <= x,
        g == 255 ==> scaled(x, g) == x,
        g == 0 ==> scaled(x, g) == 0,
{
    assert(0 <= x * g / 255 <= x) by (nonlinear_arith)
        requires 0 <= x <= 65535, 0 <= g <= 255;
}

/// Each transmit sample carries the microphone (or USB audio while it
/// arrives) and the tone generator, each at its route's gain in 1/255,
/// added and held at full scale: with both routes at full gain it is the
/// plain sum of the two (held at full scale), with a silent source and the
/// generator at full gain it is the generator, and with the generator
/// silent or its route shut it is the source at its gain. The listening
/// outputs play no part in it.
pub proof fn lemma_transmit_carries_source_and_generator(m: MixerView, usb: bool, i: int)
    ensures
        ({
            let src = if usb { m.usb_tx[i] } else { m.mic[i] };
            let gen = m.generator[i];
            let a = src * m.gains.mic_to_tx / 255;
            let b = gen * m.gains.gen_to_tx / 255;
            &&& mixed(m, usb, i).2 as int == (if a + b > 65535 { 65535 } else { a + b })
            &&& m.gains.mic_to_tx == 255 && m.gains.gen_to_tx == 255 ==> mixed(m, usb, i).2 as int == (if src + gen
                > 65535 {
                65535
            } else {
                src + gen
            })
            &&& src == 0 && m.gains.gen_to_tx == 255 ==> mixed(m, usb, i).2 == gen
            &&& (gen == 0 || m.gains.gen_to_tx == 0) ==> mixed(m, usb, i).2 as int == a
            &&& mixed(m, usb, i).2 as int >= a && mixed(m, usb, i).2 as int >= b
        }),
{
    let src = if usb { m.usb_tx[i] } else { m.mic[i] };
    lemma_gain_product(src, m.gains.mic_to_tx);
    lemma_gain_product(m.generator[i], m.gains.gen_to_tx);
    lemma_gain_product(0, m.gains.gen_to_tx);
}

/// Receive audio (silenced while the squelch is closed) and the tone
/// generator go, each at its route's gain and added, to the headphones
/// while they are connected and otherwise, at the set volume, to the
/// speakers; the output not in use is silent, and neither depends on the
/// microphone or USB audio.
pub proof fn lemma_listening_outputs(m: MixerView, usb: bool, i: int)
    ensures
        ({
            let rx = if m.squelch_open { m.rx[i] } else { 0u16 };
            let gen = m.generator[i];
            let hp = rx * m.gains.rx_to_hp / 255 + gen * m.gains.gen_to_hp / 255;
            let spk = rx * m.gains.rx_to_spk / 255 + gen * m.gains.gen_to_spk / 255;
            let spk_held = if spk > 65535 { 65535 } else { spk };
            &&& m.headphones_connected ==> mixed(m, usb, i).0 as int == (if hp > 65535 { 65535 } else { hp })
                && mixed(m, usb, i).1 == 0
            &&& !m.headphones_connected ==> mixed(m, usb, i).0 == 0 && mixed(m, usb, i).1 as int == spk_held
                * m.volume_gain / 255
            &&& mixed(m, usb, i).0 == mixed(m, !usb, i).0
            &&& mixed(m, usb, i).1 == mixed(m, !usb, i).1
        }),
{
    let r = m.rx[i];
    let rx = scaled(r, if m.squelch_open { 255 } else { 0 });
    lemma_gain_product(r, 255);
    lemma_gain_product(r, 0);
    let gen = m.generator[i];
    lemma_gain_product(rx, m.gains.rx_to_hp);
    lemma_gain_product(gen, m.gains.gen_to_hp);
    lemma_gain_product(rx, m.gains.rx_to_spk);
    lemma_gain_product(gen, m.gains.gen_to_spk);
    lemma_gain_product(sat_sum(scaled(rx, m.gains.rx_to_spk), scaled(gen, m.gains.gen_to_spk)), m.volume_gain);
}

} // verus!
