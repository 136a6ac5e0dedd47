//! CW keyer: a straight key and an iambic (mode A / mode B) paddle keyer,
//! advanced once per millisecond tick.

use vstd::prelude::*;

use crate::keyer_laws::{counters_within, keyer_settled, lemma_tick_keeps_counters_within, lemma_tick_keeps_keyer_settled};
use crate::types::CwKeyMode;

verus! {

/// Phase of the keyer's state machine.
#[derive(PartialEq, Eq, Structural, Clone, Copy, Debug)]
pub enum KeyerState {
    Idle,
    Dit,
    DitPause,
    Dah,
    DahPause,
    Hanging,
}

/// What one tick changed: the key line and the transmitter request.
pub struct KeyerOutput {
    pub key_changed: Option<bool>,
    pub tx_changed: Option<bool>,
}

pub struct CwKeyer {
    state: KeyerState,
    tick_counter: u16,
    dit_memory: bool,
    dah_memory: bool,
    key_active: bool,
    tx_active: bool,
    hang_counter: u16,
    mode: CwKeyMode,
    dit_ticks: u16,
    dah_ticks: u16,
    weight_pct: u8,
    hang_ticks: u16,
    straight_prev: bool,
}

/// The keyer's complete state as plain values.
pub struct KeyerView {
    pub state: KeyerState,
    pub tick_counter: u16,
    pub dit_memory: bool,
    pub dah_memory: bool,
    pub key_active: bool,
    pub tx_active: bool,
    pub hang_counter: u16,
    pub mode: CwKeyMode,
    pub dit_ticks: u16,
    pub dah_ticks: u16,
    pub weight_pct: u8,
    pub hang_ticks: u16,
    pub straight_prev: bool,
}

impl View for CwKeyer {
    type V = KeyerView;

    closed spec fn view(&self) -> KeyerView {
        KeyerView {
            state: self.state,
            tick_counter: self.tick_counter,
            dit_memory: self.dit_memory,
            dah_memory: self.dah_memory,
            key_active: self.key_active,
            tx_active: self.tx_active,
            hang_counter: self.hang_counter,
            mode: self.mode,
            dit_ticks: self.dit_ticks,
            dah_ticks: self.dah_ticks,
            weight_pct: self.weight_pct,
            hang_ticks: self.hang_ticks,
            straight_prev: self.straight_prev,
        }
    }
}

/// Key-down length of a dit, in ticks, as the weight stretches it.
pub open spec fn on_ticks_dit(s: KeyerView) -> int {
    s.dit_ticks * s.weight_pct / 50
}

/// Key-down length of a dah, in ticks.
pub open spec fn on_ticks_dah(s: KeyerView) -> int {
    s.dah_ticks * s.weight_pct / 50
}

/// Key-up gap after an element, in ticks.
pub open spec fn off_ticks(s: KeyerView) -> int {
    s.dit_ticks * (100 - s.weight_pct) / 50
}

/// The dit length can be computed in 16 bits.
pub open spec fn dit_fits(s: KeyerView) -> bool {
    s.dit_ticks * s.weight_pct <= u16::MAX
}

/// The dah length can be computed in 16 bits.
pub open spec fn dah_fits(s: KeyerView) -> bool {
    s.dah_ticks * s.weight_pct <= u16::MAX
}

/// The inter-element gap can be computed in 16 bits.
pub open spec fn off_fits(s: KeyerView) -> bool {
    s.weight_pct <= 100 && s.dit_ticks * (100 - s.weight_pct) <= u16::MAX
}

pub open spec fn enter_dit_spec(s: KeyerView) -> (KeyerView, Option<bool>, Option<bool>) {
    (
        KeyerView {
            state: KeyerState::Dit,
            tick_counter: on_ticks_dit(s) as u16,
            key_active: true,
            tx_active: true,
            ..s
        },
        Some(true),
        if !s.tx_active { Some(true) } else { None },
    )
}

pub open spec fn enter_dah_spec(s: KeyerView) -> (KeyerView, Option<bool>, Option<bool>) {
    (
        KeyerView {
            state: KeyerState::Dah,
            tick_counter: on_ticks_dah(s) as u16,
            key_active: true,
            tx_active: true,
            ..s
        },
        Some(true),
        if !s.tx_active { Some(true) } else { None },
    )
}

pub open spec fn continue_dit_spec(s: KeyerView) -> KeyerView {
    KeyerView { state: KeyerState::Dit, tick_counter: on_ticks_dit(s) as u16, key_active: true, ..s }
}

pub open spec fn continue_dah_spec(s: KeyerView) -> KeyerView {
    KeyerView { state: KeyerState::Dah, tick_counter: on_ticks_dah(s) as u16, key_active: true, ..s }
}

/// One tick of the straight key: the dit input is the key.
pub open spec fn straight_step(s: KeyerView, down: bool) -> (KeyerView, Option<bool>, Option<bool>) {
    let (t, k, x) = match s.state {
        KeyerState::Idle => if down && !s.straight_prev {
            (
                KeyerView { state: KeyerState::Dit, key_active: true, tx_active: true, ..s },
                Some(true),
                Some(true),
            )
        } else {
            (s, None, None)
        },
        KeyerState::Dit => if !down {
            (
                KeyerView {
                    state: KeyerState::Hanging,
                    hang_counter: s.hang_ticks,
                    key_active: false,
                    ..s
                },
                Some(false),
                None,
            )
        } else {
            (s, None, None)
        },
        KeyerState::Hanging => if down {
            (KeyerView { state: KeyerState::Dit, key_active: true, ..s }, Some(true), None)
        } else if s.hang_counter == 0 {
            (KeyerView { state: KeyerState::Idle, tx_active: false, ..s }, None, Some(false))
        } else {
            (KeyerView { hang_counter: (s.hang_counter - 1) as u16, ..s }, None, None)
        },
        _ => (
            KeyerView { state: KeyerState::Idle, key_active: false, tx_active: false, ..s },
            None,
            None,
        ),
    };
    (KeyerView { straight_prev: down, ..t }, k, x)
}

/// What ends a dit's gap: the element to send next, if any.
/// `Some(true)` is a dit, `Some(false)` a dah.
pub open spec fn after_dit_gap(s: KeyerView, dit: bool, dah: bool) -> Option<bool> {
    if s.dah_memory {
        Some(false)
    } else if dit {
        Some(true)
    } else if dah {
        Some(false)
    } else {
        None
    }
}

/// What ends a dah's gap: the element to send next, if any.
pub open spec fn after_dah_gap(s: KeyerView, dit: bool, dah: bool) -> Option<bool> {
    if s.dit_memory {
        Some(true)
    } else if dah {
        Some(false)
    } else if dit {
        Some(true)
    } else {
        None
    }
}

/// The state once a dit's gap has run out (`m` holds the latched memories).
pub open spec fn end_of_dit_gap(m: KeyerView, dit: bool, dah: bool) -> (KeyerView, Option<bool>) {
    if m.dah_memory {
        (continue_dah_spec(KeyerView { dit_memory: false, dah_memory: false, ..m }), Some(true))
    } else if dit {
        (continue_dit_spec(KeyerView { dit_memory: false, ..m }), Some(true))
    } else if dah {
        (continue_dah_spec(KeyerView { dah_memory: false, ..m }), Some(true))
    } else {
        (KeyerView { state: KeyerState::Hanging, hang_counter: m.hang_ticks, ..m }, None)
    }
}

/// The state once a dah's gap has run out (`m` holds the latched memories).
pub open spec fn end_of_dah_gap(m: KeyerView, dit: bool, dah: bool) -> (KeyerView, Option<bool>) {
    if m.dit_memory {
        (continue_dit_spec(KeyerView { dit_memory: false, dah_memory: false, ..m }), Some(true))
    } else if dah {
        (continue_dah_spec(KeyerView { dah_memory: false, ..m }), Some(true))
    } else if dit {
        (continue_dit_spec(KeyerView { dit_memory: false, ..m }), Some(true))
    } else {
        (KeyerView { state: KeyerState::Hanging, hang_counter: m.hang_ticks, ..m }, None)
    }
}

/// The memories after a gap's tick: mode B latches both paddles.
pub open spec fn latch_in_gap(s: KeyerView, dit: bool, dah: bool) -> KeyerView {
    if s.mode == CwKeyMode::IambicB {
        KeyerView { dit_memory: s.dit_memory || dit, dah_memory: s.dah_memory || dah, ..s }
    } else {
        s
    }
}

/// One tick of the iambic keyer.
pub open spec fn iambic_step(s: KeyerView, dit: bool, dah: bool) -> (KeyerView, Option<bool>, Option<bool>) {
    match s.state {
        KeyerState::Idle => {
            let (t, k, x) = if dit {
                enter_dit_spec(s)
            } else if dah {
                enter_dah_spec(s)
            } else {
                (s, None, None)
            };
            (KeyerView { dit_memory: false, dah_memory: false, ..t }, k, x)
        },
        KeyerState::Dit => {
            let m = KeyerView {
                dah_memory: s.dah_memory || dah,
                tick_counter: (s.tick_counter - 1) as u16,
                ..s
            };
            if m.tick_counter == 0 {
                (
                    KeyerView {
                        state: KeyerState::DitPause,
                        tick_counter: off_ticks(m) as u16,
                        key_active: false,
                        ..m
                    },
                    Some(false),
                    None,
                )
            } else {
                (m, None, None)
            }
        },
        KeyerState::Dah => {
            let m = KeyerView {
                dit_memory: s.dit_memory || dit,
                tick_counter: (s.tick_counter - 1) as u16,
                ..s
            };
            if m.tick_counter == 0 {
                (
                    KeyerView {
                        state: KeyerState::DahPause,
                        tick_counter: off_ticks(m) as u16,
                        key_active: false,
                        ..m
                    },
                    Some(false),
                    None,
                )
            } else {
                (m, None, None)
            }
        },
        KeyerState::DitPause => {
            let l = latch_in_gap(s, dit, dah);
            let m = KeyerView { tick_counter: (s.tick_counter - 1) as u16, ..l };
            if m.tick_counter == 0 {
                let (t, k) = end_of_dit_gap(m, dit, dah);
                (t, k, None)
            } else {
                (m, None, None)
            }
        },
        KeyerState::DahPause => {
            let l = latch_in_gap(s, dit, dah);
            let m = KeyerView { tick_counter: (s.tick_counter - 1) as u16, ..l };
            if m.tick_counter == 0 {
                let (t, k) = end_of_dah_gap(m, dit, dah);
                (t, k, None)
            } else {
                (m, None, None)
            }
        },
        KeyerState::Hanging => if dit {
            (continue_dit_spec(s), Some(true), None)
        } else if dah {
            (continue_dah_spec(s), Some(true), None)
        } else if s.hang_counter == 0 {
            (KeyerView { state: KeyerState::Idle, tx_active: false, ..s }, None, Some(false))
        } else {
            (KeyerView { hang_counter: (s.hang_counter - 1) as u16, ..s }, None, None)
        },
    }
}

/// One tick of the keyer in its current mode.
pub open spec fn step(s: KeyerView, dit: bool, dah: bool) -> (KeyerView, Option<bool>, Option<bool>) {
    if s.mode == CwKeyMode::Straight {
        straight_step(s, dit)
    } else {
        iambic_step(s, dit, dah)
    }
}

/// Whether the element that `next` selects can be timed in 16 bits.
pub open spec fn next_fits(s: KeyerView, next: Option<bool>) -> bool {
    match next {
        Some(true) => dit_fits(s),
        Some(false) => dah_fits(s),
        None => true,
    }
}

/// The inputs on which a tick is defined: no counter runs below zero and
/// every element length that the tick computes fits in 16 bits.
pub open spec fn tick_defined(s: KeyerView, dit: bool, dah: bool) -> bool {
    if s.mode == CwKeyMode::Straight {
        true
    } else {
        match s.state {
            KeyerState::Idle | KeyerState::Hanging => (dit ==> dit_fits(s)) && (!dit && dah ==> dah_fits(s)),
            KeyerState::Dit | KeyerState::Dah => s.tick_counter >= 1 && (s.tick_counter == 1 ==> off_fits(s)),
            KeyerState::DitPause => s.tick_counter >= 1 && (s.tick_counter == 1 ==> next_fits(
                s,
                after_dit_gap(latch_in_gap(s, dit, dah), dit, dah),
            )),
            KeyerState::DahPause => s.tick_counter >= 1 && (s.tick_counter == 1 ==> next_fits(
                s,
                after_dah_gap(latch_in_gap(s, dit, dah), dit, dah),
            )),
        }
    }
}

/// Timing settings under which every element and gap is at least one tick
/// long and fits in 16 bits.
pub open spec fn timing_valid(s: KeyerView) -> bool {
    &&& dit_fits(s)
    &&& dah_fits(s)
    &&& off_fits(s)
    &&& on_ticks_dit(s) >= 1
    &&& on_ticks_dah(s) >= 1
    &&& off_ticks(s) >= 1
}

/// The element and gap phases of the iambic keyer hold a running counter.
pub open spec fn counters_valid(s: KeyerView) -> bool {
    s.mode != CwKeyMode::Straight ==> match s.state {
        KeyerState::Dit | KeyerState::Dah | KeyerState::DitPause | KeyerState::DahPause => s.tick_counter >= 1,
        _ => true,
    }
}

/// The key line is down exactly in the element phases, and the transmitter
/// is requested exactly outside the idle phase.
pub open spec fn lines_consistent(s: KeyerView) -> bool {
    &&& s.key_active <==> (s.state == KeyerState::Dit || s.state == KeyerState::Dah)
    &&& s.tx_active <==> s.state != KeyerState::Idle
}

/// In every reachable state the key is down exactly while an element is
/// sent and the transmitter is requested exactly while the keyer is not idle;
/// in particular the key is never down without a transmit request.
pub proof fn lemma_tick_keeps_lines_consistent(s: KeyerView, dit: bool, dah: bool)
    requires
        lines_consistent(s),
        tick_defined(s, dit, dah),
    ensures
        lines_consistent(step(s, dit, dah).0),
        step(s, dit, dah).0.key_active ==> step(s, dit, dah).0.tx_active,
{
}

/// A tick reports a change of the key line, or of the transmit request,
/// exactly when that line changes, and reports its new level. The one
/// exception is a keyer switched to the straight key in the middle of an
/// iambic element or gap: it falls back to idle without a report.
pub proof fn lemma_tick_reports_changes(s: KeyerView, dit: bool, dah: bool)
    requires
        lines_consistent(s),
        tick_defined(s, dit, dah),
        !(s.mode == CwKeyMode::Straight && (s.state == KeyerState::DitPause || s.state == KeyerState::Dah
            || s.state == KeyerState::DahPause)),
    ensures
        ({
            let (t, key, tx) = step(s, dit, dah);
            &&& (key is None <==> t.key_active == s.key_active)
            &&& (key matches Some(k) ==> k == t.key_active)
            &&& (tx is None <==> t.tx_active == s.tx_active)
            &&& (tx matches Some(x) ==> x == t.tx_active)
        }),
{
}

/// With valid timing settings, an iambic keyer whose element and gap counters
/// are running can always take its next tick, and its counters keep running.
pub proof fn lemma_valid_timing_keeps_ticks_defined(s: KeyerView, dit: bool, dah: bool)
    requires
        timing_valid(s),
        counters_valid(s),
    ensures
        tick_defined(s, dit, dah),
        counters_valid(step(s, dit, dah).0),
        timing_valid(step(s, dit, dah).0),
{
}

/// The keyer after the ticks of `inputs`, each a (dit, dah) pair, in order.
pub open spec fn run(s: KeyerView, inputs: Seq<(bool, bool)>) -> KeyerView
    decreases inputs.len(),
{
    if inputs.len() == 0 {
        s
    } else {
        run(step(s, inputs[0].0, inputs[0].1).0, inputs.drop_first())
    }
}

/// An iambic element keeps the key down for exactly its counter's number of
/// ticks, whatever the paddles do meanwhile, and then releases it into the
/// gap that follows the element.
pub proof fn lemma_element_length_is_exact(s: KeyerView, inputs: Seq<(bool, bool)>)
    requires
        s.mode != CwKeyMode::Straight,
        s.state == KeyerState::Dit || s.state == KeyerState::Dah,
        s.key_active,
        off_fits(s),
        1 <= inputs.len() <= s.tick_counter,
    ensures
        inputs.len() < s.tick_counter ==> {
            &&& run(s, inputs).state == s.state
            &&& run(s, inputs).key_active
            &&& run(s, inputs).tick_counter == s.tick_counter - inputs.len()
        },
        inputs.len() == s.tick_counter ==> {
            &&& run(s, inputs).state == (if s.state == KeyerState::Dit {
                KeyerState::DitPause
            } else {
                KeyerState::DahPause
            })
            &&& !run(s, inputs).key_active
            &&& run(s, inputs).tick_counter == off_ticks(s)
        },
    decreases inputs.len(),
{
    let t = step(s, inputs[0].0, inputs[0].1).0;
    assert(run(s, inputs) == run(t, inputs.drop_first()));
    if inputs.len() > 1 {
        lemma_element_length_is_exact(t, inputs.drop_first());
    } else {
        assert(inputs.drop_first().len() == 0);
        assert(run(t, inputs.drop_first()) == t);
    }
}

/// A keyer at rest in mode B at 20 WPM, 50% weight and a 500-tick hang time.
pub open spec fn initial_keyer() -> KeyerView {
    KeyerView {
        state: KeyerState::Idle,
        tick_counter: 0,
        dit_memory: false,
        dah_memory: false,
        key_active: false,
        tx_active: false,
        hang_counter: 0,
        mode: CwKeyMode::IambicB,
        dit_ticks: 60,
        dah_ticks: 180,
        weight_pct: 50,
        hang_ticks: 500,
        straight_prev: false,
    }
}

impl CwKeyer {
    /// A keyer in mode B at 20 WPM, 50% weight and a 500-tick hang time.
    pub fn new() -> (k: Self)
        ensures
            k@ == initial_keyer(),
            keyer_settled(k@),
            counters_valid(k@),
            counters_within(k@),
            timing_valid(k@),
    {
        assert(keyer_settled(initial_keyer()) && counters_valid(initial_keyer()) && timing_valid(initial_keyer()));
        let dit_ticks: u16 = 1200 / 20;
        CwKeyer {
            state: KeyerState::Idle,
            tick_counter: 0,
            dit_memory: false,
            dah_memory: false,
            key_active: false,
            tx_active: false,
            hang_counter: 0,
            mode: CwKeyMode::IambicB,
            dit_ticks,
            dah_ticks: dit_ticks * 3,
            weight_pct: 50,
            hang_ticks: 500,
            straight_prev: false,
        }
    }

    /// Sets the mode; changed while the keyer is idle, it stays settled and
    /// its counters stay running.
    pub fn set_mode(&mut self, mode: CwKeyMode)
        ensures
            final(self)@ == (KeyerView { mode, ..old(self)@ }),
            old(self)@.state == KeyerState::Idle ==> (keyer_settled(old(self)@) ==> keyer_settled(final(self)@)) && (
            counters_valid(old(self)@) ==> counters_valid(final(self)@)) && counters_within(final(self)@),
    {
        self.mode = mode;
    }

    /// Sets the speed: a dit lasts 1200 / `wpm` ticks, a dah three dits.
    pub fn set_wpm(&mut self, wpm: u8)
        requires
            wpm > 0,
        ensures
            final(self)@ == (KeyerView {
                dit_ticks: (1200int / (wpm as int)) as u16,
                dah_ticks: (3 * (1200int / (wpm as int))) as u16,
                ..old(self)@
            }),
            keyer_settled(old(self)@) ==> keyer_settled(final(self)@),
            counters_valid(old(self)@) ==> counters_valid(final(self)@),
            old(self)@.state == KeyerState::Idle ==> counters_within(final(self)@),
    {
        self.dit_ticks = 1200 / wpm as u16;
        self.dah_ticks = self.dit_ticks * 3;
    }

    pub fn set_weight(&mut self, weight: u8)
        ensures
            final(self)@ == (KeyerView { weight_pct: weight, ..old(self)@ }),
            keyer_settled(old(self)@) ==> keyer_settled(final(self)@),
            counters_valid(old(self)@) ==> counters_valid(final(self)@),
            old(self)@.state == KeyerState::Idle ==> counters_within(final(self)@),
    {
        self.weight_pct = weight;
    }

    pub fn set_hang_ticks(&mut self, ticks: u16)
        ensures
            final(self)@ == (KeyerView { hang_ticks: ticks, ..old(self)@ }),
            keyer_settled(old(self)@) ==> keyer_settled(final(self)@),
            counters_valid(old(self)@) ==> counters_valid(final(self)@),
            old(self)@.state == KeyerState::Idle ==> counters_within(final(self)@),
    {
        self.hang_ticks = ticks;
    }

    fn on_ticks_dit(&self) -> (t: u16)
        requires
            dit_fits(self@),
        ensures
            t == on_ticks_dit(self@),
    {
        self.dit_ticks * self.weight_pct as u16 / 50
    }

    fn on_ticks_dah(&self) -> (t: u16)
        requires
            dah_fits(self@),
        ensures
            t == on_ticks_dah(self@),
    {
        self.dah_ticks * self.weight_pct as u16 / 50
    }

    fn off_ticks(&self) -> (t: u16)
        requires
            off_fits(self@),
        ensures
            t == off_ticks(self@),
    {
        self.dit_ticks * (100 - self.weight_pct) as u16 / 50
    }

    /// Whether `tick` is defined on these paddle inputs.
    pub fn tick_is_defined(&self, dit_pressed: bool, dah_pressed: bool) -> (b: bool)
        ensures
            b == tick_defined(self@, dit_pressed, dah_pressed),
    {
        if self.mode == CwKeyMode::Straight {
            return true;
        }
        proof {
            let d = self.dit_ticks;
            let h = self.dah_ticks;
            let w = self.weight_pct;
            assert(d * w <= 65535 * 255) by (nonlinear_arith)
                requires d <= 65535, w <= 255;
            assert(h * w <= 65535 * 255) by (nonlinear_arith)
                requires h <= 65535, w <= 255;
            if w <= 100 {
                assert(d * (100 - w) <= 65535 * 100) by (nonlinear_arith)
                    requires d <= 65535, 0 <= 100 - w <= 100;
            }
        }
        let dit_ok = (self.dit_ticks as u32) * (self.weight_pct as u32) <= 65535;
        let dah_ok = (self.dah_ticks as u32) * (self.weight_pct as u32) <= 65535;
        let off_ok = self.weight_pct <= 100 && (self.dit_ticks as u32) * ((100 - self.weight_pct) as u32) <= 65535;
        let is_b = self.mode == CwKeyMode::IambicB;
        match self.state {
            KeyerState::Idle | KeyerState::Hanging => {
                (!dit_pressed || dit_ok) && (dit_pressed || !dah_pressed || dah_ok)
            },
            KeyerState::Dit | KeyerState::Dah => {
                self.tick_counter >= 1 && (self.tick_counter != 1 || off_ok)
            },
            KeyerState::DitPause => {
                let dah_mem = self.dah_memory || (is_b && dah_pressed);
                let next_ok = if dah_mem {
                    dah_ok
                } else if dit_pressed {
                    dit_ok
                } else if dah_pressed {
                    dah_ok
                } else {
                    true
                };
                self.tick_counter >= 1 && (self.tick_counter != 1 || next_ok)
            },
            KeyerState::DahPause => {
                let dit_mem = self.dit_memory || (is_b && dit_pressed);
                let next_ok = if dit_mem {
                    dit_ok
                } else if dah_pressed {
                    dah_ok
                } else if dit_pressed {
                    dit_ok
                } else {
                    true
                };
                self.tick_counter >= 1 && (self.tick_counter != 1 || next_ok)
            },
        }
    }

    /// Advances the keyer by one tick with the current paddle inputs. A
    /// settled keyer stays settled; running counters and valid timing stay
    /// so; the straight key ignores the dah paddle.
    pub fn tick(&mut self, dit_pressed: bool, dah_pressed: bool) -> (out: KeyerOutput)
        requires
            tick_defined(old(self)@, dit_pressed, dah_pressed),
        ensures
            step(old(self)@, dit_pressed, dah_pressed) == (final(self)@, out.key_changed, out.tx_changed),
            keyer_settled(old(self)@) ==> keyer_settled(final(self)@),
            counters_valid(old(self)@) && timing_valid(old(self)@) ==> counters_valid(final(self)@) && timing_valid(
                final(self)@,
            ),
            old(self)@.mode == CwKeyMode::Straight ==> step(old(self)@, dit_pressed, dah_pressed) == step(
                old(self)@,
                dit_pressed,
                false,
            ),
            old(self)@.mode != CwKeyMode::Straight && counters_valid(old(self)@) && counters_within(old(self)@)
                && timing_valid(old(self)@) ==> counters_within(final(self)@),
    {
        proof {
            if self.mode != CwKeyMode::Straight && counters_valid(self@) && counters_within(self@) && timing_valid(
                self@,
            ) {
                lemma_tick_keeps_counters_within(self@, dit_pressed, dah_pressed);
            }
            if keyer_settled(self@) {
                lemma_tick_keeps_keyer_settled(self@, dit_pressed, dah_pressed);
            }
            if counters_valid(self@) && timing_valid(self@) {
                lemma_valid_timing_keeps_ticks_defined(self@, dit_pressed, dah_pressed);
            }
        }
        if self.mode == CwKeyMode::Straight {
            return self.tick_straight(dit_pressed);
        }
        self.tick_iambic(dit_pressed, dah_pressed)
    }

    fn tick_straight(&mut self, dit_pressed: bool) -> (out: KeyerOutput)
        ensures
            straight_step(old(self)@, dit_pressed) == (final(self)@, out.key_changed, out.tx_changed),
    {
        let mut key_changed = None;
        let mut tx_changed = None;

        match self.state {
            KeyerState::Idle => {
                if dit_pressed && !self.straight_prev {
                    self.state = KeyerState::Dit;
                    self.key_active = true;
                    self.tx_active = true;
                    key_changed = Some(true);
                    tx_changed = Some(true);
                }
            },
            KeyerState::Dit => {
                if !dit_pressed {
                    self.state = KeyerState::Hanging;
                    self.hang_counter = self.hang_ticks;
                    self.key_active = false;
                    key_changed = Some(false);
                }
            },
            KeyerState::Hanging => {
                if dit_pressed {
                    self.state = KeyerState::Dit;
                    self.key_active = true;
                    key_changed = Some(true);
                } else if self.hang_counter == 0 {
                    self.state = KeyerState::Idle;
                    self.tx_active = false;
                    tx_changed = Some(false);
                } else {
                    self.hang_counter -= 1;
                }
            },
            _ => {
                self.state = KeyerState::Idle;
                self.key_active = false;
                self.tx_active = false;
            },
        }

        self.straight_prev = dit_pressed;
        KeyerOutput { key_changed, tx_changed }
    }

    #[verifier::spinoff_prover]
    #[verifier::rlimit(40)]
    fn tick_iambic(&mut self, dit_pressed: bool, dah_pressed: bool) -> (out: KeyerOutput)
        requires
            old(self).mode != CwKeyMode::Straight,
            tick_defined(old(self)@, dit_pressed, dah_pressed),
        ensures
            iambic_step(old(self)@, dit_pressed, dah_pressed) == (final(self)@, out.key_changed, out.tx_changed),
    {
        let mut key_changed = None;
        let mut tx_changed = None;
        let is_b = self.mode == CwKeyMode::IambicB;

        match self.state {
            KeyerState::Idle => {
                if dit_pressed {
                    self.enter_dit(&mut key_changed, &mut tx_changed);
                } else if dah_pressed {
                    self.enter_dah(&mut key_changed, &mut tx_changed);
                }
                self.dit_memory = false;
                self.dah_memory = false;
            },
            KeyerState::Dit => {
                if dah_pressed {
                    self.dah_memory = true;
                }
                self.tick_counter -= 1;
                if self.tick_counter == 0 {
                    self.state = KeyerState::DitPause;
                    self.tick_counter = self.off_ticks();
                    self.key_active = false;
                    key_changed = Some(false);
                }
            },
            KeyerState::DitPause => {
                if is_b {
                    if dit_pressed {
                        self.dit_memory = true;
                    }
                    if dah_pressed {
                        self.dah_memory = true;
                    }
                }
                self.tick_counter -= 1;
                if self.tick_counter == 0 {
                    if self.dah_memory {
                        self.dah_memory = false;
                        self.dit_memory = false;
                        self.enter_dah_continue(&mut key_changed);
                    } else if dit_pressed {
                        self.dit_memory = false;
                        self.enter_dit_continue(&mut key_changed);
                    } else if dah_pressed {
                        self.dah_memory = false;
                        self.enter_dah_continue(&mut key_changed);
                    } else {
                        self.state = KeyerState::Hanging;
                        self.hang_counter = self.hang_ticks;
                    }
                }
            },
            KeyerState::Dah => {
                if dit_pressed {
                    self.dit_memory = true;
                }
                self.tick_counter -= 1;
                if self.tick_counter == 0 {
                    self.state = KeyerState::DahPause;
                    self.tick_counter = self.off_ticks();
                    self.key_active = false;
                    key_changed = Some(false);
                }
            },
            KeyerState::DahPause => {
                if is_b {
                    if dit_pressed {
                        self.dit_memory = true;
                    }
                    if dah_pressed {
                        self.dah_memory = true;
                    }
                }
                self.tick_counter -= 1;
                if self.tick_counter == 0 {
                    if self.dit_memory {
                        self.dit_memory = false;
                        self.dah_memory = false;
                        self.enter_dit_continue(&mut key_changed);
                    } else if dah_pressed {
                        self.dah_memory = false;
                        self.enter_dah_continue(&mut key_changed);
                    } else if dit_pressed {
                        self.dit_memory = false;
                        self.enter_dit_continue(&mut key_changed);
                    } else {
                        self.state = KeyerState::Hanging;
                        self.hang_counter = self.hang_ticks;
                    }
                }
            },
            KeyerState::Hanging => {
                if dit_pressed {
                    self.enter_dit_continue(&mut key_changed);
                } else if dah_pressed {
                    self.enter_dah_continue(&mut key_changed);
                } else if self.hang_counter == 0 {
                    self.state = KeyerState::Idle;
                    self.tx_active = false;
                    tx_changed = Some(false);
                } else {
                    self.hang_counter -= 1;
                }
            },
        }

        KeyerOutput { key_changed, tx_changed }
    }

    fn enter_dit(&mut self, key_changed: &mut Option<bool>, tx_changed: &mut Option<bool>)
        requires
            dit_fits(old(self)@),
            *old(tx_changed) == None::<bool>,
        ensures
            enter_dit_spec(old(self)@) == (final(self)@, *final(key_changed), *final(tx_changed)),
    {
        self.state = KeyerState::Dit;
        self.tick_counter = self.on_ticks_dit();
        self.key_active = true;
        *key_changed = Some(true);
        if !self.tx_active {
            self.tx_active = true;
            *tx_changed = Some(true);
        }
    }

    fn enter_dah(&mut self, key_changed: &mut Option<bool>, tx_changed: &mut Option<bool>)
        requires
            dah_fits(old(self)@),
            *old(tx_changed) == None::<bool>,
        ensures
            enter_dah_spec(old(self)@) == (final(self)@, *final(key_changed), *final(tx_changed)),
    {
        self.state = KeyerState::Dah;
        self.tick_counter = self.on_ticks_dah();
        self.key_active = true;
        *key_changed = Some(true);
        if !self.tx_active {
            self.tx_active = true;
            *tx_changed = Some(true);
        }
    }

    fn enter_dit_continue(&mut self, key_changed: &mut Option<bool>)
        requires
            dit_fits(old(self)@),
        ensures
            final(self)@ == continue_dit_spec(old(self)@),
            *final(key_changed) == Some(true),
    {
        self.state = KeyerState::Dit;
        self.tick_counter = self.on_ticks_dit();
        self.key_active = true;
        *key_changed = Some(true);
    }

    fn enter_dah_continue(&mut self, key_changed: &mut Option<bool>)
        requires
            dah_fits(old(self)@),
        ensures
            final(self)@ == continue_dah_spec(old(self)@),
            *final(key_changed) == Some(true),
    {
        self.state = KeyerState::Dah;
        self.tick_counter = self.on_ticks_dah();
        self.key_active = true;
        *key_changed = Some(true);
    }
}

} // verus!
