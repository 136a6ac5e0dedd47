//! Properties of the CW keyer over whole runs of ticks: that its key and
//! transmit reports alternate, that a well-used keyer never stalls, what the
//! straight key ignores, how the speed sets the element lengths, and how
//! long the transmitter hangs after the last element.

use vstd::prelude::*;

use crate::cw_keyer::{
    counters_valid, initial_keyer, lemma_element_length_is_exact, lemma_tick_keeps_lines_consistent,
    lemma_tick_reports_changes, lemma_valid_timing_keeps_ticks_defined, lines_consistent, off_fits, off_ticks, on_ticks_dah,
    on_ticks_dit, run, step, tick_defined, timing_valid, KeyerState, KeyerView,
};
use crate::types::CwKeyMode;

verus! {

/// The key report (`key_changed`) of each tick of a run.
pub open spec fn key_reports(s: KeyerView, inputs: Seq<(bool, bool)>) -> Seq<Option<bool>>
    decreases inputs.len(),
{
    if inputs.len() == 0 {
        Seq::empty()
    } else {
        seq![step(s, inputs[0].0, inputs[0].1).1] + key_reports(step(s, inputs[0].0, inputs[0].1).0, inputs.drop_first())
    }
}

/// The transmit report (`tx_changed`) of each tick of a run.
pub open spec fn tx_reports(s: KeyerView, inputs: Seq<(bool, bool)>) -> Seq<Option<bool>>
    decreases inputs.len(),
{
    if inputs.len() == 0 {
        Seq::empty()
    } else {
        seq![step(s, inputs[0].0, inputs[0].1).2] + tx_reports(step(s, inputs[0].0, inputs[0].1).0, inputs.drop_first())
    }
}

/// A run reports once per tick.
pub proof fn lemma_reports_length(s: KeyerView, inputs: Seq<(bool, bool)>)
    ensures
        key_reports(s, inputs).len() == inputs.len(),
        tx_reports(s, inputs).len() == inputs.len(),
    decreases inputs.len(),
{
    if inputs.len() > 0 {
        lemma_reports_length(step(s, inputs[0].0, inputs[0].1).0, inputs.drop_first());
    }
}

/// Every tick of the run is defined.
pub open spec fn run_defined(s: KeyerView, inputs: Seq<(bool, bool)>) -> bool
    decreases inputs.len(),
{
    inputs.len() == 0 || (tick_defined(s, inputs[0].0, inputs[0].1) && run_defined(
        step(s, inputs[0].0, inputs[0].1).0,
        inputs.drop_first(),
    ))
}

/// The level after a report: the reported level, or the same level.
pub open spec fn after_report(level: bool, r: Option<bool>) -> bool {
    match r {
        Some(b) => b,
        None => level,
    }
}

/// Reports that alternate: each one that is given is the opposite of the
/// level that the reports before it (or `level`, before the first) left.
pub open spec fn alternates(level: bool, reports: Seq<Option<bool>>) -> bool
    decreases reports.len(),
{
    reports.len() == 0 || ((reports[0] matches Some(b) ==> b != level) && alternates(
        after_report(level, reports[0]),
        reports.drop_first(),
    ))
}

/// The level that the reports leave, starting from `level`.
pub open spec fn reported_level(level: bool, reports: Seq<Option<bool>>) -> bool
    decreases reports.len(),
{
    if reports.len() == 0 {
        level
    } else {
        reported_level(after_report(level, reports[0]), reports.drop_first())
    }
}

/// A keyer state that a keyer used through its API reaches when its mode is
/// only changed while it is idle: the lines match its phase, and a straight
/// key is only idle, keyed or hanging.
pub open spec fn keyer_settled(s: KeyerView) -> bool {
    &&& lines_consistent(s)
    &&& s.mode == CwKeyMode::Straight ==> (s.state == KeyerState::Idle || s.state == KeyerState::Dit || s.state
        == KeyerState::Hanging)
}

/// The keyer after `set_wpm`, `set_weight` and `set_hang_ticks` changed its
/// timing to these values.
pub open spec fn with_timing(s: KeyerView, dit_ticks: u16, dah_ticks: u16, weight_pct: u8, hang_ticks: u16) -> KeyerView {
    KeyerView { dit_ticks, dah_ticks, weight_pct, hang_ticks, ..s }
}

/// A new keyer is settled, with running counters and valid timing; changing
/// its timing keeps it settled with running counters, and so does changing
/// its mode while it is idle.
pub proof fn lemma_settings_keep_keyer_settled(
    s: KeyerView,
    dit_ticks: u16,
    dah_ticks: u16,
    weight_pct: u8,
    hang_ticks: u16,
    mode: CwKeyMode,
)
    ensures
        keyer_settled(initial_keyer()),
        counters_valid(initial_keyer()),
        timing_valid(initial_keyer()),
        keyer_settled(s) ==> keyer_settled(with_timing(s, dit_ticks, dah_ticks, weight_pct, hang_ticks)),
        counters_valid(s) ==> counters_valid(with_timing(s, dit_ticks, dah_ticks, weight_pct, hang_ticks)),
        keyer_settled(s) && s.state == KeyerState::Idle ==> keyer_settled(KeyerView { mode, ..s }),
        counters_valid(s) && s.state == KeyerState::Idle ==> counters_valid(KeyerView { mode, ..s }),
{
}

/// A keyer with running counters and valid timing can take every tick of
/// every run, whatever the paddles do: no counter runs out and no length
/// overflows.
pub proof fn lemma_valid_keyer_never_stalls(s: KeyerView, inputs: Seq<(bool, bool)>)
    requires
        counters_valid(s),
        timing_valid(s),
    ensures
        run_defined(s, inputs),
        counters_valid(run(s, inputs)),
        timing_valid(run(s, inputs)),
    decreases inputs.len(),
{
    if inputs.len() > 0 {
        lemma_valid_timing_keeps_ticks_defined(s, inputs[0].0, inputs[0].1);
        lemma_valid_keyer_never_stalls(step(s, inputs[0].0, inputs[0].1).0, inputs.drop_first());
    }
}

/// A tick keeps a settled keyer settled.
pub proof fn lemma_tick_keeps_keyer_settled(s: KeyerView, dit: bool, dah: bool)
    requires
        keyer_settled(s),
        tick_defined(s, dit, dah),
    ensures
        keyer_settled(step(s, dit, dah).0),
{
    lemma_tick_keeps_lines_consistent(s, dit, dah);
}

/// Over any run of a settled keyer, the key reports alternate (down, up,
/// down, ... when the key starts up), and so do the transmit reports; the
/// last reports give the levels the keyer ends with; and the key is only
/// ever down while transmit is requested.
#[verifier::rlimit(60)]
#[verifier::spinoff_prover]
pub proof fn lemma_reports_alternate(s: KeyerView, inputs: Seq<(bool, bool)>)
    requires
        keyer_settled(s),
        run_defined(s, inputs),
    ensures
        alternates(s.key_active, key_reports(s, inputs)),
        alternates(s.tx_active, tx_reports(s, inputs)),
        reported_level(s.key_active, key_reports(s, inputs)) == run(s, inputs).key_active,
        reported_level(s.tx_active, tx_reports(s, inputs)) == run(s, inputs).tx_active,
        keyer_settled(run(s, inputs)),
        run(s, inputs).key_active ==> run(s, inputs).tx_active,
    decreases inputs.len(),
{
    if inputs.len() > 0 {
        let d = inputs[0].0;
        let a = inputs[0].1;
        let r = step(s, d, a);
        let rest = inputs.drop_first();
        lemma_tick_reports_changes(s, d, a);
        lemma_tick_keeps_keyer_settled(s, d, a);
        lemma_reports_alternate(r.0, rest);
        assert(key_reports(s, inputs).drop_first() =~= key_reports(r.0, rest));
        assert(tx_reports(s, inputs).drop_first() =~= tx_reports(r.0, rest));
        assert(key_reports(s, inputs)[0] == r.1);
        assert(tx_reports(s, inputs)[0] == r.2);
        assert(run(s, inputs) == run(r.0, rest));
    }
}

/// The straight key ignores the dah paddle.
pub proof fn lemma_straight_ignores_dah(s: KeyerView, dit: bool, dah1: bool, dah2: bool)
    requires
        s.mode == CwKeyMode::Straight,
    ensures
        step(s, dit, dah1) == step(s, dit, dah2),
{
}

/// The straight key's timing depends on neither the speed nor the weight:
/// two straight keyers that differ only in those settings give the same
/// reports for the same inputs and stay different only in those settings.
pub proof fn lemma_straight_ignores_speed_and_weight(s1: KeyerView, s2: KeyerView, inputs: Seq<(bool, bool)>)
    requires
        s1.mode == CwKeyMode::Straight,
        s2 == (KeyerView { dit_ticks: s2.dit_ticks, dah_ticks: s2.dah_ticks, weight_pct: s2.weight_pct, ..s1 }),
    ensures
        key_reports(s1, inputs) == key_reports(s2, inputs),
        tx_reports(s1, inputs) == tx_reports(s2, inputs),
        run(s2, inputs) == (KeyerView {
            dit_ticks: s2.dit_ticks,
            dah_ticks: s2.dah_ticks,
            weight_pct: s2.weight_pct,
            ..run(s1, inputs)
        }),
        run(s1, inputs).mode == CwKeyMode::Straight,
    decreases inputs.len(),
{
    if inputs.len() > 0 {
        let (d, a) = inputs[0];
        let t1 = step(s1, d, a).0;
        let t2 = step(s2, d, a).0;
        assert(t2 == (KeyerView { dit_ticks: s2.dit_ticks, dah_ticks: s2.dah_ticks, weight_pct: s2.weight_pct, ..t1 }));
        lemma_straight_ignores_speed_and_weight(t1, t2, inputs.drop_first());
    }
}

/// While an iambic element runs, its ticks report nothing until the one on
/// which its counter runs out, which reports the key going up; none of them
/// reports a transmit change.
#[verifier::rlimit(60)]
#[verifier::spinoff_prover]
pub proof fn lemma_element_reports(s: KeyerView, inputs: Seq<(bool, bool)>)
    requires
        s.mode != CwKeyMode::Straight,
        s.state == KeyerState::Dit || s.state == KeyerState::Dah,
        s.key_active,
        off_fits(s),
        1 <= inputs.len() <= s.tick_counter,
    ensures
        key_reports(s, inputs).len() == inputs.len(),
        tx_reports(s, inputs).len() == inputs.len(),
        forall|i: int| 0 <= i < inputs.len() && i + 1 < s.tick_counter ==> #[trigger] key_reports(s, inputs)[i] is None,
        inputs.len() == s.tick_counter ==> key_reports(s, inputs)[inputs.len() - 1] == Some(false),
        forall|i: int| 0 <= i < inputs.len() ==> #[trigger] tx_reports(s, inputs)[i] is None,
    decreases inputs.len(),
{
    lemma_reports_length(s, inputs);
    let r = step(s, inputs[0].0, inputs[0].1);
    let rest = inputs.drop_first();
    lemma_reports_length(r.0, rest);
    assert(key_reports(s, inputs)[0] == r.1);
    assert(tx_reports(s, inputs)[0] == r.2);
    if inputs.len() > 1 {
        let t = r.0;
        assert(t.state == s.state && t.key_active && t.tick_counter == s.tick_counter - 1 && t.mode == s.mode);
        assert(off_fits(t));
        lemma_element_reports(t, rest);
        assert forall|i: int| 1 <= i < inputs.len() implies #[trigger] key_reports(s, inputs)[i] == key_reports(t, rest)[i
            - 1] by {
            assert(key_reports(s, inputs) == seq![r.1] + key_reports(t, rest));
        }
        assert forall|i: int| 1 <= i < inputs.len() implies #[trigger] tx_reports(s, inputs)[i] == tx_reports(t, rest)[i
            - 1] by {
            assert(tx_reports(s, inputs) == seq![r.2] + tx_reports(t, rest));
        }
    }
}

/// The keyer that `set_wpm(wpm)` makes of a new keyer.
pub open spec fn new_keyer_at(wpm: u8) -> KeyerView {
    KeyerView {
        dit_ticks: (1200int / (wpm as int)) as u16,
        dah_ticks: (3 * (1200int / (wpm as int))) as u16,
        ..initial_keyer()
    }
}

/// At `wpm` words per minute (from 3 up, where the dah length fits) a new
/// keyer's dit keeps the key down for exactly 1200 / `wpm` ticks after the
/// tick that pressed it, and its dah for exactly three times that, whatever
/// the paddles do meanwhile: the first key report after the press is the
/// key going up, on exactly that tick.
pub proof fn lemma_speed_sets_element_lengths(wpm: u8, inputs: Seq<(bool, bool)>)
    requires
        3 <= wpm,
        1 <= inputs.len(),
    ensures
        ({
            let d = 1200int / (wpm as int);
            let t = step(new_keyer_at(wpm), true, false).0;
            &&& t.state == KeyerState::Dit && t.key_active && t.tick_counter == d
            &&& inputs.len() <= d ==> (run(t, inputs).key_active <==> inputs.len() < d)
            &&& inputs.len() == d ==> key_reports(t, inputs)[d - 1] == Some(false) && forall|i: int|
                0 <= i < d - 1 ==> #[trigger] key_reports(t, inputs)[i] is None
        }),
        ({
            let d = 1200int / (wpm as int);
            let t = step(new_keyer_at(wpm), false, true).0;
            &&& t.state == KeyerState::Dah && t.key_active && t.tick_counter == 3 * d
            &&& inputs.len() <= 3 * d ==> (run(t, inputs).key_active <==> inputs.len() < 3 * d)
            &&& inputs.len() == 3 * d ==> key_reports(t, inputs)[3 * d - 1] == Some(false) && forall|i: int|
                0 <= i < 3 * d - 1 ==> #[trigger] key_reports(t, inputs)[i] is None
        }),
{
    let s = new_keyer_at(wpm);
    let d = 1200int / (wpm as int);
    assert(1 <= d <= 400) by (nonlinear_arith)
        requires d == 1200int / (wpm as int), 3 <= wpm <= 255;
    assert(s.dit_ticks == d && s.dah_ticks == 3 * d);
    assert(d * 50 / 50 == d) by (nonlinear_arith);
    assert(3 * d * 50 / 50 == 3 * d) by (nonlinear_arith);
    assert(on_ticks_dit(s) == d);
    assert(on_ticks_dah(s) == 3 * d);
    assert(off_fits(s));
    let t = step(s, true, false).0;
    if inputs.len() <= d {
        lemma_element_length_is_exact(t, inputs);
        lemma_element_reports(t, inputs);
    }
    let u = step(s, false, true).0;
    assert(off_fits(u));
    if inputs.len() <= 3 * d {
        lemma_element_length_is_exact(u, inputs);
        lemma_element_reports(u, inputs);
    }
}

/// The paddles that key this keyer: the dit contact of a straight key,
/// either contact of the iambic keyer.
pub open spec fn keying_pressed(s: KeyerView, input: (bool, bool)) -> bool {
    input.0 || (s.mode != CwKeyMode::Straight && input.1)
}

/// After the last element the transmitter hangs for the hang count: with no
/// keying paddle pressed, that many ticks report nothing, the tick after
/// them drops the transmit request and nothing else, and the keyer is idle.
#[verifier::rlimit(60)]
#[verifier::spinoff_prover]
pub proof fn lemma_hang_time(s: KeyerView, inputs: Seq<(bool, bool)>)
    requires
        s.state == KeyerState::Hanging,
        inputs.len() <= s.hang_counter + 1,
        forall|i: int| 0 <= i < inputs.len() ==> !keying_pressed(s, #[trigger] inputs[i]),
    ensures
        key_reports(s, inputs).len() == inputs.len(),
        tx_reports(s, inputs).len() == inputs.len(),
        forall|i: int| 0 <= i < inputs.len() ==> #[trigger] key_reports(s, inputs)[i] is None,
        forall|i: int| 0 <= i < inputs.len() && i < s.hang_counter ==> #[trigger] tx_reports(s, inputs)[i] is None,
        inputs.len() <= s.hang_counter ==> run(s, inputs).state == KeyerState::Hanging && run(s, inputs).hang_counter
            == s.hang_counter - inputs.len() && run(s, inputs).mode == s.mode && run(s, inputs).tx_active == s.tx_active,
        inputs.len() == s.hang_counter + 1 ==> run(s, inputs).state == KeyerState::Idle && !run(s, inputs).tx_active
            && tx_reports(s, inputs)[inputs.len() - 1] == Some(false),
    decreases inputs.len(),
{
    lemma_reports_length(s, inputs);
    if inputs.len() > 0 {
        let d = inputs[0].0;
        let a = inputs[0].1;
        assert(!keying_pressed(s, inputs[0]));
        let r = step(s, d, a);
        let rest = inputs.drop_first();
        lemma_reports_length(r.0, rest);
        assert(key_reports(s, inputs)[0] == r.1);
        assert(tx_reports(s, inputs)[0] == r.2);
        assert(run(s, inputs) == run(r.0, rest));
        if s.hang_counter == 0 {
            assert(rest.len() == 0);
            assert(r.1 is None && r.2 == Some(false));
            assert(r.0.state == KeyerState::Idle && !r.0.tx_active);
        } else {
            let t = r.0;
            assert(t.state == KeyerState::Hanging && t.hang_counter == s.hang_counter - 1 && t.mode == s.mode
                && t.tx_active == s.tx_active);
            assert(r.1 is None && r.2 is None);
            assert forall|i: int| 0 <= i < rest.len() implies !keying_pressed(t, #[trigger] rest[i]) by {
                assert(rest[i] == inputs[i + 1]);
                assert(!keying_pressed(s, inputs[i + 1]));
            }
            lemma_hang_time(t, rest);
            assert forall|i: int| 1 <= i < inputs.len() implies #[trigger] key_reports(s, inputs)[i] == key_reports(t, rest)[i - 1] by {
                assert(key_reports(s, inputs) == seq![r.1] + key_reports(t, rest));
            }
            assert forall|i: int| 1 <= i < inputs.len() implies #[trigger] tx_reports(s, inputs)[i] == tx_reports(t, rest)[i - 1] by {
                assert(tx_reports(s, inputs) == seq![r.2] + tx_reports(t, rest));
            }
        }
    }
}

/// A keying paddle pressed while hanging keys the next element at once,
/// without a transmit report.
pub proof fn lemma_key_during_hang(s: KeyerView, input: (bool, bool))
    requires
        s.state == KeyerState::Hanging,
        keying_pressed(s, input),
    ensures
        step(s, input.0, input.1).1 == Some(true),
        step(s, input.0, input.1).2 is None,
        step(s, input.0, input.1).0.key_active,
{
}

/// Ticks an iambic keyer needs, with both paddles open, until it is idle:
/// the rest of the current element or gap, the element its memory still
/// asks for with that element's gap, and the hang time.
pub open spec fn release_ticks(s: KeyerView) -> int {
    let hang = s.hang_ticks + 1;
    let after_dit_gap = if s.dah_memory { on_ticks_dah(s) + off_ticks(s) + hang } else { hang };
    let after_dah_gap = if s.dit_memory { on_ticks_dit(s) + off_ticks(s) + hang } else { hang };
    match s.state {
        KeyerState::Idle => 0,
        KeyerState::Hanging => s.hang_counter + 1,
        KeyerState::Dit => s.tick_counter + off_ticks(s) + after_dit_gap,
        KeyerState::DitPause => s.tick_counter + after_dit_gap,
        KeyerState::Dah => s.tick_counter + off_ticks(s) + after_dah_gap,
        KeyerState::DahPause => s.tick_counter + after_dah_gap,
    }
}

/// The counters lie within the lengths the settings give.
pub open spec fn counters_within(s: KeyerView) -> bool {
    match s.state {
        KeyerState::Dit => s.tick_counter <= on_ticks_dit(s),
        KeyerState::Dah => s.tick_counter <= on_ticks_dah(s),
        KeyerState::DitPause | KeyerState::DahPause => s.tick_counter <= off_ticks(s),
        KeyerState::Hanging => s.hang_counter <= s.hang_ticks,
        KeyerState::Idle => true,
    }
}

/// A tick of an iambic keyer with running counters and valid timing keeps
/// its counters within the lengths its settings give: an element or gap
/// starts at its full length and counts down, and so does the hang time.
pub proof fn lemma_tick_keeps_counters_within(s: KeyerView, dit: bool, dah: bool)
    requires
        s.mode != CwKeyMode::Straight,
        counters_valid(s),
        counters_within(s),
        timing_valid(s),
    ensures
        counters_within(step(s, dit, dah).0),
{
    assert(0 <= on_ticks_dah(s) <= u16::MAX) by (nonlinear_arith)
        requires on_ticks_dah(s) == s.dah_ticks * s.weight_pct / 50, s.dah_ticks * s.weight_pct <= u16::MAX,
            s.dah_ticks >= 0, s.weight_pct >= 0;
    assert(0 <= on_ticks_dit(s) <= u16::MAX) by (nonlinear_arith)
        requires on_ticks_dit(s) == s.dit_ticks * s.weight_pct / 50, s.dit_ticks * s.weight_pct <= u16::MAX,
            s.dit_ticks >= 0, s.weight_pct >= 0;
    assert(0 <= off_ticks(s) <= u16::MAX) by (nonlinear_arith)
        requires off_ticks(s) == s.dit_ticks * (100 - s.weight_pct) / 50, s.dit_ticks * (100 - s.weight_pct)
            <= u16::MAX, s.dit_ticks >= 0, 100 - s.weight_pct >= 0;
}


/// In both iambic modes the paddle opposite the element being sent is
/// remembered: a dit paddle pressed during a dah (or a dah paddle during a
/// dit) stays remembered through the rest of the element and through its
/// gap, and when that gap runs out the remembered element is keyed next,
/// whatever the paddles are doing then. Squeezing both paddles therefore
/// alternates dits and dahs, and a dit tapped during a dah follows it (dah
/// then dit).
pub proof fn lemma_opposite_paddle_is_remembered(s: KeyerView, dit: bool, dah: bool)
    requires
        s.mode != CwKeyMode::Straight,
        counters_valid(s),
    ensures
        s.state == KeyerState::Dah && (dit || s.dit_memory) ==> {
            let t = step(s, dit, dah).0;
            &&& t.dit_memory
            &&& t.state == KeyerState::Dah || t.state == KeyerState::DahPause
        },
        s.state == KeyerState::Dit && (dah || s.dah_memory) ==> {
            let t = step(s, dit, dah).0;
            &&& t.dah_memory
            &&& t.state == KeyerState::Dit || t.state == KeyerState::DitPause
        },
        s.state == KeyerState::DahPause && s.dit_memory && s.tick_counter > 1 ==> {
            let t = step(s, dit, dah).0;
            t.state == KeyerState::DahPause && t.dit_memory && step(s, dit, dah).1 is None
        },
        s.state == KeyerState::DitPause && s.dah_memory && s.tick_counter > 1 ==> {
            let t = step(s, dit, dah).0;
            t.state == KeyerState::DitPause && t.dah_memory && step(s, dit, dah).1 is None
        },
        s.state == KeyerState::DahPause && s.dit_memory && s.tick_counter == 1 ==> {
            let (t, k, x) = step(s, dit, dah);
            &&& t.state == KeyerState::Dit
            &&& t.key_active
            &&& k == Some(true)
            &&& t.tick_counter == on_ticks_dit(s) as u16
        },
        s.state == KeyerState::DitPause && s.dah_memory && s.tick_counter == 1 ==> {
            let (t, k, x) = step(s, dit, dah);
            &&& t.state == KeyerState::Dah
            &&& t.key_active
            &&& k == Some(true)
            &&& t.tick_counter == on_ticks_dah(s) as u16
        },
{
}


/// During a gap, iambic B remembers every paddle pressed and iambic A
/// remembers none; a gap that runs out with nothing remembered sends the
/// element of a pressed paddle (a dit's gap prefers a dit, a dah's gap a
/// dah) or, with both paddles open, starts the hang time.
pub proof fn lemma_gap_memory_by_mode(s: KeyerView, dit: bool, dah: bool)
    requires
        s.mode != CwKeyMode::Straight,
        s.state == KeyerState::DitPause || s.state == KeyerState::DahPause,
        s.tick_counter >= 1,
    ensures
        s.tick_counter > 1 ==> {
            let t = step(s, dit, dah).0;
            &&& t.state == s.state
            &&& t.tick_counter == s.tick_counter - 1
            &&& s.mode == CwKeyMode::IambicB ==> t.dit_memory == (s.dit_memory || dit) && t.dah_memory == (
            s.dah_memory || dah)
            &&& s.mode == CwKeyMode::IambicA ==> t.dit_memory == s.dit_memory && t.dah_memory == s.dah_memory
        },
        s.tick_counter == 1 && !s.dit_memory && !s.dah_memory && s.mode == CwKeyMode::IambicA ==> {
            let (t, k, x) = step(s, dit, dah);
            &&& !dit && !dah ==> t.state == KeyerState::Hanging && t.hang_counter == s.hang_ticks && k is None
            &&& s.state == KeyerState::DitPause && dit ==> t.state == KeyerState::Dit && k == Some(true)
            &&& s.state == KeyerState::DitPause && !dit && dah ==> t.state == KeyerState::Dah && k == Some(true)
            &&& s.state == KeyerState::DahPause && dah ==> t.state == KeyerState::Dah && k == Some(true)
            &&& s.state == KeyerState::DahPause && dit && !dah ==> t.state == KeyerState::Dit && k == Some(true)
        },
{
}

/// `n` ticks with both paddles open.
pub open spec fn open_paddles(n: nat) -> Seq<(bool, bool)> {
    Seq::new(n, |i: int| (false, false))
}

/// One tick with both paddles open brings an iambic keyer one tick closer
/// to idle.
proof fn lemma_open_tick_counts_down(s: KeyerView)
    requires
        s.mode != CwKeyMode::Straight,
        s.state != KeyerState::Idle,
        counters_valid(s),
        timing_valid(s),
    ensures
        release_ticks(step(s, false, false).0) == release_ticks(s) - 1,
        step(s, false, false).0.mode == s.mode,
{
    let t = step(s, false, false).0;
    assert(on_ticks_dit(t) == on_ticks_dit(s) && on_ticks_dah(t) == on_ticks_dah(s) && off_ticks(t) == off_ticks(s));
    assert(0 <= on_ticks_dah(s) <= u16::MAX) by (nonlinear_arith)
        requires on_ticks_dah(s) == s.dah_ticks * s.weight_pct / 50, s.dah_ticks * s.weight_pct <= u16::MAX,
            s.dah_ticks >= 0, s.weight_pct >= 0;
    assert(0 <= on_ticks_dit(s) <= u16::MAX) by (nonlinear_arith)
        requires on_ticks_dit(s) == s.dit_ticks * s.weight_pct / 50, s.dit_ticks * s.weight_pct <= u16::MAX,
            s.dit_ticks >= 0, s.weight_pct >= 0;
    assert(0 <= off_ticks(s) <= u16::MAX) by (nonlinear_arith)
        requires off_ticks(s) == s.dit_ticks * (100 - s.weight_pct) / 50, s.dit_ticks * (100 - s.weight_pct)
            <= u16::MAX, s.dit_ticks >= 0, 100 - s.weight_pct >= 0;
}

/// With both paddles open, an iambic keyer with running counters and valid
/// timing is idle after `release_ticks` ticks, with key and transmit request
/// released (each release reported on the way, as the reports alternate);
/// every later tick reports nothing. With its counters within the lengths
/// its settings give, that takes at most a dit, a dah, two gaps and the hang
/// time, plus one tick.
pub proof fn lemma_open_paddles_release(s: KeyerView)
    requires
        s.mode != CwKeyMode::Straight,
        lines_consistent(s),
        counters_valid(s),
        timing_valid(s),
    ensures
        ({
            let e = run(s, open_paddles(release_ticks(s) as nat));
            &&& release_ticks(s) >= 0
            &&& e.state == KeyerState::Idle && !e.key_active && !e.tx_active
            &&& step(e, false, false).0.state == KeyerState::Idle
            &&& step(e, false, false).1 is None && step(e, false, false).2 is None
        }),
        counters_within(s) ==> release_ticks(s) <= on_ticks_dit(s) + on_ticks_dah(s) + 2 * off_ticks(s)
            + s.hang_ticks + 1,
    decreases release_ticks(s),
{
    if s.state == KeyerState::Idle {
        assert(open_paddles(0) =~= Seq::<(bool, bool)>::empty());
    } else {
        let t = step(s, false, false).0;
        lemma_open_tick_counts_down(s);
        lemma_valid_timing_keeps_ticks_defined(s, false, false);
        lemma_tick_keeps_lines_consistent(s, false, false);
        lemma_open_paddles_release(t);
        let n = release_ticks(s) as nat;
        assert(open_paddles(n).drop_first() =~= open_paddles((n - 1) as nat));
        assert(open_paddles(n)[0] == (false, false));
    }
}

} // verus!
