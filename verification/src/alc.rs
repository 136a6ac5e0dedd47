//! Automatic level control of the transmitter: the power constraint, in
//! hundredths of a percent, that follows the forward-power measurements and
//! falls to zero when they stop arriving while transmitting.

use vstd::prelude::*;

use crate::types::Mode;

verus! {

/// Full power, in hundredths of a percent.
pub const FULL_POWER_CP: i32 = 10000;
/// Constraint step down when the output is above target.
pub const REDUCE_RATE: i32 = 500;
/// Constraint step up when the output is below target.
pub const RECOVER_RATE: i32 = 100;
/// Timer ticks without a measurement after which the output is cut.
pub const STALE_TICKS: u8 = 5;

/// How one forward-power measurement compares with the target band.
#[derive(PartialEq, Eq, Structural, Clone, Copy, Debug)]
pub enum AlcAdjust {
    /// Above target plus margin.
    Reduce,
    /// Below target minus margin.
    Recover,
    /// Within the margin.
    Hold,
}

/// Everything the ALC loop reacts to.
#[derive(PartialEq, Eq, Structural, Clone, Copy, Debug)]
pub enum AlcEvent {
    /// A coupler measurement, already compared with the target.
    Metrics(AlcAdjust),
    ModeChanged(Mode),
    /// The user's power setting, in hundredths of a percent.
    RfPower(u16),
    /// The loop's timer ran out without another event.
    Timeout,
}

#[derive(PartialEq, Eq, Structural, Clone, Copy, Debug)]
pub struct AlcState {
    pub alc_cp: i32,
    pub user_power_cp: u16,
    pub mode: Mode,
    pub stale_ticks: u8,
}

/// The constraint lies between zero and full power.
pub open spec fn alc_wf(s: AlcState) -> bool {
    0 <= s.alc_cp <= FULL_POWER_CP
}

/// The constraint after one measurement.
pub open spec fn adjusted_cp(cp: int, adj: AlcAdjust) -> int {
    match adj {
        AlcAdjust::Reduce => if cp - REDUCE_RATE < 0 { 0 } else { cp - REDUCE_RATE },
        AlcAdjust::Recover => if cp + RECOVER_RATE > FULL_POWER_CP { FULL_POWER_CP as int } else { cp + RECOVER_RATE },
        AlcAdjust::Hold => cp,
    }
}

/// The state and the constraint to publish after an event.
pub open spec fn alc_step(s: AlcState, ev: AlcEvent) -> (AlcState, Option<i32>) {
    match ev {
        AlcEvent::Metrics(adj) => {
            let t = AlcState { stale_ticks: 0, ..s };
            if s.mode == Mode::Tx {
                let u = AlcState { alc_cp: adjusted_cp(s.alc_cp as int, adj) as i32, ..t };
                (u, Some(u.alc_cp))
            } else {
                (t, None)
            }
        },
        AlcEvent::ModeChanged(m) => if m != Mode::Tx {
            (AlcState { mode: m, alc_cp: FULL_POWER_CP, stale_ticks: 0, ..s }, Some(FULL_POWER_CP))
        } else {
            (AlcState { mode: m, ..s }, None)
        },
        AlcEvent::RfPower(cp) => (AlcState { user_power_cp: cp, ..s }, None),
        AlcEvent::Timeout => if s.mode == Mode::Tx {
            let n = if s.stale_ticks == u8::MAX { u8::MAX } else { (s.stale_ticks + 1) as u8 };
            if n >= STALE_TICKS {
                (AlcState { stale_ticks: n, alc_cp: 0, ..s }, Some(0))
            } else {
                (AlcState { stale_ticks: n, ..s }, None)
            }
        } else {
            (s, None)
        },
    }
}

impl AlcState {
    /// Full power in stand-by, with no power setting received yet.
    pub fn new() -> (s: Self)
        ensures
            s == (AlcState { alc_cp: FULL_POWER_CP, user_power_cp: 0, mode: Mode::StandBy, stale_ticks: 0 }),
    {
        AlcState { alc_cp: 10000, user_power_cp: 0, mode: Mode::StandBy, stale_ticks: 0 }
    }

    /// Back to full power with a fresh staleness count.
    pub fn reset(&mut self)
        ensures
            *final(self) == (AlcState { alc_cp: FULL_POWER_CP, stale_ticks: 0, ..*old(self) }),
    {
        self.alc_cp = 10000;
        self.stale_ticks = 0;
    }

    /// Applies one event; returns the constraint to publish, if any.
    pub fn handle(&mut self, ev: AlcEvent) -> (signal: Option<i32>)
        requires
            alc_wf(*old(self)),
        ensures
            alc_wf(*final(self)),
            (*final(self), signal) == alc_step(*old(self), ev),
    {
        match ev {
            AlcEvent::Metrics(adj) => {
                self.stale_ticks = 0;
                if self.mode == Mode::Tx {
                    run_alc(self, adj);
                    Some(self.alc_cp)
                } else {
                    None
                }
            },
            AlcEvent::ModeChanged(mode) => {
                self.mode = mode;
                if mode != Mode::Tx {
                    self.reset();
                    Some(self.alc_cp)
                } else {
                    None
                }
            },
            AlcEvent::RfPower(cp) => {
                self.user_power_cp = cp;
                None
            },
            AlcEvent::Timeout => {
                if self.mode == Mode::Tx {
                    self.stale_ticks = if self.stale_ticks == 255 { 255 } else { self.stale_ticks + 1 };
                    if self.stale_ticks >= STALE_TICKS {
                        self.alc_cp = 0;
                        Some(self.alc_cp)
                    } else {
                        None
                    }
                } else {
                    None
                }
            },
        }
    }
}

/// Moves the constraint one step after a measurement: down when the output
/// is above target, up when below, never outside zero to full power.
pub fn run_alc(state: &mut AlcState, adj: AlcAdjust)
    requires
        alc_wf(*old(state)),
    ensures
        alc_wf(*final(state)),
        *final(state) == (AlcState { alc_cp: adjusted_cp(old(state).alc_cp as int, adj) as i32, ..*old(state) }),
{
    match adj {
        AlcAdjust::Reduce => {
            let v = state.alc_cp - REDUCE_RATE;
            state.alc_cp = if v < 0 { 0 } else { v };
        },
        AlcAdjust::Recover => {
            let v = state.alc_cp + RECOVER_RATE;
            state.alc_cp = if v > 10000 { 10000 } else { v };
        },
        AlcAdjust::Hold => {},
    }
}

/// The ALC state after each event of `evs` in turn.
pub open spec fn alc_run(s: AlcState, evs: Seq<AlcEvent>) -> AlcState
    decreases evs.len(),
{
    if evs.len() == 0 {
        s
    } else {
        alc_run(alc_step(s, evs[0]).0, evs.drop_first())
    }
}

/// The constraint stays between zero and full power through every event.
pub proof fn lemma_alc_stays_in_range(s: AlcState, ev: AlcEvent)
    requires
        alc_wf(s),
    ensures
        alc_wf(alc_step(s, ev).0),
{
}

/// Leaving transmit restores full power and publishes it; outside transmit,
/// measurements and timer ticks never move the constraint.
pub proof fn lemma_leaving_tx_restores_full_power(s: AlcState, m: Mode, ev: AlcEvent)
    ensures
        m != Mode::Tx ==> alc_step(s, AlcEvent::ModeChanged(m)) == (
            AlcState { mode: m, alc_cp: FULL_POWER_CP, stale_ticks: 0, ..s },
            Some(FULL_POWER_CP),
        ),
        s.mode != Mode::Tx ==> alc_step(s, ev).0.alc_cp == s.alc_cp || ev is ModeChanged,
{
}

/// While transmitting, five timer ticks in a row without a measurement cut the
/// output to zero, and the cut is published on the tick that makes it.
pub proof fn lemma_stale_measurements_cut_power(s: AlcState)
    requires
        s.mode == Mode::Tx,
    ensures
        alc_run(s, seq![AlcEvent::Timeout, AlcEvent::Timeout, AlcEvent::Timeout, AlcEvent::Timeout, AlcEvent::Timeout]).alc_cp == 0,
        s.stale_ticks >= STALE_TICKS - 1 ==> alc_step(s, AlcEvent::Timeout) == (
            AlcState { stale_ticks: alc_step(s, AlcEvent::Timeout).0.stale_ticks, alc_cp: 0, ..s },
            Some(0i32),
        ),
{
    let evs = seq![AlcEvent::Timeout, AlcEvent::Timeout, AlcEvent::Timeout, AlcEvent::Timeout, AlcEvent::Timeout];
    let s1 = alc_step(s, AlcEvent::Timeout).0;
    let s2 = alc_step(s1, AlcEvent::Timeout).0;
    let s3 = alc_step(s2, AlcEvent::Timeout).0;
    let s4 = alc_step(s3, AlcEvent::Timeout).0;
    let s5 = alc_step(s4, AlcEvent::Timeout).0;
    assert(evs.drop_first() =~= seq![AlcEvent::Timeout, AlcEvent::Timeout, AlcEvent::Timeout, AlcEvent::Timeout]);
    assert(evs.drop_first().drop_first() =~= seq![AlcEvent::Timeout, AlcEvent::Timeout, AlcEvent::Timeout]);
    assert(evs.drop_first().drop_first().drop_first() =~= seq![AlcEvent::Timeout, AlcEvent::Timeout]);
    assert(evs.drop_first().drop_first().drop_first().drop_first() =~= seq![AlcEvent::Timeout]);
    assert(evs.drop_first().drop_first().drop_first().drop_first().drop_first() =~= Seq::<AlcEvent>::empty());
    reveal_with_fuel(alc_run, 6);
    assert(alc_run(s, evs) == s5);
}

/// What the ALC publishes for each event of `evs` in turn.
pub open spec fn alc_signals(s: AlcState, evs: Seq<AlcEvent>) -> Seq<Option<i32>>
    decreases evs.len(),
{
    if evs.len() == 0 {
        Seq::empty()
    } else {
        seq![alc_step(s, evs[0]).1] + alc_signals(alc_step(s, evs[0]).0, evs.drop_first())
    }
}

/// While transmitting, timer ticks without measurements count up: those that
/// bring the count below five publish nothing, the fifth and every later one
/// publish a zero constraint. (A measurement restarts the count at zero.)
pub proof fn lemma_stale_ticks_cut_from_the_fifth(s: AlcState, evs: Seq<AlcEvent>)
    requires
        s.mode == Mode::Tx,
        forall|i: int| 0 <= i < evs.len() ==> #[trigger] evs[i] == AlcEvent::Timeout,
    ensures
        alc_signals(s, evs).len() == evs.len(),
        forall|i: int| 0 <= i < evs.len() ==> #[trigger] alc_signals(s, evs)[i] == (if s.stale_ticks + i + 1
            >= STALE_TICKS { Some(0i32) } else { None }),
        forall|a: AlcAdjust| (#[trigger] alc_step(s, AlcEvent::Metrics(a))).0.stale_ticks == 0,
    decreases evs.len(),
{
    if evs.len() > 0 {
        let t = alc_step(s, evs[0]).0;
        let rest = evs.drop_first();
        assert forall|i: int| 0 <= i < rest.len() implies #[trigger] rest[i] == AlcEvent::Timeout by {
            assert(rest[i] == evs[i + 1]);
        }
        lemma_stale_ticks_cut_from_the_fifth(t, rest);
        assert forall|i: int| 0 <= i < evs.len() implies #[trigger] alc_signals(s, evs)[i] == (if s.stale_ticks + i + 1
            >= STALE_TICKS { Some(0i32) } else { None }) by {
            if i > 0 {
                assert(alc_signals(s, evs)[i] == alc_signals(t, rest)[i - 1]);
            }
        }
    }
}

/// Once the radio has left transmit, full power has been published, and
/// until it transmits again only further mode changes publish anything (full
/// power each time); measurements, timer ticks and power settings publish
/// nothing. A power setting never publishes, in any mode.
pub proof fn lemma_quiet_outside_tx(s: AlcState, evs: Seq<AlcEvent>)
    requires
        s.mode != Mode::Tx,
        forall|i: int| 0 <= i < evs.len() ==> #[trigger] evs[i] != AlcEvent::ModeChanged(Mode::Tx),
    ensures
        alc_signals(s, evs).len() == evs.len(),
        forall|i: int| 0 <= i < evs.len() ==> #[trigger] alc_signals(s, evs)[i] == (if evs[i] is ModeChanged {
            Some(FULL_POWER_CP)
        } else {
            None
        }),
        forall|p: u16| (#[trigger] alc_step(s, AlcEvent::RfPower(p))).1 is None,
    decreases evs.len(),
{
    if evs.len() > 0 {
        let t = alc_step(s, evs[0]).0;
        let rest = evs.drop_first();
        assert forall|i: int| 0 <= i < rest.len() implies #[trigger] rest[i] != AlcEvent::ModeChanged(Mode::Tx) by {
            assert(rest[i] == evs[i + 1]);
        }
        lemma_quiet_outside_tx(t, rest);
        assert forall|i: int| 0 <= i < evs.len() implies #[trigger] alc_signals(s, evs)[i] == (if evs[i] is ModeChanged {
            Some(FULL_POWER_CP)
        } else {
            None
        }) by {
            if i > 0 {
                assert(alc_signals(s, evs)[i] == alc_signals(t, rest)[i - 1]);
                assert(rest[i - 1] == evs[i]);
            }
        }
    }
}

} // verus!
