//! When the band sweep for the waterfall may run: only while the scan is
//! off and after the squelch has stayed closed for a second, so that a
//! sweep never takes the receiver away from a signal.

use vstd::prelude::*;

use crate::levels::{squelch_dbm, squelch_to_dbm};

verus! {

/// How long the squelch must stay closed before a sweep, in ms.
pub const SQUELCH_TRACK_WINDOW_MS: u64 = 1000;

#[derive(PartialEq, Eq, Structural, Clone, Copy, Debug)]
pub struct SweepGate {
    pub vfo_freq: u32,
    pub prev_vfo_freq: u32,
    pub squelch_threshold_dbm: i8,
    /// Since when the signal has stayed below the squelch threshold, in ms.
    pub squelch_closed_since: Option<u64>,
    pub scan_active: bool,
}

/// The sweep state once the signal level `dbm` has been read at `now`, in milliseconds.
pub open spec fn after_rssi(g: SweepGate, dbm: i8, now: u64) -> SweepGate {
    SweepGate {
        squelch_closed_since: if dbm >= g.squelch_threshold_dbm {
            None
        } else if g.squelch_closed_since is None {
            Some(now)
        } else {
            g.squelch_closed_since
        },
        ..g
    }
}

/// Whether a sweep may run at time `now` (ms).
pub open spec fn sweep_ready(g: SweepGate, now: u64) -> bool {
    !g.scan_active && match g.squelch_closed_since {
        Some(t) => now - t >= SQUELCH_TRACK_WINDOW_MS,
        None => false,
    }
}

impl SweepGate {
    /// At 7.100 MHz, squelch fully open, no scan.
    pub fn new() -> (g: Self)
        ensures
            g == (SweepGate {
                vfo_freq: 7_100_000,
                prev_vfo_freq: 7_100_000,
                squelch_threshold_dbm: -128i8,
                squelch_closed_since: None,
                scan_active: false,
            }),
    {
        SweepGate {
            vfo_freq: 7_100_000,
            prev_vfo_freq: 7_100_000,
            squelch_threshold_dbm: -128,
            squelch_closed_since: None,
            scan_active: false,
        }
    }

    pub fn on_scan_active(&mut self, active: bool)
        ensures
            *final(self) == (SweepGate { scan_active: active, ..*old(self) }),
    {
        self.scan_active = active;
    }

    /// The VFO moved; returns whether the sweep must start over, which it
    /// must when the move exceeds a quarter of the span.
    pub fn on_frequency(&mut self, freq: u32, span_hz: u32) -> (reset: bool)
        ensures
            reset == ((if freq > old(self).prev_vfo_freq {
                freq - old(self).prev_vfo_freq
            } else {
                old(self).prev_vfo_freq - freq
            }) > span_hz / 4),
            *final(self) == (SweepGate { vfo_freq: freq, prev_vfo_freq: freq, ..*old(self) }),
    {
        self.vfo_freq = freq;
        let shift = if self.vfo_freq > self.prev_vfo_freq {
            self.vfo_freq - self.prev_vfo_freq
        } else {
            self.prev_vfo_freq - self.vfo_freq
        };
        self.prev_vfo_freq = self.vfo_freq;
        shift > span_hz / 4
    }

    /// The squelch control moved.
    pub fn on_squelch(&mut self, raw: i16)
        ensures
            *final(self) == (SweepGate { squelch_threshold_dbm: squelch_dbm(raw), ..*old(self) }),
    {
        self.squelch_threshold_dbm = squelch_to_dbm(raw);
    }

    /// A signal measurement at time `now` (ms): a signal at or above the
    /// threshold reopens the squelch; below it, the closed time starts if it
    /// had not.
    pub fn on_rssi(&mut self, dbm: i8, now: u64)
        ensures
            *final(self) == after_rssi(*old(self), dbm, now),
    {
        if dbm >= self.squelch_threshold_dbm {
            self.squelch_closed_since = None;
        } else if self.squelch_closed_since.is_none() {
            self.squelch_closed_since = Some(now);
        }
    }

    /// Whether a sweep may run at time `now` (ms).
    pub fn ready(&self, now: u64) -> (r: bool)
        requires
            self.squelch_closed_since matches Some(t) ==> t <= now,
        ensures
            r == sweep_ready(*self, now),
    {
        if self.scan_active {
            return false;
        }
        match self.squelch_closed_since {
            Some(since) => now - since >= SQUELCH_TRACK_WINDOW_MS,
            None => false,
        }
    }
}

/// A signal at or above the threshold keeps the sweep from running until the
/// squelch has again been closed for a whole second; a sweep runs only with
/// the scan off.
pub proof fn lemma_signal_blocks_sweep(g: SweepGate, dbm: i8, now: u64, later: u64)
    requires
        dbm >= g.squelch_threshold_dbm,
    ensures
        !sweep_ready(after_rssi(g, dbm, now), later),
        sweep_ready(g, later) ==> !g.scan_active,
{
}

/// The sweep state after the signal readings `rs`, each a (level in dBm, time in
/// ms), in turn.
pub open spec fn after_readings(g: SweepGate, rs: Seq<(i8, u64)>) -> SweepGate
    decreases rs.len(),
{
    if rs.len() == 0 {
        g
    } else {
        let r = rs.last();
        after_rssi(after_readings(g, rs.drop_last()), r.0, r.1)
    }
}

/// After readings in time order, from a sweep state whose squelch has not been
/// found closed yet, a sweep may run at `now` only if every reading at or
/// above the squelch threshold lies at least a second before `now`.
pub proof fn lemma_sweep_waits_a_second_after_signal(g: SweepGate, rs: Seq<(i8, u64)>, now: u64)
    requires
        g.squelch_closed_since is None,
        forall|i: int, j: int| 0 <= i < j < rs.len() ==> rs[i].1 <= rs[j].1,
    ensures
        after_readings(g, rs).squelch_threshold_dbm == g.squelch_threshold_dbm,
        after_readings(g, rs).scan_active == g.scan_active,
        forall|i: int| 0 <= i < rs.len() && rs[i].0 >= g.squelch_threshold_dbm ==> match after_readings(
            g,
            rs,
        ).squelch_closed_since {
            Some(c) => rs[i].1 <= c,
            None => true,
        },
        forall|i: int| 0 <= i < rs.len() && rs[i].0 >= g.squelch_threshold_dbm && #[trigger] sweep_ready(
            after_readings(g, rs),
            now,
        ) ==> rs[i].1 + SQUELCH_TRACK_WINDOW_MS <= now,
    decreases rs.len(),
{
    if rs.len() > 0 {
        let init = rs.drop_last();
        assert forall|i: int, j: int| 0 <= i < j < init.len() implies init[i].1 <= init[j].1 by {
            assert(init[i] == rs[i] && init[j] == rs[j]);
        }
        lemma_sweep_waits_a_second_after_signal(g, init, now);
        let prev = after_readings(g, init);
        assert forall|i: int| 0 <= i < rs.len() && rs[i].0 >= g.squelch_threshold_dbm implies match after_readings(
            g,
            rs,
        ).squelch_closed_since {
            Some(c) => rs[i].1 <= c,
            None => true,
        } by {
            if i < init.len() {
                assert(init[i] == rs[i]);
                if i < rs.len() - 1 {
                    assert(rs[i].1 <= rs.last().1);
                }
            }
        }
    }
}

} // verus!
