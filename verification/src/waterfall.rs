//! The waterfall: composing one line from the swept band and the live IF
//! spectrum, and the front panel's history of lines.

use vstd::prelude::*;

verus! {

/// Bins across one waterfall line, one per display column.
pub const WATERFALL_BINS: usize = 240;
/// Lines of waterfall history on the display.
pub const WATERFALL_HEIGHT: usize = 90;
/// Bandwidth covered by the live IF spectrum, in Hz.
pub const IF_BW_HZ: u32 = 50_000;
/// First FFT bin of the IF passband.
pub const IF_LOW_BIN: usize = 133;
/// One past the last FFT bin of the IF passband.
pub const IF_HIGH_BIN: usize = 400;
/// Level of a bin for which nothing was measured.
pub const NO_DATA: i8 = -128;
/// Lowest level the display distinguishes, in dBm.
pub const DBM_MIN: i8 = -120;

/// State of the band sweep, as the front panel shows it.
#[derive(PartialEq, Eq, Structural, Clone, Copy, Debug)]
pub enum SweepStatus {
    Idle,
    Sweeping,
    Listening,
}

/// One composed waterfall line: levels in dBm, and the columns
/// `[live_start, live_end)` that hold the live IF spectrum.
pub struct WaterfallLine {
    pub bins: [i8; WATERFALL_BINS],
    pub live_start: u8,
    pub live_end: u8,
    pub complete: bool,
}

/// A waterfall line as the front panel receives it.
pub struct WaterfallLineData {
    pub bins: [i8; WATERFALL_BINS],
    pub live_start: u8,
    pub live_end: u8,
    pub center_freq: u32,
    pub span_hz: u32,
    pub sweep_status: SweepStatus,
}

/// The span the waterfall is composed for: a requested span, but never
/// narrower than the IF bandwidth.
pub fn waterfall_span(span_hz: u32) -> (s: u32)
    ensures
        s == (if span_hz < IF_BW_HZ { IF_BW_HZ } else { span_hz }),
        s >= IF_BW_HZ,
{
    if span_hz < IF_BW_HZ {
        IF_BW_HZ
    } else {
        span_hz
    }
}

/// Columns that the live spectrum covers for a display span.
pub open spec fn live_width(span_hz: u32) -> int {
    if span_hz <= IF_BW_HZ {
        WATERFALL_BINS as int
    } else {
        let w = (IF_BW_HZ * WATERFALL_BINS) as int / (span_hz as int);
        if w < 1 { 1 } else { w }
    }
}

/// First column of the live spectrum: it is centred.
pub open spec fn live_start(span_hz: u32) -> int {
    (WATERFALL_BINS - live_width(span_hz)) / 2
}

/// The FFT bin shown in column `i` of the live spectrum.
pub open spec fn source_bin(span_hz: u32, i: int) -> int {
    IF_LOW_BIN + (i - live_start(span_hz)) * (IF_HIGH_BIN - IF_LOW_BIN) / live_width(span_hz)
}

/// The level shown in column `i`: the live spectrum inside its columns
/// (where the source bin lies in the IF passband), the sweep elsewhere.
pub open spec fn composite_bin(fft: Seq<i8>, sweep: Seq<i8>, span_hz: u32, i: int) -> i8 {
    if live_start(span_hz) <= i < live_start(span_hz) + live_width(span_hz) && source_bin(span_hz, i)
        < IF_HIGH_BIN {
        fft[source_bin(span_hz, i)]
    } else {
        sweep[i]
    }
}

/// Composes the waterfall line to emit: the cached band sweep, with the
/// live IF spectrum (`fft_db`, one level per FFT bin) stretched over the
/// centre columns that the IF bandwidth covers at this span.
pub fn emit_composite_waterfall(fft_db: &[i8], sweep_cache: &[i8; WATERFALL_BINS], span_hz: u32) -> (line:
    WaterfallLine)
    requires
        fft_db@.len() >= IF_HIGH_BIN,
    ensures
        line.live_start == live_start(span_hz),
        line.live_end == live_start(span_hz) + live_width(span_hz),
        line.complete,
        forall|i: int| 0 <= i < WATERFALL_BINS ==> #[trigger] line.bins@[i] == composite_bin(
            fft_db@,
            sweep_cache@,
            span_hz,
            i,
        ),
{
    let width: usize = if span_hz <= IF_BW_HZ {
        WATERFALL_BINS
    } else {
        let w = (IF_BW_HZ as usize * WATERFALL_BINS) / span_hz as usize;
        if w < 1 { 1 } else { w }
    };
    proof {
        if span_hz > IF_BW_HZ {
            let s = span_hz as int;
            assert((IF_BW_HZ * WATERFALL_BINS) as int / s <= WATERFALL_BINS) by (nonlinear_arith)
                requires s > 50_000;
        }
    }
    let start = (WATERFALL_BINS - width) / 2;
    let end = start + width;

    let mut bins = [0i8; WATERFALL_BINS];
    let mut i: usize = 0;
    while i < WATERFALL_BINS
        invariant
            0 <= i <= WATERFALL_BINS,
            bins@.len() == WATERFALL_BINS,
            forall|j: int| 0 <= j < i ==> #[trigger] bins@[j] == sweep_cache@[j],
        decreases WATERFALL_BINS - i,
    {
        bins[i] = sweep_cache[i];
        i += 1;
    }

    let mut i: usize = start;
    while i < end
        invariant
            start <= i <= end <= WATERFALL_BINS,
            width == live_width(span_hz),
            start == live_start(span_hz),
            end == start + width,
            1 <= width,
            fft_db@.len() >= IF_HIGH_BIN,
            bins@.len() == WATERFALL_BINS,
            forall|j: int| 0 <= j < WATERFALL_BINS ==> #[trigger] bins@[j] == (if start <= j < i {
                composite_bin(fft_db@, sweep_cache@, span_hz, j)
            } else {
                sweep_cache@[j]
            }),
        decreases end - i,
    {
        let fft_pos = i - start;
        proof {
            let p = fft_pos as int;
            let w = width as int;
            assert(p * 267 <= 240 * 267) by (nonlinear_arith)
                requires 0 <= p <= 240;
            assert(p * 267 / w >= 0) by (nonlinear_arith)
                requires 0 <= p, w >= 1;
        }
        let src_bin = IF_LOW_BIN + (fft_pos * (IF_HIGH_BIN - IF_LOW_BIN)) / width;
        if src_bin < IF_HIGH_BIN {
            bins[i] = fft_db[src_bin];
        }
        i += 1;
    }

    WaterfallLine { bins, live_start: start as u8, live_end: end as u8, complete: true }
}

/// The live spectrum is centred, lies within the line, and covers the whole
/// line when the span is no wider than the IF bandwidth.
pub proof fn lemma_live_range_is_centred(span_hz: u32)
    ensures
        1 <= live_width(span_hz) <= WATERFALL_BINS,
        0 <= live_start(span_hz),
        live_start(span_hz) + live_width(span_hz) <= WATERFALL_BINS,
        WATERFALL_BINS - (live_start(span_hz) + live_width(span_hz)) - live_start(span_hz) <= 1,
        span_hz <= IF_BW_HZ ==> live_start(span_hz) == 0 && live_width(span_hz) == WATERFALL_BINS,
{
    if span_hz > IF_BW_HZ {
        let s = span_hz as int;
        assert((IF_BW_HZ * WATERFALL_BINS) as int / s <= WATERFALL_BINS) by (nonlinear_arith)
            requires s > 50_000;
    }
}

/// The front panel's waterfall history: a ring of the most recent lines.
pub struct WaterfallDisplayBuffer {
    lines: [[i8; WATERFALL_BINS]; WATERFALL_HEIGHT],
    live_starts: [u8; WATERFALL_HEIGHT],
    live_ends: [u8; WATERFALL_HEIGHT],
    write_index: usize,
    count: usize,
    center_freq: u32,
    span_hz: u32,
    sweep_status: SweepStatus,
    current_live_start: u8,
    current_live_end: u8,
}

/// One line of history: its levels and its live columns.
pub struct HistoryLine {
    pub bins: Seq<i8>,
    pub live_start: u8,
    pub live_end: u8,
}

/// The history as the display shows it.
pub struct WaterfallView {
    /// The stored lines, oldest first.
    pub history: Seq<HistoryLine>,
    pub center_freq: u32,
    pub span_hz: u32,
    pub sweep_status: SweepStatus,
    pub current_live_start: u8,
    pub current_live_end: u8,
}

impl WaterfallDisplayBuffer {
    /// Where the ring slot of history row `row` (0 is the oldest) lies.
    pub closed spec fn slot(&self, row: int) -> int {
        (self.write_index + WATERFALL_HEIGHT - self.count + row) % (WATERFALL_HEIGHT as int)
    }

    /// The ring's bookkeeping is consistent: until the ring is full, lines
    /// are stored from slot zero on.
    pub closed spec fn wf(&self) -> bool {
        &&& self.write_index < WATERFALL_HEIGHT
        &&& self.count <= WATERFALL_HEIGHT
        &&& self.count < WATERFALL_HEIGHT ==> self.write_index == self.count
    }

    pub closed spec fn view(&self) -> WaterfallView {
        WaterfallView {
            history: Seq::new(
                self.count as nat,
                |r: int|
                    HistoryLine {
                        bins: self.lines@[self.slot(r)]@,
                        live_start: self.live_starts@[self.slot(r)],
                        live_end: self.live_ends@[self.slot(r)],
                    },
            ),
            center_freq: self.center_freq,
            span_hz: self.span_hz,
            sweep_status: self.sweep_status,
            current_live_start: self.current_live_start,
            current_live_end: self.current_live_end,
        }
    }

    /// An empty history centred on 7.100 MHz with a 100 kHz span.
    pub fn new() -> (b: Self)
        ensures
            b.wf(),
            b.view().history.len() == 0,
            b.view().center_freq == 7_100_000,
            b.view().span_hz == 100_000,
            b.view().sweep_status == SweepStatus::Idle,
            b.view().current_live_start == 0,
            b.view().current_live_end == WATERFALL_BINS,
    {
        WaterfallDisplayBuffer {
            lines: [[DBM_MIN; WATERFALL_BINS]; WATERFALL_HEIGHT],
            live_starts: [0; WATERFALL_HEIGHT],
            live_ends: [WATERFALL_BINS as u8; WATERFALL_HEIGHT],
            write_index: 0,
            count: 0,
            center_freq: 7_100_000,
            span_hz: 100_000,
            sweep_status: SweepStatus::Idle,
            current_live_start: 0,
            current_live_end: WATERFALL_BINS as u8,
        }
    }

    /// Appends a line; once the history is full the oldest line drops out.
    pub fn push(&mut self, data: &WaterfallLineData)
        requires
            old(self).wf(),
        ensures
            final(self).wf(),
            ({
                let h = old(self).view().history;
                let line = HistoryLine { bins: data.bins@, live_start: data.live_start, live_end: data.live_end };
                final(self).view() == (WaterfallView {
                    history: if h.len() < WATERFALL_HEIGHT { h.push(line) } else { h.drop_first().push(line) },
                    center_freq: data.center_freq,
                    span_hz: data.span_hz,
                    sweep_status: data.sweep_status,
                    current_live_start: data.live_start,
                    current_live_end: data.live_end,
                })
            }),
    {
        let ghost old_self = *self;
        self.lines[self.write_index] = data.bins;
        self.live_starts[self.write_index] = data.live_start;
        self.live_ends[self.write_index] = data.live_end;
        self.write_index = (self.write_index + 1) % WATERFALL_HEIGHT;
        if self.count < WATERFALL_HEIGHT {
            self.count += 1;
        }
        self.center_freq = data.center_freq;
        self.span_hz = data.span_hz;
        self.sweep_status = data.sweep_status;
        self.current_live_start = data.live_start;
        self.current_live_end = data.live_end;
        proof {
            let h = old_self.view().history;
            let line = HistoryLine { bins: data.bins@, live_start: data.live_start, live_end: data.live_end };
            let expected = if h.len() < WATERFALL_HEIGHT { h.push(line) } else { h.drop_first().push(line) };
            let hn = self.view().history;
            assert(hn.len() == expected.len());
            assert forall|r: int| 0 <= r < hn.len() implies hn[r] == expected[r] by {
                if old_self.count < WATERFALL_HEIGHT {
                    assert(self.slot(r) == r);
                    assert(old_self.slot(r) == r);
                } else {
                    let w = old_self.write_index as int;
                    assert(self.slot(r) == (w + 1 + r) % 90);
                    if r < hn.len() - 1 {
                        assert(old_self.slot(r + 1) == (w + r + 1) % 90);
                        assert(self.slot(r) != w);
                    } else {
                        assert(self.slot(r) == w);
                    }
                }
            }
            assert(hn =~= expected);
        }
    }

    /// The ring slot of the newest line.
    fn newest_index(&self) -> (i: usize)
        requires
            self.wf(),
        ensures
            i < WATERFALL_HEIGHT,
            self.view().history.len() > 0 ==> i == self.slot(self.view().history.len() - 1),
    {
        if self.write_index == 0 {
            WATERFALL_HEIGHT - 1
        } else {
            self.write_index - 1
        }
    }

    /// The newest line's levels (all at the display floor before any line
    /// arrived).
    pub fn newest_line(&self) -> (line: &[i8; WATERFALL_BINS])
        requires
            self.wf(),
        ensures
            self.view().history.len() > 0 ==> line@ == self.view().history.last().bins,
    {
        &self.lines[self.newest_index()]
    }

    /// The ring slot of history row `row`.
    fn row_index(&self, row: usize) -> (i: usize)
        requires
            self.wf(),
            row < WATERFALL_HEIGHT,
        ensures
            i == self.slot(row as int),
            i < WATERFALL_HEIGHT,
    {
        (self.write_index + WATERFALL_HEIGHT - self.count + row) % WATERFALL_HEIGHT
    }

    /// The levels of history row `row`, oldest first.
    pub fn line_at(&self, row: usize) -> (line: &[i8; WATERFALL_BINS])
        requires
            self.wf(),
            row < self.view().history.len(),
        ensures
            line@ == self.view().history[row as int].bins,
    {
        &self.lines[self.row_index(row)]
    }

    /// The live columns of history row `row`.
    pub fn live_range_at(&self, row: usize) -> (r: (u8, u8))
        requires
            self.wf(),
            row < self.view().history.len(),
        ensures
            r == (self.view().history[row as int].live_start, self.view().history[row as int].live_end),
    {
        let idx = self.row_index(row);
        (self.live_starts[idx], self.live_ends[idx])
    }

    /// Lines stored, at most the display's height.
    pub fn count(&self) -> (n: usize)
        requires
            self.wf(),
        ensures
            n == self.view().history.len(),
            n <= WATERFALL_HEIGHT,
    {
        self.count
    }

    pub fn center_freq(&self) -> (f: u32)
        ensures
            f == self.view().center_freq,
    {
        self.center_freq
    }

    pub fn span_hz(&self) -> (s: u32)
        ensures
            s == self.view().span_hz,
    {
        self.span_hz
    }

    pub fn sweep_status(&self) -> (s: SweepStatus)
        ensures
            s == self.view().sweep_status,
    {
        self.sweep_status
    }

    /// The live columns of the newest line.
    pub fn current_live_range(&self) -> (r: (u8, u8))
        ensures
            r == (self.view().current_live_start, self.view().current_live_end),
    {
        (self.current_live_start, self.current_live_end)
    }
}

/// The history after one more line: the oldest line drops out once the
/// display's height is reached.
pub open spec fn history_push(h: Seq<HistoryLine>, line: HistoryLine) -> Seq<HistoryLine> {
    if h.len() < WATERFALL_HEIGHT { h.push(line) } else { h.drop_first().push(line) }
}

/// The history after each of `lines` was pushed in turn.
pub open spec fn history_after(h: Seq<HistoryLine>, lines: Seq<HistoryLine>) -> Seq<HistoryLine>
    decreases lines.len(),
{
    if lines.len() == 0 {
        h
    } else {
        history_push(history_after(h, lines.drop_last()), lines.last())
    }
}

/// However many lines are pushed, the history holds the most recent ones,
/// oldest first, as many as the display is high.
pub proof fn lemma_history_keeps_latest_lines(h: Seq<HistoryLine>, lines: Seq<HistoryLine>)
    requires
        h.len() <= WATERFALL_HEIGHT,
    ensures
        history_after(h, lines) == (if h.len() + lines.len() <= WATERFALL_HEIGHT {
            h + lines
        } else {
            (h + lines).skip(h.len() + lines.len() - WATERFALL_HEIGHT)
        }),
    decreases lines.len(),
{
    if lines.len() > 0 {
        let init = lines.drop_last();
        lemma_history_keeps_latest_lines(h, init);
        let prev = history_after(h, init);
        let all = h + lines;
        assert(h + init =~= all.drop_last());
        assert(all.last() == lines.last());
        if h.len() + lines.len() <= WATERFALL_HEIGHT {
            assert(prev.push(lines.last()) =~= all);
        } else if h.len() + init.len() <= WATERFALL_HEIGHT {
            assert(prev.len() == WATERFALL_HEIGHT);
            assert(prev.drop_first().push(lines.last()) =~= all.skip(1));
        } else {
            let k = h.len() + init.len() - WATERFALL_HEIGHT;
            assert(prev =~= all.drop_last().skip(k));
            assert(prev.drop_first().push(lines.last()) =~= all.skip(k + 1));
        }
    }
}

} // verus!
