//! A long-running simulation: scans starting numbers in order, computes the
//! Collatz sequence length of each, tracks the record holder, and keeps a
//! sliding history of recent lengths for a bar-graph display.
use vstd::prelude::*;
use vstd::arithmetic::div_mod::lemma_fundamental_div_mod_converse;
use std::sync::mpsc::SyncSender;
use crate::BUFFER_LEN;
use crate::SIM_HEIGHT;
use crate::SIM_WIDTH;
use crate::channel::send_value;

verus! {

/// How many recent lengths the sliding history keeps.
pub const HISTORY_LEN: usize = 400;

/// The length that fills the whole graph height; longer bars are clamped.
pub const MAX_GRAPH_LEN: u64 = 525;

/// Every starting number below this bound is checked.
pub const SCAN_LIMIT: u64 = 1_000_000;

/// Step budget for one length computation; far above any length reached from
/// the scanned range, so it only bounds the loop for the prover.
pub const COLLATZ_FUEL: u64 = 100_000;

/// One snapshot of the scan: the number just checked, its length, the record
/// so far, and the recent lengths for the graph.
pub struct CollatzState {
    pub current_num: u64,
    pub current_len: u64,
    pub best_num: u64,
    pub best_len: u64,
    pub history: Vec<u64>,
}

/// Length of the Collatz sequence from `n` down to 1, counting both ends,
/// within a step budget: `None` if the budget runs out or a step would
/// overflow 64 bits.
pub open spec fn collatz_len_spec(n: u64, fuel: nat) -> Option<nat>
    decreases fuel,
{
    if n <= 1 {
        Some(1)
    } else if fuel == 0 {
        None
    } else if n % 2 == 0 {
        match collatz_len_spec(n / 2, (fuel - 1) as nat) {
            Some(l) => Some(l + 1),
            None => None,
        }
    } else if n > (u64::MAX - 1) / 3 {
        None
    } else {
        match collatz_len_spec((3 * n + 1) as u64, (fuel - 1) as nat) {
            Some(l) => Some(l + 1),
            None => None,
        }
    }
}

/// Computes the Collatz sequence length of `n0` in at most `fuel` steps.
pub fn collatz_len(n0: u64, fuel: u64) -> (r: Option<u64>)
    requires
        fuel < u64::MAX,
    ensures
        match r {
            Some(l) => collatz_len_spec(n0, fuel as nat) == Some(l as nat),
            None => collatz_len_spec(n0, fuel as nat) is None,
        },
{
    let mut n = n0;
    let mut len: u64 = 1;
    let mut remaining = fuel;
    while n > 1
        invariant
            fuel < u64::MAX,
            remaining <= fuel,
            len == 1 + fuel - remaining,
            collatz_len_spec(n0, fuel as nat) == (match collatz_len_spec(n, remaining as nat) {
                Some(l) => Some((l + len - 1) as nat),
                None => None::<nat>,
            }),
        decreases remaining,
    {
        if remaining == 0 {
            return None;
        }
        if n % 2 == 0 {
            n = n / 2;
        } else {
            if n > (u64::MAX - 1) / 3 {
                return None;
            }
            n = 3 * n + 1;
        }
        remaining -= 1;
        len += 1;
    }
    Some(len)
}

/// The history after recording one more length: append it, and if the cap is
/// now exceeded drop the oldest entry.
pub open spec fn history_after(h: Seq<u64>, len: u64) -> Seq<u64> {
    let p = h.push(len);
    if p.len() > HISTORY_LEN {
        p.remove(0)
    } else {
        p
    }
}

/// The initial scan state: nothing checked, no record, empty history.
pub open spec fn is_initial_collatz(s: CollatzState) -> bool {
    &&& s.current_num == 0
    &&& s.current_len == 0
    &&& s.best_num == 0
    &&& s.best_len == 0
    &&& s.history@ == Seq::<u64>::empty()
}

impl CollatzState {
    /// The sliding history never outgrows its cap.
    pub open spec fn wf(self) -> bool {
        self.history@.len() <= HISTORY_LEN
    }

    /// Records that number `i` was found to have length `len`: updates the
    /// current pair, appends to the sliding history, and takes the record if
    /// the length beats it.
    pub fn record_step(&mut self, i: u64, len: u64)
        requires
            old(self).wf(),
        ensures
            final(self).wf(),
            final(self).current_num == i,
            final(self).current_len == len,
            final(self).history@ == history_after(old(self).history@, len),
            final(self).best_len == (if len > old(self).best_len {
                len
            } else {
                old(self).best_len
            }),
            final(self).best_num == (if len > old(self).best_len {
                i
            } else {
                old(self).best_num
            }),
    {
        self.current_num = i;
        self.current_len = len;
        self.history.push(len);
        if self.history.len() > HISTORY_LEN {
            self.history.remove(0);
        }
        if len > self.best_len {
            self.best_len = len;
            self.best_num = i;
        }
    }
}

impl Default for CollatzState {
    fn default() -> (s: Self)
        ensures
            is_initial_collatz(s),
            s.wf(),
    {
        CollatzState {
            current_num: 0,
            current_len: 0,
            best_num: 0,
            best_len: 0,
            history: Vec::new(),
        }
    }
}

impl Clone for CollatzState {
    fn clone(&self) -> (r: Self)
        ensures
            r.current_num == self.current_num,
            r.current_len == self.current_len,
            r.best_num == self.best_num,
            r.best_len == self.best_len,
            r.history@ == self.history@,
    {
        let mut history: Vec<u64> = Vec::new();
        let mut i: usize = 0;
        while i < self.history.len()
            invariant
                i <= self.history@.len(),
                history@ == self.history@.take(i as int),
            decreases self.history@.len() - i,
        {
            history.push(self.history[i]);
            proof {
                assert(history@ =~= self.history@.take(i + 1));
            }
            i += 1;
        }
        proof {
            assert(self.history@.take(self.history@.len() as int) =~= self.history@);
        }
        CollatzState {
            current_num: self.current_num,
            current_len: self.current_len,
            best_num: self.best_num,
            best_len: self.best_len,
            history,
        }
    }
}

/// The recipe: walks every starting number below [`SCAN_LIMIT`] in order,
/// records each length, and hands a snapshot through the channel after every
/// number. The send blocks until the host drains the previous snapshot, which
/// throttles the worker to the host's pace; a failed send means the bridge was
/// reset or dropped, and the worker stops quietly. All its effects flow
/// through the channel, so nothing is stated here; the per-step logic is
/// specified on [`collatz_len`] and [`CollatzState::record_step`].
pub fn solve(tx: SyncSender<CollatzState>) {
    let mut state = CollatzState::default();
    let mut i: u64 = 1;
    while i < SCAN_LIMIT
        invariant
            state.wf(),
            1 <= i,
        decreases SCAN_LIMIT - i,
    {
        let len = match collatz_len(i, COLLATZ_FUEL) {
            Some(l) => l,
            None => {
                return ;
            },
        };
        state.record_step(i, len);
        let snapshot = state.clone();
        if !send_value(&tx, snapshot) {
            return ;
        }
        i += 1;
    }
}

/// Height, in pixels from the bottom edge, of the bar for one recorded
/// length: scaled so that [`MAX_GRAPH_LEN`] fills the screen, clamped there.
pub open spec fn bar_height(len: u64) -> int {
    if len >= MAX_GRAPH_LEN {
        SIM_HEIGHT as int
    } else {
        (len * SIM_HEIGHT) / (MAX_GRAPH_LEN as int)
    }
}

/// Green intensity at height `y` from the bottom: doubles with height, wrapping
/// every 256 pixels and saturating at full brightness.
pub open spec fn intensity(y: int) -> u8 {
    let m = y % 256;
    if m >= 128 {
        255u8
    } else {
        (2 * m) as u8
    }
}

/// Color of the pixel at `row` (from the top) and `col`: part of a bar if the
/// history has an entry for the column tall enough to reach it, black
/// otherwise. Bars fade from blue at the bottom toward cyan and white above.
pub open spec fn graph_color(hist: Seq<u64>, row: int, col: int) -> (u8, u8, u8) {
    let y = SIM_HEIGHT - 1 - row;
    if col < hist.len() && y < bar_height(hist[col]) {
        (0u8, intensity(y), (255 - intensity(y) / 2) as u8)
    } else {
        (0u8, 0u8, 0u8)
    }
}

/// Byte `j` of the rendered graph, row-major, 3 bytes per pixel.
pub open spec fn graph_byte(hist: Seq<u64>, j: int) -> u8 {
    let p = j / 3;
    let ch = j % 3;
    let row = p / (SIM_WIDTH as int);
    let col = p % (SIM_WIDTH as int);
    let c = graph_color(hist, row, col);
    if ch == 0 {
        c.0
    } else if ch == 1 {
        c.1
    } else {
        c.2
    }
}

fn intensity_at(y: usize) -> (r: u8)
    requires
        y < SIM_HEIGHT,
    ensures
        r == intensity(y as int),
{
    let m: usize = y % 256;
    if m >= 128 {
        255
    } else {
        (2 * m) as u8
    }
}

/// Computes the color of one pixel of the graph.
fn graph_pixel(state: &CollatzState, row: usize, col: usize) -> (rgb: (u8, u8, u8))
    requires
        row < SIM_HEIGHT,
        col < SIM_WIDTH,
    ensures
        rgb == graph_color(state.history@, row as int, col as int),
{
    let y: usize = SIM_HEIGHT - 1 - row;
    let mut drawn = false;
    if col < state.history.len() {
        let len = state.history[col];
        let bar: usize = if len >= MAX_GRAPH_LEN {
            SIM_HEIGHT
        } else {
            ((len as usize) * SIM_HEIGHT) / 525
        };
        drawn = y < bar;
    }
    if drawn {
        let g = intensity_at(y);
        (0, g, 255 - g / 2)
    } else {
        (0, 0, 0)
    }
}

/// Overwrites the buffer with the history bar graph: one column per recorded
/// length, drawn from the bottom, black background.
pub fn render(state: &CollatzState, buffer: &mut Vec<u8>)
    ensures
        final(buffer)@.len() == BUFFER_LEN,
        forall|j: int| 0 <= j < BUFFER_LEN ==> final(buffer)@[j] == graph_byte(state.history@, j),
{
    buffer.clear();
    let mut row: usize = 0;
    while row < SIM_HEIGHT
        invariant
            row <= SIM_HEIGHT,
            buffer@.len() == 3 * (SIM_WIDTH as int) * row,
            forall|j: int| 0 <= j < buffer@.len() ==> buffer@[j] == graph_byte(state.history@, j),
        decreases SIM_HEIGHT - row,
    {
        proof {
            assert(3 * (SIM_WIDTH as int) * (row as int) == 3 * ((SIM_WIDTH as int) * (row as int)
                + 0)) by (nonlinear_arith);
        }
        let mut col: usize = 0;
        while col < SIM_WIDTH
            invariant
                row < SIM_HEIGHT,
                col <= SIM_WIDTH,
                buffer@.len() == 3 * ((SIM_WIDTH as int) * row + col),
                forall|j: int| 0 <= j < buffer@.len() ==> buffer@[j] == graph_byte(state.history@, j),
            decreases SIM_WIDTH - col,
        {
            let (r, g, b) = graph_pixel(state, row, col);
            let ghost p = (SIM_WIDTH as int) * row + col;
            buffer.push(r);
            buffer.push(g);
            buffer.push(b);
            proof {
                lemma_fundamental_div_mod_converse(3 * p, 3, p, 0);
                lemma_fundamental_div_mod_converse(3 * p + 1, 3, p, 1);
                lemma_fundamental_div_mod_converse(3 * p + 2, 3, p, 2);
                lemma_fundamental_div_mod_converse(p, SIM_WIDTH as int, row as int, col as int);
            }
            col += 1;
        }
        proof {
            assert(3 * ((SIM_WIDTH as int) * (row as int) + (SIM_WIDTH as int)) == 3 * (
            SIM_WIDTH as int) * (row as int + 1)) by (nonlinear_arith);
        }
        row += 1;
    }
}

} // verus!
