//! Host harness for pluggable simulations: a fixed-timestep scheduler drives
//! the active simulation at a user-controlled rate, and an async bridge lets a
//! background worker feed state snapshots through a rendezvous channel without
//! ever blocking the host thread.
//!
//! Time is measured in integer microseconds and rates in integer millihertz,
//! so a rate of 60 Hz is written `60_000`.
use vstd::prelude::*;

pub mod channel;
pub mod p0014;
pub mod scheduler;
pub mod simple_grid;

use std::sync::mpsc::Receiver;
use std::sync::mpsc::SyncSender;
use crate::p0014::CollatzState;
use crate::p0014::graph_byte;
use crate::p0014::is_initial_collatz;
use crate::scheduler::Scheduler;
use crate::scheduler::STEP_CAP;
use crate::scheduler::step_micros;
use crate::scheduler::step_micros_spec;
use crate::scheduler::steps_for;
use crate::simple_grid::CELL_COUNT;
use crate::simple_grid::PixelFillSim;
use crate::simple_grid::fill_byte;

verus! {

broadcast use vstd::string::group_string_axioms;

/// Width of the fixed-format pixel buffer, in pixels.
pub const SIM_WIDTH: usize = 400;

/// Height of the fixed-format pixel buffer, in pixels.
pub const SIM_HEIGHT: usize = 300;

/// Total byte length of a pixel buffer: row-major, 3 bytes (R, G, B) per pixel.
pub const BUFFER_LEN: usize = 360_000;

/// Largest target rate the scheduler accepts, in millihertz (1 MHz), so that a
/// step lasts at least one microsecond.
pub const MAX_RATE_MILLIHZ: u64 = 1_000_000_000;

/// Advisory rate bounds for a simulation, in millihertz. The host's rate
/// control sizes its input to these bounds; the scheduler itself honors any
/// positive rate a caller sets.
#[derive(Clone, Copy)]
pub struct SimConfig {
    pub min_speed: u64,
    pub max_speed: u64,
    pub default_speed: u64,
}

impl SimConfig {
    /// All bounds positive and ordered, and small enough for the scheduler.
    pub open spec fn wf(self) -> bool {
        0 < self.min_speed <= self.default_speed <= self.max_speed <= MAX_RATE_MILLIHZ
    }

    /// The conservative fixed range used when a variant specifies nothing:
    /// 1 Hz to 10 kHz, starting at 60 Hz.
    pub open spec fn conservative() -> SimConfig {
        SimConfig { min_speed: 1_000, max_speed: 10_000_000, default_speed: 60_000 }
    }
}

impl Default for SimConfig {
    fn default() -> (c: Self)
        ensures
            c == SimConfig::conservative(),
            c.wf(),
    {
        SimConfig { min_speed: 1_000, max_speed: 10_000_000, default_speed: 60_000 }
    }
}

/// The placeholder simulation: does nothing and renders a black frame.
pub struct NoSim;

impl NoSim {
    pub fn name(&self) -> (r: &str)
        ensures
            r@ == "None"@,
    {
        "None"
    }

    pub fn update(&mut self)
        ensures
            *final(self) == *old(self),
    {
    }

    pub fn reset(&mut self)
        ensures
            *final(self) == *old(self),
    {
    }

    /// Overwrites the buffer with a full black frame.
    pub fn render(&self, buffer: &mut Vec<u8>)
        ensures
            final(buffer)@.len() == BUFFER_LEN,
            forall|i: int| 0 <= i < BUFFER_LEN ==> final(buffer)@[i] == 0u8,
    {
        buffer.clear();
        let mut i: usize = 0;
        while i < BUFFER_LEN
            invariant
                i <= BUFFER_LEN,
                buffer@.len() == i,
                forall|j: int| 0 <= j < i ==> buffer@[j] == 0u8,
            decreases BUFFER_LEN - i,
        {
            buffer.push(0);
            i += 1;
        }
    }
}

/// The async bridge: adapts a background computation to the capability
/// contract without ever blocking the host. A worker owns the sending half of
/// a rendezvous channel; the bridge polls the receiving half and keeps the
/// latest snapshot as its current state, so the worker can never run more
/// than one unconsumed step ahead.
#[verifier::reject_recursive_types(T)]
pub struct AsyncSim<T> {
    pub name: String,
    pub config: SimConfig,
    pub state: T,
    pub receiver: Option<Receiver<T>>,
}

impl<T> AsyncSim<T> {
    pub fn new(name: String, config: SimConfig, initial: T) -> (s: Self)
        ensures
            s.name == name,
            s.config == config,
            s.state == initial,
            s.receiver is None,
    {
        AsyncSim { name, config, state: initial, receiver: None }
    }

    /// Replaces the current state with the given fresh one and installs a new
    /// rendezvous channel, returning the sending half for a new worker. The
    /// previous channel's receiving half is dropped here, so the previous
    /// worker's next send fails and it stops: abandoned, never signalled.
    pub fn reset_with(&mut self, fresh: T) -> (tx: SyncSender<T>)
        ensures
            final(self).name == old(self).name,
            final(self).config == old(self).config,
            final(self).state == fresh,
            final(self).receiver is Some,
    {
        let (tx, rx) = crate::channel::rendezvous_channel();
        self.install_channel(fresh, rx);
        tx
    }

    /// Rearms the bridge on a hand-off channel whose receiving half the
    /// caller already holds: the fresh state becomes current and the old
    /// receiving half, if any, is dropped, cutting the old worker off.
    pub fn install_channel(&mut self, fresh: T, rx: Receiver<T>)
        ensures
            final(self).name == old(self).name,
            final(self).config == old(self).config,
            final(self).state == fresh,
            final(self).receiver is Some,
    {
        self.receiver = Some(rx);
        self.state = fresh;
    }

    /// Applies the outcome of one poll: a waiting snapshot wholly replaces the
    /// current state, and no snapshot leaves it untouched. The bridge never
    /// merges and never skips a snapshot it received.
    pub fn apply_poll(&mut self, polled: Option<T>)
        ensures
            final(self).name == old(self).name,
            final(self).config == old(self).config,
            final(self).receiver == old(self).receiver,
            (match polled {
                Some(v) => final(self).state == v,
                None => final(self).state == old(self).state,
            }),
    {
        match polled {
            Some(v) => self.state = v,
            None => {},
        }
    }

    /// One step of the bridge: a non-blocking poll of the channel, then
    /// [`Self::apply_poll`]. Returns at once whether or not the worker has a
    /// snapshot ready; with no channel installed the state stays as it is.
    pub fn update(&mut self)
        ensures
            final(self).name == old(self).name,
            final(self).config == old(self).config,
            final(self).receiver == old(self).receiver,
            old(self).receiver is None ==> final(self).state == old(self).state,
    {
        let polled = match &self.receiver {
            Some(rx) => crate::channel::poll_receiver(rx),
            None => None,
        };
        self.apply_poll(polled);
    }
}

/// The state a bridge holds after applying a run of poll outcomes to an
/// initial state, one [`AsyncSim::apply_poll`] per outcome.
pub open spec fn state_after_polls<T>(initial: T, polls: Seq<Option<T>>) -> T
    decreases polls.len(),
{
    if polls.len() == 0 {
        initial
    } else {
        match polls.last() {
            Some(v) => v,
            None => state_after_polls(initial, polls.drop_last()),
        }
    }
}

/// Observed-sequence law for the bridge: over any run of polls, the current
/// state is exactly the most recently received snapshot — an empty poll never
/// changes it, a waiting snapshot always replaces it whole, nothing is ever
/// skipped past or mixed in. Here `k` is the position of the last snapshot
/// that arrived.
pub proof fn lemma_current_state_is_last_received<T>(initial: T, polls: Seq<Option<T>>, k: int)
    requires
        0 <= k < polls.len(),
        polls[k] is Some,
        forall|j: int| k < j < polls.len() ==> #[trigger] polls[j] is None,
    ensures
        state_after_polls(initial, polls) == polls[k]->0,
    decreases polls.len(),
{
    if k + 1 < polls.len() {
        lemma_current_state_is_last_received(initial, polls.drop_last(), k);
    }
}

/// Observed-sequence law, empty case: until some snapshot arrives, every poll
/// leaves the bridge at its initial state.
pub proof fn lemma_current_state_starts_initial<T>(initial: T, polls: Seq<Option<T>>)
    requires
        forall|j: int| 0 <= j < polls.len() ==> #[trigger] polls[j] is None,
    ensures
        state_after_polls(initial, polls) == initial,
    decreases polls.len(),
{
    if polls.len() > 0 {
        lemma_current_state_starts_initial(initial, polls.drop_last());
    }
}

/// The advisory rate range of the Collatz scan: 1 Hz to 50 kHz, 10 kHz by
/// default, in millihertz.
pub open spec fn collatz_config() -> SimConfig {
    SimConfig { min_speed: 1_000, max_speed: 50_000_000, default_speed: 10_000_000 }
}

/// The closed set of simulation variants behind the shared capability
/// contract; exactly one is active at a time, owned by the composition root.
pub enum ActiveSim {
    Inactive(NoSim),
    Fill(PixelFillSim),
    Collatz(AsyncSim<CollatzState>),
}

impl ActiveSim {
    pub open spec fn wf(self) -> bool {
        match self {
            ActiveSim::Inactive(_) => true,
            ActiveSim::Fill(f) => f.wf(),
            ActiveSim::Collatz(a) => a.config.wf(),
        }
    }

    pub open spec fn name_spec(self) -> Seq<char> {
        match self {
            ActiveSim::Inactive(_) => "None"@,
            ActiveSim::Fill(_) => "Simple Pixel Fill"@,
            ActiveSim::Collatz(a) => a.name@,
        }
    }

    pub fn name(&self) -> (r: &str)
        ensures
            r@ == self.name_spec(),
    {
        match self {
            ActiveSim::Inactive(s) => s.name(),
            ActiveSim::Fill(s) => s.name(),
            ActiveSim::Collatz(a) => a.name.as_str(),
        }
    }

    /// Each variant's advisory rate range; the conservative fixed range where
    /// the variant specifies none.
    pub open spec fn config_spec(self) -> SimConfig {
        match self {
            ActiveSim::Collatz(a) => a.config,
            _ => SimConfig::conservative(),
        }
    }

    pub fn config(&self) -> (c: SimConfig)
        ensures
            c == self.config_spec(),
    {
        match self {
            ActiveSim::Collatz(a) => a.config,
            _ => SimConfig::default(),
        }
    }

    /// What `n` update calls in a row may do to a variant: the placeholder
    /// never moves, the fill demo advances its cursor by `n` up to the cell
    /// count, and the async bridge keeps its identity, configuration and
    /// channel while its state follows whatever snapshots arrived.
    pub open spec fn evolves(pre: ActiveSim, post: ActiveSim, n: int) -> bool {
        match (pre, post) {
            (ActiveSim::Inactive(a), ActiveSim::Inactive(b)) => b == a,
            (ActiveSim::Fill(a), ActiveSim::Fill(b)) => {
                &&& b.grid.width == a.grid.width
                &&& b.grid.height == a.grid.height
                &&& b.cursor_idx == (if a.cursor_idx + n <= CELL_COUNT {
                    a.cursor_idx + n
                } else {
                    CELL_COUNT as int
                })
            },
            (ActiveSim::Collatz(a), ActiveSim::Collatz(b)) => {
                &&& b.name == a.name
                &&& b.config == a.config
                &&& b.receiver == a.receiver
            },
            _ => false,
        }
    }

    /// Advances the active variant by exactly one discrete step. Never blocks:
    /// the async variant only polls.
    pub fn update(&mut self)
        requires
            old(self).wf(),
        ensures
            final(self).wf(),
            ActiveSim::evolves(*old(self), *final(self), 1),
    {
        match self {
            ActiveSim::Inactive(s) => s.update(),
            ActiveSim::Fill(s) => s.update(),
            ActiveSim::Collatz(a) => a.update(),
        }
    }

    /// The image each variant renders, byte for byte.
    pub open spec fn image_matches(self, bytes: Seq<u8>) -> bool {
        &&& bytes.len() == BUFFER_LEN
        &&& match self {
            ActiveSim::Inactive(_) => forall|j: int| 0 <= j < BUFFER_LEN ==> bytes[j] == 0u8,
            ActiveSim::Fill(f) => forall|j: int|
                0 <= j < BUFFER_LEN ==> bytes[j] == fill_byte(f.cursor_idx as int, j),
            ActiveSim::Collatz(a) => forall|j: int|
                0 <= j < BUFFER_LEN ==> bytes[j] == graph_byte(a.state.history@, j),
        }
    }

    /// Overwrites the buffer with the variant's current image; read-only on
    /// the simulation itself.
    pub fn render(&self, buffer: &mut Vec<u8>)
        requires
            self.wf(),
        ensures
            self.image_matches(final(buffer)@),
    {
        match self {
            ActiveSim::Inactive(s) => s.render(buffer),
            ActiveSim::Fill(s) => s.render(buffer),
            ActiveSim::Collatz(a) => crate::p0014::render(&a.state, buffer),
        }
    }

    /// What reset leaves behind, per variant: the placeholder unchanged, the
    /// fill demo back at the start, the bridge holding the initial state with
    /// a fresh channel installed.
    pub open spec fn reset_rel(pre: ActiveSim, post: ActiveSim) -> bool {
        match (pre, post) {
            (ActiveSim::Inactive(a), ActiveSim::Inactive(b)) => b == a,
            (ActiveSim::Fill(a), ActiveSim::Fill(b)) => {
                &&& b.cursor_idx == 0
                &&& b.grid.width == a.grid.width
                &&& b.grid.height == a.grid.height
            },
            (ActiveSim::Collatz(a), ActiveSim::Collatz(b)) => {
                &&& b.name == a.name
                &&& b.config == a.config
                &&& is_initial_collatz(b.state)
                &&& b.receiver is Some
            },
            _ => false,
        }
    }

    /// Returns the variant to its initial state. For the async variant this
    /// also installs a fresh channel and hands back its sending half: the
    /// caller must start a new worker with it, while the previous worker is
    /// left to stop at its next failed send.
    pub fn reset(&mut self) -> (tx: Option<SyncSender<CollatzState>>)
        requires
            old(self).wf(),
        ensures
            final(self).wf(),
            ActiveSim::reset_rel(*old(self), *final(self)),
            tx is Some <==> *old(self) is Collatz,
    {
        match self {
            ActiveSim::Inactive(_) => None,
            ActiveSim::Fill(s) => {
                s.reset();
                None
            },
            ActiveSim::Collatz(a) => Some(a.reset_with(CollatzState::default())),
        }
    }
}

/// Builds the Collatz simulation: an async bridge with the scan's advisory
/// rate range and the initial state, plus the sending half of its fresh
/// channel, with which the caller must start a worker running
/// [`p0014::solve`].
pub fn collatz_sim() -> (r: (ActiveSim, SyncSender<CollatzState>))
    ensures
        r.0.wf(),
        (match r.0 {
            ActiveSim::Collatz(a) => {
                &&& a.name@ == "Problem 14: Collatz"@
                &&& a.config == collatz_config()
                &&& is_initial_collatz(a.state)
                &&& a.receiver is Some
            },
            _ => false,
        }),
{
    let config = SimConfig { min_speed: 1_000, max_speed: 50_000_000, default_speed: 10_000_000 };
    let mut sim = AsyncSim::new(
        "Problem 14: Collatz".to_string(),
        config,
        CollatzState::default(),
    );
    let tx = sim.reset_with(CollatzState::default());
    (ActiveSim::Collatz(sim), tx)
}

proof fn lemma_evolves_step(a: ActiveSim, b: ActiveSim, c: ActiveSim, k: int)
    requires
        k >= 0,
        ActiveSim::evolves(a, b, k),
        ActiveSim::evolves(b, c, 1),
    ensures
        ActiveSim::evolves(a, c, k + 1),
{
}

/// The composition root: owns the one active capability instance, the pause
/// flag, the target rate, and the scheduler that converts frame time into
/// update calls.
pub struct App {
    pub current_sim: ActiveSim,
    pub is_paused: bool,
    pub updates_per_second: u64,
    pub scheduler: Scheduler,
}

impl App {
    pub open spec fn wf(self) -> bool {
        &&& self.current_sim.wf()
        &&& 0 < self.updates_per_second <= MAX_RATE_MILLIHZ
    }

    pub fn new() -> (a: Self)
        ensures
            a.wf(),
            a.current_sim is Inactive,
            !a.is_paused,
            a.updates_per_second == 60_000,
            a.scheduler.accumulator == 0,
    {
        App {
            current_sim: ActiveSim::Inactive(NoSim),
            is_paused: false,
            updates_per_second: 60_000,
            scheduler: Scheduler::new(),
        }
    }

    /// Installs a newly selected simulation and adopts its default rate.
    pub fn load_sim(&mut self, sim: ActiveSim)
        requires
            sim.wf(),
        ensures
            final(self).wf(),
            final(self).current_sim == sim,
            final(self).updates_per_second == sim.config_spec().default_speed,
            final(self).is_paused == old(self).is_paused,
            final(self).scheduler == old(self).scheduler,
    {
        let cfg = sim.config();
        self.updates_per_second = cfg.default_speed;
        self.current_sim = sim;
    }

    /// The host's pause control: freezes or resumes scheduling. An async
    /// worker then stays blocked in its send, since nothing drains its
    /// channel — effectively paused as well.
    pub fn set_paused(&mut self, paused: bool)
        ensures
            final(self).is_paused == paused,
            final(self).current_sim == old(self).current_sim,
            final(self).updates_per_second == old(self).updates_per_second,
            final(self).scheduler == old(self).scheduler,
    {
        self.is_paused = paused;
    }

    /// The host's rate control. Takes effect on the next scheduling pass;
    /// time debt already accumulated is not rescaled.
    pub fn set_rate(&mut self, rate_millihz: u64)
        requires
            0 < rate_millihz <= MAX_RATE_MILLIHZ,
        ensures
            final(self).updates_per_second == rate_millihz,
            final(self).current_sim == old(self).current_sim,
            final(self).is_paused == old(self).is_paused,
            final(self).scheduler == old(self).scheduler,
    {
        self.updates_per_second = rate_millihz;
    }

    /// The host's reset control: resets the active capability. For the async
    /// variant the caller receives the sending half for the fresh worker it
    /// must start.
    pub fn reset_current(&mut self) -> (tx: Option<SyncSender<CollatzState>>)
        requires
            old(self).wf(),
        ensures
            final(self).wf(),
            ActiveSim::reset_rel(old(self).current_sim, final(self).current_sim),
            tx is Some <==> old(self).current_sim is Collatz,
            final(self).is_paused == old(self).is_paused,
            final(self).updates_per_second == old(self).updates_per_second,
            final(self).scheduler == old(self).scheduler,
    {
        self.current_sim.reset()
    }

    /// One frame of host time. When paused, nothing moves: no update is
    /// issued and the accumulator does not advance. Otherwise the elapsed
    /// time feeds one scheduling pass and the resulting number of update
    /// calls goes to the active capability; that number is returned.
    pub fn frame(&mut self, elapsed_micros: u64) -> (n: u64)
        requires
            old(self).wf(),
            old(self).scheduler.accumulator + elapsed_micros <= u64::MAX,
        ensures
            final(self).wf(),
            final(self).is_paused == old(self).is_paused,
            final(self).updates_per_second == old(self).updates_per_second,
            old(self).is_paused ==> *final(self) == *old(self) && n == 0,
            !old(self).is_paused ==> {
                let step = step_micros_spec(old(self).updates_per_second);
                let total = old(self).scheduler.accumulator + elapsed_micros;
                &&& n == steps_for(total, step)
                &&& final(self).scheduler.accumulator == total - n * step
                &&& (n < STEP_CAP ==> final(self).scheduler.accumulator < step)
                &&& ActiveSim::evolves(old(self).current_sim, final(self).current_sim, n as int)
            },
    {
        if self.is_paused {
            return 0;
        }
        let step = step_micros(self.updates_per_second);
        let n = self.scheduler.pass(elapsed_micros, step);
        let ghost sim0 = self.current_sim;
        let ghost sched1 = self.scheduler;
        let mut k: u64 = 0;
        while k < n
            invariant
                k <= n,
                self.current_sim.wf(),
                ActiveSim::evolves(sim0, self.current_sim, k as int),
                self.is_paused == old(self).is_paused,
                self.updates_per_second == old(self).updates_per_second,
                self.scheduler == sched1,
            decreases n - k,
        {
            let ghost before = self.current_sim;
            self.current_sim.update();
            proof {
                lemma_evolves_step(sim0, before, self.current_sim, k as int);
            }
            k += 1;
        }
        n
    }

    /// Renders the active capability's current image into the host's pixel
    /// buffer, once per displayed frame.
    pub fn render_into(&self, buffer: &mut Vec<u8>)
        requires
            self.wf(),
        ensures
            self.current_sim.image_matches(final(buffer)@),
    {
        self.current_sim.render(buffer);
    }
}

} // verus!
