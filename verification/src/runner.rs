use vstd::prelude::*;

use crate::clock::{delta_spec, FrameClock};
use crate::scheduler::FrameScheduler;
use crate::sim::{DrawCmd, FrameCtx, RenderCtx, Simulation};

verus! {

/// Per-run bookkeeping: the number of completed ticks and the clock
/// that remembers the last timestamp seen.
pub struct SimCtxState {
    /// Number of completed ticks; the next tick's sequence number.
    pub frame_count: u64,
    /// The frame clock; `None` inside until the first tick completes.
    pub clock: FrameClock,
}

impl Default for SimCtxState {
    fn default() -> (s: Self)
        ensures
            s.frame_count == 0,
            s.clock.last_timestamp() is None,
    {
        SimCtxState { frame_count: 0, clock: FrameClock::new() }
    }
}

/// Composes the scheduler, the clock and a simulation payload. Each
/// tick it assembles a fresh `FrameCtx`, invokes `render` then
/// `update` in that fixed order, and advances its bookkeeping only
/// afterwards, so that the context's sequence number is the count of
/// ticks completed before it.
pub struct SimulationRunner<S: Simulation> {
    pub ctx: SimCtxState,
    pub sched: FrameScheduler,
    pub sim: S,
}

impl<S: Simulation> SimulationRunner<S> {
    /// The frame context a tick at `now` observes: the current
    /// sequence number, the measured delta, and the raw timestamp.
    pub open spec fn frame_ctx_for(self, now: u64) -> FrameCtx {
        FrameCtx {
            frame: self.ctx.frame_count,
            delta_ms: delta_spec(self.ctx.clock.last_timestamp(), now),
            timestamp_ms: now,
        }
    }

    pub fn new(sim: S) -> (r: Self)
        ensures
            r.ctx.frame_count == 0,
            r.ctx.clock.last_timestamp() is None,
            r.sched.is_idle(),
            r.sim == sim,
    {
        SimulationRunner { ctx: SimCtxState::default(), sched: FrameScheduler::new(), sim }
    }

    /// Arm the first registration and return immediately; the host
    /// drives the chain from here on, one `on_frame` per wake-up.
    pub fn start(&mut self)
        requires
            old(self).sched.is_idle(),
        ensures
            final(self).sched.is_armed(),
            final(self).ctx == old(self).ctx,
            final(self).sim == old(self).sim,
    {
        self.sched.start();
    }

    /// Decline all future registrations; an in-flight tick still
    /// completes, and a wake-up that arrives afterwards is a no-op.
    pub fn cancel(&mut self)
        ensures
            final(self).sched.is_stopped(),
            !final(self).sched.is_armed(),
            final(self).ctx == old(self).ctx,
            final(self).sim == old(self).sim,
    {
        self.sched.cancel();
    }

    /// Whether the chain should create the registration for the next
    /// tick (and whether a wake-up would run a tick body at all).
    pub fn armed(&self) -> (r: bool)
        ensures
            r == self.sched.is_armed(),
    {
        self.sched.armed()
    }

    /// The context of the coming tick; reads only.
    fn frame_start(&self, timestamp_ms: u64) -> (frame: FrameCtx)
        ensures
            frame == self.frame_ctx_for(timestamp_ms),
    {
        let delta_ms = self.ctx.clock.delta_for(timestamp_ms);
        FrameCtx { frame: self.ctx.frame_count, delta_ms, timestamp_ms }
    }

    /// Advance the bookkeeping, strictly after `render` and `update`.
    fn frame_end(&mut self, timestamp_ms: u64)
        requires
            old(self).ctx.frame_count < u64::MAX,
        ensures
            final(self).ctx.frame_count == old(self).ctx.frame_count + 1,
            final(self).ctx.clock.last_timestamp() == Some(timestamp_ms),
            final(self).sched == old(self).sched,
            final(self).sim == old(self).sim,
    {
        self.ctx.frame_count = self.ctx.frame_count + 1;
        self.ctx.clock.record(timestamp_ms);
    }

    /// The tick body the armed registration runs on a host wake-up at
    /// `timestamp_ms`: measure the delta, assemble the frame context,
    /// `render` onto `surface`, `update`, then advance the
    /// bookkeeping. Returns the context the tick observed, or `None`
    /// without any effect when the chain is not armed — a wake-up
    /// after cancellation finds a no-op.
    pub fn on_frame(&mut self, timestamp_ms: u64, surface: &mut RenderCtx) -> (res: Option<
        FrameCtx,
    >)
        requires
            old(self).sched.is_armed() ==> old(self).ctx.frame_count < u64::MAX,
        ensures
            res is Some <==> old(self).sched.is_armed(),
            res is None ==> *final(self) == *old(self) && *final(surface) == *old(surface),
            res is Some ==> ({
                let frame = (*old(self)).frame_ctx_for(timestamp_ms);
                &&& res == Some(frame)
                &&& final(surface).width == old(surface).width
                &&& final(surface).height == old(surface).height
                &&& final(surface).cmds@ == old(surface).cmds@ + old(self).sim.draws(frame)
                &&& final(self).sim == old(self).sim.next_state(frame)
                &&& final(self).ctx.frame_count == old(self).ctx.frame_count + 1
                &&& final(self).ctx.clock.last_timestamp() == Some(timestamp_ms)
                &&& final(self).sched == old(self).sched
            }),
    {
        if !self.sched.armed() {
            return None;
        }
        let frame = self.frame_start(timestamp_ms);
        self.sim.render(surface, &frame);
        self.sim.update(&frame);
        self.frame_end(timestamp_ms);
        Some(frame)
    }
}

/// The frame context of tick `i` in a run over the timestamps `ts`
/// that starts from a fresh clock: sequence number `i`, the measured
/// delta, the raw timestamp.
pub open spec fn frame_at(ts: Seq<u64>, i: int) -> FrameCtx {
    FrameCtx {
        frame: i as u64,
        delta_ms: if i == 0 {
            0u64
        } else {
            delta_spec(Some(ts[i - 1]), ts[i])
        },
        timestamp_ms: ts[i],
    }
}

/// The simulation state at the start of tick `i` of such a run: the
/// initial state advanced by the updates of ticks `0 .. i`.
pub open spec fn sim_at<S: Simulation>(init: S, ts: Seq<u64>, i: int) -> S
    decreases i,
{
    if i <= 0 {
        init
    } else {
        sim_at(init, ts, i - 1).next_state(frame_at(ts, i - 1))
    }
}

/// How many ticks a run over `n` timestamps completes when
/// cancellation is requested right after the tick with sequence
/// number `cancel_after` (if any): ticks `0 ..= cancel_after` run,
/// later ones do not.
pub open spec fn ticks_run(n: int, cancel_after: Option<u64>) -> int {
    match cancel_after {
        Option::Some(k) => if k as int + 1 < n {
            k as int + 1
        } else {
            n
        },
        Option::None => n,
    }
}

/// Whether such a run is actually cancelled: only when the named tick
/// exists within the run.
pub open spec fn was_cancelled(n: int, cancel_after: Option<u64>) -> bool {
    match cancel_after {
        Option::Some(k) => (k as int) < n,
        Option::None => false,
    }
}

/// What a bounded synthetic run observed: the frame context and the
/// drawing commands of each completed tick, the number of
/// registrations a counting host saw, whether the run was cancelled,
/// and the runner as the run left it.
pub struct RunReport<S: Simulation> {
    pub frames: Vec<FrameCtx>,
    pub draw_log: Vec<Vec<DrawCmd>>,
    pub registrations: u64,
    pub cancelled: bool,
    pub runner: SimulationRunner<S>,
}

/// Drives `sim` through one tick per entry of `timestamps`, exactly as
/// the host chain would: arm the first registration, then on each
/// wake-up run the tick body onto a fresh surface and re-arm — unless
/// `cancel_after` names the tick just completed, in which case no
/// further registration is created and no later tick body runs.
///
/// The contract pins the whole run down. Tick `i` observes
/// `frame_at(timestamps@, i)`: sequence number exactly `i`, delta 0 on
/// the first tick, and otherwise the clamped timestamp difference.
/// Tick `i` renders exactly the commands of `sim_at(sim, timestamps@,
/// i)` — the state left by tick `i - 1`'s update, never one mutated by
/// tick `i`'s own update. The registration count is one more than the
/// tick count, or equal to it when the run was cancelled before the
/// next arm.
pub fn run_simulation_loop<S: Simulation>(
    sim: S,
    width: u32,
    height: u32,
    timestamps: &Vec<u64>,
    cancel_after: Option<u64>,
) -> (report: RunReport<S>)
    requires
        timestamps@.len() < u64::MAX,
    ensures
        report.frames@.len() == ticks_run(timestamps@.len() as int, cancel_after),
        forall|i: int|
            0 <= i < report.frames@.len() ==> report.frames@[i] == frame_at(timestamps@, i),
        report.draw_log@.len() == report.frames@.len(),
        forall|i: int|
            0 <= i < report.frames@.len() ==> report.draw_log@[i]@ == sim_at(
                sim,
                timestamps@,
                i,
            ).draws(frame_at(timestamps@, i)),
        report.runner.sim == sim_at(sim, timestamps@, report.frames@.len() as int),
        report.cancelled == was_cancelled(timestamps@.len() as int, cancel_after),
        report.registrations as int == report.frames@.len() + (if report.cancelled {
            0int
        } else {
            1int
        }),
        report.runner.ctx.frame_count as int == report.frames@.len() as int,
        report.runner.sched.is_stopped() == report.cancelled,
        !report.cancelled ==> report.runner.sched.is_armed(),
        report.frames@.len() > 0 ==> report.runner.ctx.clock.last_timestamp() == Some(
            timestamps@[report.frames@.len() - 1],
        ),
        report.frames@.len() == 0 ==> report.runner.ctx.clock.last_timestamp() is None,
{
    let ghost init = sim;
    let mut runner = SimulationRunner::new(sim);
    runner.start();
    let mut frames: Vec<FrameCtx> = Vec::new();
    let mut draw_log: Vec<Vec<DrawCmd>> = Vec::new();
    let mut registrations: u64 = 1;
    let mut cancelled: bool = false;
    let mut i: usize = 0;
    while i < timestamps.len() && !cancelled
        invariant
            timestamps@.len() < u64::MAX,
            i <= timestamps@.len(),
            runner.ctx.frame_count == i as u64,
            runner.sim == sim_at(init, timestamps@, i as int),
            i > 0 ==> runner.ctx.clock.last_timestamp() == Some(timestamps@[i as int - 1]),
            i == 0 ==> runner.ctx.clock.last_timestamp() is None,
            frames@.len() == i,
            draw_log@.len() == i,
            forall|j: int| 0 <= j < i ==> frames@[j] == frame_at(timestamps@, j),
            forall|j: int|
                0 <= j < i ==> draw_log@[j]@ == sim_at(init, timestamps@, j).draws(
                    frame_at(timestamps@, j),
                ),
            !cancelled ==> runner.sched.is_armed(),
            !cancelled ==> registrations as int == i as int + 1,
            !cancelled ==> (match cancel_after {
                Option::Some(k) => i as int <= k as int,
                Option::None => true,
            }),
            cancelled ==> runner.sched.is_stopped(),
            cancelled ==> registrations as int == i as int,
            cancelled ==> (match cancel_after {
                Option::Some(k) => k as int == i as int - 1 && (k as int) < timestamps@.len(),
                Option::None => false,
            }),
        decreases timestamps@.len() - i,
    {
        let ts = timestamps[i];
        let mut surface = RenderCtx::new(width, height);
        // The chain is armed while the loop runs, so the tick ran.
        let frame = runner.on_frame(ts, &mut surface).unwrap();
        proof {
            assert(frame == frame_at(timestamps@, i as int));
            assert(surface.cmds@ =~= sim_at(init, timestamps@, i as int).draws(
                frame_at(timestamps@, i as int),
            ));
        }
        frames.push(frame);
        draw_log.push(surface.cmds);
        if let Some(k) = cancel_after {
            if k == i as u64 {
                runner.cancel();
                cancelled = true;
            }
        }
        if runner.armed() {
            registrations = registrations + 1;
        }
        i = i + 1;
    }
    RunReport { frames, draw_log, registrations, cancelled, runner }
}

/// For host timestamps strictly increasing across a run, the context
/// of tick `i` carries sequence number `i` exactly and, for `i > 0`,
/// a delta of exactly `ts[i] - ts[i - 1]`; the first tick's delta is
/// the sentinel 0 regardless of the absolute value of `ts[0]`.
pub proof fn lemma_frames_exact_for_monotone(ts: Seq<u64>, i: int)
    requires
        0 <= i < ts.len(),
        forall|j: int| 0 < j < ts.len() ==> ts[j - 1] < #[trigger] ts[j],
    ensures
        frame_at(ts, i).frame == i as u64,
        frame_at(ts, i).timestamp_ms == ts[i],
        i > 0 ==> frame_at(ts, i).delta_ms == ts[i] - ts[i - 1],
        i == 0 ==> frame_at(ts, i).delta_ms == 0,
{
    if i > 0 {
        assert(ts[i - 1] < ts[i]);
    }
}

} // verus!
