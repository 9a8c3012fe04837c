use frameloop::pendulum::Pendulum;
use frameloop::runner::{run_simulation_loop, SimCtxState, SimulationRunner};
use frameloop::scheduler::FrameScheduler;
use frameloop::sim::RenderCtx;

#[test]
fn scheduler_walks_idle_armed_stopped() {
    let mut s = FrameScheduler::new();
    assert!(!s.armed());
    s.start();
    assert!(s.armed());
    s.cancel();
    assert!(!s.armed());
}

#[test]
fn sim_ctx_state_defaults_to_zero_ticks() {
    let s = SimCtxState::default();
    assert_eq!(s.frame_count, 0);
    assert_eq!(s.clock.delta_for(7777), 0);
}

#[test]
fn tick_advances_sequence_and_clock() {
    let p = Pendulum::initial((0, 0), (0, 0), (0, 0));
    let mut runner = SimulationRunner::new(p);
    runner.start();
    let mut surface = RenderCtx::new(640, 480);

    let f0 = runner.on_frame(1000, &mut surface).unwrap();
    assert_eq!(f0.frame, 0);
    assert_eq!(f0.delta_ms, 0);
    assert_eq!(f0.timestamp_ms, 1000);

    let f1 = runner.on_frame(1016, &mut surface).unwrap();
    assert_eq!(f1.frame, 1);
    assert_eq!(f1.delta_ms, 16);
    assert_eq!(f1.timestamp_ms, 1016);
    assert_eq!(runner.ctx.frame_count, 2);
}

#[test]
fn wake_up_before_start_is_a_no_op() {
    let p = Pendulum::initial((0, 0), (0, 0), (0, 0));
    let mut runner = SimulationRunner::new(p);
    let mut surface = RenderCtx::new(640, 480);
    assert!(runner.on_frame(1000, &mut surface).is_none());
    assert_eq!(runner.ctx.frame_count, 0);
    assert!(surface.cmds.is_empty());
}

#[test]
fn wake_up_after_cancel_is_a_no_op() {
    // An already-armed callback that cannot be revoked must do nothing
    // once the loop is cancelled.
    let p = Pendulum::initial((0, 0), (5, 5), (0, 0));
    let mut runner = SimulationRunner::new(p);
    runner.start();
    let mut surface = RenderCtx::new(640, 480);
    assert!(runner.on_frame(0, &mut surface).is_some());
    runner.cancel();
    let before = surface.cmds.len();
    assert!(runner.on_frame(16, &mut surface).is_none());
    assert_eq!(runner.ctx.frame_count, 1);
    assert_eq!(surface.cmds.len(), before);
    assert_eq!(runner.sim.x, (0, 0));
}

#[test]
fn one_registration_outstanding_per_completed_tick() {
    // A counting host sees tick count + 1 registrations: the initial
    // arm plus one re-arm at the end of every tick.
    let p = Pendulum::initial((0, 0), (0, 0), (0, 0));
    let ts = vec![0, 16, 32, 48];
    let rep = run_simulation_loop(p, 640, 480, &ts, None);
    assert_eq!(rep.frames.len(), 4);
    assert_eq!(rep.registrations, 5);
    assert!(!rep.cancelled);
}

#[test]
fn cancellation_stops_rearming_and_later_ticks() {
    // Cancelling after tick 1 means ticks 0 and 1 ran, tick 2 never
    // does, and the registration count equals the tick count.
    let p = Pendulum::initial((0, 0), (0, 0), (0, 0));
    let ts = vec![0, 16, 32, 48];
    let rep = run_simulation_loop(p, 640, 480, &ts, Some(1));
    assert_eq!(rep.frames.len(), 2);
    assert_eq!(rep.registrations, 2);
    assert!(rep.cancelled);
    assert_eq!(rep.runner.ctx.frame_count, 2);
}

#[test]
fn empty_run_leaves_the_initial_arm_outstanding() {
    let p = Pendulum::initial((0, 0), (0, 0), (0, 0));
    let ts: Vec<u64> = vec![];
    let rep = run_simulation_loop(p, 640, 480, &ts, None);
    assert_eq!(rep.frames.len(), 0);
    assert_eq!(rep.registrations, 1);
    assert!(!rep.cancelled);
    assert_eq!(rep.runner.ctx.frame_count, 0);
}

#[test]
fn cancelling_after_the_first_tick_runs_exactly_one() {
    let p = Pendulum::initial((0, 0), (0, 0), (0, 0));
    let ts = vec![0, 16, 32];
    let rep = run_simulation_loop(p, 640, 480, &ts, Some(0));
    assert_eq!(rep.frames.len(), 1);
    assert_eq!(rep.registrations, 1);
    assert!(rep.cancelled);
}

#[test]
fn cancelling_a_tick_that_never_comes_changes_nothing() {
    let p = Pendulum::initial((0, 0), (0, 0), (0, 0));
    let ts = vec![0, 16];
    let rep = run_simulation_loop(p, 640, 480, &ts, Some(9));
    assert_eq!(rep.frames.len(), 2);
    assert_eq!(rep.registrations, 3);
    assert!(!rep.cancelled);
}

#[test]
fn run_reports_frame_contexts_in_order() {
    let p = Pendulum::initial((0, 0), (0, 0), (0, 0));
    let ts = vec![5, 21, 18, 60];
    let rep = run_simulation_loop(p, 640, 480, &ts, None);
    let frames: Vec<(u64, u64, u64)> =
        rep.frames.iter().map(|f| (f.frame, f.delta_ms, f.timestamp_ms)).collect();
    // The regression from 21 to 18 is clamped to a delta of 0.
    assert_eq!(frames, vec![(0, 0, 5), (1, 16, 21), (2, 0, 18), (3, 42, 60)]);
}
