use vstd::prelude::*;

verus! {

/// Lifecycle of the self-re-arming frame chain. The host's "notify me
/// before the next frame" facility takes single-shot registrations;
/// the chain behaves as a continuous loop by creating the registration
/// for tick N+1 only after the body of tick N has completed. This
/// state object records whether the chain has been started and whether
/// it has been cancelled; the decisions below keep the invariant that
/// exactly one registration is outstanding while the chain runs.
#[derive(Clone, Copy, PartialEq, Eq, Structural, Debug)]
pub struct FrameScheduler {
    /// The first registration has been made.
    pub started: bool,
    /// No further registration will be made; terminal.
    pub stopped: bool,
}

impl FrameScheduler {
    /// No registration has ever been made and none will be until `start`.
    pub open spec fn is_idle(self) -> bool {
        !self.started && !self.stopped
    }

    /// Exactly one registration is outstanding: the chain is running.
    pub open spec fn is_armed(self) -> bool {
        self.started && !self.stopped
    }

    /// Cancelled: the outstanding registration, if any, must find a
    /// no-op on wake-up, and no new one is created.
    pub open spec fn is_stopped(self) -> bool {
        self.stopped
    }

    pub fn new() -> (s: Self)
        ensures
            s.is_idle(),
    {
        FrameScheduler { started: false, stopped: false }
    }

    /// Arm the first registration: Idle -> Armed. Returns immediately;
    /// the host invokes the chain from here on.
    pub fn start(&mut self)
        requires
            old(self).is_idle(),
        ensures
            final(self).is_armed(),
    {
        self.started = true;
    }

    /// Whether the chain is running: true at a wake-up exactly when the
    /// tick body should run, and at the end of a tick exactly when the
    /// registration for the next tick should be created.
    pub fn armed(&self) -> (r: bool)
        ensures
            r == self.is_armed(),
    {
        self.started && !self.stopped
    }

    /// Decline all future registrations: Armed -> Stopped (terminal).
    /// An in-flight tick still completes; a wake-up that can no longer
    /// be revoked finds `armed()` false and does nothing.
    pub fn cancel(&mut self)
        ensures
            final(self).is_stopped(),
            !final(self).is_armed(),
            final(self).started == old(self).started,
    {
        self.stopped = true;
    }
}

} // verus!
