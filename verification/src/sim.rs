use vstd::prelude::*;

use crate::dynamics::{advance, euler_step};

verus! {

/// Milliseconds per second: deltas are measured in milliseconds.
pub const MS_PER_SEC: u64 = 1000;

/// Micro-units per drawing unit: surface coordinates are held as
/// integer micro-units, so a velocity of `v` units per second is
/// `v * MICROS_PER_UNIT / MS_PER_SEC` micro-units per millisecond.
pub const MICROS_PER_UNIT: i64 = 1_000_000;

/// Immutable per-tick frame information, produced fresh each tick by
/// the runner and read-only to the simulation.
#[derive(Clone, Copy, PartialEq, Eq, Structural, Debug)]
pub struct FrameCtx {
    /// 0-based number of completed ticks before this one.
    pub frame: u64,
    /// Elapsed milliseconds since the previous tick; 0 on the first tick.
    pub delta_ms: u64,
    /// The host timestamp of this tick, in milliseconds.
    pub timestamp_ms: u64,
}

/// One drawing command against the host surface, in micro-units.
/// The host executes the commands after the tick body has produced them.
#[derive(Clone, Copy, PartialEq, Eq, Structural, Debug)]
pub enum DrawCmd {
    /// Wipe the whole surface.
    Clear,
    /// Axis-aligned filled rectangle; `color` is 0xRRGGBB.
    FillRect { x: i64, y: i64, w: i64, h: i64, color: u32 },
    /// Filled circle; `color` is 0xRRGGBB.
    FillCircle { x: i64, y: i64, r: i64, color: u32 },
}

/// The drawing surface as a simulation sees it: fixed dimensions and
/// the commands issued so far. The runner holds it only during `render`.
pub struct RenderCtx {
    /// Surface width in units.
    pub width: u32,
    /// Surface height in units.
    pub height: u32,
    /// The drawing commands issued so far, oldest first.
    pub cmds: Vec<DrawCmd>,
}

impl RenderCtx {
    pub fn new(width: u32, height: u32) -> (r: Self)
        ensures
            r.width == width,
            r.height == height,
            r.cmds@ == Seq::<DrawCmd>::empty(),
    {
        let r = RenderCtx { width, height, cmds: Vec::new() };
        proof {
            assert(r.cmds@ =~= Seq::<DrawCmd>::empty());
        }
        r
    }

    /// Wipe the whole surface.
    pub fn clear(&mut self)
        ensures
            final(self).width == old(self).width,
            final(self).height == old(self).height,
            final(self).cmds@ == old(self).cmds@.push(DrawCmd::Clear),
    {
        self.cmds.push(DrawCmd::Clear);
    }

    /// Draw a filled rectangle.
    pub fn fill_rect(&mut self, x: i64, y: i64, w: i64, h: i64, color: u32)
        ensures
            final(self).width == old(self).width,
            final(self).height == old(self).height,
            final(self).cmds@ == old(self).cmds@.push(DrawCmd::FillRect { x, y, w, h, color }),
    {
        self.cmds.push(DrawCmd::FillRect { x, y, w, h, color });
    }

    /// Draw a filled circle.
    pub fn fill_circle(&mut self, x: i64, y: i64, r: i64, color: u32)
        ensures
            final(self).width == old(self).width,
            final(self).height == old(self).height,
            final(self).cmds@ == old(self).cmds@.push(DrawCmd::FillCircle { x, y, r, color }),
    {
        self.cmds.push(DrawCmd::FillCircle { x, y, r, color });
    }
}

/// The capability interface a payload offers the driver. `render`
/// observes the state (enforced by `&self`) and issues drawing
/// commands; `update` mutates the state and draws nothing. Swapping
/// the payload never touches the clock, the scheduler or the runner.
pub trait Simulation: Sized {
    /// The state after one update step under `frame`.
    spec fn next_state(self, frame: FrameCtx) -> Self;

    /// The drawing commands `render` issues from this state under `frame`.
    spec fn draws(self, frame: FrameCtx) -> Seq<DrawCmd>;

    /// Draw the current state: appends exactly `draws(frame)` to the
    /// surface and leaves the simulation state untouched.
    fn render(&self, surface: &mut RenderCtx, frame: &FrameCtx)
        ensures
            final(surface).width == old(surface).width,
            final(surface).height == old(surface).height,
            final(surface).cmds@ == old(surface).cmds@ + self.draws(*frame),
    ;

    /// Advance the state by one tick.
    fn update(&mut self, frame: &FrameCtx)
        ensures
            *final(self) == (*old(self)).next_state(*frame),
    ;
}

/// Edge length of the drawn square, in micro-units (100 units).
pub const SQUARE_SIZE: i64 = 100_000_000;

/// Fill color of the drawn square, 0xRRGGBB.
pub const SQUARE_COLOR: u32 = 0x000000;

/// The simplest payload: a square gliding at constant velocity.
/// `position` is in micro-units, `velocity` in micro-units per
/// millisecond.
#[derive(Clone, Copy, PartialEq, Eq, Debug)]
pub struct AnimState {
    pub position: (i64, i64),
    pub velocity: (i64, i64),
}

impl AnimState {
    pub fn new(position: (i64, i64), velocity: (i64, i64)) -> (s: Self)
        ensures
            s.position == position,
            s.velocity == velocity,
    {
        AnimState { position, velocity }
    }
}

impl Simulation for AnimState {
    /// Straight-line motion: the position advances by the velocity.
    open spec fn next_state(self, frame: FrameCtx) -> Self {
        AnimState {
            position: (
                euler_step(self.position.0, self.velocity.0, frame.delta_ms),
                euler_step(self.position.1, self.velocity.1, frame.delta_ms),
            ),
            velocity: self.velocity,
        }
    }

    /// A wiped surface with one square at the current position.
    open spec fn draws(self, frame: FrameCtx) -> Seq<DrawCmd> {
        seq![
            DrawCmd::Clear,
            (DrawCmd::FillRect {
                x: self.position.0,
                y: self.position.1,
                w: SQUARE_SIZE,
                h: SQUARE_SIZE,
                color: SQUARE_COLOR,
            }),
        ]
    }

    fn render(&self, surface: &mut RenderCtx, frame: &FrameCtx) {
        surface.clear();
        surface.fill_rect(self.position.0, self.position.1, SQUARE_SIZE, SQUARE_SIZE, SQUARE_COLOR);
        proof {
            assert(surface.cmds@ =~= old(surface).cmds@ + self.draws(*frame));
        }
    }

    fn update(&mut self, frame: &FrameCtx) {
        let dt = frame.delta_ms;
        self.position.0 = advance(self.position.0, self.velocity.0, dt);
        self.position.1 = advance(self.position.1, self.velocity.1, dt);
    }
}

} // verus!
