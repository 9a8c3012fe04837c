use vstd::prelude::*;

use crate::dynamics::{advance, euler_step, DynamicObject, Vector2D};
use crate::sim::{DrawCmd, FrameCtx, RenderCtx, Simulation};

verus! {

/// Radius of the drawn dot, in micro-units (10 units).
pub const PENDULUM_RADIUS: i64 = 10_000_000;

/// Fill color of the drawn dot, 0xRRGGBB.
pub const PENDULUM_COLOR: u32 = 0x00aabb;

/// A dot moving under constant acceleration: position `x` in
/// micro-units, velocity `v` in micro-units per millisecond,
/// acceleration `a` in micro-units per millisecond squared. Each tick
/// it is drawn as a filled circle and advanced by one Euler step.
#[derive(Clone, Copy, PartialEq, Eq, Debug)]
pub struct Pendulum {
    pub x: (i64, i64),
    pub v: (i64, i64),
    pub a: (i64, i64),
}

impl Pendulum {
    pub fn initial(x: (i64, i64), v: (i64, i64), a: (i64, i64)) -> (p: Self)
        ensures
            p.x == x,
            p.v == v,
            p.a == a,
    {
        Pendulum { x, v, a }
    }
}

impl Simulation for Pendulum {
    /// Euler integration: the position advances by the old velocity,
    /// then the velocity by the acceleration, each over `delta_ms`.
    open spec fn next_state(self, frame: FrameCtx) -> Self {
        Pendulum {
            x: (
                euler_step(self.x.0, self.v.0, frame.delta_ms),
                euler_step(self.x.1, self.v.1, frame.delta_ms),
            ),
            v: (
                euler_step(self.v.0, self.a.0, frame.delta_ms),
                euler_step(self.v.1, self.a.1, frame.delta_ms),
            ),
            a: self.a,
        }
    }

    /// A wiped surface with one circle at the current position.
    open spec fn draws(self, frame: FrameCtx) -> Seq<DrawCmd> {
        seq![
            DrawCmd::Clear,
            (DrawCmd::FillCircle {
                x: self.x.0,
                y: self.x.1,
                r: PENDULUM_RADIUS,
                color: PENDULUM_COLOR,
            }),
        ]
    }

    fn render(&self, surface: &mut RenderCtx, frame: &FrameCtx) {
        surface.clear();
        surface.fill_circle(self.x.0, self.x.1, PENDULUM_RADIUS, PENDULUM_COLOR);
        proof {
            assert(surface.cmds@ =~= old(surface).cmds@ + self.draws(*frame));
        }
    }

    fn update(&mut self, frame: &FrameCtx) {
        let dt = frame.delta_ms;
        self.x.0 = advance(self.x.0, self.v.0, dt);
        self.x.1 = advance(self.x.1, self.v.1, dt);
        self.v.0 = advance(self.v.0, self.a.0, dt);
        self.v.1 = advance(self.v.1, self.a.1, dt);
    }
}

impl DynamicObject for Pendulum {
    open spec fn position_spec(&self) -> Vector2D {
        self.x
    }

    open spec fn velocity_spec(&self) -> Vector2D {
        self.v
    }

    fn get_velocity(&self) -> Vector2D {
        self.v
    }

    fn get_position(&self) -> Vector2D {
        self.x
    }

    fn set_position(&mut self, position: Vector2D) {
        self.x = position;
    }
}

} // verus!
