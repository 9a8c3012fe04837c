use vstd::prelude::*;

verus! {

/// A planar vector in micro-units.
pub type Vector2D = (i64, i64);

/// `x` clamped into the value range of `i64`.
pub open spec fn clamp_i64(x: int) -> int {
    if x > i64::MAX as int {
        i64::MAX as int
    } else if x < i64::MIN as int {
        i64::MIN as int
    } else {
        x
    }
}

/// One Euler integration step `p + v * dt`, saturating at the
/// coordinate bounds: `p` in micro-units, `v` in micro-units per
/// millisecond, `dt` in milliseconds.
pub open spec fn euler_step(p: i64, v: i64, dt: u64) -> i64 {
    clamp_i64(p + v * dt) as i64
}

/// Executes one saturating Euler step.
pub fn advance(p: i64, v: i64, dt: u64) -> (r: i64)
    ensures
        r == euler_step(p, v, dt),
{
    proof {
        assert(i64::MIN as int * 0xffff_ffff_ffff_ffff <= v * dt <= i64::MAX as int
            * 0xffff_ffff_ffff_ffff) by (nonlinear_arith)
            requires
                i64::MIN <= v <= i64::MAX,
                0 <= dt <= 0xffff_ffff_ffff_ffff,
        ;
    }
    let prod: i128 = (v as i128) * (dt as i128);
    let sum: i128 = (p as i128) + prod;
    if sum > (i64::MAX as i128) {
        i64::MAX
    } else if sum < (i64::MIN as i128) {
        i64::MIN
    } else {
        sum as i64
    }
}

/// A payload with a position and a velocity; one step of its motion is
/// a saturating Euler advance of the position by the elapsed time.
pub trait DynamicObject: Sized {
    /// The position the getters and setters speak of.
    spec fn position_spec(&self) -> Vector2D;

    /// The velocity the getters speak of, in micro-units per millisecond.
    spec fn velocity_spec(&self) -> Vector2D;

    fn get_velocity(&self) -> (v: Vector2D)
        ensures
            v == self.velocity_spec(),
    ;

    fn get_position(&self) -> (p: Vector2D)
        ensures
            p == self.position_spec(),
    ;

    fn set_position(&mut self, position: Vector2D)
        ensures
            final(self).position_spec() == position,
            final(self).velocity_spec() == old(self).velocity_spec(),
    ;

    /// Advance the position by the velocity over `dt` milliseconds;
    /// the velocity is left unchanged.
    fn update(&mut self, dt: u64)
        ensures
            final(self).position_spec().0 == euler_step(
                old(self).position_spec().0,
                old(self).velocity_spec().0,
                dt,
            ),
            final(self).position_spec().1 == euler_step(
                old(self).position_spec().1,
                old(self).velocity_spec().1,
                dt,
            ),
            final(self).velocity_spec() == old(self).velocity_spec(),
    {
        let pos = self.get_position();
        let vel = self.get_velocity();
        let new_pos = (advance(pos.0, vel.0, dt), advance(pos.1, vel.1, dt));
        self.set_position(new_pos);
    }
}

} // verus!
