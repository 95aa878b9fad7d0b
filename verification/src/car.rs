//! Dead-reckoning state for one remote vehicle.
//!
//! A `Car` holds the last authoritative pose/velocity sample and computes a
//! time-extrapolated pose on demand, masking network latency between discrete
//! updates. All coordinates, velocities and times are fixed-point integers:
//! a position component is in position units, a velocity component in
//! position units per time unit, and a timestamp in time units on a
//! monotonic clock supplied by the caller.

use vstd::prelude::*;

verus! {

/// A three-component vector in fixed-point coordinates.
#[derive(Clone, Copy, Debug, PartialEq, Eq, Structural)]
pub struct Vec3 {
    pub x: i64,
    pub y: i64,
    pub z: i64,
}

/// A quaternion in fixed-point coordinates, `w` the scalar part.
#[derive(Clone, Copy, Debug, PartialEq, Eq, Structural)]
pub struct Quat {
    pub w: i64,
    pub x: i64,
    pub y: i64,
    pub z: i64,
}

impl Vec3 {
    /// The zero vector.
    pub fn zero() -> (v: Vec3)
        ensures
            v == (Vec3 { x: 0i64, y: 0i64, z: 0i64 }),
    {
        Vec3 { x: 0, y: 0, z: 0 }
    }
}

impl Quat {
    /// The zero quaternion.
    pub fn zero() -> (q: Quat)
        ensures
            q == (Quat { w: 0i64, x: 0i64, y: 0i64, z: 0i64 }),
    {
        Quat { w: 0, x: 0, y: 0, z: 0 }
    }
}

/// Last authoritative sample for one vehicle, plus the data needed to
/// extrapolate its pose forward in time.
#[derive(Clone, Debug)]
pub struct Car {
    /// Opaque vehicle descriptor, immutable after creation.
    pub car_json: String,
    /// Last authoritative position.
    pub pos: Vec3,
    /// Last authoritative orientation.
    pub rot: Quat,
    /// Last authoritative linear velocity, in position units per time unit.
    pub vel: Vec3,
    /// Last authoritative angular velocity, in angle units per time unit.
    pub rvel: Vec3,
    /// Monotonically-assigned update tag.
    pub tim: i64,
    /// Latency estimate, in time units.
    pub ping: i64,
    /// Timestamp of the last authoritative write, unset until the first one.
    pub last_pos_update: Option<i64>,
}

/// Time elapsed since the last authoritative update, or zero if none has
/// ever occurred.
pub open spec fn elapsed_of(c: Car, now: int) -> int {
    match c.last_pos_update {
        Some(t) => now - t,
        None => 0,
    }
}

/// Timestamps are on one monotonic clock, so a stored timestamp never lies
/// in the future of `now`, and the span between the two fits the clock's
/// own integer width.
pub open spec fn clock_consistent(c: Car, now: int) -> bool {
    match c.last_pos_update {
        Some(t) => t <= now && now - t <= i64::MAX,
        None => true,
    }
}

impl Car {
    /// Creates the state for a freshly spawned vehicle: the descriptor is
    /// stored, every numeric field is zero, and no update has occurred yet.
    pub fn new(car_json: String) -> (c: Car)
        ensures
            c.car_json@ == car_json@,
            c.pos == (Vec3 { x: 0i64, y: 0i64, z: 0i64 }),
            c.rot == (Quat { w: 0i64, x: 0i64, y: 0i64, z: 0i64 }),
            c.vel == (Vec3 { x: 0i64, y: 0i64, z: 0i64 }),
            c.rvel == (Vec3 { x: 0i64, y: 0i64, z: 0i64 }),
            c.tim == 0,
            c.ping == 0,
            c.last_pos_update is None,
    {
        Car {
            car_json,
            pos: Vec3::zero(),
            rot: Quat::zero(),
            vel: Vec3::zero(),
            rvel: Vec3::zero(),
            tim: 0,
            ping: 0,
            last_pos_update: None,
        }
    }

    /// Replaces the whole authoritative sample — position, orientation,
    /// linear and angular velocity — and resets the update timestamp to
    /// `now`. Any values are accepted; the descriptor, update tag and
    /// latency estimate are untouched.
    pub fn update(&mut self, pos: Vec3, rot: Quat, vel: Vec3, rvel: Vec3, now: i64)
        ensures
            final(self).pos == pos,
            final(self).rot == rot,
            final(self).vel == vel,
            final(self).rvel == rvel,
            final(self).last_pos_update == Some(now),
            final(self).car_json == old(self).car_json,
            final(self).tim == old(self).tim,
            final(self).ping == old(self).ping,
    {
        self.pos = pos;
        self.rot = rot;
        self.vel = vel;
        self.rvel = rvel;
        self.last_pos_update = Some(now);
    }

    /// Dead-reckoned position at time `now`: the stored position plus the
    /// stored velocity times the elapsed time. With no update recorded the
    /// elapsed time is zero and the stored position comes back unchanged.
    pub fn pos(&self, now: i64) -> (p: Vec3)
        requires
            clock_consistent(*self, now as int),
            i64::MIN <= self.vel.x * elapsed_of(*self, now as int) <= i64::MAX,
            i64::MIN <= self.vel.y * elapsed_of(*self, now as int) <= i64::MAX,
            i64::MIN <= self.vel.z * elapsed_of(*self, now as int) <= i64::MAX,
            i64::MIN <= self.pos.x + self.vel.x * elapsed_of(*self, now as int) <= i64::MAX,
            i64::MIN <= self.pos.y + self.vel.y * elapsed_of(*self, now as int) <= i64::MAX,
            i64::MIN <= self.pos.z + self.vel.z * elapsed_of(*self, now as int) <= i64::MAX,
        ensures
            p.x == self.pos.x + self.vel.x * elapsed_of(*self, now as int),
            p.y == self.pos.y + self.vel.y * elapsed_of(*self, now as int),
            p.z == self.pos.z + self.vel.z * elapsed_of(*self, now as int),
    {
        let e: i64 = match self.last_pos_update {
            Some(t) => now - t,
            None => 0,
        };
        Vec3 { x: self.pos.x + self.vel.x * e, y: self.pos.y + self.vel.y * e, z: self.pos.z + self.vel.z * e }
    }

    /// The per-axis rotation deltas accumulated since the last update:
    /// the angular velocity times the elapsed time, as Euler angles in
    /// fixed-point angle units. The caller turns these into a rotation
    /// (a trigonometric conversion outside this crate) and hands the
    /// result to [`Car::rotation`].
    pub fn euler_delta(&self, now: i64) -> (d: Vec3)
        requires
            clock_consistent(*self, now as int),
            i64::MIN <= self.rvel.x * elapsed_of(*self, now as int) <= i64::MAX,
            i64::MIN <= self.rvel.y * elapsed_of(*self, now as int) <= i64::MAX,
            i64::MIN <= self.rvel.z * elapsed_of(*self, now as int) <= i64::MAX,
        ensures
            d.x == self.rvel.x * elapsed_of(*self, now as int),
            d.y == self.rvel.y * elapsed_of(*self, now as int),
            d.z == self.rvel.z * elapsed_of(*self, now as int),
    {
        let e: i64 = match self.last_pos_update {
            Some(t) => now - t,
            None => 0,
        };
        Vec3 { x: self.rvel.x * e, y: self.rvel.y * e, z: self.rvel.z * e }
    }

    /// Combines the stored orientation with a rotation delta by
    /// componentwise addition. Deliberate: this additive blend is the
    /// scheme's documented behaviour, kept for compatibility with its
    /// consumers. It is not a true quaternion composition (that would be a
    /// multiplication) and the result drifts from a unit rotation as the
    /// deltas grow; see the tests that pin the additive choice down.
    pub fn rotation(&self, delta: Quat) -> (r: Quat)
        requires
            i64::MIN <= self.rot.w + delta.w <= i64::MAX,
            i64::MIN <= self.rot.x + delta.x <= i64::MAX,
            i64::MIN <= self.rot.y + delta.y <= i64::MAX,
            i64::MIN <= self.rot.z + delta.z <= i64::MAX,
        ensures
            r.w == self.rot.w + delta.w,
            r.x == self.rot.x + delta.x,
            r.y == self.rot.y + delta.y,
            r.z == self.rot.z + delta.z,
    {
        Quat {
            w: self.rot.w + delta.w,
            x: self.rot.x + delta.x,
            y: self.rot.y + delta.y,
            z: self.rot.z + delta.z,
        }
    }
}

/// A vehicle that has never received an authoritative update reports its
/// stored base position unchanged, whatever the query time.
pub proof fn lemma_no_update_keeps_position(c: Car, now: int)
    requires
        c.last_pos_update is None,
    ensures
        c.pos.x == c.pos.x + c.vel.x * elapsed_of(c, now),
        c.pos.y == c.pos.y + c.vel.y * elapsed_of(c, now),
        c.pos.z == c.pos.z + c.vel.z * elapsed_of(c, now),
{
}

} // verus!
