use vstd::prelude::*;

verus! {

/// Simulation steps per second; every step lasts `1 / STEPS_PER_SECOND` s.
pub const STEPS_PER_SECOND: i64 = 60;

/// Velocity change per step from gravity (-650 units/s², in thousandths).
pub const GRAVITY_STEP: i64 = -10833;

/// Radius of the projectile.
pub const BALL_RADIUS: i64 = 92750;

/// Half the arena's width (x), half its length (y), and its height.
pub const ARENA_HALF_WIDTH: i64 = 4096000;

pub const ARENA_HALF_LENGTH: i64 = 5120000;

pub const ARENA_HEIGHT: i64 = 2044000;

/// Largest speed of the projectile along each axis.
pub const MAX_BALL_SPEED: i64 = 6000000;

/// Largest spin of the projectile about each axis, in thousandths of a radian
/// per second.
pub const MAX_BALL_SPIN: i64 = 6000;

/// Air drag: each step removes `DRAG_NUM / DRAG_DEN` of the velocity.
pub const DRAG_NUM: i64 = 61;

pub const DRAG_DEN: i64 = 120000;

/// Restitution: a bounce keeps `RESTITUTION_NUM / RESTITUTION_DEN` of the
/// normal speed.
pub const RESTITUTION_NUM: i64 = 3;

pub const RESTITUTION_DEN: i64 = 5;

/// Friction on contact: a bounce keeps `FRICTION_KEEP_NUM / FRICTION_KEEP_DEN`
/// of the tangential velocity and of the spin.
pub const FRICTION_KEEP_NUM: i64 = 9;

pub const FRICTION_KEEP_DEN: i64 = 10;

/// Magnitude bound on every input coordinate, far beyond the arena.
pub const COORD_LIMIT: i64 = 1073741824;

/// A vector of fixed-point coordinates.
#[derive(Clone, Copy, Debug, PartialEq, Eq, Structural)]
pub struct Vec3 {
    pub x: i64,
    pub y: i64,
    pub z: i64,
}

impl Vec3 {
    pub open spec fn bounded(self, limit: int) -> bool {
        -limit <= self.x <= limit && -limit <= self.y <= limit && -limit <= self.z <= limit
    }

    pub fn new(x: i64, y: i64, z: i64) -> (r: Vec3)
        ensures
            r == (Vec3 { x, y, z }),
    {
        Vec3 { x, y, z }
    }
}

/// `v * num / den`, rounded toward zero.
pub open spec fn scaled(v: int, num: int, den: int) -> int {
    if v >= 0 {
        v * num / den
    } else {
        -((-v) * num / den)
    }
}

pub open spec fn clamp(v: int, lo: int, hi: int) -> int {
    if v < lo {
        lo
    } else if v > hi {
        hi
    } else {
        v
    }
}

/// `v * num / den` rounded toward zero, for `|v| <= 2^40`, `0 <= num <= 2^22`.
pub fn scale(v: i64, num: i64, den: i64) -> (r: i64)
    requires
        -0x100_0000_0000 <= v <= 0x100_0000_0000,
        0 <= num <= 0x40_0000,
        den > 0,
    ensures
        r == scaled(v as int, num as int, den as int),
        v >= 0 ==> r >= 0,
        v <= 0 ==> r <= 0,
        num <= den ==> -(if v >= 0 { v as int } else { -v }) <= r <= (if v >= 0 { v as int } else { -v }),
        -((if v >= 0 { v as int } else { -v }) * num) <= r <= (if v >= 0 { v as int } else { -v }) * num,
{
    if v >= 0 {
        let w = v as u64;
        let n = num as u64;
        assert(w * n <= 0x100_0000_0000 * 0x40_0000) by (nonlinear_arith)
            requires
                w <= 0x100_0000_0000,
                n <= 0x40_0000,
        ;
        let p = w * n;
        let d = den as u64;
        let q = p / d;
        assert(q <= p) by (nonlinear_arith)
            requires
                d >= 1,
                q == p / d,
        ;
        assert(w == 0 ==> q == 0) by (nonlinear_arith)
            requires
                d >= 1,
                q == p / d,
                p == w * n,
        ;
        assert(n <= d ==> q <= w) by (nonlinear_arith)
            requires
                d >= 1,
                q == p / d,
                p == w * n,
        ;
        q as i64
    } else {
        let w = (-v) as u64;
        let n = num as u64;
        assert(w * n <= 0x100_0000_0000 * 0x40_0000) by (nonlinear_arith)
            requires
                w <= 0x100_0000_0000,
                n <= 0x40_0000,
        ;
        let p = w * n;
        let d = den as u64;
        let q = p / d;
        assert(q <= p) by (nonlinear_arith)
            requires
                d >= 1,
                q == p / d,
        ;
        assert(n <= d ==> q <= w) by (nonlinear_arith)
            requires
                d >= 1,
                q == p / d,
                p == w * n,
        ;
        -(q as i64)
    }
}

pub fn clamp_i64(v: i64, lo: i64, hi: i64) -> (r: i64)
    requires
        lo <= hi,
    ensures
        r == clamp(v as int, lo as int, hi as int),
{
    if v < lo {
        lo
    } else if v > hi {
        hi
    } else {
        v
    }
}


/// Velocity along one axis after one step of drag and the acceleration `g`,
/// clamped to the largest speed.
pub open spec fn air_speed(v: int, g: int) -> int {
    clamp(v - scaled(v, DRAG_NUM as int, DRAG_DEN as int) + g, -MAX_BALL_SPEED, MAX_BALL_SPEED as int)
}

/// Whether a body at `p` moving at `v` crosses out of `[lo, hi]`, moving
/// outward, so that it rebounds.
pub open spec fn rebounds(p: int, v: int, lo: int, hi: int) -> bool {
    (p < lo && v < 0) || (p > hi && v > 0)
}

/// Normal velocity after a bounce: reversed and reduced by restitution.
pub open spec fn rebound_speed(v: int) -> int {
    -scaled(v, RESTITUTION_NUM as int, RESTITUTION_DEN as int)
}

/// Tangential velocity or spin after a contact.
pub open spec fn damped(v: int) -> int {
    scaled(v, FRICTION_KEEP_NUM as int, FRICTION_KEEP_DEN as int)
}

pub open spec fn damped3(v: Vec3) -> Vec3 {
    Vec3 { x: damped(v.x as int) as i64, y: damped(v.y as int) as i64, z: damped(v.z as int) as i64 }
}

/// The trajectory model: position, velocity and spin of the projectile.
#[derive(Clone, Copy, Debug, PartialEq, Eq, Structural)]
pub struct SimProjectile {
    pub loc: Vec3,
    pub vel: Vec3,
    pub ang_vel: Vec3,
}

/// Lowest and highest coordinate of the projectile's centre along each axis.
pub open spec fn wall_x() -> int {
    ARENA_HALF_WIDTH - BALL_RADIUS
}

pub open spec fn wall_y() -> int {
    ARENA_HALF_LENGTH - BALL_RADIUS
}

pub open spec fn ceiling_z() -> int {
    ARENA_HEIGHT - BALL_RADIUS
}

impl SimProjectile {
    /// Every coordinate is within the bound that the step can take.
    pub open spec fn wf(self) -> bool {
        self.loc.bounded(COORD_LIMIT as int) && self.vel.bounded(COORD_LIMIT as int)
            && self.ang_vel.bounded(COORD_LIMIT as int)
    }

    /// Inside the arena, within the largest speed and spin.
    pub open spec fn in_arena(self) -> bool {
        &&& -wall_x() <= self.loc.x <= wall_x()
        &&& -wall_y() <= self.loc.y <= wall_y()
        &&& BALL_RADIUS <= self.loc.z <= ceiling_z()
        &&& self.vel.bounded(MAX_BALL_SPEED as int)
        &&& self.ang_vel.bounded(MAX_BALL_SPIN as int)
    }

    /// One step of flight: drag and gravity on the velocity, then the new
    /// velocity carries the position.
    pub open spec fn flown(self) -> SimProjectile {
        let vel = Vec3 {
            x: air_speed(self.vel.x as int, 0) as i64,
            y: air_speed(self.vel.y as int, 0) as i64,
            z: air_speed(self.vel.z as int, GRAVITY_STEP as int) as i64,
        };
        SimProjectile {
            loc: Vec3 {
                x: (self.loc.x + scaled(vel.x as int, 1, STEPS_PER_SECOND as int)) as i64,
                y: (self.loc.y + scaled(vel.y as int, 1, STEPS_PER_SECOND as int)) as i64,
                z: (self.loc.z + scaled(vel.z as int, 1, STEPS_PER_SECOND as int)) as i64,
            },
            vel,
            ang_vel: Vec3 {
                x: clamp(self.ang_vel.x as int, -MAX_BALL_SPIN, MAX_BALL_SPIN as int) as i64,
                y: clamp(self.ang_vel.y as int, -MAX_BALL_SPIN, MAX_BALL_SPIN as int) as i64,
                z: clamp(self.ang_vel.z as int, -MAX_BALL_SPIN, MAX_BALL_SPIN as int) as i64,
            },
        }
    }

    /// Contact with the side walls: the centre is kept inside, and a body
    /// moving outward rebounds.
    pub open spec fn collided_x(self) -> SimProjectile {
        let loc = Vec3 { x: clamp(self.loc.x as int, -wall_x(), wall_x()) as i64, ..self.loc };
        if rebounds(self.loc.x as int, self.vel.x as int, -wall_x(), wall_x()) {
            SimProjectile {
                loc,
                vel: Vec3 {
                    x: rebound_speed(self.vel.x as int) as i64,
                    y: damped(self.vel.y as int) as i64,
                    z: damped(self.vel.z as int) as i64,
                },
                ang_vel: damped3(self.ang_vel),
            }
        } else {
            SimProjectile { loc, ..self }
        }
    }

    /// Contact with the back walls.
    pub open spec fn collided_y(self) -> SimProjectile {
        let loc = Vec3 { y: clamp(self.loc.y as int, -wall_y(), wall_y()) as i64, ..self.loc };
        if rebounds(self.loc.y as int, self.vel.y as int, -wall_y(), wall_y()) {
            SimProjectile {
                loc,
                vel: Vec3 {
                    x: damped(self.vel.x as int) as i64,
                    y: rebound_speed(self.vel.y as int) as i64,
                    z: damped(self.vel.z as int) as i64,
                },
                ang_vel: damped3(self.ang_vel),
            }
        } else {
            SimProjectile { loc, ..self }
        }
    }

    /// Contact with the ground and the ceiling.
    pub open spec fn collided_z(self) -> SimProjectile {
        let loc = Vec3 { z: clamp(self.loc.z as int, BALL_RADIUS as int, ceiling_z()) as i64, ..self.loc };
        if rebounds(self.loc.z as int, self.vel.z as int, BALL_RADIUS as int, ceiling_z()) {
            SimProjectile {
                loc,
                vel: Vec3 {
                    x: damped(self.vel.x as int) as i64,
                    y: damped(self.vel.y as int) as i64,
                    z: rebound_speed(self.vel.z as int) as i64,
                },
                ang_vel: damped3(self.ang_vel),
            }
        } else {
            SimProjectile { loc, ..self }
        }
    }

    /// The state one step later.
    #[verifier::opaque]
    pub open spec fn stepped(self) -> SimProjectile {
        self.flown().collided_x().collided_y().collided_z()
    }

    pub fn new(loc: Vec3, vel: Vec3, ang_vel: Vec3) -> (r: SimProjectile)
        ensures
            r == (SimProjectile { loc, vel, ang_vel }),
    {
        SimProjectile { loc, vel, ang_vel }
    }

    fn fly(&self) -> (r: SimProjectile)
        requires
            self.wf(),
        ensures
            r == self.flown(),
            r.loc.bounded(COORD_LIMIT + MAX_BALL_SPEED),
            r.vel.bounded(MAX_BALL_SPEED as int),
            r.ang_vel.bounded(MAX_BALL_SPIN as int),
    {
        let vx = clamp_i64(self.vel.x - scale(self.vel.x, DRAG_NUM, DRAG_DEN), -MAX_BALL_SPEED, MAX_BALL_SPEED);
        let vy = clamp_i64(self.vel.y - scale(self.vel.y, DRAG_NUM, DRAG_DEN), -MAX_BALL_SPEED, MAX_BALL_SPEED);
        let vz = clamp_i64(
            self.vel.z - scale(self.vel.z, DRAG_NUM, DRAG_DEN) + GRAVITY_STEP,
            -MAX_BALL_SPEED,
            MAX_BALL_SPEED,
        );
        SimProjectile {
            loc: Vec3 {
                x: self.loc.x + scale(vx, 1, STEPS_PER_SECOND),
                y: self.loc.y + scale(vy, 1, STEPS_PER_SECOND),
                z: self.loc.z + scale(vz, 1, STEPS_PER_SECOND),
            },
            vel: Vec3 { x: vx, y: vy, z: vz },
            ang_vel: Vec3 {
                x: clamp_i64(self.ang_vel.x, -MAX_BALL_SPIN, MAX_BALL_SPIN),
                y: clamp_i64(self.ang_vel.y, -MAX_BALL_SPIN, MAX_BALL_SPIN),
                z: clamp_i64(self.ang_vel.z, -MAX_BALL_SPIN, MAX_BALL_SPIN),
            },
        }
    }

    fn damp3(v: Vec3) -> (r: Vec3)
        requires
            v.bounded(MAX_BALL_SPEED as int),
        ensures
            r == damped3(v),
            r.bounded(MAX_BALL_SPEED as int),
    {
        Vec3 {
            x: scale(v.x, FRICTION_KEEP_NUM, FRICTION_KEEP_DEN),
            y: scale(v.y, FRICTION_KEEP_NUM, FRICTION_KEEP_DEN),
            z: scale(v.z, FRICTION_KEEP_NUM, FRICTION_KEEP_DEN),
        }
    }

    fn collide_x(&self) -> (r: SimProjectile)
        requires
            self.loc.bounded(COORD_LIMIT + MAX_BALL_SPEED),
            self.vel.bounded(MAX_BALL_SPEED as int),
            self.ang_vel.bounded(MAX_BALL_SPIN as int),
        ensures
            r == self.collided_x(),
            -wall_x() <= r.loc.x <= wall_x(),
            r.loc.y == self.loc.y,
            r.loc.z == self.loc.z,
            r.vel.bounded(MAX_BALL_SPEED as int),
            r.ang_vel.bounded(MAX_BALL_SPIN as int),
    {
        let lim = ARENA_HALF_WIDTH - BALL_RADIUS;
        let loc = Vec3 { x: clamp_i64(self.loc.x, -lim, lim), ..self.loc };
        if (self.loc.x < -lim && self.vel.x < 0) || (self.loc.x > lim && self.vel.x > 0) {
            SimProjectile {
                loc,
                vel: Vec3 {
                    x: -scale(self.vel.x, RESTITUTION_NUM, RESTITUTION_DEN),
                    y: scale(self.vel.y, FRICTION_KEEP_NUM, FRICTION_KEEP_DEN),
                    z: scale(self.vel.z, FRICTION_KEEP_NUM, FRICTION_KEEP_DEN),
                },
                ang_vel: Self::damp3(self.ang_vel),
            }
        } else {
            SimProjectile { loc, ..*self }
        }
    }

    fn collide_y(&self) -> (r: SimProjectile)
        requires
            self.loc.bounded(COORD_LIMIT + MAX_BALL_SPEED),
            self.vel.bounded(MAX_BALL_SPEED as int),
            self.ang_vel.bounded(MAX_BALL_SPIN as int),
        ensures
            r == self.collided_y(),
            -wall_y() <= r.loc.y <= wall_y(),
            r.loc.x == self.loc.x,
            r.loc.z == self.loc.z,
            r.vel.bounded(MAX_BALL_SPEED as int),
            r.ang_vel.bounded(MAX_BALL_SPIN as int),
    {
        let lim = ARENA_HALF_LENGTH - BALL_RADIUS;
        let loc = Vec3 { y: clamp_i64(self.loc.y, -lim, lim), ..self.loc };
        if (self.loc.y < -lim && self.vel.y < 0) || (self.loc.y > lim && self.vel.y > 0) {
            SimProjectile {
                loc,
                vel: Vec3 {
                    x: scale(self.vel.x, FRICTION_KEEP_NUM, FRICTION_KEEP_DEN),
                    y: -scale(self.vel.y, RESTITUTION_NUM, RESTITUTION_DEN),
                    z: scale(self.vel.z, FRICTION_KEEP_NUM, FRICTION_KEEP_DEN),
                },
                ang_vel: Self::damp3(self.ang_vel),
            }
        } else {
            SimProjectile { loc, ..*self }
        }
    }

    fn collide_z(&self) -> (r: SimProjectile)
        requires
            self.loc.bounded(COORD_LIMIT + MAX_BALL_SPEED),
            self.vel.bounded(MAX_BALL_SPEED as int),
            self.ang_vel.bounded(MAX_BALL_SPIN as int),
        ensures
            r == self.collided_z(),
            BALL_RADIUS <= r.loc.z <= ceiling_z(),
            r.loc.x == self.loc.x,
            r.loc.y == self.loc.y,
            r.vel.bounded(MAX_BALL_SPEED as int),
            r.ang_vel.bounded(MAX_BALL_SPIN as int),
    {
        let lo = BALL_RADIUS;
        let hi = ARENA_HEIGHT - BALL_RADIUS;
        let loc = Vec3 { z: clamp_i64(self.loc.z, lo, hi), ..self.loc };
        if (self.loc.z < lo && self.vel.z < 0) || (self.loc.z > hi && self.vel.z > 0) {
            SimProjectile {
                loc,
                vel: Vec3 {
                    x: scale(self.vel.x, FRICTION_KEEP_NUM, FRICTION_KEEP_DEN),
                    y: scale(self.vel.y, FRICTION_KEEP_NUM, FRICTION_KEEP_DEN),
                    z: -scale(self.vel.z, RESTITUTION_NUM, RESTITUTION_DEN),
                },
                ang_vel: Self::damp3(self.ang_vel),
            }
        } else {
            SimProjectile { loc, ..*self }
        }
    }

    /// Advances the projectile by one step: drag and gravity, then motion,
    /// then a rebound off any boundary that it crossed moving outward.
    pub fn step(&mut self)
        requires
            old(self).wf(),
        ensures
            *final(self) == old(self).stepped(),
            final(self).in_arena(),
            final(self).wf(),
    {
        proof {
            reveal(SimProjectile::stepped);
        }
        let r = self.fly().collide_x().collide_y().collide_z();
        *self = r;
    }
}

/// A falling projectile whose flight this step takes it below the ground,
/// clear of the walls, ends the step resting on the ground and rising at
/// `RESTITUTION_NUM / RESTITUTION_DEN` of the speed at which it fell, with
/// its sideways velocity reduced by friction.
pub proof fn ground_bounce_loses_energy(s: SimProjectile)
    requires
        s.wf(),
        s.flown().loc.z < BALL_RADIUS,
        s.flown().vel.z < 0,
        -wall_x() <= s.flown().loc.x <= wall_x(),
        -wall_y() <= s.flown().loc.y <= wall_y(),
    ensures
        s.stepped().loc.z == BALL_RADIUS,
        s.stepped().vel.z == scaled(-s.flown().vel.z, RESTITUTION_NUM as int, RESTITUTION_DEN as int),
        s.stepped().vel.z >= 0,
        s.stepped().vel.x == damped(s.flown().vel.x as int),
        s.stepped().vel.y == damped(s.flown().vel.y as int),
{
    reveal(SimProjectile::stepped);
    let f = s.flown();
    assert(f.vel.bounded(MAX_BALL_SPEED as int));
    assert(f.collided_x() == (SimProjectile { loc: f.loc, ..f }));
}

/// Whenever a step turns a projectile that was not rising into one that
/// rises, it bounced off the ground: the step ends on the ground, rising at
/// `RESTITUTION_NUM / RESTITUTION_DEN` of the speed at which it met the
/// ground (its falling speed after the step's drag, gravity and any wall
/// contact).
pub proof fn rise_is_ground_bounce(s: SimProjectile)
    requires
        s.wf(),
        s.vel.z <= 0,
        s.stepped().vel.z > 0,
    ensures
        s.stepped().loc.z == BALL_RADIUS,
        s.flown().collided_x().collided_y().vel.z < 0,
        s.stepped().vel.z == scaled(
            -s.flown().collided_x().collided_y().vel.z,
            RESTITUTION_NUM as int,
            RESTITUTION_DEN as int,
        ),
{
    reveal(SimProjectile::stepped);
}

} // verus!
