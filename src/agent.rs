use vstd::prelude::*;
use crate::sim::{clamp, clamp_i64, scale, scaled, STEPS_PER_SECOND};

verus! {

/// Largest forward speed of the agent.
pub const MAX_CAR_SPEED: i64 = 2300000;

/// Throttle acceleration at rest, and at `THROTTLE_TAPER_SPEED`.
pub const THROTTLE_ACCEL_REST: i64 = 1600000;

pub const THROTTLE_ACCEL_TAPER: i64 = 160000;

/// Speed from which throttle acceleration falls steeply, and speed beyond
/// which throttle adds nothing.
pub const THROTTLE_TAPER_SPEED: i64 = 1400000;

pub const THROTTLE_TOP_SPEED: i64 = 1410000;

/// Extra acceleration while boosting.
pub const BOOST_ACCEL: i64 = 991667;

/// Full boost reserve, and the reserve used by one step of boosting.
pub const MAX_BOOST: i64 = 100000;

pub const BOOST_PER_STEP: i64 = 555;

/// Largest distance covered in one step.
pub const MAX_STEP_DISTANCE: i64 = 38334;

/// Full throttle, in thousandths.
pub const FULL_THROTTLE: i64 = 1000;

/// Throttle acceleration at `speed`: falling linearly from
/// `THROTTLE_ACCEL_REST` at rest to `THROTTLE_ACCEL_TAPER` at the taper
/// speed, then steeply to nothing at the top speed.
pub open spec fn throttle_accel(speed: int) -> int {
    if speed < THROTTLE_TAPER_SPEED {
        THROTTLE_ACCEL_REST - scaled(
            speed,
            (THROTTLE_ACCEL_REST - THROTTLE_ACCEL_TAPER) as int,
            THROTTLE_TAPER_SPEED as int,
        )
    } else if speed < THROTTLE_TOP_SPEED {
        scaled(
            THROTTLE_TOP_SPEED - speed,
            THROTTLE_ACCEL_TAPER as int,
            (THROTTLE_TOP_SPEED - THROTTLE_TAPER_SPEED) as int,
        )
    } else {
        0
    }
}

/// The longitudinal agent model: forward speed, boost reserve, and the
/// distance covered so far.
#[derive(Clone, Copy, Debug, PartialEq, Eq, Structural)]
pub struct SimAgent {
    pub speed: i64,
    pub boost: i64,
    pub distance: i64,
}

impl SimAgent {
    pub open spec fn wf(self) -> bool {
        &&& 0 <= self.speed <= MAX_CAR_SPEED
        &&& 0 <= self.boost <= MAX_BOOST
        &&& 0 <= self.distance
    }

    /// Whether a step asked to boost can boost.
    pub open spec fn boosting(self, boost: bool) -> bool {
        boost && self.boost > 0
    }

    /// The state one step later at `throttle` thousandths, boosting if asked
    /// and the reserve is not empty.
    #[verifier::opaque]
    pub open spec fn stepped(self, throttle: int, boost: bool) -> SimAgent {
        let accel = scaled(throttle_accel(self.speed as int), throttle, FULL_THROTTLE as int) + if self.boosting(
            boost,
        ) {
            BOOST_ACCEL as int
        } else {
            0
        };
        let speed = clamp(self.speed + scaled(accel, 1, STEPS_PER_SECOND as int), 0, MAX_CAR_SPEED as int);
        SimAgent {
            speed: speed as i64,
            boost: if self.boosting(boost) {
                clamp(self.boost - BOOST_PER_STEP, 0, MAX_BOOST as int) as i64
            } else {
                self.boost
            },
            distance: (self.distance + scaled(speed, 1, STEPS_PER_SECOND as int)) as i64,
        }
    }

    /// An agent at `speed` with an empty reserve, at the start of its path.
    /// The speed is clamped to `[0, MAX_CAR_SPEED]`.
    pub fn new(speed: i64) -> (r: SimAgent)
        ensures
            r == (SimAgent { speed: clamp(speed as int, 0, MAX_CAR_SPEED as int) as i64, boost: 0, distance: 0 }),
            r.wf(),
    {
        SimAgent { speed: clamp_i64(speed, 0, MAX_CAR_SPEED), boost: 0, distance: 0 }
    }

    /// The same agent with `boost` in reserve, clamped to `[0, MAX_BOOST]`.
    pub fn with_boost(self, boost: i64) -> (r: SimAgent)
        ensures
            r == (SimAgent { boost: clamp(boost as int, 0, MAX_BOOST as int) as i64, ..self }),
    {
        SimAgent { boost: clamp_i64(boost, 0, MAX_BOOST), ..self }
    }

    fn throttle_accel_at(speed: i64) -> (r: i64)
        requires
            0 <= speed <= MAX_CAR_SPEED,
        ensures
            r == throttle_accel(speed as int),
            0 <= r <= THROTTLE_ACCEL_REST,
    {
        if speed < THROTTLE_TAPER_SPEED {
            THROTTLE_ACCEL_REST - scale(speed, THROTTLE_ACCEL_REST - THROTTLE_ACCEL_TAPER, THROTTLE_TAPER_SPEED)
        } else if speed < THROTTLE_TOP_SPEED {
            scale(THROTTLE_TOP_SPEED - speed, THROTTLE_ACCEL_TAPER, THROTTLE_TOP_SPEED - THROTTLE_TAPER_SPEED)
        } else {
            0
        }
    }

    /// Advances the agent by one step at `throttle` thousandths.
    pub fn step(&mut self, throttle: i64, boost: bool)
        requires
            old(self).wf(),
            0 <= throttle <= FULL_THROTTLE,
            old(self).distance <= i64::MAX - MAX_CAR_SPEED,
        ensures
            *final(self) == old(self).stepped(throttle as int, boost),
            final(self).wf(),
            old(self).distance <= final(self).distance <= old(self).distance + MAX_STEP_DISTANCE,
    {
        proof {
            reveal(SimAgent::stepped);
        }
        let boosting = boost && self.boost > 0;
        let base = Self::throttle_accel_at(self.speed);
        let accel = scale(base, throttle, FULL_THROTTLE) + if boosting {
            BOOST_ACCEL
        } else {
            0
        };
        let speed = clamp_i64(self.speed + scale(accel, 1, STEPS_PER_SECOND), 0, MAX_CAR_SPEED);
        let reserve = if boosting {
            clamp_i64(self.boost - BOOST_PER_STEP, 0, MAX_BOOST)
        } else {
            self.boost
        };
        *self = SimAgent { speed, boost: reserve, distance: self.distance + scale(speed, 1, STEPS_PER_SECOND) };
    }
}

/// A step at full throttle, boosting, keeps the model well formed and adds
/// at most `MAX_STEP_DISTANCE` to the distance covered.
pub proof fn full_step_bounds(a: SimAgent)
    requires
        a.wf(),
        a.distance <= i64::MAX - MAX_CAR_SPEED,
    ensures
        a.stepped(FULL_THROTTLE as int, true).wf(),
        a.distance <= a.stepped(FULL_THROTTLE as int, true).distance <= a.distance + MAX_STEP_DISTANCE,
{
    reveal(SimAgent::stepped);
}

} // verus!
