//! Decision core of a ball-game agent: a behavior stack machine with its
//! composite combinators, and a fixed-step intercept estimator built on a
//! projectile simulator and a one-dimensional agent simulator.
//!
//! All physical quantities are fixed-point integers: lengths in thousandths
//! of a world unit, times as whole simulation steps.

mod agent;
mod behavior;
mod control;
mod game;
mod higher_order;
mod intercept;
mod laws;
mod sim;
mod stack;

pub use agent::{
    full_step_bounds, throttle_accel, SimAgent, BOOST_ACCEL, BOOST_PER_STEP, FULL_THROTTLE,
    MAX_BOOST, MAX_CAR_SPEED, MAX_STEP_DISTANCE, THROTTLE_ACCEL_REST, THROTTLE_ACCEL_TAPER,
    THROTTLE_TAPER_SPEED, THROTTLE_TOP_SPEED,
};
pub use behavior::{Behavior, CornerOffense, Leaf};
pub use control::{Action, ControlOutput, Outcome, Priority, AXIS_MAX};
pub use game::{
    full_pickups, goal_of, BoostPad, BoostPickup, CarInfo, Game, Goal, Point2, Team,
};
pub use higher_order::{
    chain_after, chain_outcome, choose_after, choose_outcome, repeat_action, repeat_after,
    slot_after, slot_outcome, Chain, Factory, Fuse, LeafFactory, Repeat, TryChoose,
    MAX_RESOLUTIONS,
};
pub use intercept::{
    agent_after, contact_point, dist_sq, intercept_is_first_meeting, meets_at, projectile_after, estimate_intercept_car_ball, estimate_intercept_car_ball_2,
    floor_sqrt, intercept_is_deterministic, intercept_of, intercept_of_resting_projectile,
    intercept_search, intercept_within_horizon, is_floor_sqrt, is_sane_ball_loc, isqrt,
    reach_time, reaches, settled, AgentState, AnyState, BelowHeight, Intercept,
    InterceptPredicate, CONTACT_RADIUS, FIELD_MAX_X, FIELD_MAX_Y, GROUND_REACH_Z, HORIZON_STEPS,
};
pub use laws::{chain_call_replaces_front, chain_skips_returned_child, try_choose_takes_first_willing};
pub use sim::{
    air_speed, ceiling_z, clamp, damped, damped3, ground_bounce_loses_energy, rebound_speed,
    rebounds, rise_is_ground_bounce, scaled, wall_x, wall_y, SimProjectile, Vec3, ARENA_HALF_LENGTH, ARENA_HALF_WIDTH,
    ARENA_HEIGHT, BALL_RADIUS, COORD_LIMIT, DRAG_DEN, DRAG_NUM, FRICTION_KEEP_DEN,
    FRICTION_KEEP_NUM, GRAVITY_STEP, MAX_BALL_SPEED, MAX_BALL_SPIN, RESTITUTION_DEN,
    RESTITUTION_NUM, STEPS_PER_SECOND,
};
pub use stack::{stack_run, BehaviorStack};
