use vstd::prelude::*;
use crate::agent::{SimAgent, FULL_THROTTLE, MAX_CAR_SPEED, MAX_STEP_DISTANCE};
use crate::sim::{
    clamp, scale, scaled, wall_x, wall_y, SimProjectile, Vec3, BALL_RADIUS, COORD_LIMIT,
};
use crate::agent::full_step_bounds;

verus! {

/// Number of steps simulated before the estimator gives up.
pub const HORIZON_STEPS: u32 = 200;

/// Distance between the agent's centre and the projectile's centre when
/// their surfaces touch.
pub const CONTACT_RADIUS: i64 = 240000;

/// Whether `r` is the floor of the square root of `n`.
pub open spec fn is_floor_sqrt(r: int, n: int) -> bool {
    0 <= r && r * r <= n < (r + 1) * (r + 1)
}

/// The floor of the square root of `n`, for `n >= 0`.
pub open spec fn floor_sqrt(n: int) -> int {
    choose|r: int| is_floor_sqrt(r, n)
}

proof fn floor_sqrt_unique(a: int, b: int, n: int)
    requires
        is_floor_sqrt(a, n),
        is_floor_sqrt(b, n),
    ensures
        a == b,
{
    if a < b {
        assert((a + 1) * (a + 1) <= b * b) by (nonlinear_arith)
            requires
                0 <= a < b,
        ;
    } else if b < a {
        assert((b + 1) * (b + 1) <= a * a) by (nonlinear_arith)
            requires
                0 <= b < a,
        ;
    }
}

/// The floor of the square root of `n`.
pub fn isqrt(n: u64) -> (r: u64)
    ensures
        r == floor_sqrt(n as int),
        r <= 0x1_0000_0000,
{
    let mut lo: u64 = 0;
    let mut hi: u64 = 0x1_0000_0000;
    assert(n < hi * hi) by (nonlinear_arith)
        requires
            hi == 0x1_0000_0000,
            n <= u64::MAX,
    ;
    while hi - lo > 1
        invariant
            lo < hi <= 0x1_0000_0000,
            lo * lo <= n,
            n < hi * hi,
        decreases hi - lo,
    {
        let mid = lo + (hi - lo) / 2;
        assert(mid * mid < 0x1_0000_0000 * 0x1_0000_0000) by (nonlinear_arith)
            requires
                mid < 0x1_0000_0000,
        ;
        if mid * mid <= n {
            lo = mid;
        } else {
            hi = mid;
        }
    }
    assert(hi == lo + 1);
    assert(is_floor_sqrt(lo as int, n as int));
    proof {
        let c = floor_sqrt(n as int);
        floor_sqrt_unique(c, lo as int, n as int);
    }
    lo
}

/// Squared distance between `a` and `b`.
pub open spec fn dist_sq(a: Vec3, b: Vec3) -> int {
    (a.x - b.x) * (a.x - b.x) + (a.y - b.y) * (a.y - b.y) + (a.z - b.z) * (a.z - b.z)
}

/// Whether an agent that set out from `origin` and has covered `covered`
/// reaches contact with a projectile at `loc`: the straight-line distance,
/// less the contact radius, is at most what it covered.
pub open spec fn reaches(origin: Vec3, covered: int, loc: Vec3) -> bool {
    dist_sq(loc, origin) <= (covered + CONTACT_RADIUS) * (covered + CONTACT_RADIUS)
}

/// Where the agent's centre should be to touch a projectile at `loc`: the
/// point on the way from `loc` back to `origin`, at the contact radius.
pub open spec fn contact_point(loc: Vec3, origin: Vec3) -> Vec3 {
    let n = floor_sqrt(dist_sq(loc, origin));
    if n == 0 {
        loc
    } else {
        Vec3 {
            x: (loc.x - scaled(loc.x - origin.x, CONTACT_RADIUS as int, n)) as i64,
            y: (loc.y - scaled(loc.y - origin.y, CONTACT_RADIUS as int, n)) as i64,
            z: (loc.z - scaled(loc.z - origin.z, CONTACT_RADIUS as int, n)) as i64,
        }
    }
}

/// A caller's acceptance test on a simulated projectile: `time` steps from
/// now, at `loc`, moving at `vel`. It must be a function of its arguments.
pub trait InterceptPredicate {
    spec fn accepts(&self, time: u32, loc: Vec3, vel: Vec3) -> bool;

    fn test(&self, time: u32, loc: &Vec3, vel: &Vec3) -> (r: bool)
        ensures
            r == self.accepts(time, *loc, *vel),
    ;
}

/// Accepts a projectile whose centre is below `max_z`.
#[derive(Clone, Copy, Debug, PartialEq, Eq, Structural)]
pub struct BelowHeight {
    pub max_z: i64,
}

impl InterceptPredicate for BelowHeight {
    open spec fn accepts(&self, time: u32, loc: Vec3, vel: Vec3) -> bool {
        loc.z < self.max_z
    }

    fn test(&self, time: u32, loc: &Vec3, vel: &Vec3) -> (r: bool) {
        loc.z < self.max_z
    }
}

/// Accepts every projectile state.
#[derive(Clone, Copy, Debug, PartialEq, Eq, Structural)]
pub struct AnyState;

impl InterceptPredicate for AnyState {
    open spec fn accepts(&self, time: u32, loc: Vec3, vel: Vec3) -> bool {
        true
    }

    fn test(&self, time: u32, loc: &Vec3, vel: &Vec3) -> (r: bool) {
        true
    }
}

/// The agent as the estimator sees it.
#[derive(Clone, Copy, Debug, PartialEq, Eq, Structural)]
pub struct AgentState {
    pub loc: Vec3,
    pub vel: Vec3,
    pub boost: i64,
}

impl AgentState {
    pub open spec fn wf(self) -> bool {
        self.loc.bounded(COORD_LIMIT as int) && self.vel.bounded(COORD_LIMIT as int)
    }

    /// The longitudinal model of this agent at the start of its path: its
    /// speed is the length of its velocity.
    pub open spec fn sim_start(self) -> SimAgent {
        SimAgent {
            speed: clamp(
                floor_sqrt(dist_sq(self.vel, Vec3 { x: 0, y: 0, z: 0 })),
                0,
                MAX_CAR_SPEED as int,
            ) as i64,
            boost: clamp(self.boost as int, 0, crate::agent::MAX_BOOST as int) as i64,
            distance: 0,
        }
    }
}

/// The estimate: when and where the agent can meet the projectile.
#[derive(Clone, Copy, Debug, PartialEq, Eq, Structural)]
pub struct Intercept {
    /// Steps from now.
    pub time: u32,
    pub projectile_loc: Vec3,
    pub projectile_vel: Vec3,
    /// Where the agent's centre should be at contact.
    pub contact_loc: Vec3,
    pub agent_speed: i64,
}

/// Steps both models together from step `t`, at most `left` more times,
/// and stops at the first step where `pred` accepts the projectile and the
/// agent reaches it. Gives the step reached and both models' states there.
pub open spec fn intercept_search<P: InterceptPredicate>(
    origin: Vec3,
    agent: SimAgent,
    proj: SimProjectile,
    pred: P,
    t: nat,
    left: nat,
) -> (nat, SimAgent, SimProjectile)
    decreases left,
{
    if left == 0 {
        (t, agent, proj)
    } else {
        let a = agent.stepped(FULL_THROTTLE as int, true);
        let p = proj.stepped();
        if pred.accepts((t + 1) as u32, p.loc, p.vel) && reaches(origin, a.distance as int, p.loc) {
            (t + 1, a, p)
        } else {
            intercept_search(origin, a, p, pred, t + 1, (left - 1) as nat)
        }
    }
}

/// The intercept of `agent` with `proj` under `pred`: the first accepted
/// and reachable step within the horizon, or else the horizon's last step.
pub open spec fn intercept_of<P: InterceptPredicate>(agent: AgentState, proj: SimProjectile, pred: P) -> Intercept {
    let (t, a, p) = intercept_search(agent.loc, agent.sim_start(), proj, pred, 0, HORIZON_STEPS as nat);
    Intercept {
        time: t as u32,
        projectile_loc: p.loc,
        projectile_vel: p.vel,
        contact_loc: contact_point(p.loc, agent.loc),
        agent_speed: a.speed,
    }
}


/// Squared distance between two points within the coordinate bound.
fn dist_sq_of(a: &Vec3, b: &Vec3) -> (r: u64)
    requires
        a.bounded(COORD_LIMIT as int),
        b.bounded(COORD_LIMIT as int),
    ensures
        r == dist_sq(*a, *b),
{
    let dx = (a.x - b.x) as i128;
    let dy = (a.y - b.y) as i128;
    let dz = (a.z - b.z) as i128;
    assert(dx * dx <= 0x8000_0000 * 0x8000_0000 && dy * dy <= 0x8000_0000 * 0x8000_0000 && dz * dz
        <= 0x8000_0000 * 0x8000_0000) by (nonlinear_arith)
        requires
            -0x8000_0000 <= dx <= 0x8000_0000,
            -0x8000_0000 <= dy <= 0x8000_0000,
            -0x8000_0000 <= dz <= 0x8000_0000,
    ;
    assert(dx * dx >= 0 && dy * dy >= 0 && dz * dz >= 0) by (nonlinear_arith);
    (dx * dx + dy * dy + dz * dz) as u64
}

/// Where to place the agent's centre to touch a projectile at `loc` when
/// coming from `origin`.
fn contact_at(loc: &Vec3, origin: &Vec3) -> (r: Vec3)
    requires
        loc.bounded(COORD_LIMIT as int),
        origin.bounded(COORD_LIMIT as int),
    ensures
        r == contact_point(*loc, *origin),
{
    let n = isqrt(dist_sq_of(loc, origin));
    if n == 0 {
        *loc
    } else {
        let dx = loc.x - origin.x;
        let dy = loc.y - origin.y;
        let dz = loc.z - origin.z;
        let sx = scale(dx, CONTACT_RADIUS, n as i64);
        let sy = scale(dy, CONTACT_RADIUS, n as i64);
        let sz = scale(dz, CONTACT_RADIUS, n as i64);
        Vec3 { x: loc.x - sx, y: loc.y - sy, z: loc.z - sz }
    }
}

/// Estimates when and where `agent`, driving straight at full throttle
/// and boosting, can meet `proj` in a state that `pred` accepts.
///
/// Both models advance together one step at a time for at most
/// `HORIZON_STEPS` steps. The first step at which `pred` accepts the
/// projectile and the agent's covered distance reaches it, less the contact
/// radius, is the intercept. If no step qualifies, the last step simulated
/// is returned, which a caller recognises by `time == HORIZON_STEPS`.
pub fn estimate_intercept_car_ball_2<P: InterceptPredicate>(
    agent: &AgentState,
    proj: &SimProjectile,
    pred: &P,
) -> (r: Intercept)
    requires
        agent.wf(),
        proj.wf(),
    ensures
        r == intercept_of(*agent, *proj, *pred),
        1 <= r.time <= HORIZON_STEPS,
{
    let origin = agent.loc;
    let zero = Vec3 { x: 0, y: 0, z: 0 };
    let speed = isqrt(dist_sq_of(&agent.vel, &zero));
    let mut a = SimAgent::new(speed as i64).with_boost(agent.boost);
    let mut p = *proj;
    let ghost a0 = a;
    let ghost p0 = p;
    assert(a0 == agent.sim_start());
    let mut t: u32 = 0;
    let mut found = false;
    while t < HORIZON_STEPS && !found
        invariant
            t <= HORIZON_STEPS,
            origin == agent.loc,
            agent.wf(),
            a.wf(),
            p.wf(),
            a.distance <= t * MAX_STEP_DISTANCE,
            found ==> t >= 1,
            found ==> intercept_search(origin, a0, p0, *pred, 0, HORIZON_STEPS as nat) == (
            t as nat, a, p),
            !found ==> intercept_search(origin, a0, p0, *pred, 0, HORIZON_STEPS as nat)
                == intercept_search(origin, a, p, *pred, t as nat, (HORIZON_STEPS - t) as nat),
        decreases HORIZON_STEPS - t,
    {
        p.step();
        a.step(FULL_THROTTLE, true);
        t = t + 1;
        if pred.test(t, &p.loc, &p.vel) {
            let d = dist_sq_of(&p.loc, &origin);
            let reach = (a.distance + CONTACT_RADIUS) as i128;
            assert(reach * reach <= 0x1_0000_0000 * 0x1_0000_0000) by (nonlinear_arith)
                requires
                    0 <= reach <= 0x1_0000_0000,
            ;
            if (d as i128) <= reach * reach {
                found = true;
            }
        }
    }
    assert(intercept_search(origin, a0, p0, *pred, 0, HORIZON_STEPS as nat) == (t as nat, a, p));
    Intercept {
        time: t,
        projectile_loc: p.loc,
        projectile_vel: p.vel,
        contact_loc: contact_at(&p.loc, &origin),
        agent_speed: a.speed,
    }
}

/// Height below which the projectile counts as within ground reach.
pub const GROUND_REACH_Z: i64 = 110000;

/// The intercept with the projectile in ground reach: its centre below
/// `GROUND_REACH_Z`.
pub fn estimate_intercept_car_ball(agent: &AgentState, proj: &SimProjectile) -> (r: Intercept)
    requires
        agent.wf(),
        proj.wf(),
    ensures
        r == intercept_of(*agent, *proj, BelowHeight { max_z: GROUND_REACH_Z }),
        1 <= r.time <= HORIZON_STEPS,
{
    estimate_intercept_car_ball_2(agent, proj, &BelowHeight { max_z: GROUND_REACH_Z })
}

/// Half extents of the field floor.
pub const FIELD_MAX_X: i64 = 4096000;

pub const FIELD_MAX_Y: i64 = 5120000;

/// Whether `loc` lies strictly inside the field's floor plan.
pub fn is_sane_ball_loc(loc: Vec3) -> (r: bool)
    ensures
        r == (-FIELD_MAX_X < loc.x < FIELD_MAX_X && -FIELD_MAX_Y < loc.y < FIELD_MAX_Y),
{
    -FIELD_MAX_X < loc.x && loc.x < FIELD_MAX_X && -FIELD_MAX_Y < loc.y && loc.y < FIELD_MAX_Y
}

proof fn search_time_bounds<P: InterceptPredicate>(
    origin: Vec3,
    agent: SimAgent,
    proj: SimProjectile,
    pred: P,
    t: nat,
    left: nat,
)
    ensures
        t <= intercept_search(origin, agent, proj, pred, t, left).0 <= t + left,
        left > 0 ==> t < intercept_search(origin, agent, proj, pred, t, left).0,
    decreases left,
{
    if left > 0 {
        let a = agent.stepped(FULL_THROTTLE as int, true);
        let p = proj.stepped();
        search_time_bounds(origin, a, p, pred, t + 1, (left - 1) as nat);
    }
}

/// Estimation is a function of the agent, the projectile and the predicate:
/// two estimates made from the same three are identical.
pub proof fn intercept_is_deterministic<P: InterceptPredicate>(
    agent: AgentState,
    proj: SimProjectile,
    pred: P,
    first: Intercept,
    second: Intercept,
)
    requires
        first == intercept_of(agent, proj, pred),
        second == intercept_of(agent, proj, pred),
    ensures
        first == second,
{
}

/// The estimated time is never beyond the horizon: at least one step and
/// at most `HORIZON_STEPS` steps.
pub proof fn intercept_within_horizon<P: InterceptPredicate>(
    agent: AgentState,
    proj: SimProjectile,
    pred: P,
)
    ensures
        1 <= intercept_of(agent, proj, pred).time <= HORIZON_STEPS,
{
    search_time_bounds(agent.loc, agent.sim_start(), proj, pred, 0, HORIZON_STEPS as nat);
}

/// The first step, after step `t` and at most `left` more steps at full
/// throttle and boost, at which `agent` has covered at least `target`; or
/// the last step if it never does.
pub open spec fn reach_time(agent: SimAgent, target: int, t: nat, left: nat) -> nat
    decreases left,
{
    if left == 0 {
        t
    } else {
        let a = agent.stepped(FULL_THROTTLE as int, true);
        if a.distance >= target {
            t + 1
        } else {
            reach_time(a, target, t + 1, (left - 1) as nat)
        }
    }
}

/// A projectile on the ground, within the walls, with no sideways motion
/// or spin, and at most a small upward speed left from settling.
pub open spec fn settled(p: SimProjectile) -> bool {
    &&& p.vel.x == 0
    &&& p.vel.y == 0
    &&& 0 <= p.vel.z <= 10000
    &&& p.ang_vel == Vec3 { x: 0, y: 0, z: 0 }
    &&& p.loc.z == BALL_RADIUS
    &&& -wall_x() <= p.loc.x <= wall_x()
    &&& -wall_y() <= p.loc.y <= wall_y()
}

proof fn settled_stays(p: SimProjectile)
    requires
        settled(p),
    ensures
        settled(p.stepped()),
        p.stepped().loc == p.loc,
{
    reveal(SimProjectile::stepped);
}

proof fn square_le_iff(x: int, y: int)
    requires
        0 <= x,
        0 <= y,
    ensures
        x * x <= y * y <==> x <= y,
{
    if x <= y {
        assert(x * x <= y * y) by (nonlinear_arith)
            requires
                0 <= x <= y,
        ;
    } else {
        assert(y * y < x * x) by (nonlinear_arith)
            requires
                0 <= y < x,
        ;
    }
}

proof fn settled_search(origin: Vec3, a: SimAgent, p: SimProjectile, gap: int, t: nat, left: nat)
    requires
        settled(p),
        origin.x + gap == p.loc.x,
        origin.y == p.loc.y,
        origin.z == p.loc.z,
        0 <= gap,
        a.wf(),
        a.distance + left * MAX_STEP_DISTANCE <= i64::MAX - MAX_CAR_SPEED,
    ensures
        intercept_search(origin, a, p, AnyState, t, left).0 == reach_time(a, gap - CONTACT_RADIUS, t, left),
    decreases left,
{
    if left > 0 {
        settled_stays(p);
        full_step_bounds(a);
        let a2 = a.stepped(FULL_THROTTLE as int, true);
        assert(dist_sq(p.loc, origin) == gap * gap);
        square_le_iff(gap, a2.distance + CONTACT_RADIUS);
        settled_search(origin, a2, p.stepped(), gap, t + 1, (left - 1) as nat);
    }
}

/// For a projectile resting on the ground `gap` straight ahead of the
/// agent, with every state accepted, the estimate is the first step at
/// which the agent's simulated distance reaches `gap` less the contact
/// radius (or the horizon's last step if it never does).
pub proof fn intercept_of_resting_projectile(agent: AgentState, proj: SimProjectile, gap: int)
    requires
        agent.wf(),
        proj.vel == (Vec3 { x: 0, y: 0, z: 0 }),
        proj.ang_vel == (Vec3 { x: 0, y: 0, z: 0 }),
        proj.loc.z == BALL_RADIUS,
        -wall_x() <= proj.loc.x <= wall_x(),
        -wall_y() <= proj.loc.y <= wall_y(),
        0 <= gap,
        agent.loc.x + gap == proj.loc.x,
        agent.loc.y == proj.loc.y,
        agent.loc.z == proj.loc.z,
    ensures
        intercept_of(agent, proj, AnyState).time == reach_time(
            agent.sim_start(),
            gap - CONTACT_RADIUS,
            0,
            HORIZON_STEPS as nat,
        ),
{
    settled_search(agent.loc, agent.sim_start(), proj, gap, 0, HORIZON_STEPS as nat);
    search_time_bounds(agent.loc, agent.sim_start(), proj, AnyState, 0, HORIZON_STEPS as nat);
}

/// The projectile `k` steps after `p`.
pub open spec fn projectile_after(p: SimProjectile, k: nat) -> SimProjectile
    decreases k,
{
    if k == 0 {
        p
    } else {
        projectile_after(p, (k - 1) as nat).stepped()
    }
}

/// The agent `k` full-throttle, boosting steps after `a`.
pub open spec fn agent_after(a: SimAgent, k: nat) -> SimAgent
    decreases k,
{
    if k == 0 {
        a
    } else {
        agent_after(a, (k - 1) as nat).stepped(FULL_THROTTLE as int, true)
    }
}

/// Whether, `k` steps from now, `pred` accepts the projectile and the agent
/// reaches it.
pub open spec fn meets_at<P: InterceptPredicate>(agent: AgentState, proj: SimProjectile, pred: P, k: nat) -> bool {
    let p = projectile_after(proj, k);
    &&& pred.accepts(k as u32, p.loc, p.vel)
    &&& reaches(agent.loc, agent_after(agent.sim_start(), k).distance as int, p.loc)
}

proof fn search_is_first_meeting<P: InterceptPredicate>(
    agent: AgentState,
    proj: SimProjectile,
    pred: P,
    t: nat,
    left: nat,
)
    ensures
        ({
            let r = intercept_search(
                agent.loc,
                agent_after(agent.sim_start(), t),
                projectile_after(proj, t),
                pred,
                t,
                left,
            );
            &&& r.1 == agent_after(agent.sim_start(), r.0)
            &&& r.2 == projectile_after(proj, r.0)
            &&& forall|k: nat| t < k < r.0 ==> !#[trigger] meets_at(agent, proj, pred, k)
            &&& r.0 < t + left ==> meets_at(agent, proj, pred, r.0)
        }),
    decreases left,
{
    search_time_bounds(
        agent.loc,
        agent_after(agent.sim_start(), t),
        projectile_after(proj, t),
        pred,
        t,
        left,
    );
    if left > 0 {
        search_is_first_meeting(agent, proj, pred, t + 1, (left - 1) as nat);
    }
}

/// The estimate is the first step within the horizon at which `pred`
/// accepts the projectile and the agent reaches it: no earlier step
/// qualifies, and a step before the horizon does qualify. The projectile's
/// state in the estimate is the simulated state at that step.
pub proof fn intercept_is_first_meeting<P: InterceptPredicate>(
    agent: AgentState,
    proj: SimProjectile,
    pred: P,
)
    ensures
        ({
            let i = intercept_of(agent, proj, pred);
            &&& forall|k: nat| 1 <= k < i.time ==> !#[trigger] meets_at(agent, proj, pred, k)
            &&& i.time < HORIZON_STEPS ==> meets_at(agent, proj, pred, i.time as nat)
            &&& i.projectile_loc == projectile_after(proj, i.time as nat).loc
            &&& i.projectile_vel == projectile_after(proj, i.time as nat).vel
            &&& i.agent_speed == agent_after(agent.sim_start(), i.time as nat).speed
        }),
{
    search_is_first_meeting(agent, proj, pred, 0, HORIZON_STEPS as nat);
    search_time_bounds(agent.loc, agent.sim_start(), proj, pred, 0, HORIZON_STEPS as nat);
}

} // verus!
