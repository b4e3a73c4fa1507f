use brain::{
    estimate_intercept_car_ball, estimate_intercept_car_ball_2, is_sane_ball_loc, AgentState,
    AnyState, BelowHeight, SimProjectile, Vec3, BALL_RADIUS, CONTACT_RADIUS, HORIZON_STEPS,
};

fn agent(loc: Vec3, vel: Vec3, boost: i64) -> AgentState {
    AgentState { loc, vel, boost }
}

fn resting(x: i64) -> SimProjectile {
    SimProjectile::new(Vec3::new(x, 0, BALL_RADIUS), Vec3::new(0, 0, 0), Vec3::new(0, 0, 0))
}

#[test]
fn resting_ball_ahead_matches_reach_time() {
    let me = agent(Vec3::new(0, 0, BALL_RADIUS), Vec3::new(0, 0, 0), 0);
    let i = estimate_intercept_car_ball_2(&me, &resting(1000000), &AnyState);
    assert_eq!(i.time, 70);
    assert_eq!(i.projectile_loc, Vec3::new(1000000, 0, BALL_RADIUS));
    assert_eq!(i.contact_loc, Vec3::new(1000000 - CONTACT_RADIUS, 0, BALL_RADIUS));
    assert_eq!(i.agent_speed, 1091862);
    let far = estimate_intercept_car_ball_2(&me, &resting(2000000), &AnyState);
    assert_eq!(far.time, 118);
    let farther = estimate_intercept_car_ball_2(&me, &resting(3000000), &AnyState);
    assert_eq!(farther.time, 161);
}

#[test]
fn boost_shortens_intercept() {
    let me = agent(Vec3::new(0, 0, BALL_RADIUS), Vec3::new(0, 0, 0), 100000);
    assert_eq!(estimate_intercept_car_ball_2(&me, &resting(1000000), &AnyState).time, 53);
    let far = estimate_intercept_car_ball_2(&me, &resting(3000000), &AnyState);
    assert_eq!(far.time, 113);
    assert_eq!(far.agent_speed, 2300000);
}

#[test]
fn estimate_is_repeatable() {
    let me = agent(Vec3::new(-3472812, -1983225, 16937), Vec3::new(-1599195, 1223450, 9514), 33000);
    let ball = SimProjectile::new(
        Vec3::new(-1794455, -681933, 99938),
        Vec3::new(-619517, 1485629, -12806),
        Vec3::new(0, 0, 0),
    );
    let a = estimate_intercept_car_ball(&me, &ball);
    let b = estimate_intercept_car_ball(&me, &ball);
    assert_eq!(a, b);
    assert_eq!(a.time, 59);
    assert_eq!(a.projectile_loc, Vec3::new(-2090109, 27091, 92750));
    assert_eq!(a.projectile_vel, Vec3::new(-10972, 26309, 4063));
    assert_eq!(a.contact_loc, Vec3::new(-2226051, -170555, 85297));
    assert_eq!(a.agent_speed, 2300000);
}

#[test]
fn unmet_predicate_runs_to_horizon() {
    let me = agent(Vec3::new(0, 0, 17000), Vec3::new(0, 0, 0), 0);
    let ball = SimProjectile::new(Vec3::new(3000000, 4000000, 500000), Vec3::new(0, 0, 0), Vec3::new(0, 0, 0));
    let i = estimate_intercept_car_ball_2(&me, &ball, &BelowHeight { max_z: 0 });
    assert_eq!(i.time, HORIZON_STEPS);
    assert_eq!(i.projectile_loc, Vec3::new(3000000, 4000000, 104849));
    assert_eq!(i.contact_loc, Vec3::new(2856023, 3808030, 100633));
    assert_eq!(i.agent_speed, 1409997);
}

#[test]
fn ball_on_agent_has_contact_at_ball() {
    let me = agent(Vec3::new(0, 0, BALL_RADIUS), Vec3::new(0, 0, 0), 0);
    let i = estimate_intercept_car_ball_2(&me, &resting(0), &AnyState);
    assert_eq!(i.time, 1);
    assert_eq!(i.contact_loc, Vec3::new(0, 0, BALL_RADIUS));
}

#[test]
fn sane_ball_locations() {
    assert!(is_sane_ball_loc(Vec3::new(0, 0, 0)));
    assert!(is_sane_ball_loc(Vec3::new(4095999, -5119999, 0)));
    assert!(!is_sane_ball_loc(Vec3::new(4096000, 0, 0)));
    assert!(!is_sane_ball_loc(Vec3::new(0, -5120000, 0)));
}
