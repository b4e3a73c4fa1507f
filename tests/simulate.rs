use brain::{
    isqrt, SimAgent, SimProjectile, Vec3, BALL_RADIUS, MAX_CAR_SPEED, RESTITUTION_DEN,
    RESTITUTION_NUM,
};

fn at_rest(x: i64, y: i64, z: i64) -> SimProjectile {
    SimProjectile::new(Vec3::new(x, y, z), Vec3::new(0, 0, 0), Vec3::new(0, 0, 0))
}

#[test]
fn falling_projectile_bounces_with_restitution() {
    // 100 units up, falling at 500 units/s, restitution 0.6.
    let mut p = SimProjectile::new(Vec3::new(0, 0, 100000), Vec3::new(0, 0, -500000), Vec3::new(0, 0, 0));
    let before = p.vel.z;
    let mut steps = 0;
    while p.loc.z > BALL_RADIUS && p.vel.z < 0 {
        p.step();
        steps += 1;
    }
    assert_eq!(steps, 1);
    assert_eq!(p.loc.z, BALL_RADIUS);
    assert!(p.vel.z > 0);
    // Falling speed at contact: one step of drag and gravity on top.
    assert_eq!(p.vel.z, 306347);
    let expected = (-before as f64) * 0.6;
    assert!(((p.vel.z as f64) - expected).abs() <= 0.6 * 10833.0 + 0.6 * 260.0);
}

#[test]
fn drop_from_rest_loses_energy_on_bounce() {
    let h: i64 = 1000000;
    let mut p = at_rest(0, 0, h);
    let mut falling = p.vel.z;
    loop {
        let prev = p;
        p.step();
        if p.vel.z > 0 {
            // Speed at contact is the previous velocity after one more step of
            // drag and gravity.
            let air = prev.vel.z - (prev.vel.z * 61 / 120000) - 10833;
            assert_eq!(air, -1066834);
            assert_eq!(p.vel.z, -air * RESTITUTION_NUM / RESTITUTION_DEN);
            assert_eq!(p.loc.z, BALL_RADIUS);
            break;
        }
        falling = p.vel.z;
    }
    assert!(falling < 0);
    let mut peak = p.loc.z;
    while p.vel.z > 0 {
        p.step();
        peak = peak.max(p.loc.z);
    }
    let ideal = (h - BALL_RADIUS) as f64 * 0.36;
    let got = (peak - BALL_RADIUS) as f64;
    assert!((got - ideal).abs() / ideal < 0.1, "peak {} ideal {}", got, ideal);
}

#[test]
fn wall_bounce_reverses_and_damps() {
    let mut p = SimProjectile::new(
        Vec3::new(4000000, 0, 500000),
        Vec3::new(6000000, 1000000, 0),
        Vec3::new(100, 200, 300),
    );
    p.step();
    assert_eq!(p.loc, Vec3::new(4003250, 16658, 499820));
    assert_eq!(p.vel, Vec3::new(-3598170, 899542, -9749));
    assert_eq!(p.ang_vel, Vec3::new(90, 180, 270));
}

#[test]
fn resting_projectile_stays_put() {
    let mut p = at_rest(1000000, -2000000, BALL_RADIUS);
    for _ in 0..300 {
        p.step();
        assert_eq!(p.loc, Vec3::new(1000000, -2000000, BALL_RADIUS));
        assert_eq!((p.vel.x, p.vel.y), (0, 0));
    }
}

#[test]
fn agent_accelerates_along_curve() {
    let mut a = SimAgent::new(0);
    a.step(1000, false);
    assert_eq!((a.speed, a.boost, a.distance), (26666, 0, 444));
    a.step(1000, false);
    assert_eq!((a.speed, a.boost, a.distance), (52875, 0, 1325));
    a.step(1000, false);
    assert_eq!((a.speed, a.boost, a.distance), (78635, 0, 2635));
}

#[test]
fn agent_boost_depletes() {
    let mut a = SimAgent::new(0).with_boost(600);
    a.step(1000, true);
    assert_eq!((a.speed, a.boost, a.distance), (43194, 45, 719));
    a.step(1000, true);
    assert_eq!((a.speed, a.boost, a.distance), (85647, 0, 2146));
}

#[test]
fn agent_speed_is_capped() {
    let mut a = SimAgent::new(5000000).with_boost(1000000);
    assert_eq!(a.speed, MAX_CAR_SPEED);
    assert_eq!(a.boost, 100000);
    a.step(1000, true);
    assert_eq!(a.speed, MAX_CAR_SPEED);
}

#[test]
fn integer_square_root() {
    assert_eq!(isqrt(0), 0);
    assert_eq!(isqrt(99), 9);
    assert_eq!(isqrt(100), 10);
    assert_eq!(isqrt(1000000000000000000), 1000000000);
    assert_eq!(isqrt(u64::MAX), 4294967295);
}
