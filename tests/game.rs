use brain::{BoostPad, CarInfo, Game, Goal, Point2, Team, Vec3};

fn car(team: u8, x: i64) -> CarInfo {
    CarInfo { loc: Vec3::new(x, 0, 17000), vel: Vec3::new(0, 0, 0), boost: 33000, team }
}

#[test]
fn goals_by_team() {
    assert_eq!(Goal::for_team(Team::Blue).center_2d, Point2 { x: 0, y: -5120000 });
    assert_eq!(Goal::for_team(Team::Orange).center_2d, Point2 { x: 0, y: 5120000 });
    assert_eq!(Team::Blue.to_ffi(), 0);
    assert_eq!(Team::Orange.to_ffi(), 1);
}

#[test]
fn scoring_line() {
    let blue = Goal::for_team(Team::Blue);
    let orange = Goal::for_team(Team::Orange);
    assert!(blue.ball_is_scored(Vec3::new(0, -5200000, 100000)));
    assert!(!blue.ball_is_scored(Vec3::new(0, -5120000, 100000)));
    assert!(orange.ball_is_scored(Vec3::new(0, 5120001, 100000)));
    assert!(!orange.ball_is_scored(Vec3::new(0, 0, 100000)));
}

#[test]
fn game_keeps_full_boost_pads() {
    let pads = vec![
        BoostPad { location: Vec3::new(-3072000, -4096000, 73000), full_boost: true },
        BoostPad { location: Vec3::new(0, -4240000, 70000), full_boost: false },
        BoostPad { location: Vec3::new(3072000, -4096000, 73000), full_boost: true },
        BoostPad { location: Vec3::new(-3584000, 0, 73000), full_boost: true },
    ];
    let game = Game::new(&pads, 3, vec![car(0, 1), car(1, 2), car(1, 3)]);
    let d = game.boost_dollars();
    assert_eq!(d.len(), 2);
    assert_eq!(d[0].loc, Point2 { x: -3072000, y: -4096000 });
    assert_eq!(d[1].loc, Point2 { x: 3072000, y: -4096000 });
    assert_eq!(game.enemy().loc.x, 2);
    assert_eq!(game.own_goal(), Goal::for_team(Team::Blue));
    assert_eq!(game.enemy_goal(), Goal::for_team(Team::Orange));
    let all = Game::new(&pads, 10, vec![car(0, 1)]);
    assert_eq!(all.boost_dollars().len(), 3);
}
