use vstd::prelude::*;
use crate::intercept::FIELD_MAX_Y;
use crate::sim::Vec3;

verus! {

#[derive(Clone, Copy, Debug, PartialEq, Eq, Structural)]
pub enum Team {
    Blue,
    Orange,
}

impl Team {
    /// The team's number on the wire.
    pub open spec fn index(self) -> u8 {
        match self {
            Team::Blue => 0,
            Team::Orange => 1,
        }
    }

    pub fn to_ffi(&self) -> (r: u8)
        ensures
            r == self.index(),
    {
        match self {
            Team::Blue => 0,
            Team::Orange => 1,
        }
    }
}

/// A point on the floor plan.
#[derive(Clone, Copy, Debug, PartialEq, Eq, Structural)]
pub struct Point2 {
    pub x: i64,
    pub y: i64,
}

/// A goal, by the centre of its mouth on the floor plan.
#[derive(Clone, Copy, Debug, PartialEq, Eq, Structural)]
pub struct Goal {
    pub center_2d: Point2,
}

/// Blue defends the goal at negative y, orange the one at positive y.
pub open spec fn goal_of(team: Team) -> Goal {
    match team {
        Team::Blue => Goal { center_2d: Point2 { x: 0, y: (-FIELD_MAX_Y) as i64 } },
        Team::Orange => Goal { center_2d: Point2 { x: 0, y: FIELD_MAX_Y } },
    }
}

impl Goal {
    pub fn for_team(team: Team) -> (r: Goal)
        ensures
            r == goal_of(team),
    {
        match team {
            Team::Blue => Goal { center_2d: Point2 { x: 0, y: -FIELD_MAX_Y } },
            Team::Orange => Goal { center_2d: Point2 { x: 0, y: FIELD_MAX_Y } },
        }
    }

    /// Whether a ball at `ball_loc` is past this goal's line, ignoring the
    /// ball's radius.
    pub fn ball_is_scored(&self, ball_loc: Vec3) -> (r: bool)
        ensures
            r == if self.center_2d.y < 0 {
                ball_loc.y < self.center_2d.y
            } else {
                ball_loc.y > self.center_2d.y
            },
    {
        if self.center_2d.y < 0 {
            ball_loc.y < self.center_2d.y
        } else {
            ball_loc.y > self.center_2d.y
        }
    }
}

/// A boost pad of the field.
#[derive(Clone, Copy, Debug, PartialEq, Eq, Structural)]
pub struct BoostPad {
    pub location: Vec3,
    pub full_boost: bool,
}

/// Where a full boost can be picked up.
#[derive(Clone, Copy, Debug, PartialEq, Eq, Structural)]
pub struct BoostPickup {
    pub loc: Point2,
}

/// The pickups of the full-boost pads among `pads`, in order.
pub open spec fn full_pickups(pads: Seq<BoostPad>) -> Seq<BoostPickup>
    decreases pads.len(),
{
    if pads.len() == 0 {
        seq![]
    } else {
        let rest = full_pickups(pads.drop_last());
        let pad = pads.last();
        if pad.full_boost {
            rest.push(BoostPickup { loc: Point2 { x: pad.location.x, y: pad.location.y } })
        } else {
            rest
        }
    }
}

/// A car as the game reports it.
#[derive(Clone, Copy, Debug, PartialEq, Eq, Structural)]
pub struct CarInfo {
    pub loc: Vec3,
    pub vel: Vec3,
    pub boost: i64,
    pub team: u8,
}

/// One tick's view of the game from the blue team's side.
pub struct Game {
    cars: Vec<CarInfo>,
    pub team: Team,
    pub enemy_team: Team,
    boost_dollars: Vec<BoostPickup>,
}

impl Game {
    pub closed spec fn cars_of(&self) -> Seq<CarInfo> {
        self.cars@
    }

    pub closed spec fn team_of(&self) -> Team {
        self.team
    }

    pub closed spec fn enemy_team_of(&self) -> Team {
        self.enemy_team
    }

    pub closed spec fn boost_dollars_of(&self) -> Seq<BoostPickup> {
        self.boost_dollars@
    }

    /// The game with `cars`, playing blue; its full-boost pickups are those
    /// among the first `num_boosts` of `pads`.
    pub fn new(pads: &Vec<BoostPad>, num_boosts: usize, cars: Vec<CarInfo>) -> (r: Game)
        ensures
            r.team_of() == Team::Blue,
            r.enemy_team_of() == Team::Orange,
            r.cars_of() == cars@,
            r.boost_dollars_of() == full_pickups(pads@.take(if num_boosts <= pads.len() { num_boosts as int } else { pads.len() as int })),
    {
        let n = if num_boosts <= pads.len() {
            num_boosts
        } else {
            pads.len()
        };
        let mut dollars: Vec<BoostPickup> = Vec::new();
        let mut i: usize = 0;
        while i < n
            invariant
                n <= pads.len(),
                i <= n,
                dollars@ == full_pickups(pads@.take(i as int)),
            decreases n - i,
        {
            let pad = pads[i];
            assert(pads@.take(i + 1).drop_last() =~= pads@.take(i as int));
            if pad.full_boost {
                dollars.push(BoostPickup { loc: Point2 { x: pad.location.x, y: pad.location.y } });
            }
            i = i + 1;
        }
        Game { cars, team: Team::Blue, enemy_team: Team::Orange, boost_dollars: dollars }
    }

    /// The first car on the enemy team; there must be one.
    pub fn enemy(&self) -> (r: CarInfo)
        requires
            exists|i: int| 0 <= i < self.cars_of().len() && #[trigger] self.cars_of()[i].team == self.enemy_team_of().index(),
        ensures
            exists|i: int|
                0 <= i < self.cars_of().len() && self.cars_of()[i] == r && r.team == self.enemy_team_of().index()
                    && forall|j: int| 0 <= j < i ==> self.cars_of()[j].team != self.enemy_team_of().index(),
    {
        let team = self.enemy_team.to_ffi();
        let n = self.cars.len();
        let mut i: usize = 0;
        loop
            invariant
                n == self.cars@.len(),
                i < self.cars@.len(),
                team == self.enemy_team.index(),
                forall|j: int| 0 <= j < i ==> self.cars@[j].team != team,
                exists|k: int| i <= k < self.cars@.len() && #[trigger] self.cars@[k].team == team,
            decreases self.cars@.len() - i,
        {
            if self.cars[i].team == team {
                assert(self.cars_of()[i as int] == self.cars@[i as int]);
                return self.cars[i];
            }
            let ghost k = choose|k: int| i <= k < self.cars@.len() && #[trigger] self.cars@[k].team == team;
            assert(k != i);
            i = i + 1;
        }
    }

    pub fn own_goal(&self) -> (r: Goal)
        ensures
            r == goal_of(self.team_of()),
    {
        Goal::for_team(self.team)
    }

    pub fn enemy_goal(&self) -> (r: Goal)
        ensures
            r == goal_of(self.enemy_team_of()),
    {
        Goal::for_team(self.enemy_team)
    }

    pub fn boost_dollars(&self) -> (r: &Vec<BoostPickup>)
        ensures
            r@ == self.boost_dollars_of(),
    {
        &self.boost_dollars
    }
}

} // verus!
