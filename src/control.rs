use vstd::prelude::*;

verus! {

/// Full deflection of a continuous control axis, in thousandths.
pub const AXIS_MAX: i32 = 1000;

/// One tick's control command. Continuous axes are in thousandths of full
/// deflection and lie in `[-AXIS_MAX, AXIS_MAX]`.
#[derive(Clone, Copy, Debug, PartialEq, Eq, Structural)]
pub struct ControlOutput {
    pub throttle: i32,
    pub steer: i32,
    pub pitch: i32,
    pub yaw: i32,
    pub roll: i32,
    pub jump: bool,
    pub boost: bool,
    pub handbrake: bool,
}

impl ControlOutput {
    pub open spec fn axis_ok(a: i32) -> bool {
        -AXIS_MAX <= a <= AXIS_MAX
    }

    /// Every continuous axis lies within full deflection.
    pub open spec fn wf(&self) -> bool {
        &&& Self::axis_ok(self.throttle)
        &&& Self::axis_ok(self.steer)
        &&& Self::axis_ok(self.pitch)
        &&& Self::axis_ok(self.yaw)
        &&& Self::axis_ok(self.roll)
    }

    /// The output that does nothing: every axis centred, every button up.
    pub open spec fn neutral_spec() -> ControlOutput {
        ControlOutput {
            throttle: 0,
            steer: 0,
            pitch: 0,
            yaw: 0,
            roll: 0,
            jump: false,
            boost: false,
            handbrake: false,
        }
    }

    pub fn neutral() -> (r: ControlOutput)
        ensures
            r == Self::neutral_spec(),
            r.wf(),
    {
        ControlOutput {
            throttle: 0,
            steer: 0,
            pitch: 0,
            yaw: 0,
            roll: 0,
            jump: false,
            boost: false,
            handbrake: false,
        }
    }
}

/// How urgent a decision is: `Idle < Defensive < Critical`. Carried by
/// composite behaviors for callers that decide on preemption.
#[derive(Clone, Copy, Debug, PartialEq, Eq, Structural)]
pub enum Priority {
    Idle,
    Defensive,
    Critical,
}

impl Priority {
    pub open spec fn rank_spec(self) -> u8 {
        match self {
            Priority::Idle => 0,
            Priority::Defensive => 1,
            Priority::Critical => 2,
        }
    }

    /// Position in the total order of priorities.
    pub fn rank(self) -> (r: u8)
        ensures
            r == self.rank_spec(),
    {
        match self {
            Priority::Idle => 0,
            Priority::Defensive => 1,
            Priority::Critical => 2,
        }
    }

    /// Whether `self` is strictly more urgent than `other`.
    pub fn outranks(self, other: Priority) -> (r: bool)
        ensures
            r == (self.rank_spec() > other.rank_spec()),
    {
        self.rank() > other.rank()
    }
}

/// What one behavior decides for one tick.
pub enum Action<B> {
    /// End the tick with this control output.
    Yield(ControlOutput),
    /// Hand control to a new behavior within the same tick.
    Call(B),
    /// Done; let the caller produce this tick's output.
    Return,
    /// Not applicable; the caller should try something else.
    Abort,
}

/// How a sequence or a choice finished resolving one tick: a `Call` from
/// the child in front takes that child's place, so none is handed out.
#[derive(Clone, Copy, Debug, PartialEq, Eq, Structural)]
pub enum Outcome {
    Yield(ControlOutput),
    Return,
    Abort,
}

impl Outcome {
    pub open spec fn to_action<B>(self) -> Action<B> {
        match self {
            Outcome::Yield(o) => Action::Yield(o),
            Outcome::Return => Action::Return,
            Outcome::Abort => Action::Abort,
        }
    }

    pub fn into_action<B>(self) -> (r: Action<B>)
        ensures
            r == self.to_action::<B>(),
    {
        match self {
            Outcome::Yield(o) => Action::Yield(o),
            Outcome::Return => Action::Return,
            Outcome::Abort => Action::Abort,
        }
    }
}

} // verus!
