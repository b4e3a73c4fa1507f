use vstd::prelude::*;
use crate::control::{Action, ControlOutput, Priority};

verus! {

/// A decision unit executed once or more per tick against a read-only
/// context `C`, on a stack whose frames are of type `F`: a `Call` hands the
/// stack a new frame.
///
/// `action` says what the behavior decides in its present state, and
/// `stepped` which states it may be left in after deciding; `execute` is
/// held to both.
pub trait Behavior<C, F>: Sized {
    spec fn action(&self, ctx: &C) -> Action<F>;

    spec fn stepped(&self, ctx: &C, next: Self) -> bool;

    spec fn priority_spec(&self) -> Priority;

    /// A short label for logs and displays.
    fn name(&self) -> &'static str;

    fn priority(&self) -> (r: Priority)
        ensures
            r == self.priority_spec(),
    ;

    fn execute(&mut self, ctx: &C) -> (r: Action<F>)
        ensures
            r == old(self).action(ctx),
            old(self).stepped(ctx, *final(self)),
    ;
}

/// Offensive play near the enemy corner. It holds no state and, for now,
/// yields the neutral output on every tick.
#[derive(Clone, Copy, Debug, PartialEq, Eq, Structural)]
pub struct CornerOffense;

impl CornerOffense {
    pub fn new() -> (r: CornerOffense)
        ensures
            r == CornerOffense,
    {
        CornerOffense
    }
}

impl<C, F> Behavior<C, F> for CornerOffense {
    open spec fn action(&self, ctx: &C) -> Action<F> {
        Action::Yield(ControlOutput::neutral_spec())
    }

    open spec fn stepped(&self, ctx: &C, next: CornerOffense) -> bool {
        next == *self
    }

    open spec fn priority_spec(&self) -> Priority {
        Priority::Idle
    }

    fn priority(&self) -> (r: Priority) {
        Priority::Idle
    }

    fn name(&self) -> &'static str {
        "CornerOffense"
    }

    fn execute(&mut self, ctx: &C) -> (r: Action<F>) {
        Action::Yield(ControlOutput::neutral())
    }
}

/// Simple leaf behaviors, for plain sequences and for trying composites.
#[derive(Clone, Copy, Debug, PartialEq, Eq, Structural)]
pub enum Leaf {
    /// Yields `output` for `ticks` more ticks, then returns.
    Yielder { output: ControlOutput, ticks: u32 },
    /// Hands over, within the same tick, to a yielder of `output` for `ticks`.
    Redirect { output: ControlOutput, ticks: u32 },
    /// Returns at once.
    Done,
    /// Aborts at once.
    Fail,
}

impl Leaf {
    pub fn yielder(output: ControlOutput, ticks: u32) -> (r: Leaf)
        ensures
            r == (Leaf::Yielder { output, ticks }),
    {
        Leaf::Yielder { output, ticks }
    }
}

impl<C> Behavior<C, Leaf> for Leaf {
    open spec fn action(&self, ctx: &C) -> Action<Leaf> {
        match *self {
            Leaf::Yielder { output, ticks } => if ticks > 0 {
                Action::Yield(output)
            } else {
                Action::Return
            },
            Leaf::Redirect { output, ticks } => Action::Call(Leaf::Yielder { output, ticks }),
            Leaf::Done => Action::Return,
            Leaf::Fail => Action::Abort,
        }
    }

    open spec fn stepped(&self, ctx: &C, next: Leaf) -> bool {
        match *self {
            Leaf::Yielder { output, ticks } => if ticks > 0 {
                next == Leaf::Yielder { output, ticks: (ticks - 1) as u32 }
            } else {
                next == *self
            },
            _ => next == *self,
        }
    }

    open spec fn priority_spec(&self) -> Priority {
        Priority::Idle
    }

    fn priority(&self) -> (r: Priority) {
        Priority::Idle
    }

    fn name(&self) -> &'static str {
        "Leaf"
    }

    fn execute(&mut self, ctx: &C) -> (r: Action<Leaf>) {
        match *self {
            Leaf::Yielder { output, ticks } => {
                if ticks > 0 {
                    *self = Leaf::Yielder { output, ticks: ticks - 1 };
                    Action::Yield(output)
                } else {
                    Action::Return
                }
            },
            Leaf::Redirect { output, ticks } => Action::Call(Leaf::Yielder { output, ticks }),
            Leaf::Done => Action::Return,
            Leaf::Fail => Action::Abort,
        }
    }
}

} // verus!
