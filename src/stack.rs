use vstd::prelude::*;
use crate::behavior::Behavior;
use crate::control::{Action, ControlOutput};
use crate::higher_order::MAX_RESOLUTIONS;

verus! {

/// Whether a stack of `frames` (top last), given `fuel` more frame
/// invocations this tick, may produce `out` and be left as `after`.
///
/// `Yield` ends the tick; `Call` pushes the called behavior above its
/// caller; `Return` and `Abort` pop the top frame. An empty stack, or one
/// that runs out of fuel, produces the neutral output.
pub open spec fn stack_run<C, B: Behavior<C, B>>(
    frames: Seq<B>,
    ctx: &C,
    fuel: nat,
    out: ControlOutput,
    after: Seq<B>,
) -> bool
    decreases fuel,
{
    if frames.len() == 0 || fuel == 0 {
        out == ControlOutput::neutral_spec() && after == frames
    } else {
        let top = frames.last();
        let rest = frames.drop_last();
        match top.action(ctx) {
            Action::Yield(o) => {
                &&& out == o
                &&& after.len() == frames.len()
                &&& after.drop_last() == rest
                &&& top.stepped(ctx, after.last())
            },
            Action::Call(b) => exists|t: B|
                #![trigger top.stepped(ctx, t)]
                top.stepped(ctx, t) && stack_run(rest.push(t).push(b), ctx, (fuel - 1) as nat, out, after),
            _ => stack_run(rest, ctx, (fuel - 1) as nat, out, after),
        }
    }
}

/// The active behaviors, the top one executing.
pub struct BehaviorStack<B> {
    frames: Vec<B>,
}

impl<B> BehaviorStack<B> {
    /// The frames, bottom first.
    pub closed spec fn frames_of(&self) -> Seq<B> {
        self.frames@
    }

    pub fn new() -> (r: BehaviorStack<B>)
        ensures
            r.frames_of().len() == 0,
    {
        BehaviorStack { frames: Vec::new() }
    }

    /// Makes `root` the new top frame.
    pub fn push(&mut self, root: B)
        ensures
            final(self).frames_of() == old(self).frames_of().push(root),
    {
        self.frames.push(root);
    }

    /// Drops every frame.
    pub fn clear(&mut self)
        ensures
            final(self).frames_of().len() == 0,
    {
        self.frames = Vec::new();
    }

    pub fn len(&self) -> (r: usize)
        ensures
            r == self.frames_of().len(),
    {
        self.frames.len()
    }

    /// Resolves one tick: runs the top frame, pushing and popping as its
    /// actions say, until a frame yields or the stack is empty.
    pub fn drive<C>(&mut self, ctx: &C) -> (r: ControlOutput)
        where
            B: Behavior<C, B>,
        ensures
            stack_run(old(self).frames_of(), ctx, MAX_RESOLUTIONS as nat, r, final(self).frames_of()),
    {
        let ghost start = self.frames@;
        let mut fuel: u32 = MAX_RESOLUTIONS;
        loop
            invariant
                fuel <= MAX_RESOLUTIONS,
                start == old(self).frames@,
                forall|o: ControlOutput, a: Seq<B>|
                    #[trigger] stack_run(self.frames@, ctx, fuel as nat, o, a) ==> stack_run(
                        start,
                        ctx,
                        MAX_RESOLUTIONS as nat,
                        o,
                        a,
                    ),
            decreases fuel,
        {
            if fuel == 0 || self.frames.len() == 0 {
                assert(stack_run(self.frames@, ctx, fuel as nat, ControlOutput::neutral_spec(), self.frames@));
                return ControlOutput::neutral();
            }
            let ghost cur = self.frames@;
            let mut top = match self.frames.pop() {
                Some(t) => t,
                None => {
                    return ControlOutput::neutral();
                },
            };
            assert(self.frames@ =~= cur.drop_last());
            let ghost f_next: nat = (fuel - 1) as nat;
            match top.execute(ctx) {
                Action::Yield(o) => {
                    self.frames.push(top);
                    assert(self.frames@.drop_last() =~= cur.drop_last());
                    assert(stack_run(cur, ctx, fuel as nat, o, self.frames@));
                    return o;
                },
                Action::Call(b) => {
                    let ghost t = top;
                    self.frames.push(top);
                    self.frames.push(b);
                    assert(self.frames@ =~= cur.drop_last().push(t).push(b));
                    assert forall|o: ControlOutput, a: Seq<B>|
                        #[trigger] stack_run(self.frames@, ctx, f_next, o, a) implies stack_run(
                            cur,
                            ctx,
                            fuel as nat,
                            o,
                            a,
                        ) by {
                        assert(cur.last().stepped(ctx, t));
                    }
                },
                _ => {
                    assert forall|o: ControlOutput, a: Seq<B>|
                        #[trigger] stack_run(self.frames@, ctx, f_next, o, a) implies stack_run(
                            cur,
                            ctx,
                            fuel as nat,
                            o,
                            a,
                        ) by {}
                },
            }
            fuel = fuel - 1;
            assert(fuel as nat == f_next);
        }
    }
}

} // verus!
