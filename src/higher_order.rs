use vstd::prelude::*;
use crate::behavior::{Behavior, Leaf};
use crate::control::{Action, ControlOutput, Outcome, Priority};

verus! {

/// How many times a composite may re-invoke a child within one tick. When
/// the cap is reached the composite yields the neutral output, keeping its
/// children as they stand, so that a runaway cascade costs one idle tick.
pub const MAX_RESOLUTIONS: u32 = 64;

/// Outcome of a chain with children `children`, given `fuel` more child
/// invocations this tick.
pub open spec fn chain_outcome<C, B: Behavior<C, B>>(children: Seq<B>, ctx: &C, fuel: nat) -> Outcome
    decreases fuel,
{
    if children.len() == 0 {
        Outcome::Return
    } else if fuel == 0 {
        Outcome::Yield(ControlOutput::neutral_spec())
    } else {
        match children[0].action(ctx) {
            Action::Yield(o) => Outcome::Yield(o),
            Action::Call(d) => chain_outcome(children.update(0, d), ctx, (fuel - 1) as nat),
            Action::Return => chain_outcome(children.drop_first(), ctx, (fuel - 1) as nat),
            Action::Abort => Outcome::Abort,
        }
    }
}

/// Whether `after` is a queue that a chain with children `children` may be
/// left with, given `fuel` more child invocations this tick.
pub open spec fn chain_after<C, B: Behavior<C, B>>(
    children: Seq<B>,
    ctx: &C,
    fuel: nat,
    after: Seq<B>,
) -> bool
    decreases fuel,
{
    if children.len() == 0 || fuel == 0 {
        after == children
    } else {
        match children[0].action(ctx) {
            Action::Call(d) => chain_after(children.update(0, d), ctx, (fuel - 1) as nat, after),
            Action::Return => chain_after(children.drop_first(), ctx, (fuel - 1) as nat, after),
            _ => {
                &&& after.len() == children.len()
                &&& children[0].stepped(ctx, after[0])
                &&& after.drop_first() == children.drop_first()
            },
        }
    }
}

/// Runs its children in sequence: each tick only the front child acts.
pub struct Chain<B> {
    priority: Priority,
    children: Vec<B>,
}

impl<B> Chain<B> {
    pub closed spec fn priority_of(&self) -> Priority {
        self.priority
    }

    /// The queue of children, front first.
    pub closed spec fn children_of(&self) -> Seq<B> {
        self.children@
    }

    pub fn new(priority: Priority, children: Vec<B>) -> (r: Chain<B>)
        ensures
            r.priority_of() == priority,
            r.children_of() == children@,
    {
        Chain { priority, children }
    }

    pub fn len(&self) -> (r: usize)
        ensures
            r == self.children_of().len(),
    {
        self.children.len()
    }
}

impl<C, B: Behavior<C, B>> Behavior<C, B> for Chain<B> {
    open spec fn action(&self, ctx: &C) -> Action<B> {
        chain_outcome(self.children_of(), ctx, MAX_RESOLUTIONS as nat).to_action()
    }

    open spec fn stepped(&self, ctx: &C, next: Chain<B>) -> bool {
        &&& next.priority_of() == self.priority_of()
        &&& chain_after(self.children_of(), ctx, MAX_RESOLUTIONS as nat, next.children_of())
    }

    open spec fn priority_spec(&self) -> Priority {
        self.priority_of()
    }

    fn priority(&self) -> (r: Priority) {
        self.priority
    }

    fn name(&self) -> &'static str {
        "Chain"
    }

    /// Executes the front child. `Yield` is passed on; `Call` replaces the
    /// front child in place and retries; `Return` dequeues it and retries
    /// with the next; `Abort` aborts the whole chain. An empty chain returns.
    fn execute(&mut self, ctx: &C) -> (r: Action<B>) {
        let ghost start = self.children@;
        let mut fuel: u32 = MAX_RESOLUTIONS;
        loop
            invariant
                self.priority == old(self).priority,
                start == old(self).children@,
                fuel <= MAX_RESOLUTIONS,
                chain_outcome(start, ctx, MAX_RESOLUTIONS as nat) == chain_outcome(
                    self.children@,
                    ctx,
                    fuel as nat,
                ),
                forall|after: Seq<B>|
                    chain_after(self.children@, ctx, fuel as nat, after) ==> chain_after(
                        start,
                        ctx,
                        MAX_RESOLUTIONS as nat,
                        after,
                    ),
            decreases fuel,
        {
            if self.children.len() == 0 {
                return Action::Return;
            }
            if fuel == 0 {
                return Action::Yield(ControlOutput::neutral());
            }
            let ghost cur = self.children@;
            let mut front = self.children.remove(0);
            let action = front.execute(ctx);
            match action {
                Action::Yield(o) => {
                    self.children.insert(0, front);
                    assert(self.children@.drop_first() =~= cur.drop_first());
                    return Action::Yield(o);
                },
                Action::Call(d) => {
                    self.children.insert(0, d);
                    assert(self.children@ =~= cur.update(0, d));
                },
                Action::Return => {
                    assert(self.children@ =~= cur.drop_first());
                },
                Action::Abort => {
                    self.children.insert(0, front);
                    assert(self.children@.drop_first() =~= cur.drop_first());
                    return Action::Abort;
                },
            }
            fuel = fuel - 1;
        }
    }
}


/// Outcome of a single slot holding `b`, where a `Call` replaces the slot's
/// occupant in place, given `fuel` more invocations this tick.
pub open spec fn slot_outcome<C, B: Behavior<C, B>>(b: B, ctx: &C, fuel: nat) -> Outcome
    decreases fuel,
{
    if fuel == 0 {
        Outcome::Yield(ControlOutput::neutral_spec())
    } else {
        match b.action(ctx) {
            Action::Yield(o) => Outcome::Yield(o),
            Action::Call(d) => slot_outcome(d, ctx, (fuel - 1) as nat),
            Action::Return => Outcome::Return,
            Action::Abort => Outcome::Abort,
        }
    }
}

/// Whether `next` is an occupant that a slot holding `b` may be left with,
/// given `fuel` more invocations this tick.
pub open spec fn slot_after<C, B: Behavior<C, B>>(b: B, ctx: &C, fuel: nat, next: B) -> bool
    decreases fuel,
{
    if fuel == 0 {
        next == b
    } else {
        match b.action(ctx) {
            Action::Call(d) => slot_after(d, ctx, (fuel - 1) as nat, next),
            _ => b.stepped(ctx, next),
        }
    }
}

/// Executes the behavior in `slot` until it yields, returns or aborts; a
/// `Call` puts the called behavior in the slot and retries.
fn resolve_slot<C, B: Behavior<C, B>>(slot: &mut B, ctx: &C, fuel: u32) -> (r: Outcome)
    ensures
        r == slot_outcome(*old(slot), ctx, fuel as nat),
        slot_after(*old(slot), ctx, fuel as nat, *final(slot)),
{
    let ghost start = *slot;
    let mut fuel_left: u32 = fuel;
    loop
        invariant
            fuel_left <= fuel,
            start == *old(slot),
            slot_outcome(start, ctx, fuel as nat) == slot_outcome(*slot, ctx, fuel_left as nat),
            forall|n: B|
                slot_after(*slot, ctx, fuel_left as nat, n) ==> slot_after(
                    start,
                    ctx,
                    fuel as nat,
                    n,
                ),
        decreases fuel_left,
    {
        if fuel_left == 0 {
            return Outcome::Yield(ControlOutput::neutral());
        }
        match slot.execute(ctx) {
            Action::Yield(o) => {
                return Outcome::Yield(o);
            },
            Action::Call(d) => {
                *slot = d;
            },
            Action::Return => {
                return Outcome::Return;
            },
            Action::Abort => {
                return Outcome::Abort;
            },
        }
        fuel_left = fuel_left - 1;
    }
}

/// Hands its child to the stack on its first tick, keeping nothing; from
/// then on yields the neutral output on every tick. Pushed on a stack, it
/// thus runs the child until the child completes, then idles.
pub struct Fuse<B> {
    child: Option<B>,
}

impl<B> Fuse<B> {
    /// The child, until it has been handed over.
    pub closed spec fn child_of(&self) -> Option<B> {
        self.child
    }

    pub fn new(child: B) -> (r: Fuse<B>)
        ensures
            r.child_of() == Some(child),
    {
        Fuse { child: Some(child) }
    }
}

impl<C, B> Behavior<C, B> for Fuse<B> {
    open spec fn action(&self, ctx: &C) -> Action<B> {
        match self.child_of() {
            Some(b) => Action::Call(b),
            None => Action::Yield(ControlOutput::neutral_spec()),
        }
    }

    open spec fn stepped(&self, ctx: &C, next: Fuse<B>) -> bool {
        next.child_of() is None
    }

    open spec fn priority_spec(&self) -> Priority {
        Priority::Idle
    }

    fn priority(&self) -> (r: Priority) {
        Priority::Idle
    }

    fn name(&self) -> &'static str {
        "Fuse"
    }

    fn execute(&mut self, ctx: &C) -> (r: Action<B>) {
        // `take` leaves `None` behind, so the child is handed over once.
        match self.child.take() {
            Some(b) => Action::Call(b),
            None => Action::Yield(ControlOutput::neutral()),
        }
    }
}

/// A maker of fresh behavior instances. Each call makes the same instance.
pub trait Factory<B>: Sized {
    spec fn product(&self) -> B;

    fn make(&self) -> (r: B)
        ensures
            r == self.product(),
    ;
}

/// Makes copies of a fixed leaf.
#[derive(Clone, Copy, Debug, PartialEq, Eq, Structural)]
pub struct LeafFactory {
    pub template: Leaf,
}

impl Factory<Leaf> for LeafFactory {
    open spec fn product(&self) -> Leaf {
        self.template
    }

    fn make(&self) -> (r: Leaf) {
        self.template
    }
}

/// Action of a repeat over `factory` whose present instance is `cur`,
/// given `fuel` more invocations this tick: the instance's `Yield` and
/// `Call` are passed on; when it completes a fresh instance runs.
pub open spec fn repeat_action<C, B: Behavior<C, B>, F: Factory<B>>(
    factory: F,
    cur: B,
    ctx: &C,
    fuel: nat,
) -> Action<B>
    decreases fuel,
{
    if fuel == 0 {
        Action::Yield(ControlOutput::neutral_spec())
    } else {
        match cur.action(ctx) {
            Action::Yield(o) => Action::Yield(o),
            Action::Call(b) => Action::Call(b),
            _ => repeat_action(factory, factory.product(), ctx, (fuel - 1) as nat),
        }
    }
}

/// Whether `next` is an instance that a repeat over `factory` whose present
/// instance is `cur` may be left with, given `fuel` more invocations.
pub open spec fn repeat_after<C, B: Behavior<C, B>, F: Factory<B>>(
    factory: F,
    cur: B,
    ctx: &C,
    fuel: nat,
    next: B,
) -> bool
    decreases fuel,
{
    if fuel == 0 {
        next == cur
    } else {
        match cur.action(ctx) {
            Action::Yield(_) => cur.stepped(ctx, next),
            Action::Call(_) => cur.stepped(ctx, next),
            _ => repeat_after(factory, factory.product(), ctx, (fuel - 1) as nat, next),
        }
    }
}

/// Runs an instance made by `factory`; whenever it completes, makes a fresh
/// one and runs that within the same tick. A `Call` from the instance goes
/// to the stack, and the instance stays to resume afterwards.
pub struct Repeat<B, F> {
    factory: F,
    current: B,
}

impl<B, F: Factory<B>> Repeat<B, F> {
    pub closed spec fn factory_of(&self) -> F {
        self.factory
    }

    pub closed spec fn current_of(&self) -> B {
        self.current
    }

    pub fn new(factory: F) -> (r: Repeat<B, F>)
        ensures
            r.factory_of() == factory,
            r.current_of() == factory.product(),
    {
        let current = factory.make();
        Repeat { factory, current }
    }
}

impl<C, B: Behavior<C, B>, F: Factory<B>> Behavior<C, B> for Repeat<B, F> {
    open spec fn action(&self, ctx: &C) -> Action<B> {
        repeat_action(self.factory_of(), self.current_of(), ctx, MAX_RESOLUTIONS as nat)
    }

    open spec fn stepped(&self, ctx: &C, next: Repeat<B, F>) -> bool {
        &&& next.factory_of() == self.factory_of()
        &&& repeat_after(
            self.factory_of(),
            self.current_of(),
            ctx,
            MAX_RESOLUTIONS as nat,
            next.current_of(),
        )
    }

    open spec fn priority_spec(&self) -> Priority {
        Priority::Idle
    }

    fn priority(&self) -> (r: Priority) {
        Priority::Idle
    }

    fn name(&self) -> &'static str {
        "Repeat"
    }

    fn execute(&mut self, ctx: &C) -> (r: Action<B>) {
        let ghost start = self.current;
        let mut fuel: u32 = MAX_RESOLUTIONS;
        loop
            invariant
                fuel <= MAX_RESOLUTIONS,
                start == old(self).current,
                self.factory == old(self).factory,
                repeat_action(self.factory, start, ctx, MAX_RESOLUTIONS as nat) == repeat_action(
                    self.factory,
                    self.current,
                    ctx,
                    fuel as nat,
                ),
                forall|n: B|
                    repeat_after(self.factory, self.current, ctx, fuel as nat, n) ==> repeat_after(
                        self.factory,
                        start,
                        ctx,
                        MAX_RESOLUTIONS as nat,
                        n,
                    ),
            decreases fuel,
        {
            if fuel == 0 {
                return Action::Yield(ControlOutput::neutral());
            }
            match self.current.execute(ctx) {
                Action::Yield(o) => {
                    return Action::Yield(o);
                },
                Action::Call(b) => {
                    return Action::Call(b);
                },
                _ => {
                    self.current = self.factory.make();
                },
            }
            fuel = fuel - 1;
        }
    }
}

/// Outcome of choosing among `candidates`: the first that does not abort is
/// taken, and a `Call` from it is resolved in its slot.
pub open spec fn choose_outcome<C, B: Behavior<C, B>>(candidates: Seq<B>, ctx: &C) -> Outcome
    decreases candidates.len(),
{
    if candidates.len() == 0 {
        Outcome::Abort
    } else {
        match candidates[0].action(ctx) {
            Action::Abort => choose_outcome(candidates.drop_first(), ctx),
            Action::Yield(o) => Outcome::Yield(o),
            Action::Return => Outcome::Return,
            Action::Call(d) => slot_outcome(d, ctx, (MAX_RESOLUTIONS - 1) as nat),
        }
    }
}

/// Whether `chosen` is what choosing among `candidates` may settle on.
pub open spec fn choose_after<C, B: Behavior<C, B>>(candidates: Seq<B>, ctx: &C, chosen: Option<B>) -> bool
    decreases candidates.len(),
{
    if candidates.len() == 0 {
        chosen is None
    } else {
        match candidates[0].action(ctx) {
            Action::Abort => choose_after(candidates.drop_first(), ctx, chosen),
            Action::Call(d) => match chosen {
                Some(n) => slot_after(d, ctx, (MAX_RESOLUTIONS - 1) as nat, n),
                None => false,
            },
            _ => match chosen {
                Some(n) => candidates[0].stepped(ctx, n),
                None => false,
            },
        }
    }
}

/// Tries candidates in order; the first that does not abort at once becomes
/// the only behavior run on later ticks. Aborts if every candidate aborts.
pub struct TryChoose<B> {
    priority: Priority,
    candidates: Vec<B>,
    chosen: Option<B>,
}

impl<B> TryChoose<B> {
    pub closed spec fn priority_of(&self) -> Priority {
        self.priority
    }

    /// Candidates not yet tried; empty once a choice was made.
    pub closed spec fn candidates_of(&self) -> Seq<B> {
        self.candidates@
    }

    pub closed spec fn chosen_of(&self) -> Option<B> {
        self.chosen
    }

    pub fn new(priority: Priority, candidates: Vec<B>) -> (r: TryChoose<B>)
        ensures
            r.priority_of() == priority,
            r.candidates_of() == candidates@,
            r.chosen_of() is None,
    {
        TryChoose { priority, candidates, chosen: None }
    }
}

impl<C, B: Behavior<C, B>> Behavior<C, B> for TryChoose<B> {
    open spec fn action(&self, ctx: &C) -> Action<B> {
        match self.chosen_of() {
            Some(b) => slot_outcome(b, ctx, MAX_RESOLUTIONS as nat).to_action(),
            None => choose_outcome(self.candidates_of(), ctx).to_action(),
        }
    }

    open spec fn stepped(&self, ctx: &C, next: TryChoose<B>) -> bool {
        &&& next.priority_of() == self.priority_of()
        &&& next.candidates_of().len() == 0
        &&& match self.chosen_of() {
            Some(b) => match next.chosen_of() {
                Some(n) => slot_after(b, ctx, MAX_RESOLUTIONS as nat, n),
                None => false,
            },
            None => choose_after(self.candidates_of(), ctx, next.chosen_of()),
        }
    }

    open spec fn priority_spec(&self) -> Priority {
        self.priority_of()
    }

    fn priority(&self) -> (r: Priority) {
        self.priority
    }

    fn name(&self) -> &'static str {
        "TryChoose"
    }

    fn execute(&mut self, ctx: &C) -> (r: Action<B>) {
        match self.chosen.take() {
            Some(mut b) => {
                let out = resolve_slot(&mut b, ctx, MAX_RESOLUTIONS);
                self.chosen = Some(b);
                self.candidates = Vec::new();
                return out.into_action();
            },
            None => {},
        }
        let ghost start = self.candidates@;
        loop
            invariant
                self.chosen is None,
                old(self).chosen is None,
                self.priority == old(self).priority,
                start == old(self).candidates@,
                choose_outcome(start, ctx) == choose_outcome(self.candidates@, ctx),
                forall|c: Option<B>|
                    choose_after(self.candidates@, ctx, c) ==> choose_after(start, ctx, c),
            decreases self.candidates@.len(),
        {
            if self.candidates.len() == 0 {
                return Action::Abort;
            }
            let ghost cur = self.candidates@;
            let mut front = self.candidates.remove(0);
            assert(self.candidates@ =~= cur.drop_first());
            match front.execute(ctx) {
                Action::Abort => {},
                Action::Call(d) => {
                    let mut slot = d;
                    let out = resolve_slot(&mut slot, ctx, MAX_RESOLUTIONS - 1);
                    self.chosen = Some(slot);
                    self.candidates = Vec::new();
                    return out.into_action();
                },
                Action::Yield(o) => {
                    self.chosen = Some(front);
                    self.candidates = Vec::new();
                    return Action::Yield(o);
                },
                Action::Return => {
                    self.chosen = Some(front);
                    self.candidates = Vec::new();
                    return Action::Return;
                },
            }
        }
    }
}

} // verus!
