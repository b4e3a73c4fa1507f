use vstd::prelude::*;
use crate::behavior::Behavior;
use crate::control::{Action, ControlOutput, Outcome};
use crate::higher_order::{
    chain_after, chain_outcome, choose_after, choose_outcome, slot_after, slot_outcome, Chain, TryChoose, MAX_RESOLUTIONS,
};

verus! {

/// A chain whose front child returns at once and whose second child yields
/// `x` produces `x` this tick, and afterwards holds the second child (as it
/// stepped) followed by the third.
pub proof fn chain_skips_returned_child<C, B: Behavior<C, B>>(chain: Chain<B>, ctx: &C, x: ControlOutput)
    requires
        chain.children_of().len() == 3,
        chain.children_of()[0].action(ctx) is Return,
        chain.children_of()[1].action(ctx) == Action::<B>::Yield(x),
    ensures
        chain.action(ctx) == Action::<B>::Yield(x),
        forall|next: Chain<B>|
            #[trigger] chain.stepped(ctx, next) ==> {
                &&& next.children_of().len() == 2
                &&& chain.children_of()[1].stepped(ctx, next.children_of()[0])
                &&& next.children_of()[1] == chain.children_of()[2]
                &&& next.priority_of() == chain.priority_of()
            },
{
    let s = chain.children_of();
    let rest = s.drop_first();
    assert(rest[0] == s[1]);
    assert(chain_outcome(s, ctx, MAX_RESOLUTIONS as nat) == chain_outcome(rest, ctx, (MAX_RESOLUTIONS - 1) as nat));
    assert forall|next: Chain<B>| #[trigger] chain.stepped(ctx, next) implies {
        &&& next.children_of().len() == 2
        &&& s[1].stepped(ctx, next.children_of()[0])
        &&& next.children_of()[1] == s[2]
        &&& next.priority_of() == chain.priority_of()
    } by {
        let after = next.children_of();
        assert(chain_after(rest, ctx, (MAX_RESOLUTIONS - 1) as nat, after));
        assert(after.drop_first()[0] == after[1]);
        assert(rest.drop_first()[0] == s[2]);
    }
}

/// When the front child of a non-empty chain calls `d`, the chain puts `d`
/// in the front slot, keeps its length, and resolves again within the same
/// tick: the tick goes exactly as for the chain with `d` in front, one
/// invocation fewer.
pub proof fn chain_call_replaces_front<C, B: Behavior<C, B>>(chain: Chain<B>, ctx: &C, d: B)
    requires
        chain.children_of().len() > 0,
        chain.children_of()[0].action(ctx) == Action::<B>::Call(d),
    ensures
        chain.children_of().update(0, d).len() == chain.children_of().len(),
        chain.children_of().update(0, d)[0] == d,
        chain.action(ctx) == chain_outcome(
            chain.children_of().update(0, d),
            ctx,
            (MAX_RESOLUTIONS - 1) as nat,
        ).to_action::<B>(),
        forall|next: Chain<B>|
            #[trigger] chain.stepped(ctx, next) <==> {
                &&& next.priority_of() == chain.priority_of()
                &&& chain_after(
                    chain.children_of().update(0, d),
                    ctx,
                    (MAX_RESOLUTIONS - 1) as nat,
                    next.children_of(),
                )
            },
{
}

/// A choice among a first candidate that aborts at once and a second that
/// yields `y` produces `y` and settles on the second candidate (as it
/// stepped); from then on every tick is resolved by that candidate alone.
pub proof fn try_choose_takes_first_willing<C, B: Behavior<C, B>>(
    tc: TryChoose<B>,
    ctx: &C,
    y: ControlOutput,
)
    requires
        tc.chosen_of() is None,
        tc.candidates_of().len() == 2,
        tc.candidates_of()[0].action(ctx) is Abort,
        tc.candidates_of()[1].action(ctx) == Action::<B>::Yield(y),
    ensures
        tc.action(ctx) == Action::<B>::Yield(y),
        forall|next: TryChoose<B>|
            #[trigger] tc.stepped(ctx, next) ==> {
                &&& next.candidates_of().len() == 0
                &&& next.chosen_of() is Some
                &&& tc.candidates_of()[1].stepped(ctx, next.chosen_of()->0)
            },
        forall|later: TryChoose<B>, ctx2: &C|
            later.chosen_of() is Some ==> #[trigger] later.action(ctx2) == slot_outcome(
                later.chosen_of()->0,
                ctx2,
                MAX_RESOLUTIONS as nat,
            ).to_action::<B>(),
{
    let s = tc.candidates_of();
    assert(s.drop_first()[0] == s[1]);
    assert(choose_outcome(s, ctx) == choose_outcome(s.drop_first(), ctx));
    assert(choose_outcome(s.drop_first(), ctx) == Outcome::Yield(y));
    assert forall|next: TryChoose<B>| #[trigger] tc.stepped(ctx, next) implies {
        &&& next.candidates_of().len() == 0
        &&& next.chosen_of() is Some
        &&& s[1].stepped(ctx, next.chosen_of()->0)
    } by {
        assert(choose_after(s.drop_first(), ctx, next.chosen_of()));
    }
}

} // verus!
