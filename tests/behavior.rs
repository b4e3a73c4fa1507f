use brain::{
    Action, Behavior, BehaviorStack, Chain, ControlOutput, CornerOffense, Fuse, Leaf, LeafFactory,
    Priority, Repeat, TryChoose,
};

fn out(throttle: i32) -> ControlOutput {
    let mut o = ControlOutput::neutral();
    o.throttle = throttle;
    o
}

fn yielded<B>(a: Action<B>) -> Option<ControlOutput> {
    match a {
        Action::Yield(o) => Some(o),
        _ => None,
    }
}

#[test]
fn corner_offense_yields_neutral() {
    let mut b = CornerOffense::new();
    assert_eq!(yielded(Behavior::<(), Leaf>::execute(&mut b, &())), Some(ControlOutput::neutral()));
    assert_eq!(yielded(Behavior::<(), Leaf>::execute(&mut b, &())), Some(ControlOutput::neutral()));
    assert_eq!(Behavior::<(), Leaf>::name(&b), "CornerOffense");
}

#[test]
fn neutral_output_is_all_idle() {
    let o = ControlOutput::neutral();
    assert_eq!((o.throttle, o.steer, o.pitch, o.yaw, o.roll), (0, 0, 0, 0, 0));
    assert!(!o.jump && !o.boost && !o.handbrake);
}

#[test]
fn priorities_are_ordered() {
    assert!(Priority::Critical.outranks(Priority::Defensive));
    assert!(Priority::Defensive.outranks(Priority::Idle));
    assert!(!Priority::Idle.outranks(Priority::Idle));
    assert_eq!(Priority::Critical.rank(), 2);
}

#[test]
fn chain_advances_past_returned_child() {
    let x = out(500);
    let y = out(-300);
    let mut chain = Chain::new(
        Priority::Defensive,
        vec![Leaf::Done, Leaf::yielder(x, 2), Leaf::yielder(y, 1)],
    );
    assert_eq!(yielded(chain.execute(&())), Some(x));
    assert_eq!(chain.len(), 2);
    assert_eq!(Behavior::<(), Leaf>::priority(&chain), Priority::Defensive);
    assert_eq!(yielded(chain.execute(&())), Some(x));
    assert_eq!(yielded(chain.execute(&())), Some(y));
    assert_eq!(chain.len(), 1);
    assert!(matches!(chain.execute(&()), Action::Return));
    assert_eq!(chain.len(), 0);
}

#[test]
fn chain_call_replaces_front_slot() {
    let z = out(1000);
    let mut chain = Chain::new(Priority::Idle, vec![Leaf::Redirect { output: z, ticks: 1 }, Leaf::Done]);
    assert_eq!(yielded(chain.execute(&())), Some(z));
    assert_eq!(chain.len(), 2);
    // The replacement now returns, then the last child returns too.
    assert!(matches!(chain.execute(&()), Action::Return));
    assert_eq!(chain.len(), 0);
}

#[test]
fn chain_abort_stops_the_chain() {
    let mut chain = Chain::new(Priority::Idle, vec![Leaf::Fail, Leaf::yielder(out(1), 5)]);
    assert!(matches!(chain.execute(&()), Action::Abort));
    assert_eq!(chain.len(), 2);
}

#[test]
fn empty_chain_returns() {
    let mut chain: Chain<Leaf> = Chain::new(Priority::Idle, vec![]);
    assert!(matches!(chain.execute(&()), Action::Return));
}

#[test]
fn try_choose_routes_to_first_willing() {
    let y = out(700);
    let mut tc = TryChoose::new(Priority::Critical, vec![Leaf::Fail, Leaf::yielder(y, 3)]);
    assert_eq!(yielded(tc.execute(&())), Some(y));
    assert_eq!(yielded(tc.execute(&())), Some(y));
    assert_eq!(yielded(tc.execute(&())), Some(y));
    assert!(matches!(tc.execute(&()), Action::Return));
    assert_eq!(Behavior::<(), Leaf>::priority(&tc), Priority::Critical);
}

#[test]
fn try_choose_aborts_when_all_abort() {
    let mut tc = TryChoose::new(Priority::Idle, vec![Leaf::Fail, Leaf::Fail]);
    assert!(matches!(tc.execute(&()), Action::Abort));
}

#[test]
fn try_choose_resolves_call_of_candidate() {
    let z = out(-1000);
    let mut tc = TryChoose::new(Priority::Idle, vec![Leaf::Redirect { output: z, ticks: 1 }]);
    assert_eq!(yielded(tc.execute(&())), Some(z));
    assert!(matches!(tc.execute(&()), Action::Return));
}

#[test]
fn fuse_hands_child_over_once_then_idles() {
    let x = out(250);
    let mut f = Fuse::new(Leaf::yielder(x, 2));
    match f.execute(&()) {
        Action::Call(c) => assert_eq!(c, Leaf::yielder(x, 2)),
        _ => panic!("expected the child to be handed over"),
    }
    assert_eq!(yielded(f.execute(&())), Some(ControlOutput::neutral()));
    assert_eq!(yielded(f.execute(&())), Some(ControlOutput::neutral()));
    assert_eq!(Behavior::<(), Leaf>::name(&f), "Fuse");
}

#[test]
fn fuse_of_aborting_child_still_hands_it_over() {
    let mut f = Fuse::new(Leaf::Fail);
    assert!(matches!(f.execute(&()), Action::Call(Leaf::Fail)));
    assert_eq!(yielded(f.execute(&())), Some(ControlOutput::neutral()));
}

#[test]
fn repeat_restarts_in_same_tick() {
    let x = out(400);
    let mut r = Repeat::new(LeafFactory { template: Leaf::yielder(x, 1) });
    for _ in 0..5 {
        assert_eq!(yielded(r.execute(&())), Some(x));
    }
}

#[test]
fn repeat_passes_call_to_stack() {
    let z = out(-50);
    let mut r = Repeat::new(LeafFactory { template: Leaf::Redirect { output: z, ticks: 1 } });
    match r.execute(&()) {
        Action::Call(c) => assert_eq!(c, Leaf::yielder(z, 1)),
        _ => panic!("expected the call to be passed on"),
    }
    // The instance stays and calls again on the next tick.
    assert!(matches!(r.execute(&()), Action::Call(_)));
}

#[test]
fn repeat_of_instant_return_is_capped() {
    let mut r = Repeat::new(LeafFactory { template: Leaf::Done });
    assert_eq!(yielded(r.execute(&())), Some(ControlOutput::neutral()));
}

#[test]
fn stack_pushes_and_pops() {
    let x = out(100);
    let y = out(200);
    let z = out(300);
    let mut stack = BehaviorStack::new();
    assert_eq!(stack.drive(&()), ControlOutput::neutral());
    stack.push(Leaf::yielder(y, 5));
    stack.push(Leaf::yielder(x, 1));
    assert_eq!(stack.drive(&()), x);
    assert_eq!(stack.len(), 2);
    assert_eq!(stack.drive(&()), y);
    assert_eq!(stack.len(), 1);
    stack.push(Leaf::Redirect { output: z, ticks: 1 });
    assert_eq!(stack.drive(&()), z);
    assert_eq!(stack.len(), 3);
    // The failing frame and the finished yielder pop; the redirecting frame
    // below them runs again and calls a fresh yielder.
    stack.push(Leaf::Fail);
    assert_eq!(stack.drive(&()), z);
    assert_eq!(stack.len(), 3);
    stack.clear();
    assert_eq!(stack.len(), 0);
}

#[test]
fn stack_runs_called_frame_then_resumes_caller() {
    let x = out(10);
    let y = out(20);
    let mut stack = BehaviorStack::new();
    stack.push(Leaf::yielder(y, 1));
    stack.push(Leaf::Redirect { output: x, ticks: 1 });
    assert_eq!(stack.drive(&()), x);
    assert_eq!(stack.len(), 3);
}
