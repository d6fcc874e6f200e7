use tcp_proxy::engine::{Engine, LoopAction, LoopEvent};

#[test]
fn fresh_engine_accepts_and_counts_from_one() {
    let e = Engine::new();
    assert!(e.is_accepting());
    assert_eq!(e.live_count(), 0);
    assert_eq!(e.next_id, 1);
}

#[test]
fn accepts_assign_distinct_increasing_ids() {
    let mut e = Engine::new();
    let a = e.step(LoopEvent::Accepted);
    let b = e.step(LoopEvent::Accepted);
    let c = e.step(LoopEvent::Accepted);
    assert_eq!(a, LoopAction::Spawn { id: 1 });
    assert_eq!(b, LoopAction::Spawn { id: 2 });
    assert_eq!(c, LoopAction::Spawn { id: 3 });
    assert_ne!(a, b);
    assert_ne!(b, c);
    assert_ne!(a, c);
    assert_eq!(e.live_count(), 3);
}

#[test]
fn failed_accept_is_transient_and_keeps_the_loop_going() {
    let mut e = Engine::new();
    assert_eq!(e.step(LoopEvent::Accepted), LoopAction::Spawn { id: 1 });
    assert_eq!(e.step(LoopEvent::AcceptFailed), LoopAction::Continue);
    assert!(e.is_accepting());
    assert_eq!(e.live_count(), 1);
    assert_eq!(e.step(LoopEvent::Accepted), LoopAction::Spawn { id: 2 });
}

#[test]
fn signal_stops_acceptance_but_keeps_live_handlers() {
    let mut e = Engine::new();
    e.step(LoopEvent::Accepted);
    e.step(LoopEvent::Accepted);
    let act = e.step(LoopEvent::Signal);
    assert_eq!(act, LoopAction::Continue);
    assert!(!e.is_accepting());
    assert_eq!(e.live_count(), 2);
}

#[test]
fn no_admission_after_signal() {
    let mut e = Engine::new();
    e.step(LoopEvent::Accepted);
    e.step(LoopEvent::Signal);
    let act = e.step(LoopEvent::Accepted);
    assert!(!matches!(act, LoopAction::Spawn { .. }));
    assert_eq!(e.live_count(), 1);
    assert!(!e.is_accepting());
}

#[test]
fn exit_only_after_every_handler_finished() {
    let mut e = Engine::new();
    e.step(LoopEvent::Accepted);
    e.step(LoopEvent::Accepted);
    e.step(LoopEvent::Accepted);
    assert_eq!(e.step(LoopEvent::Signal), LoopAction::Continue);
    assert_eq!(e.step(LoopEvent::HandlerDone { id: 2 }), LoopAction::Continue);
    assert_eq!(e.step(LoopEvent::HandlerDone { id: 1 }), LoopAction::Continue);
    assert_eq!(e.step(LoopEvent::HandlerDone { id: 3 }), LoopAction::Exit);
    assert_eq!(e.live_count(), 0);
}

#[test]
fn signal_with_nothing_in_flight_exits_at_once() {
    let mut e = Engine::new();
    assert_eq!(e.step(LoopEvent::Signal), LoopAction::Exit);
}

#[test]
fn handlers_may_finish_before_the_signal() {
    let mut e = Engine::new();
    e.step(LoopEvent::Accepted);
    assert_eq!(e.step(LoopEvent::HandlerDone { id: 1 }), LoopAction::Continue);
    assert_eq!(e.live_count(), 0);
    assert!(e.is_accepting());
    assert_eq!(e.step(LoopEvent::Signal), LoopAction::Exit);
}

#[test]
fn finishing_an_unknown_id_changes_nothing() {
    let mut e = Engine::new();
    e.step(LoopEvent::Accepted);
    assert_eq!(e.step(LoopEvent::HandlerDone { id: 42 }), LoopAction::Continue);
    assert_eq!(e.live_count(), 1);
}
