use shardrpc::dispatch::{worker_count, Acceptor, AcceptorAction, AcceptorEvent};

#[test]
fn worker_count_falls_back_to_one() {
    assert_eq!(worker_count(0), 1);
    assert_eq!(worker_count(1), 1);
    assert_eq!(worker_count(8), 8);
}

#[test]
fn round_robin_over_three_workers() {
    let mut a = Acceptor::new(3);
    assert_eq!(a.workers(), 3);
    for i in 0..10usize {
        assert_eq!(a.step(AcceptorEvent::Accepted), AcceptorAction::Dispatch(i % 3));
        assert_eq!(a.step(AcceptorEvent::Delivered), AcceptorAction::Accept);
    }
}

#[test]
fn zero_cores_dispatch_to_single_worker() {
    let mut a = Acceptor::new(0);
    assert_eq!(a.workers(), 1);
    for _ in 0..5 {
        assert_eq!(a.step(AcceptorEvent::Accepted), AcceptorAction::Dispatch(0));
        assert_eq!(a.step(AcceptorEvent::Delivered), AcceptorAction::Accept);
    }
}

#[test]
fn full_queue_waits_then_resumes() {
    let mut a = Acceptor::new(2);
    assert_eq!(a.step(AcceptorEvent::Accepted), AcceptorAction::Dispatch(0));
    for _ in 0..150 {
        assert_eq!(a.step(AcceptorEvent::QueueFull), AcceptorAction::WaitThenDispatch(0));
    }
    assert_eq!(a.step(AcceptorEvent::Delivered), AcceptorAction::Accept);
    assert_eq!(a.step(AcceptorEvent::Accepted), AcceptorAction::Dispatch(1));
}

#[test]
fn closed_queue_drops_and_goes_on() {
    let mut a = Acceptor::new(2);
    assert_eq!(a.step(AcceptorEvent::Accepted), AcceptorAction::Dispatch(0));
    assert_eq!(a.step(AcceptorEvent::QueueClosed), AcceptorAction::DropThenAccept);
    assert_eq!(a.step(AcceptorEvent::Accepted), AcceptorAction::Dispatch(1));
}

#[test]
fn failed_accept_keeps_listening() {
    let mut a = Acceptor::new(2);
    assert_eq!(a.step(AcceptorEvent::AcceptFailed), AcceptorAction::Accept);
    assert_eq!(a.step(AcceptorEvent::Accepted), AcceptorAction::Dispatch(0));
}

#[test]
fn stray_events_repeat_the_pending_action() {
    let mut a = Acceptor::new(2);
    assert_eq!(a.step(AcceptorEvent::Delivered), AcceptorAction::Accept);
    assert_eq!(a.step(AcceptorEvent::Accepted), AcceptorAction::Dispatch(0));
    assert_eq!(a.step(AcceptorEvent::Accepted), AcceptorAction::Dispatch(0));
    assert_eq!(a.step(AcceptorEvent::AcceptFailed), AcceptorAction::Dispatch(0));
}
