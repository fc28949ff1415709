use ivory::acceptor::{AcceptBackoff, AcceptStep};
use ivory::server::{Server, ServerBuilder, MAX_PERMITS};

#[test]
fn builder_defaults() {
    let s = Server::builder().build();
    assert_eq!(s.address(), "127.0.0.1:8989");
    assert_eq!(s.max_connections(), MAX_PERMITS);
    assert_eq!(s.current_connections(), 0);
}

#[test]
fn builder_sets_address_and_limit() {
    let s = ServerBuilder::new().address("0.0.0.0:9000").max_connections(3).build();
    assert_eq!(s.address(), "0.0.0.0:9000");
    assert_eq!(s.max_connections(), 3);
}

#[test]
fn limit_above_gate_maximum_is_clamped() {
    let s = ServerBuilder::new().max_connections(usize::MAX).build();
    assert_eq!(s.max_connections(), MAX_PERMITS);
}

#[test]
fn second_connection_waits_for_first_with_limit_one() {
    let mut s = ServerBuilder::new().max_connections(1).build();
    assert!(s.try_admit());
    assert!(!s.try_admit());
    assert_eq!(s.current_connections(), 1);
    s.session_ended();
    assert!(s.try_admit());
    assert_eq!(s.current_connections(), 1);
}

#[test]
fn limit_zero_admits_nothing() {
    let mut s = ServerBuilder::new().max_connections(0).build();
    assert!(!s.try_admit());
    assert_eq!(s.current_connections(), 0);
}

#[test]
fn drained_only_after_every_sender_disposed() {
    let mut s = ServerBuilder::new().max_connections(4).build();
    assert!(s.try_admit());
    assert!(s.try_admit());
    assert!(!s.is_drained());
    s.begin_shutdown();
    assert!(s.is_shutting_down());
    assert!(!s.is_drained());
    s.session_ended();
    assert!(!s.is_drained());
    s.session_ended();
    assert!(s.is_drained());
    s.begin_shutdown();
    assert!(s.is_drained());
}

#[test]
fn idle_server_drains_on_shutdown() {
    let mut s = Server::builder().build();
    assert!(!s.is_drained());
    s.begin_shutdown();
    assert!(s.is_drained());
}

#[test]
fn backoff_gives_up_on_eighth_failure() {
    let mut b = AcceptBackoff::new();
    let mut slept: u64 = 0;
    for expected in [1u64, 2, 4, 8, 16, 32, 64] {
        assert_eq!(b.on_error(), AcceptStep::Retry(expected));
        slept += expected;
    }
    assert_eq!(slept, 127);
    assert_eq!(b.on_error(), AcceptStep::GiveUp);
    assert_eq!(b.on_error(), AcceptStep::GiveUp);
}

#[test]
fn single_failure_then_success_recovers() {
    let mut b = AcceptBackoff::new();
    assert_eq!(b.on_error(), AcceptStep::Retry(1));
    b.on_success();
    assert_eq!(b.on_error(), AcceptStep::Retry(1));
}
