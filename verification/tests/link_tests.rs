use bot::link::{
    heartbeat, server_address, Connection, LinkAction, LinkEvent, LinkState, CONNECT_TIMEOUT_MS,
    HEARTBEAT_PERIOD_MS, RETRY_DELAY_MS, SERVER_PORT, SOCKET_BUFFER_SIZE,
};

#[test]
fn fresh_manager_starts_associating() {
    let conn = Connection::init();
    assert_eq!(conn.state, LinkState::Associating);
    assert_eq!(conn.next_action(), LinkAction::Associate);
}

#[test]
fn association_failures_retry_association_with_fixed_delay() {
    let mut conn = Connection::init();
    for _ in 0..3 {
        let delay = conn.on_event(LinkEvent::AssocFailed);
        assert_eq!(delay, RETRY_DELAY_MS);
        assert_eq!(conn.state, LinkState::Associating);
        assert_eq!(conn.next_action(), LinkAction::Associate);
    }
    let delay = conn.on_event(LinkEvent::AssocOk);
    assert_eq!(delay, 0);
    assert_eq!(conn.state, LinkState::Disconnected);
    assert_eq!(conn.next_action(), LinkAction::Connect);
}

#[test]
fn connect_failures_keep_fixed_delay_then_success_reaches_send_loop() {
    let mut conn = Connection::init();
    conn.on_event(LinkEvent::AssocOk);
    // Several consecutive connect failures: the delay stays the same fixed
    // value (no backoff growth), association is never redone, and a later
    // success still reaches the send loop.
    for _ in 0..5 {
        let delay = conn.on_event(LinkEvent::ConnectFailed);
        assert_eq!(delay, RETRY_DELAY_MS);
        assert_eq!(conn.state, LinkState::Disconnected);
        assert_eq!(conn.next_action(), LinkAction::Connect);
    }
    let delay = conn.on_event(LinkEvent::ConnectOk);
    assert_eq!(delay, 0);
    assert_eq!(conn.state, LinkState::Connected);
    assert_eq!(conn.next_action(), LinkAction::SendHeartbeat);
}

#[test]
fn successful_writes_repeat_after_heartbeat_period() {
    let mut conn = Connection::init();
    conn.on_event(LinkEvent::AssocOk);
    conn.on_event(LinkEvent::ConnectOk);
    let delay = conn.on_event(LinkEvent::WriteOk);
    assert_eq!(delay, HEARTBEAT_PERIOD_MS);
    assert_eq!(conn.state, LinkState::Connected);
    assert_eq!(conn.next_action(), LinkAction::SendHeartbeat);
}

#[test]
fn write_failure_reconnects_at_once_without_reassociating() {
    let mut conn = Connection::init();
    conn.on_event(LinkEvent::AssocOk);
    conn.on_event(LinkEvent::ConnectOk);
    let delay = conn.on_event(LinkEvent::WriteFailed);
    assert_eq!(delay, 0);
    assert_eq!(conn.state, LinkState::Disconnected);
    assert_eq!(conn.next_action(), LinkAction::Connect);
    assert_ne!(conn.next_action(), LinkAction::Associate);
}

#[test]
fn heartbeat_is_the_fixed_ascii_line() {
    assert_eq!(heartbeat(), b"Hello world!\n".to_vec());
}

#[test]
fn peer_and_socket_parameters() {
    assert_eq!(server_address(), (10, 128, 4, 179));
    assert_eq!(SERVER_PORT, 9001);
    assert_eq!(SOCKET_BUFFER_SIZE, 128);
    assert_eq!(CONNECT_TIMEOUT_MS, 5000);
}
