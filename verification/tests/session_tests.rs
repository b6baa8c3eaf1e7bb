use arcade_client::manager::GameplaySessionManager;
use renet::ClientId;
use renet::ConnectionConfig;
use renet::DefaultChannel;
use renet::RenetServer;

/// A server-side peer that frames real renet packets for the session's
/// client, standing in for the network.
fn simulated_peer(client_id: u64) -> (RenetServer, ClientId) {
    let mut server = RenetServer::new(ConnectionConfig::default());
    let id = ClientId::from_raw(client_id);
    server.add_connection(id);
    (server, id)
}

/// Hands every queued server-side message to the manager's client, as the
/// transport's receive pass would.
fn deliver(server: &mut RenetServer, id: ClientId, manager: &mut GameplaySessionManager) {
    let session = manager.game_session.as_mut().unwrap();
    session.client.set_connected();
    for packet in server.get_packets_to_send(id).unwrap() {
        session.client.process_packet(&packet);
    }
}

#[test]
fn ticks_before_any_join_are_noops() {
    let mut manager = GameplaySessionManager::new();
    for elapsed in [0u64, 1, 16_667, 1_000_000, u64::MAX] {
        let out = manager.tick(elapsed, None, None, None);
        assert!(out.lost_connection.is_none());
        assert!(out.received.is_empty());
    }
    assert!(!manager.transport_has_error());
    assert_eq!(manager.transport_error_message(), String::new());
}

#[test]
fn join_reports_connecting_session() {
    let mut manager = GameplaySessionManager::new();
    let token = manager.join_session("[::1]:5000", 42).unwrap();
    assert_eq!(token.client_id, 42);
    assert_eq!(token.protocol_id, 0);
    assert!(token.user_data.is_none());
    assert!(!manager.transport_has_error());
    assert!(!manager.game_session.as_ref().unwrap().client.is_connected());
}

#[test]
fn session_clock_accumulates_elapsed_time() {
    let mut manager = GameplaySessionManager::new();
    manager.join_session("[::1]:5000", 42).unwrap();
    assert_eq!(manager.game_session.as_ref().unwrap().clock_micros, 0);
    manager.tick(16_667, None, None, None);
    manager.tick(20_000, None, None, None);
    assert_eq!(manager.game_session.as_ref().unwrap().clock_micros, 36_667);
    // A tick stopped by the error slot leaves the clock alone.
    manager.tick(1, Some(String::from("connection timed out")), None, None);
    manager.tick(1_000, None, None, None);
    assert_eq!(manager.game_session.as_ref().unwrap().clock_micros, 36_668);
}

#[test]
fn handshake_timeout_fires_exactly_one_event_and_sticks() {
    let mut manager = GameplaySessionManager::new();
    manager.join_session("[::1]:5000", 42).unwrap();

    // The peer responds but never completes authentication: ticks pass with
    // nothing to report until the transport gives the handshake up.
    for _ in 0..10 {
        let out = manager.tick(16_667, None, None, None);
        assert!(out.lost_connection.is_none());
        assert!(out.received.is_empty());
    }
    let out = manager.tick(16_667, Some(String::from("connection timed out")), None, None);
    assert_eq!(out.lost_connection.as_deref(), Some("connection timed out"));
    assert!(out.received.is_empty());
    assert!(manager.transport_has_error());
    assert_eq!(manager.transport_error_message(), "connection timed out");

    // All further ticks are no-ops: no second event for the same failure,
    // whatever their outcomes claim.
    for elapsed in [0u64, 16_667, 1_000_000] {
        let out = manager.tick(elapsed, Some(String::from("still down")), None, None);
        assert!(out.lost_connection.is_none());
        assert!(out.received.is_empty());
    }
    assert_eq!(manager.transport_error_message(), "connection timed out");
}

#[test]
fn flush_failure_fires_exactly_one_event() {
    let mut manager = GameplaySessionManager::new();
    manager.join_session("[::1]:5000", 42).unwrap();
    let out = manager.tick(16_667, None, None, Some(String::from("socket closed")));
    assert_eq!(out.lost_connection.as_deref(), Some("socket closed"));
    let out = manager.tick(16_667, None, None, Some(String::from("socket closed")));
    assert!(out.lost_connection.is_none());
}

#[test]
fn inbound_messages_arrive_in_order() {
    let mut manager = GameplaySessionManager::new();
    manager.join_session("[::1]:5000", 42).unwrap();
    let (mut server, id) = simulated_peer(42);

    let messages: Vec<Vec<u8>> = vec![vec![1], vec![2, 2], vec![3, 3, 3], vec![], vec![5; 40]];
    for message in &messages {
        server.send_message(id, DefaultChannel::ReliableOrdered, message.clone());
    }
    deliver(&mut server, id, &mut manager);

    let out = manager.tick(16_667, None, None, None);
    assert!(out.lost_connection.is_none());
    assert_eq!(out.received, messages);

    // Drained: the next tick hands nothing out.
    let out = manager.tick(16_667, None, None, None);
    assert!(out.received.is_empty());
}

#[test]
fn trigger_message_reaches_the_peer() {
    let mut manager = GameplaySessionManager::new();
    manager.join_session("[::1]:5000", 42).unwrap();
    let (mut server, id) = simulated_peer(42);
    deliver(&mut server, id, &mut manager);

    let out = manager.tick(16_667, None, Some(vec![8]), None);
    assert!(out.lost_connection.is_none());

    // The transport's send pass would now pick the queued message up; the
    // peer must read it back unchanged.
    let session = manager.game_session.as_mut().unwrap();
    for packet in session.client.get_packets_to_send() {
        server.process_packet_from(&packet, id).unwrap();
    }
    let got = server.receive_message(id, DefaultChannel::ReliableOrdered).unwrap();
    assert_eq!(got.to_vec(), vec![8u8]);
    assert!(server.receive_message(id, DefaultChannel::ReliableOrdered).is_none());
}

#[test]
fn rejoin_discards_pending_state() {
    let mut manager = GameplaySessionManager::new();
    manager.join_session("[::1]:5000", 42).unwrap();
    let (mut server, id) = simulated_peer(42);
    for k in 0..4u8 {
        server.send_message(id, DefaultChannel::ReliableOrdered, vec![k]);
    }
    deliver(&mut server, id, &mut manager);
    // Queue one outbound message too, then fail the send pass: pending
    // traffic in both directions and a sticky error.
    let out = manager.tick(16_667, None, Some(vec![9]), Some(String::from("socket closed")));
    assert!(out.lost_connection.is_some());
    assert!(manager.transport_has_error());

    manager.join_session("[::1]:6000", 43).unwrap();
    assert!(!manager.transport_has_error());
    assert_eq!(manager.transport_error_message(), String::new());
    let session = manager.game_session.as_mut().unwrap();
    session.client.set_connected();
    assert!(session.client.get_packets_to_send().is_empty());
    let out = manager.tick(16_667, None, None, None);
    assert!(out.lost_connection.is_none());
    assert!(out.received.is_empty());
}

#[test]
fn bad_address_leaves_active_session_untouched() {
    let mut manager = GameplaySessionManager::new();
    manager.join_session("[::1]:5000", 42).unwrap();
    let (mut server, id) = simulated_peer(42);
    server.send_message(id, DefaultChannel::ReliableOrdered, vec![7]);
    deliver(&mut server, id, &mut manager);

    assert!(manager.join_session("not an address", 42).is_err());
    assert!(manager.join_session("[::1]:", 42).is_err());

    // The session still holds its pending message and no error.
    assert!(!manager.transport_has_error());
    let out = manager.tick(16_667, None, None, None);
    assert_eq!(out.received, vec![vec![7u8]]);
}

#[test]
fn setup_failure_before_any_join_leaves_none() {
    let mut manager = GameplaySessionManager::new();
    assert!(manager.join_session("1.2.3.4", 1).is_err());
    let out = manager.tick(16_667, None, None, None);
    assert!(out.lost_connection.is_none());
    assert!(out.received.is_empty());
}

#[test]
fn receive_failure_consumes_no_messages() {
    let mut manager = GameplaySessionManager::new();
    manager.join_session("[::1]:5000", 42).unwrap();
    let (mut server, id) = simulated_peer(42);
    server.send_message(id, DefaultChannel::ReliableOrdered, vec![1, 2, 3]);
    deliver(&mut server, id, &mut manager);

    // The receive pass fails: the tick surfaces the failure and reads
    // nothing, and the sticky error keeps later ticks from reading either.
    let out = manager.tick(16_667, Some(String::from("malformed packet")), None, None);
    assert_eq!(out.lost_connection.as_deref(), Some("malformed packet"));
    assert!(out.received.is_empty());
    let out = manager.tick(16_667, None, None, None);
    assert!(out.received.is_empty());
}
