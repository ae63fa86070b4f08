use hirai::config::AppConfig;
use hirai::event::Event;
use hirai::network::{
    broadcaster_step, check_broadcaster_config, is_socket_addr_multicast, listener_bind_port,
    listener_step, multicast_join_group, BroadcasterAction, BroadcasterInput, IpAddress,
    ListenerAction, ListenerInput, NetworkError, SocketAddress, MAX_DATAGRAM_SIZE,
    RECEIVE_RETRY_MILLIS,
};

fn config(folders: Vec<String>) -> AppConfig {
    AppConfig {
        listen: false,
        browse: false,
        multicast_addr: "239.255.255.1:30001".to_string(),
        web_addr: "0.0.0.0:30002".to_string(),
        folders_to_watch: folders,
        log_level: "trace".to_string(),
    }
}

fn v4(a: u8, b: u8, c: u8, d: u8, port: u16) -> SocketAddress {
    SocketAddress { ip: IpAddress::V4(a, b, c, d), port }
}

fn v6(first: u16, port: u16) -> SocketAddress {
    SocketAddress { ip: IpAddress::V6(first, 0, 0, 0, 0, 0, 0, 1), port }
}

fn ev(path: &str, op: &str) -> Event {
    Event { path: path.to_string(), op: op.to_string() }
}

#[test]
fn test_broadcaster_fails_with_no_folders() {
    let config = config(vec![]);
    let result = check_broadcaster_config(&config);
    assert!(result.is_err(), "Broadcaster should fail when no folders are specified");
    assert_eq!(result, Err(NetworkError::NoFolders));
}

#[test]
fn broadcaster_accepts_folders() {
    assert_eq!(check_broadcaster_config(&config(vec!["/tmp".to_string()])), Ok(()));
}

#[test]
fn multicast_ranges() {
    assert!(is_socket_addr_multicast(&v4(224, 0, 0, 0, 1)));
    assert!(is_socket_addr_multicast(&v4(239, 255, 255, 255, 1)));
    assert!(!is_socket_addr_multicast(&v4(223, 255, 255, 255, 1)));
    assert!(!is_socket_addr_multicast(&v4(240, 0, 0, 0, 1)));
    assert!(!is_socket_addr_multicast(&v4(127, 0, 0, 1, 1)));
    assert!(is_socket_addr_multicast(&v6(0xff02, 1)));
    assert!(!is_socket_addr_multicast(&v6(0xfe80, 1)));
}

#[test]
fn join_group_decisions() {
    assert_eq!(multicast_join_group(&v4(239, 0, 0, 1, 9999)), Ok((239, 0, 0, 1)));
    assert_eq!(multicast_join_group(&v4(10, 0, 0, 1, 9999)), Err(NetworkError::NotMulticast));
    assert_eq!(
        multicast_join_group(&v6(0xff05, 9999)),
        Err(NetworkError::Ipv6MulticastUnsupported)
    );
    assert_eq!(multicast_join_group(&v6(0x2001, 9999)), Err(NetworkError::NotMulticast));
}

#[test]
fn listener_binds_multicast_port_only() {
    assert_eq!(listener_bind_port(&v4(239, 255, 255, 1, 30001)), Ok(30001));
    assert_eq!(listener_bind_port(&v6(0xff02, 7)), Ok(7));
    assert_eq!(listener_bind_port(&v4(192, 168, 1, 1, 30001)), Err(NetworkError::NotMulticast));
}

#[test]
fn broadcaster_sends_event_json() {
    match broadcaster_step(BroadcasterInput::Event(ev("/w/f.txt", "WRITE"))) {
        BroadcasterAction::Send(p) => assert_eq!(p, br#"{"path":"/w/f.txt","op":"WRITE"}"#.to_vec()),
        other => panic!("unexpected {:?}", other),
    }
}

#[test]
fn broadcaster_drops_oversized_event() {
    let path = "x".repeat(MAX_DATAGRAM_SIZE);
    let expected = path.len() + r#"{"path":"","op":"CREATE"}"#.len();
    match broadcaster_step(BroadcasterInput::Event(ev(&path, "CREATE"))) {
        BroadcasterAction::DropOversized(n) => assert_eq!(n, expected),
        other => panic!("unexpected {:?}", other),
    }
}

#[test]
fn broadcaster_sends_payload_of_exactly_the_limit() {
    let frame = r#"{"path":"","op":"CREATE"}"#.len();
    let path = "y".repeat(MAX_DATAGRAM_SIZE - frame);
    match broadcaster_step(BroadcasterInput::Event(ev(&path, "CREATE"))) {
        BroadcasterAction::Send(p) => assert_eq!(p.len(), MAX_DATAGRAM_SIZE),
        other => panic!("unexpected {:?}", other),
    }
}

#[test]
fn broadcaster_shutdown_and_close() {
    assert!(matches!(broadcaster_step(BroadcasterInput::ShutdownChanged(true)), BroadcasterAction::Stop));
    assert!(matches!(
        broadcaster_step(BroadcasterInput::ShutdownChanged(false)),
        BroadcasterAction::Continue
    ));
    assert!(matches!(broadcaster_step(BroadcasterInput::Closed), BroadcasterAction::Stop));
}

#[test]
fn listener_steps() {
    match listener_step(ListenerInput::Datagram(Some(ev("/a", "REMOVE"))), true) {
        ListenerAction::Deliver { event, forward } => {
            assert_eq!(event.path, "/a");
            assert_eq!(event.op, "REMOVE");
            assert!(forward);
        }
        other => panic!("unexpected {:?}", other),
    }
    match listener_step(ListenerInput::Datagram(Some(ev("/b", "CREATE"))), false) {
        ListenerAction::Deliver { forward, .. } => assert!(!forward),
        other => panic!("unexpected {:?}", other),
    }
    assert!(matches!(listener_step(ListenerInput::Datagram(None), true), ListenerAction::Reject));
    assert!(matches!(
        listener_step(ListenerInput::ReceiveFailed, false),
        ListenerAction::Pause(100)
    ));
    assert_eq!(RECEIVE_RETRY_MILLIS, 100);
    assert!(matches!(listener_step(ListenerInput::ShutdownChanged(true), false), ListenerAction::Stop));
    assert!(matches!(
        listener_step(ListenerInput::ShutdownChanged(false), false),
        ListenerAction::Continue
    ));
    assert!(matches!(listener_step(ListenerInput::Closed, false), ListenerAction::Stop));
}
