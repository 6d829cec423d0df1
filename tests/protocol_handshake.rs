use thalassocracy::args::Args;
use thalassocracy::protocol::{answer_hello, Channel, ClientHello, DisconnectReason, PROTOCOL_VERSION};

#[test]
fn hello_with_current_version_is_welcomed() {
    let id = uuid::Uuid::from_u128(42);
    let hello = ClientHello { protocol: PROTOCOL_VERSION, display_name: Some("diver".to_string()) };
    let ack = answer_hello(&hello, id, 30).expect("current version must be accepted");
    assert_eq!(ack.player_id, id);
    assert_eq!(ack.tick_hz, 30);
}

#[test]
fn hello_with_other_version_is_turned_away() {
    let hello = ClientHello { protocol: 2, display_name: None };
    let err = answer_hello(&hello, uuid::Uuid::nil(), 30).unwrap_err();
    assert_eq!(err, DisconnectReason::IncompatibleProtocol { server: 3, client: 2 });
}

#[test]
fn channel_ids_round_trip() {
    for c in [Channel::Reliable, Channel::State, Channel::Input] {
        assert_eq!(Channel::from_id(c.id()), Some(c));
    }
    assert_eq!(Channel::Reliable.id(), 0);
    assert_eq!(Channel::State.id(), 1);
    assert_eq!(Channel::Input.id(), 2);
    assert_eq!(Channel::from_id(3), None);
}

#[test]
fn default_args() {
    let a = Args::default();
    assert_eq!(a.server, "127.0.0.1:61234");
    assert!(!a.headless);
    assert_eq!(a.name, None);
    assert_eq!(a.connect_timeout_secs, 5);
}
