use twinstick::client::{Received, TwinstickClient};
use twinstick::data_type::DataType;
use twinstick::input::Input;
use twinstick::transport::{Address, Incoming};
use twinstick::VERSION;

fn server() -> Address {
    Address { ip: 0xFFFF_7F00_0001, port: 8008 }
}

fn datagram(message: DataType) -> Incoming {
    Incoming::Datagram(server(), message.serialise())
}

fn connected() -> TwinstickClient {
    let mut client = TwinstickClient::new("127.0.0.1:8008");
    client.recieve(&datagram(DataType::ConfirmConnect(VERSION)));
    client
}

#[test]
fn a_new_endpoint_is_disconnected() {
    let client = TwinstickClient::new("127.0.0.1:8008");
    assert!(client.disconnected());
    assert_eq!(client.server(), "127.0.0.1:8008");
}

#[test]
fn connecting_sends_the_handshake_until_confirmed() {
    let mut client = TwinstickClient::new("127.0.0.1:8008");
    let handshake = client.connect();
    assert_eq!(handshake, Some(DataType::TryConnect(VERSION).serialise()));
    assert_eq!(handshake, Some(vec![0, 0, 0, 0, 1, 0, 0, 0]));
    assert!(client.disconnected());
    assert_eq!(client.connect(), Some(DataType::TryConnect(VERSION).serialise()));

    let received = client.recieve(&datagram(DataType::ConfirmConnect(VERSION)));
    assert_eq!(received, Received::Message(DataType::ConfirmConnect(VERSION)));
    assert!(!client.disconnected());
    assert_eq!(client.connect(), None);
    assert_eq!(client.connect(), None);
    assert!(!client.disconnected());
}

#[test]
fn the_probe_is_only_sent_while_connected() {
    let mut client = TwinstickClient::new("127.0.0.1:8008");
    assert_eq!(client.send(), None);
    client.recieve(&datagram(DataType::ConfirmConnect(3)));
    assert_eq!(client.send(), Some(vec![10, 9, 8, 7, 6, 5, 4, 3, 2, 1]));
    assert!(!client.disconnected());
}

#[test]
fn a_failed_send_disconnects() {
    let mut client = connected();
    client.sent(true);
    assert!(!client.disconnected());
    client.sent(false);
    assert!(client.disconnected());
    assert_eq!(client.send(), None);
    client.sent(true);
    assert!(client.disconnected());
    assert_eq!(client.connect(), Some(DataType::TryConnect(VERSION).serialise()));
}

#[test]
fn messages_are_sent_whatever_the_state() {
    let client = TwinstickClient::new("127.0.0.1:8008");
    assert_eq!(
        client.send_datatype(&DataType::Input(Input::A)),
        DataType::Input(Input::A).serialise()
    );
    let client = connected();
    assert_eq!(
        client.send_datatype(&DataType::PlayerRotation(5, 1)),
        DataType::PlayerRotation(5, 1).serialise()
    );
}

#[test]
fn a_message_is_delivered_and_leaves_the_state_alone() {
    let mut client = TwinstickClient::new("127.0.0.1:8008");
    for message in [
        DataType::PlayerNum(2),
        DataType::RemovePlayer(1),
        DataType::Exit,
        DataType::TryConnect(VERSION),
        DataType::Input(Input::W),
    ] {
        let received = client.recieve(&datagram(message.clone()));
        assert_eq!(received, Received::Message(message));
        assert!(client.disconnected());
    }
    let mut client = connected();
    let received = client.recieve(&datagram(DataType::PlayerNum(2)));
    assert_eq!(received, Received::Message(DataType::PlayerNum(2)));
    assert!(!client.disconnected());
    let received = client.recieve(&datagram(DataType::ConfirmConnect(9)));
    assert_eq!(received, Received::Message(DataType::ConfirmConnect(9)));
    assert!(!client.disconnected());
}

#[test]
fn nothing_waiting_is_silent() {
    let mut client = connected();
    assert_eq!(client.recieve(&Incoming::WouldBlock), Received::Nothing);
    assert!(!client.disconnected());
    let mut client = TwinstickClient::new("127.0.0.1:8008");
    assert_eq!(client.recieve(&Incoming::WouldBlock), Received::Nothing);
    assert!(client.disconnected());
}

#[test]
fn a_failed_read_is_swallowed() {
    let mut client = connected();
    assert_eq!(client.recieve(&Incoming::Failed), Received::Nothing);
    assert!(!client.disconnected());
}

#[test]
fn a_malformed_datagram_delivers_nothing() {
    let mut client = connected();
    assert_eq!(
        client.recieve(&Incoming::Datagram(server(), vec![10, 9, 8, 7, 6, 5, 4, 3, 2, 1])),
        Received::Nothing
    );
    assert_eq!(client.recieve(&Incoming::Datagram(server(), Vec::new())), Received::Nothing);
    assert_eq!(client.recieve(&Incoming::Datagram(server(), vec![1, 0, 0, 0, 1])), Received::Nothing);
    assert!(!client.disconnected());
}

#[test]
fn an_error_message_is_fatal() {
    let mut client = TwinstickClient::new("127.0.0.1:8008");
    let received = client.recieve(&datagram(DataType::Error("wrong version".to_string())));
    assert_eq!(received, Received::Fatal("wrong version".to_string()));
    assert!(client.disconnected());
    let mut client = connected();
    let received = client.recieve(&datagram(DataType::Error(String::new())));
    assert_eq!(received, Received::Fatal(String::new()));
    assert!(!client.disconnected());
}

#[test]
fn disconnecting_twice_sends_one_farewell() {
    let mut client = connected();
    assert_eq!(client.disconnect(), Some(DataType::Exit.serialise()));
    assert!(client.disconnected());
    assert_eq!(client.disconnect(), None);
    assert!(client.disconnected());
    assert_eq!(client.disconnect(), None);
    assert_eq!(client.server(), "127.0.0.1:8008");
}

#[test]
fn an_endpoint_that_never_connected_has_no_farewell() {
    let mut client = TwinstickClient::new("127.0.0.1:8008");
    assert_eq!(client.disconnect(), None);
    assert!(client.disconnected());
}
