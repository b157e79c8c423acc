use relay::broker::{
    udp_family, UdpFamily, Broker, Delivery, HttpBroker, Setup, StdoutBroker, UdpBroker, WebSocketBroker,
    WebSocketClientBroker,
};
use relay::receiver::{
    chunk_message, HttpReceiverCreator, ReceiverCreator, ReceiverPlan, StdinReceiverCreator,
    UdpReceiverCreator, WebSocketReceiverCreator,
};

fn s(text: &str) -> String {
    text.to_string()
}

#[test]
fn stdout_broker_matches_only_stdout() {
    let b = StdoutBroker::new();
    assert!(b.matches(&s("stdout")));
    assert!(!b.matches(&s("stdout ")));
    assert!(!b.matches(&s("stdin")));
}

#[test]
fn stdout_broker_prints_only_once_named() {
    let mut b = StdoutBroker::new();
    assert_eq!(b.send(&s("hello")), vec![]);
    assert!(matches!(b.add_destination(&s("stdout")), Setup::Nothing));
    assert_eq!(b.send(&s("hello")), vec![Delivery::Print(s("hello"))]);
    assert_eq!(b.send(&s("again")), vec![Delivery::Print(s("again"))]);
}

#[test]
fn http_broker_matches_http_scheme() {
    let b = HttpBroker::new();
    assert!(b.matches(&s("http://0.0.0.0:8080")));
    assert!(!b.matches(&s("https://0.0.0.0:8080")));
    assert!(!b.matches(&s("ws://0.0.0.0:8080")));
}

#[test]
fn http_broker_serves_named_address_and_appends_newline() {
    let mut b = HttpBroker::new();
    assert_eq!(b.send(&s("m")), vec![]);
    match b.add_destination(&s("http://0.0.0.0:8080")) {
        Setup::ServeHttp { address } => assert_eq!(address, "0.0.0.0:8080"),
        other => panic!("unexpected setup {:?}", other),
    }
    assert_eq!(b.send(&s("m")), vec![Delivery::Enqueue(s("m\n"))]);
}

#[test]
fn websocket_broker_broadcasts_on_each_listener() {
    let mut b = WebSocketBroker::new();
    assert!(b.matches(&s("ws://0.0.0.0:9001")));
    assert!(!b.matches(&s("ws-client://0.0.0.0:9001")));
    assert_eq!(b.send(&s("x")), vec![]);
    match b.add_destination(&s("ws://0.0.0.0:9001")) {
        Setup::ListenWebSocket { address } => assert_eq!(address, "0.0.0.0:9001"),
        other => panic!("unexpected setup {:?}", other),
    }
    match b.add_destination(&s("ws://0.0.0.0:9002")) {
        Setup::ListenWebSocket { address } => assert_eq!(address, "0.0.0.0:9002"),
        other => panic!("unexpected setup {:?}", other),
    }
    assert_eq!(
        b.send(&s("x")),
        vec![
            Delivery::Broadcast { listener: 0, text: s("x") },
            Delivery::Broadcast { listener: 1, text: s("x") },
        ]
    );
}

#[test]
fn websocket_client_broker_connects_to_ws_url() {
    let mut b = WebSocketClientBroker::new();
    assert!(b.matches(&s("ws-client://127.0.0.1:9002")));
    assert!(!b.matches(&s("ws://127.0.0.1:9002")));
    assert_eq!(b.send(&s("x")), vec![]);
    match b.add_destination(&s("ws-client://127.0.0.1:9002")) {
        Setup::ConnectWebSocket { url_text, url } => {
            assert_eq!(url_text, "ws://127.0.0.1:9002");
            assert_eq!(url.as_str(), "ws://127.0.0.1:9002/");
            assert_eq!(url.into_url().port(), Some(9002));
        }
        other => panic!("unexpected setup {:?}", other),
    }
    assert_eq!(b.send(&s("x")), vec![Delivery::ClientBroadcast(s("x"))]);
}

#[test]
fn udp_broker_takes_any_option_and_sends_bytes_to_each() {
    let mut b = UdpBroker::new();
    assert!(b.matches(&s("anything")));
    assert_eq!(b.send(&s("x")), vec![]);
    assert!(matches!(b.add_destination(&s("127.0.0.1:5000")), Setup::Nothing));
    assert!(matches!(b.add_destination(&s("[::1]:5001")), Setup::Nothing));
    assert_eq!(
        b.send(&s("hé")),
        vec![
            Delivery::Datagram { destination: s("127.0.0.1:5000"), payload: "hé".as_bytes().to_vec() },
            Delivery::Datagram { destination: s("[::1]:5001"), payload: "hé".as_bytes().to_vec() },
        ]
    );
}

#[test]
fn stdin_receiver_matches_stdin() {
    assert!(StdinReceiverCreator.matches(&s("stdin")));
    assert!(!StdinReceiverCreator.matches(&s("stdout")));
    assert!(matches!(StdinReceiverCreator.create_receiver(&s("stdin")), ReceiverPlan::Stdin));
}

#[test]
fn https_receiver_plans_tls_server() {
    assert!(HttpReceiverCreator.matches(&s("https://0.0.0.0:8443")));
    assert!(!HttpReceiverCreator.matches(&s("http://0.0.0.0:8443")));
    match HttpReceiverCreator.create_receiver(&s("https://0.0.0.0:8443")) {
        ReceiverPlan::Https { address, key_file, cert_file } => {
            assert_eq!(address, "0.0.0.0:8443");
            assert_eq!(key_file, "./cert/server.key");
            assert_eq!(cert_file, "./cert/server.crt");
        }
        other => panic!("unexpected plan {:?}", other),
    }
}

#[test]
fn websocket_receiver_plans_connection() {
    assert!(WebSocketReceiverCreator.matches(&s("ws://127.0.0.1:9001")));
    assert!(!WebSocketReceiverCreator.matches(&s("wss://127.0.0.1:9001")));
    match WebSocketReceiverCreator.create_receiver(&s("ws://127.0.0.1:9001")) {
        ReceiverPlan::WebSocket { url } => {
            assert_eq!(url.as_str(), "ws://127.0.0.1:9001/");
            assert_eq!(url.into_url().host_str(), Some("127.0.0.1"));
        }
        other => panic!("unexpected plan {:?}", other),
    }
}

#[test]
fn udp_receiver_binds_to_option() {
    assert!(UdpReceiverCreator.matches(&s("0.0.0.0:5000")));
    match UdpReceiverCreator.create_receiver(&s("0.0.0.0:5000")) {
        ReceiverPlan::Udp { bind } => assert_eq!(bind, "0.0.0.0:5000"),
        other => panic!("unexpected plan {:?}", other),
    }
}

#[test]
fn empty_chunks_are_not_forwarded() {
    assert_eq!(chunk_message(s("")), None);
    assert_eq!(chunk_message(s("payload")), Some(s("payload")));
}

#[test]
fn udp_family_follows_address_family() {
    assert_eq!(udp_family(true), UdpFamily::V4);
    assert_eq!(udp_family(false), UdpFamily::V6);
}

#[test]
fn http_broker_stays_enabled_after_second_destination() {
    let mut b = HttpBroker::new();
    b.add_destination(&s("http://0.0.0.0:8080"));
    b.add_destination(&s("http://0.0.0.0:8081"));
    assert_eq!(b.send(&s("a")), vec![Delivery::Enqueue(s("a\n"))]);
    assert_eq!(b.send(&s("b")), vec![Delivery::Enqueue(s("b\n"))]);
}

#[test]
fn client_output_connects_to_its_own_url() {
    let mut b = WebSocketClientBroker::new();
    match b.add_destination(&s("ws-client://ws-client://example.org:7000/path")) {
        Setup::ConnectWebSocket { url_text, url } => {
            assert_eq!(url_text, "ws://example.org:7000/path");
            assert_eq!(url.as_str(), "ws://example.org:7000/path");
            let parsed = url.into_url();
            assert_eq!(parsed.host_str(), Some("example.org"));
            assert_eq!(parsed.port(), Some(7000));
        }
        other => panic!("unexpected setup {:?}", other),
    }
}

#[test]
fn websocket_input_connects_to_option_url() {
    match WebSocketReceiverCreator.create_receiver(&s("ws://example.org:7001/feed")) {
        ReceiverPlan::WebSocket { url } => {
            assert_eq!(url.as_str(), "ws://example.org:7001/feed");
            assert_eq!(url.into_url().port(), Some(7001));
        }
        other => panic!("unexpected plan {:?}", other),
    }
}
