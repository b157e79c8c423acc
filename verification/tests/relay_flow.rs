use relay::broker::{Delivery, Setup};
use relay::receiver::ReceiverPlan;
use relay::relay::{plan_input, select_broker, select_receiver, BrokerKind, Outputs, ReceiverKind};
use relay::text::datagram_text;

fn s(text: &str) -> String {
    text.to_string()
}

#[test]
fn inputs_are_tried_in_order() {
    assert_eq!(select_receiver(&s("stdin")), ReceiverKind::Stdin);
    assert_eq!(select_receiver(&s("https://0.0.0.0:8443")), ReceiverKind::Https);
    assert_eq!(select_receiver(&s("ws://127.0.0.1:9001")), ReceiverKind::WebSocket);
    assert_eq!(select_receiver(&s("0.0.0.0:5000")), ReceiverKind::Udp);
    assert_eq!(select_receiver(&s("http://0.0.0.0:80")), ReceiverKind::Udp);
}

#[test]
fn outputs_are_tried_in_order() {
    assert_eq!(select_broker(&s("stdout")), BrokerKind::Stdout);
    assert_eq!(select_broker(&s("http://0.0.0.0:8080")), BrokerKind::Http);
    assert_eq!(select_broker(&s("ws://0.0.0.0:9001")), BrokerKind::WebSocket);
    assert_eq!(select_broker(&s("ws-client://127.0.0.1:9002")), BrokerKind::WebSocketClient);
    assert_eq!(select_broker(&s("127.0.0.1:5000")), BrokerKind::Udp);
    assert_eq!(select_broker(&s("https://0.0.0.0:8443")), BrokerKind::Udp);
    assert_eq!(select_broker(&s("stdin")), BrokerKind::Udp);
}

#[test]
fn plan_input_reads_addresses() {
    assert!(matches!(plan_input(&s("stdin")), Some(ReceiverPlan::Stdin)));
    match plan_input(&s("https://0.0.0.0:8443")) {
        Some(ReceiverPlan::Https { address, .. }) => assert_eq!(address, "0.0.0.0:8443"),
        other => panic!("unexpected plan {:?}", other),
    }
    match plan_input(&s("0.0.0.0:5000")) {
        Some(ReceiverPlan::Udp { bind }) => assert_eq!(bind, "0.0.0.0:5000"),
        other => panic!("unexpected plan {:?}", other),
    }
}

#[test]
fn plan_input_without_readable_url_is_none() {
    assert!(plan_input(&s("ws://")).is_none());
}

#[test]
fn fresh_outputs_deliver_nothing() {
    let o = Outputs::new();
    assert_eq!(o.dispatch(&s("m")), vec![]);
}

#[test]
fn every_destination_receives_each_message_in_order() {
    let mut o = Outputs::new();
    assert!(matches!(o.add_output(&s("127.0.0.1:5000")), Some(Setup::Nothing)));
    assert!(matches!(o.add_output(&s("stdout")), Some(Setup::Nothing)));
    assert!(matches!(o.add_output(&s("http://0.0.0.0:8080")), Some(Setup::ServeHttp { .. })));
    assert!(matches!(o.add_output(&s("ws://0.0.0.0:9001")), Some(Setup::ListenWebSocket { .. })));
    assert!(matches!(
        o.add_output(&s("ws-client://127.0.0.1:9002")),
        Some(Setup::ConnectWebSocket { .. })
    ));
    assert_eq!(
        o.dispatch(&s("m")),
        vec![
            Delivery::Print(s("m")),
            Delivery::Enqueue(s("m\n")),
            Delivery::Broadcast { listener: 0, text: s("m") },
            Delivery::ClientBroadcast(s("m")),
            Delivery::Datagram { destination: s("127.0.0.1:5000"), payload: b"m".to_vec() },
        ]
    );
}

#[test]
fn output_without_readable_address_is_refused_and_unchanged() {
    let mut o = Outputs::new();
    assert!(o.add_output(&s("ws-client://")).is_none());
    assert_eq!(o.dispatch(&s("m")), vec![]);
}

#[test]
fn stdout_named_twice_prints_once() {
    let mut o = Outputs::new();
    o.add_output(&s("stdout"));
    o.add_output(&s("stdout"));
    assert_eq!(o.dispatch(&s("m")), vec![Delivery::Print(s("m"))]);
}

#[test]
fn datagram_round_trips_to_the_message() {
    let mut o = Outputs::new();
    o.add_output(&s("127.0.0.1:5000"));
    let out = o.dispatch(&s("héllo wörld"));
    match &out[0] {
        Delivery::Datagram { payload, .. } => {
            assert_eq!(datagram_text(payload, payload.len()), Some(s("héllo wörld")));
        }
        other => panic!("unexpected delivery {:?}", other),
    }
}

#[test]
fn scheme_outputs_are_never_refused() {
    let mut o = Outputs::new();
    match o.add_output(&s("http://")) {
        Some(Setup::ServeHttp { address }) => assert_eq!(address, ""),
        other => panic!("unexpected setup {:?}", other),
    }
    match o.add_output(&s("ws://h:1\nignored")) {
        Some(Setup::ListenWebSocket { address }) => assert_eq!(address, "h:1"),
        other => panic!("unexpected setup {:?}", other),
    }
}
