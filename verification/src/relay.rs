//! The relay as a whole: which input and which output each command-line
//! option names, the outputs' combined state, and what every message that
//! the input yields turns into.

use vstd::prelude::*;
use crate::address::{
    find_host_port, parse_url, client_url_text, first_separator_from, line_end_from, separator,
    lemma_host_port_after_scheme, host_port_of, client_url_of, url_parses, url_serialization,
};
use vstd::utf8::{decode_utf8, encode_utf8, valid_utf8};
use crate::broker::{
    deliveries_view, Broker, STDOUT_OPTION, HTTP_SCHEME, WS_SERVER_SCHEME, WS_CLIENT_OPTION_SCHEME, Delivery, DeliveryView, HttpBroker, Setup, SetupView, StdoutBroker,
    UdpBroker, WebSocketBroker, WebSocketClientBroker,
};
use crate::receiver::{
    STDIN_OPTION, HTTPS_SCHEME, WS_INPUT_SCHEME, TLS_KEY_FILE, TLS_CERT_FILE, HttpReceiverCreator, PlanView, ReceiverCreator, ReceiverPlan, StdinReceiverCreator,
    UdpReceiverCreator, WebSocketReceiverCreator,
};

verus! {

/// The inputs, in the order in which they are tried on an option.
#[derive(Debug, Clone, Copy, PartialEq, Eq)]
pub enum ReceiverKind {
    Stdin,
    Https,
    WebSocket,
    Udp,
}

/// The outputs, in the order in which they are tried on an option and in
/// which they receive each message.
#[derive(Debug, Clone, Copy, PartialEq, Eq)]
pub enum BrokerKind {
    Stdout,
    Http,
    WebSocket,
    WebSocketClient,
    Udp,
}

/// Position of an input in the order in which they are tried.
pub open spec fn receiver_rank(kind: ReceiverKind) -> nat {
    match kind {
        ReceiverKind::Stdin => 0,
        ReceiverKind::Https => 1,
        ReceiverKind::WebSocket => 2,
        ReceiverKind::Udp => 3,
    }
}

/// Whether the input `kind` takes the option.
pub open spec fn receiver_accepts(kind: ReceiverKind, option: Seq<char>) -> bool {
    match kind {
        ReceiverKind::Stdin => StdinReceiverCreator::accepts(option),
        ReceiverKind::Https => HttpReceiverCreator::accepts(option),
        ReceiverKind::WebSocket => WebSocketReceiverCreator::accepts(option),
        ReceiverKind::Udp => UdpReceiverCreator::accepts(option),
    }
}

/// The input that an option names: the first that takes it.
pub open spec fn receiver_kind_of(option: Seq<char>) -> ReceiverKind {
    if receiver_accepts(ReceiverKind::Stdin, option) {
        ReceiverKind::Stdin
    } else if receiver_accepts(ReceiverKind::Https, option) {
        ReceiverKind::Https
    } else if receiver_accepts(ReceiverKind::WebSocket, option) {
        ReceiverKind::WebSocket
    } else {
        ReceiverKind::Udp
    }
}

/// Position of an output in the order in which they are tried.
pub open spec fn broker_rank(kind: BrokerKind) -> nat {
    match kind {
        BrokerKind::Stdout => 0,
        BrokerKind::Http => 1,
        BrokerKind::WebSocket => 2,
        BrokerKind::WebSocketClient => 3,
        BrokerKind::Udp => 4,
    }
}

/// Whether the output `kind` takes the option.
pub open spec fn broker_accepts(kind: BrokerKind, option: Seq<char>) -> bool {
    match kind {
        BrokerKind::Stdout => StdoutBroker::accepts(option),
        BrokerKind::Http => HttpBroker::accepts(option),
        BrokerKind::WebSocket => WebSocketBroker::accepts(option),
        BrokerKind::WebSocketClient => WebSocketClientBroker::accepts(option),
        BrokerKind::Udp => UdpBroker::accepts(option),
    }
}

/// The output that an option names: the first that takes it.
pub open spec fn broker_kind_of(option: Seq<char>) -> BrokerKind {
    if broker_accepts(BrokerKind::Stdout, option) {
        BrokerKind::Stdout
    } else if broker_accepts(BrokerKind::Http, option) {
        BrokerKind::Http
    } else if broker_accepts(BrokerKind::WebSocket, option) {
        BrokerKind::WebSocket
    } else if broker_accepts(BrokerKind::WebSocketClient, option) {
        BrokerKind::WebSocketClient
    } else {
        BrokerKind::Udp
    }
}

/// Finds the input that an option names.
pub fn select_receiver(option: &String) -> (kind: ReceiverKind)
    ensures
        kind == receiver_kind_of(option@),
{
    if StdinReceiverCreator.matches(option) {
        ReceiverKind::Stdin
    } else if HttpReceiverCreator.matches(option) {
        ReceiverKind::Https
    } else if WebSocketReceiverCreator.matches(option) {
        ReceiverKind::WebSocket
    } else {
        ReceiverKind::Udp
    }
}

/// Whether the input that the option names can be opened from it.
pub open spec fn input_can_open(option: Seq<char>) -> bool {
    match receiver_kind_of(option) {
        ReceiverKind::Stdin => StdinReceiverCreator::can_create(option),
        ReceiverKind::Https => HttpReceiverCreator::can_create(option),
        ReceiverKind::WebSocket => WebSocketReceiverCreator::can_create(option),
        ReceiverKind::Udp => UdpReceiverCreator::can_create(option),
    }
}

/// What the program opens for the input that the option names.
pub open spec fn input_plan_of(option: Seq<char>) -> PlanView {
    match receiver_kind_of(option) {
        ReceiverKind::Stdin => StdinReceiverCreator::plan_for(option),
        ReceiverKind::Https => HttpReceiverCreator::plan_for(option),
        ReceiverKind::WebSocket => WebSocketReceiverCreator::plan_for(option),
        ReceiverKind::Udp => UdpReceiverCreator::plan_for(option),
    }
}

/// Plans the input that the option names; `None` when its address cannot
/// be read from the option.
pub fn plan_input(option: &String) -> (plan: Option<ReceiverPlan>)
    ensures
        plan is Some <==> input_can_open(option@),
        plan matches Some(p) ==> p@ == input_plan_of(option@),
{
    match select_receiver(option) {
        ReceiverKind::Stdin => Some(StdinReceiverCreator.create_receiver(option)),
        ReceiverKind::Https => {
            if find_host_port(option).is_some() {
                Some(HttpReceiverCreator.create_receiver(option))
            } else {
                None
            }
        },
        ReceiverKind::WebSocket => {
            if parse_url(option.as_str()).is_ok() {
                Some(WebSocketReceiverCreator.create_receiver(option))
            } else {
                None
            }
        },
        ReceiverKind::Udp => Some(UdpReceiverCreator.create_receiver(option)),
    }
}

/// Finds the output that an option names.
pub fn select_broker(option: &String) -> (kind: BrokerKind)
    ensures
        kind == broker_kind_of(option@),
{
    if StdoutBroker::new().matches(option) {
        BrokerKind::Stdout
    } else if HttpBroker::new().matches(option) {
        BrokerKind::Http
    } else if WebSocketBroker::new().matches(option) {
        BrokerKind::WebSocket
    } else if WebSocketClientBroker::new().matches(option) {
        BrokerKind::WebSocketClient
    } else {
        BrokerKind::Udp
    }
}

/// The state of all outputs together.
pub struct OutputsView {
    pub stdout: bool,
    pub http: bool,
    pub websocket: Seq<Seq<char>>,
    pub websocket_client: Seq<Seq<char>>,
    pub udp: Seq<Seq<char>>,
}

/// All outputs of the relay, each with the destinations it has taken.
pub struct Outputs {
    stdout: StdoutBroker,
    http: HttpBroker,
    websocket: WebSocketBroker,
    websocket_client: WebSocketClientBroker,
    udp: UdpBroker,
}

impl View for Outputs {
    type V = OutputsView;

    closed spec fn view(&self) -> OutputsView {
        OutputsView {
            stdout: self.stdout@,
            http: self.http@,
            websocket: self.websocket@,
            websocket_client: self.websocket_client@,
            udp: self.udp@,
        }
    }
}

/// Whether the output that the option names can take a destination from it.
pub open spec fn output_can_add(option: Seq<char>) -> bool {
    match broker_kind_of(option) {
        BrokerKind::Stdout => StdoutBroker::can_add(option),
        BrokerKind::Http => HttpBroker::can_add(option),
        BrokerKind::WebSocket => WebSocketBroker::can_add(option),
        BrokerKind::WebSocketClient => WebSocketClientBroker::can_add(option),
        BrokerKind::Udp => UdpBroker::can_add(option),
    }
}

/// The outputs' state after the output that the option names takes a
/// destination from it; the other outputs are left as they were.
pub open spec fn outputs_after_add(s: OutputsView, option: Seq<char>) -> OutputsView {
    match broker_kind_of(option) {
        BrokerKind::Stdout => OutputsView {
            stdout: StdoutBroker::state_after_add(s.stdout, option),
            ..s
        },
        BrokerKind::Http => OutputsView { http: HttpBroker::state_after_add(s.http, option), ..s },
        BrokerKind::WebSocket => OutputsView {
            websocket: WebSocketBroker::state_after_add(s.websocket, option),
            ..s
        },
        BrokerKind::WebSocketClient => OutputsView {
            websocket_client: WebSocketClientBroker::state_after_add(s.websocket_client, option),
            ..s
        },
        BrokerKind::Udp => OutputsView { udp: UdpBroker::state_after_add(s.udp, option), ..s },
    }
}

/// What the program sets up when the output that the option names takes a
/// destination from it.
pub open spec fn output_setup_of(s: OutputsView, option: Seq<char>) -> SetupView {
    match broker_kind_of(option) {
        BrokerKind::Stdout => StdoutBroker::setup_for(s.stdout, option),
        BrokerKind::Http => HttpBroker::setup_for(s.http, option),
        BrokerKind::WebSocket => WebSocketBroker::setup_for(s.websocket, option),
        BrokerKind::WebSocketClient => WebSocketClientBroker::setup_for(
            s.websocket_client,
            option,
        ),
        BrokerKind::Udp => UdpBroker::setup_for(s.udp, option),
    }
}

/// The deliveries of one message by all outputs, in the outputs' order.
pub open spec fn dispatch_of(s: OutputsView, message: Seq<char>) -> Seq<DeliveryView> {
    StdoutBroker::outgoing(s.stdout, message) + HttpBroker::outgoing(s.http, message)
        + WebSocketBroker::outgoing(s.websocket, message) + WebSocketClientBroker::outgoing(
        s.websocket_client,
        message,
    ) + UdpBroker::outgoing(s.udp, message)
}

impl Outputs {
    /// All outputs, none with a destination.
    pub fn new() -> (o: Outputs)
        ensures
            o@.stdout == false,
            o@.http == false,
            o@.websocket == Seq::<Seq<char>>::empty(),
            o@.websocket_client == Seq::<Seq<char>>::empty(),
            o@.udp == Seq::<Seq<char>>::empty(),
    {
        Outputs {
            stdout: StdoutBroker::new(),
            http: HttpBroker::new(),
            websocket: WebSocketBroker::new(),
            websocket_client: WebSocketClientBroker::new(),
            udp: UdpBroker::new(),
        }
    }

    /// Hands the option to the first output that takes it. Returns what the
    /// program has to set up, or `None`, with nothing changed, when that
    /// output cannot read its address from the option.
    pub fn add_output(&mut self, option: &String) -> (setup: Option<Setup>)
        ensures
            setup is Some <==> output_can_add(option@),
            setup matches Some(st) ==> st@ == output_setup_of(old(self)@, option@),
            setup is Some ==> final(self)@ == outputs_after_add(old(self)@, option@),
            setup is None ==> final(self)@ == old(self)@,
    {
        match select_broker(option) {
            BrokerKind::Stdout => Some(self.stdout.add_destination(option)),
            BrokerKind::Http => {
                if find_host_port(option).is_some() {
                    Some(self.http.add_destination(option))
                } else {
                    None
                }
            },
            BrokerKind::WebSocket => {
                if find_host_port(option).is_some() {
                    Some(self.websocket.add_destination(option))
                } else {
                    None
                }
            },
            BrokerKind::WebSocketClient => {
                let url_text = client_url_text(option);
                if parse_url(url_text.as_str()).is_ok() {
                    Some(self.websocket_client.add_destination(option))
                } else {
                    None
                }
            },
            BrokerKind::Udp => Some(self.udp.add_destination(option)),
        }
    }

    /// Everything that the outputs do with one message, output by output.
    pub fn dispatch(&self, message: &String) -> (out: Vec<Delivery>)
        ensures
            deliveries_view(out@) == dispatch_of(self@, message@),
    {
        let mut out = self.stdout.send(message);
        let mut http = self.http.send(message);
        let mut websocket = self.websocket.send(message);
        let mut client = self.websocket_client.send(message);
        let mut udp = self.udp.send(message);
        let ghost (a, b, c, d, e) = (out@, http@, websocket@, client@, udp@);
        out.append(&mut http);
        out.append(&mut websocket);
        out.append(&mut client);
        out.append(&mut udp);
        assert(out@ == a + b + c + d + e);
        assert(deliveries_view(out@) =~= deliveries_view(a) + deliveries_view(b) + deliveries_view(c)
            + deliveries_view(d) + deliveries_view(e));
        out
    }
}

/// Every option names exactly one input: the first, in the order stdin,
/// HTTPS, WebSocket, UDP, that takes it; UDP takes every option, so no
/// option is left without an input.
pub proof fn lemma_option_names_first_accepting_input(option: Seq<char>)
    ensures
        receiver_accepts(receiver_kind_of(option), option),
        forall|k: ReceiverKind|
            receiver_rank(k) < receiver_rank(receiver_kind_of(option)) ==> !receiver_accepts(
                k,
                option,
            ),
{
}

/// Every option names exactly one output: the first, in the order stdout,
/// HTTP, WebSocket server, WebSocket client, UDP, that takes it; UDP takes
/// every option, so no option is left without an output.
pub proof fn lemma_option_names_first_accepting_output(option: Seq<char>)
    ensures
        broker_accepts(broker_kind_of(option), option),
        forall|k: BrokerKind|
            broker_rank(k) < broker_rank(broker_kind_of(option)) ==> !broker_accepts(k, option),
{
}

/// The options of each scheme reach the output of that scheme: `stdout`
/// the stdout output, `http://...` the HTTP output, `ws://...` the WebSocket
/// server output and `ws-client://...` the WebSocket client output (which
/// the WebSocket server output, tried before it, does not take).
pub proof fn lemma_schemes_reach_their_outputs(rest: Seq<char>)
    ensures
        broker_kind_of(STDOUT_OPTION@) == BrokerKind::Stdout,
        broker_kind_of(HTTP_SCHEME@ + rest) == BrokerKind::Http,
        broker_kind_of(WS_SERVER_SCHEME@ + rest) == BrokerKind::WebSocket,
        broker_kind_of(WS_CLIENT_OPTION_SCHEME@ + rest) == BrokerKind::WebSocketClient,
{
    reveal_strlit("stdout");
    reveal_strlit("http://");
    reveal_strlit("ws://");
    reveal_strlit("ws-client://");
    let h = HTTP_SCHEME@ + rest;
    let w = WS_SERVER_SCHEME@ + rest;
    let c = WS_CLIENT_OPTION_SCHEME@ + rest;
    assert(HTTP_SCHEME@.is_prefix_of(h)) by {
        assert(h.subrange(0, HTTP_SCHEME@.len() as int) =~= HTTP_SCHEME@);
    }
    assert(h != STDOUT_OPTION@) by {
        assert(h[0] != STDOUT_OPTION@[0]);
    }
    assert(WS_SERVER_SCHEME@.is_prefix_of(w)) by {
        assert(w.subrange(0, WS_SERVER_SCHEME@.len() as int) =~= WS_SERVER_SCHEME@);
    }
    assert(w != STDOUT_OPTION@) by {
        assert(w[0] != STDOUT_OPTION@[0]);
    }
    assert(!HTTP_SCHEME@.is_prefix_of(w)) by {
        assert(w[0] != HTTP_SCHEME@[0]);
    }
    assert(WS_CLIENT_OPTION_SCHEME@.is_prefix_of(c)) by {
        assert(c.subrange(0, WS_CLIENT_OPTION_SCHEME@.len() as int) =~= WS_CLIENT_OPTION_SCHEME@);
    }
    assert(c != STDOUT_OPTION@) by {
        assert(c[0] != STDOUT_OPTION@[0]);
    }
    assert(!HTTP_SCHEME@.is_prefix_of(c)) by {
        assert(c[0] != HTTP_SCHEME@[0]);
    }
    assert(!WS_SERVER_SCHEME@.is_prefix_of(c)) by {
        assert(c[2] != WS_SERVER_SCHEME@[2]);
    }
}

/// The options of each scheme reach the input of that scheme: `stdin`
/// standard input, `https://...` the HTTPS input and `ws://...` the
/// WebSocket input.
pub proof fn lemma_schemes_reach_their_inputs(rest: Seq<char>)
    ensures
        receiver_kind_of(STDIN_OPTION@) == ReceiverKind::Stdin,
        receiver_kind_of(HTTPS_SCHEME@ + rest) == ReceiverKind::Https,
        receiver_kind_of(WS_INPUT_SCHEME@ + rest) == ReceiverKind::WebSocket,
{
    reveal_strlit("stdin");
    reveal_strlit("https://");
    reveal_strlit("ws://");
    let h = HTTPS_SCHEME@ + rest;
    let w = WS_INPUT_SCHEME@ + rest;
    assert(HTTPS_SCHEME@.is_prefix_of(h)) by {
        assert(h.subrange(0, HTTPS_SCHEME@.len() as int) =~= HTTPS_SCHEME@);
    }
    assert(h != STDIN_OPTION@) by {
        assert(h[0] != STDIN_OPTION@[0]);
    }
    assert(WS_INPUT_SCHEME@.is_prefix_of(w)) by {
        assert(w.subrange(0, WS_INPUT_SCHEME@.len() as int) =~= WS_INPUT_SCHEME@);
    }
    assert(w != STDIN_OPTION@) by {
        assert(w[0] != STDIN_OPTION@[0]);
    }
    assert(!HTTPS_SCHEME@.is_prefix_of(w)) by {
        assert(w[0] != HTTPS_SCHEME@[0]);
    }
}

/// Outputs only gain destinations: once stdout or HTTP is named it stays
/// named, and the destinations taken before stay, in their order, in front of
/// the new one.
pub proof fn lemma_outputs_only_grow(s: OutputsView, option: Seq<char>)
    ensures
        s.stdout ==> outputs_after_add(s, option).stdout,
        s.http ==> outputs_after_add(s, option).http,
        s.websocket.is_prefix_of(outputs_after_add(s, option).websocket),
        s.websocket_client.is_prefix_of(outputs_after_add(s, option).websocket_client),
        s.udp.is_prefix_of(outputs_after_add(s, option).udp),
{
    let t = outputs_after_add(s, option);
    assert(t.websocket.subrange(0, s.websocket.len() as int) =~= s.websocket);
    assert(t.websocket_client.subrange(0, s.websocket_client.len() as int) =~= s.websocket_client);
    assert(t.udp.subrange(0, s.udp.len() as int) =~= s.udp);
}

/// Every destination that the outputs hold receives each message: stdout
/// prints it, the HTTP stream gets it with a newline, each WebSocket
/// listener broadcasts it, the WebSocket servers get it, and each UDP
/// destination gets its UTF-8 bytes; nothing else is delivered.
pub proof fn lemma_dispatch_reaches_every_destination(s: OutputsView, message: Seq<char>)
    ensures
        s.stdout <==> dispatch_of(s, message).contains(DeliveryView::Print(message)),
        s.http <==> dispatch_of(s, message).contains(DeliveryView::Enqueue(message + "\n"@)),
        forall|i: int|
            0 <= i < s.websocket.len() ==> #[trigger] dispatch_of(s, message).contains(
                DeliveryView::Broadcast(i as nat, message),
            ),
        s.websocket_client.len() > 0 <==> dispatch_of(s, message).contains(
            DeliveryView::ClientBroadcast(message),
        ),
        forall|i: int|
            0 <= i < s.udp.len() ==> dispatch_of(s, message).contains(
                DeliveryView::Datagram(#[trigger] s.udp[i], encode_utf8(message)),
            ),
        dispatch_of(s, message).len() == (if s.stdout { 1int } else { 0 }) + (if s.http {
            1int
        } else {
            0
        }) + s.websocket.len() + (if s.websocket_client.len() > 0 {
            1int
        } else {
            0
        }) + s.udp.len(),
{
    let p = StdoutBroker::outgoing(s.stdout, message);
    let h = HttpBroker::outgoing(s.http, message);
    let w = WebSocketBroker::outgoing(s.websocket, message);
    let c = WebSocketClientBroker::outgoing(s.websocket_client, message);
    let u = UdpBroker::outgoing(s.udp, message);
    let all = dispatch_of(s, message);
    assert(all == p + h + w + c + u);
    let lp = p.len() as int;
    let lh = h.len() as int;
    let lw = w.len() as int;
    let lc = c.len() as int;
    if s.stdout {
        assert(all[0] == DeliveryView::Print(message));
    }
    if all.contains(DeliveryView::Print(message)) {
        let k = choose|k: int| 0 <= k < all.len() && all[k] == DeliveryView::Print(message);
        if k >= lp {
            assert(false);
        }
    }
    if s.http {
        assert(all[lp] == DeliveryView::Enqueue(message + "\n"@));
    }
    if all.contains(DeliveryView::Enqueue(message + "\n"@)) {
        let k = choose|k: int|
            0 <= k < all.len() && all[k] == DeliveryView::Enqueue(message + "\n"@);
        if k < lp || k >= lp + lh {
            assert(false);
        }
    }
    assert forall|i: int| 0 <= i < s.websocket.len() implies #[trigger] all.contains(
        DeliveryView::Broadcast(i as nat, message),
    ) by {
        assert(all[lp + lh + i] == DeliveryView::Broadcast(i as nat, message));
    }
    if s.websocket_client.len() > 0 {
        assert(all[lp + lh + lw] == DeliveryView::ClientBroadcast(message));
    }
    if all.contains(DeliveryView::ClientBroadcast(message)) {
        let k = choose|k: int| 0 <= k < all.len() && all[k] == DeliveryView::ClientBroadcast(message);
        if k < lp + lh + lw || k >= lp + lh + lw + lc {
            assert(false);
        }
    }
    assert forall|i: int| 0 <= i < s.udp.len() implies all.contains(
        DeliveryView::Datagram(#[trigger] s.udp[i], encode_utf8(message)),
    ) by {
        assert(all[lp + lh + lw + lc + i] == DeliveryView::Datagram(s.udp[i], encode_utf8(message)));
    }
}

/// Outputs that hold no destination deliver nothing.
pub proof fn lemma_no_destination_no_delivery(s: OutputsView, message: Seq<char>)
    requires
        !s.stdout,
        !s.http,
        s.websocket.len() == 0,
        s.websocket_client.len() == 0,
        s.udp.len() == 0,
    ensures
        dispatch_of(s, message).len() == 0,
{
}

/// What the UDP output sends is read back unchanged by a UDP input: the
/// payload of each datagram is valid UTF-8 and decodes to the message.
pub proof fn lemma_datagram_round_trip(s: OutputsView, message: Seq<char>, i: int)
    requires
        0 <= i < dispatch_of(s, message).len(),
        dispatch_of(s, message)[i] is Datagram,
    ensures
        valid_utf8(dispatch_of(s, message)[i]->Datagram_1),
        decode_utf8(dispatch_of(s, message)[i]->Datagram_1) == message,
{
    broadcast use vstd::utf8::encode_utf8_valid_utf8, vstd::utf8::encode_utf8_decode_utf8;

    let p = StdoutBroker::outgoing(s.stdout, message);
    let h = HttpBroker::outgoing(s.http, message);
    let w = WebSocketBroker::outgoing(s.websocket, message);
    let c = WebSocketClientBroker::outgoing(s.websocket_client, message);
    let u = UdpBroker::outgoing(s.udp, message);
    let all = dispatch_of(s, message);
    assert(all == p + h + w + c + u);
    let before = p.len() + h.len() + w.len() + c.len();
    if i < before {
        assert(!(all[i] is Datagram));
    } else {
        assert(all[i] == u[i - before]);
    }
}

/// Every `http://...` or `ws://...` output option and every `https://...`
/// input option has an address, so the relay never refuses one: the output
/// or input is set up at the rest of the option, up to its first newline.
pub proof fn lemma_scheme_options_are_set_up(s: OutputsView, rest: Seq<char>)
    ensures
        output_can_add(HTTP_SCHEME@ + rest),
        output_setup_of(s, HTTP_SCHEME@ + rest) == SetupView::ServeHttp(
            rest.subrange(0, line_end_from(rest, 0)),
        ),
        output_can_add(WS_SERVER_SCHEME@ + rest),
        output_setup_of(s, WS_SERVER_SCHEME@ + rest) == SetupView::ListenWebSocket(
            rest.subrange(0, line_end_from(rest, 0)),
        ),
        input_can_open(HTTPS_SCHEME@ + rest),
        input_plan_of(HTTPS_SCHEME@ + rest) == PlanView::Https(
            rest.subrange(0, line_end_from(rest, 0)),
            TLS_KEY_FILE@,
            TLS_CERT_FILE@,
        ),
{
    lemma_schemes_reach_their_outputs(rest);
    lemma_schemes_reach_their_inputs(rest);
    reveal_strlit("http://");
    reveal_strlit("ws://");
    reveal_strlit("https://");
    reveal_with_fuel(first_separator_from, 7);
    assert(HTTP_SCHEME@.subrange(4, 7) =~= separator());
    assert(WS_SERVER_SCHEME@.subrange(2, 5) =~= separator());
    assert(HTTPS_SCHEME@.subrange(5, 8) =~= separator());
    assert(first_separator_from(HTTP_SCHEME@, 0) == Some(4int));
    assert(first_separator_from(WS_SERVER_SCHEME@, 0) == Some(2int));
    assert(first_separator_from(HTTPS_SCHEME@, 0) == Some(5int));
    lemma_host_port_after_scheme(HTTP_SCHEME@, rest);
    lemma_host_port_after_scheme(WS_SERVER_SCHEME@, rest);
    lemma_host_port_after_scheme(HTTPS_SCHEME@, rest);
}

/// A text that starts with a prefix is that prefix followed by the rest.
proof fn lemma_prefix_then_rest(prefix: Seq<char>, text: Seq<char>)
    requires
        prefix.is_prefix_of(text),
    ensures
        text == prefix + text.skip(prefix.len() as int),
{
    assert(text =~= prefix + text.skip(prefix.len() as int));
}

/// Taking a destination from an option changes exactly one output, the one
/// the option names, and adds exactly that destination to it: stdout and
/// HTTP become named, the WebSocket server output gains the option's
/// `host:port` as its next listener, the WebSocket client output gains the
/// option's client URL as its next server, and the UDP output gains the
/// option itself as its next destination. Nothing is dropped or reordered.
pub proof fn lemma_add_output_records_exactly_its_destination(s: OutputsView, option: Seq<char>)
    ensures
        broker_kind_of(option) == BrokerKind::Stdout ==> outputs_after_add(s, option) == (
        OutputsView { stdout: true, ..s }),
        broker_kind_of(option) == BrokerKind::Http ==> outputs_after_add(s, option) == (
        OutputsView { http: true, ..s }),
        broker_kind_of(option) == BrokerKind::WebSocket ==> outputs_after_add(s, option) == (
        OutputsView { websocket: s.websocket.push(host_port_of(option)->0), ..s }),
        broker_kind_of(option) == BrokerKind::WebSocketClient ==> outputs_after_add(s, option) == (
        OutputsView { websocket_client: s.websocket_client.push(client_url_of(option)), ..s }),
        broker_kind_of(option) == BrokerKind::Udp ==> outputs_after_add(s, option) == (
        OutputsView { udp: s.udp.push(option), ..s }),
{
}

/// Which options an output takes a destination from, and what it sets up:
/// stdout and UDP take every option they are named by; HTTP and the
/// WebSocket server take exactly the options with a `host:port` and serve
/// there; the WebSocket client takes exactly the options whose client URL
/// parses, and connects to that URL's parse.
pub proof fn lemma_add_output_accepts_and_sets_up(s: OutputsView, option: Seq<char>)
    ensures
        broker_kind_of(option) == BrokerKind::Stdout ==> output_can_add(option)
            && output_setup_of(s, option) == SetupView::Nothing,
        broker_kind_of(option) == BrokerKind::Http ==> (output_can_add(option) <==> host_port_of(
            option,
        ) is Some) && output_setup_of(s, option) == SetupView::ServeHttp(
            host_port_of(option)->0,
        ),
        broker_kind_of(option) == BrokerKind::WebSocket ==> (output_can_add(option)
            <==> host_port_of(option) is Some) && output_setup_of(s, option)
            == SetupView::ListenWebSocket(host_port_of(option)->0),
        broker_kind_of(option) == BrokerKind::WebSocketClient ==> (output_can_add(option)
            <==> url_parses(client_url_of(option))) && output_setup_of(s, option)
            == SetupView::ConnectWebSocket(
            client_url_of(option),
            url_serialization(client_url_of(option)),
        ),
        broker_kind_of(option) == BrokerKind::Udp ==> output_can_add(option) && output_setup_of(
            s,
            option,
        ) == SetupView::Nothing,
{
}

/// A destination that an output takes receives every later message, and it
/// adds its deliveries to those of the outputs before: a new WebSocket
/// listener or UDP destination adds exactly one delivery per message.
pub proof fn lemma_new_destination_receives_messages(s: OutputsView, option: Seq<char>, message: Seq<char>)
    ensures
        broker_kind_of(option) == BrokerKind::Stdout ==> dispatch_of(
            outputs_after_add(s, option),
            message,
        ).contains(DeliveryView::Print(message)),
        broker_kind_of(option) == BrokerKind::Http ==> dispatch_of(
            outputs_after_add(s, option),
            message,
        ).contains(DeliveryView::Enqueue(message + "\n"@)),
        broker_kind_of(option) == BrokerKind::WebSocket ==> dispatch_of(
            outputs_after_add(s, option),
            message,
        ).contains(DeliveryView::Broadcast(s.websocket.len(), message)) && dispatch_of(
            outputs_after_add(s, option),
            message,
        ).len() == dispatch_of(s, message).len() + 1,
        broker_kind_of(option) == BrokerKind::WebSocketClient ==> dispatch_of(
            outputs_after_add(s, option),
            message,
        ).contains(DeliveryView::ClientBroadcast(message)),
        broker_kind_of(option) == BrokerKind::Udp ==> dispatch_of(
            outputs_after_add(s, option),
            message,
        ).contains(DeliveryView::Datagram(option, encode_utf8(message))) && dispatch_of(
            outputs_after_add(s, option),
            message,
        ).len() == dispatch_of(s, message).len() + 1,
{
    let t = outputs_after_add(s, option);
    lemma_add_output_records_exactly_its_destination(s, option);
    lemma_dispatch_reaches_every_destination(s, message);
    lemma_dispatch_reaches_every_destination(t, message);
    if broker_kind_of(option) == BrokerKind::WebSocket {
        assert(dispatch_of(t, message).contains(
            DeliveryView::Broadcast(s.websocket.len() as int as nat, message),
        ));
    }
    if broker_kind_of(option) == BrokerKind::Udp {
        assert(t.udp[s.udp.len() as int] == option);
    }
}

/// Every `ws-client://...` option whose client URL (`ws://` and the option
/// without its leading `ws-client://`) parses is taken by the WebSocket
/// client output, which connects to that URL's parse and records it as its
/// next server, so every later message is sent to the servers.
pub proof fn lemma_client_options_are_taken(s: OutputsView, option: Seq<char>, message: Seq<char>)
    requires
        WS_CLIENT_OPTION_SCHEME@.is_prefix_of(option),
        url_parses(client_url_of(option)),
    ensures
        output_can_add(option),
        output_setup_of(s, option) == SetupView::ConnectWebSocket(
            client_url_of(option),
            url_serialization(client_url_of(option)),
        ),
        outputs_after_add(s, option).websocket_client == s.websocket_client.push(
            client_url_of(option),
        ),
        dispatch_of(outputs_after_add(s, option), message).contains(
            DeliveryView::ClientBroadcast(message),
        ),
{
    lemma_prefix_then_rest(WS_CLIENT_OPTION_SCHEME@, option);
    lemma_schemes_reach_their_outputs(option.skip(WS_CLIENT_OPTION_SCHEME@.len() as int));
    lemma_add_output_records_exactly_its_destination(s, option);
    lemma_new_destination_receives_messages(s, option, message);
}

/// Which options an input opens from, and what it opens: standard input and
/// UDP open from every option they are named by (UDP binding to the option);
/// HTTPS opens exactly from the options with a `host:port` and serves there;
/// the WebSocket input opens exactly from the options that parse as URLs,
/// and connects to that parse.
pub proof fn lemma_inputs_open_at_their_address(option: Seq<char>)
    ensures
        receiver_kind_of(option) == ReceiverKind::Stdin ==> input_can_open(option)
            && input_plan_of(option) == PlanView::Stdin,
        receiver_kind_of(option) == ReceiverKind::Https ==> (input_can_open(option)
            <==> host_port_of(option) is Some) && input_plan_of(option) == PlanView::Https(
            host_port_of(option)->0,
            TLS_KEY_FILE@,
            TLS_CERT_FILE@,
        ),
        receiver_kind_of(option) == ReceiverKind::WebSocket ==> (input_can_open(option)
            <==> url_parses(option)) && input_plan_of(option) == PlanView::WebSocket(
            url_serialization(option),
        ),
        receiver_kind_of(option) == ReceiverKind::Udp ==> input_can_open(option) && input_plan_of(
            option,
        ) == PlanView::Udp(option),
{
}

/// Every `ws://...` option that parses as a URL opens a WebSocket input that
/// connects to that parse, whatever its path.
pub proof fn lemma_ws_inputs_open_at_their_url(option: Seq<char>)
    requires
        WS_INPUT_SCHEME@.is_prefix_of(option),
        url_parses(option),
    ensures
        input_can_open(option),
        input_plan_of(option) == PlanView::WebSocket(url_serialization(option)),
{
    lemma_prefix_then_rest(WS_INPUT_SCHEME@, option);
    lemma_schemes_reach_their_inputs(option.skip(WS_INPUT_SCHEME@.len() as int));
}

} // verus!
