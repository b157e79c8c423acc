//! The relay's outputs. Each output ("broker") tells from an option whether
//! the option names it, takes destinations from options, and turns every
//! message into the deliveries that the program then carries out.

use vstd::prelude::*;
use vstd::slice::slice_to_vec;
use vstd::utf8::encode_utf8;
use crate::address::{
    client_url_of, client_url_text, get_host_port, host_port_of, parse_url, url_parses,
    url_serialization, ConnectUrl,
};
use crate::text::starts_with;

verus! {

/// The option that names the stdout output.
pub const STDOUT_OPTION: &'static str = "stdout";

/// The scheme of options that name the HTTP output.
pub const HTTP_SCHEME: &'static str = "http://";

/// The scheme of options that name the WebSocket server output.
pub const WS_SERVER_SCHEME: &'static str = "ws://";

/// The scheme of options that name the WebSocket client output.
pub const WS_CLIENT_OPTION_SCHEME: &'static str = "ws-client://";

/// What the program has to set up when an output takes a destination.
#[derive(Debug)]
pub enum Setup {
    /// Nothing beyond the output's own state.
    Nothing,
    /// Serve the HTTP stream on `address` (`host:port`).
    ServeHttp { address: String },
    /// Accept WebSocket peers on `address` (`host:port`); they form the
    /// next listener of the output.
    ListenWebSocket { address: String },
    /// Connect to the WebSocket server at `url`, parsed from `url_text`.
    ConnectWebSocket { url_text: String, url: ConnectUrl },
}

/// A `Setup` as the contracts see it.
pub enum SetupView {
    Nothing,
    ServeHttp(Seq<char>),
    ListenWebSocket(Seq<char>),
    /// The text the URL was parsed from, and the URL's serialization.
    ConnectWebSocket(Seq<char>, Seq<char>),
}

impl View for Setup {
    type V = SetupView;

    open spec fn view(&self) -> SetupView {
        match self {
            Setup::Nothing => SetupView::Nothing,
            Setup::ServeHttp { address } => SetupView::ServeHttp(address@),
            Setup::ListenWebSocket { address } => SetupView::ListenWebSocket(address@),
            Setup::ConnectWebSocket { url_text, url } => SetupView::ConnectWebSocket(
                url_text@,
                url@,
            ),
        }
    }
}

/// One thing the program does with a message for an output.
#[derive(Debug, PartialEq, Eq)]
pub enum Delivery {
    /// Print the text as a line on stdout.
    Print(String),
    /// Queue the text on the HTTP stream.
    Enqueue(String),
    /// Send the text to every peer of the WebSocket listener with this index.
    Broadcast { listener: usize, text: String },
    /// Send the text to every connected WebSocket server.
    ClientBroadcast(String),
    /// Send the payload as one datagram to the destination.
    Datagram { destination: String, payload: Vec<u8> },
}

/// A `Delivery` as the contracts see it.
pub enum DeliveryView {
    Print(Seq<char>),
    Enqueue(Seq<char>),
    Broadcast(nat, Seq<char>),
    ClientBroadcast(Seq<char>),
    Datagram(Seq<char>, Seq<u8>),
}

impl View for Delivery {
    type V = DeliveryView;

    open spec fn view(&self) -> DeliveryView {
        match self {
            Delivery::Print(t) => DeliveryView::Print(t@),
            Delivery::Enqueue(t) => DeliveryView::Enqueue(t@),
            Delivery::Broadcast { listener, text } => DeliveryView::Broadcast(
                *listener as nat,
                text@,
            ),
            Delivery::ClientBroadcast(t) => DeliveryView::ClientBroadcast(t@),
            Delivery::Datagram { destination, payload } => DeliveryView::Datagram(
                destination@,
                payload@,
            ),
        }
    }
}

/// The deliveries of a list, as the contracts see them.
pub open spec fn deliveries_view(v: Seq<Delivery>) -> Seq<DeliveryView> {
    v.map_values(|d: Delivery| d@)
}

/// An output of the relay.
pub trait Broker: View + Sized {
    /// Whether an option names this output.
    spec fn accepts(option: Seq<char>) -> bool;

    /// Whether this output can take a destination from the option (the
    /// address in it can be read).
    spec fn can_add(option: Seq<char>) -> bool;

    /// The output's state after it takes a destination from the option.
    spec fn state_after_add(state: <Self as View>::V, option: Seq<char>) -> <Self as View>::V;

    /// What the program sets up when the output takes a destination.
    spec fn setup_for(state: <Self as View>::V, option: Seq<char>) -> SetupView;

    /// The deliveries of one message.
    spec fn outgoing(state: <Self as View>::V, message: Seq<char>) -> Seq<DeliveryView>;

    /// Tells whether an option names this output.
    fn matches(&self, option: &String) -> (r: bool)
        ensures
            r == Self::accepts(option@),
    ;

    /// Takes a destination from an option.
    fn add_destination(&mut self, option: &String) -> (setup: Setup)
        requires
            Self::can_add(option@),
        ensures
            final(self)@ == Self::state_after_add(old(self)@, option@),
            setup@ == Self::setup_for(old(self)@, option@),
    ;

    /// The deliveries of one message.
    fn send(&self, message: &String) -> (out: Vec<Delivery>)
        ensures
            deliveries_view(out@) == Self::outgoing(self@, message@),
    ;
}

/// Prints every message on stdout once it has been named as an output.
pub struct StdoutBroker {
    enabled: bool,
}

impl View for StdoutBroker {
    /// Whether stdout has been named as an output.
    type V = bool;

    closed spec fn view(&self) -> bool {
        self.enabled
    }
}

impl StdoutBroker {
    /// A stdout output that prints nothing until it is named.
    pub fn new() -> (b: StdoutBroker)
        ensures
            b@ == false,
    {
        StdoutBroker { enabled: false }
    }
}

impl Broker for StdoutBroker {
    open spec fn accepts(option: Seq<char>) -> bool {
        option == STDOUT_OPTION@
    }

    open spec fn can_add(option: Seq<char>) -> bool {
        true
    }

    open spec fn state_after_add(state: bool, option: Seq<char>) -> bool {
        true
    }

    open spec fn setup_for(state: bool, option: Seq<char>) -> SetupView {
        SetupView::Nothing
    }

    open spec fn outgoing(state: bool, message: Seq<char>) -> Seq<DeliveryView> {
        if state {
            seq![DeliveryView::Print(message)]
        } else {
            seq![]
        }
    }

    fn matches(&self, option: &String) -> (r: bool) {
        option.eq(&String::from_str(STDOUT_OPTION))
    }

    fn add_destination(&mut self, option: &String) -> (setup: Setup) {
        self.enabled = true;
        Setup::Nothing
    }

    fn send(&self, message: &String) -> (out: Vec<Delivery>) {
        let mut out: Vec<Delivery> = Vec::new();
        if self.enabled {
            out.push(Delivery::Print(message.clone()));
        }
        assert(deliveries_view(out@) =~= Self::outgoing(self@, message@));
        out
    }
}

/// Streams every message, with a newline after it, to the clients of an
/// HTTP endpoint once an endpoint has been named.
pub struct HttpBroker {
    enabled: bool,
}

impl View for HttpBroker {
    /// Whether an HTTP endpoint has been named.
    type V = bool;

    closed spec fn view(&self) -> bool {
        self.enabled
    }
}

impl HttpBroker {
    /// An HTTP output that streams nothing until an endpoint is named.
    pub fn new() -> (b: HttpBroker)
        ensures
            b@ == false,
    {
        HttpBroker { enabled: false }
    }
}

impl Broker for HttpBroker {
    open spec fn accepts(option: Seq<char>) -> bool {
        HTTP_SCHEME@.is_prefix_of(option)
    }

    open spec fn can_add(option: Seq<char>) -> bool {
        host_port_of(option) is Some
    }

    open spec fn state_after_add(state: bool, option: Seq<char>) -> bool {
        true
    }

    open spec fn setup_for(state: bool, option: Seq<char>) -> SetupView {
        SetupView::ServeHttp(host_port_of(option)->0)
    }

    open spec fn outgoing(state: bool, message: Seq<char>) -> Seq<DeliveryView> {
        if state {
            seq![DeliveryView::Enqueue(message + "\n"@)]
        } else {
            seq![]
        }
    }

    fn matches(&self, option: &String) -> (r: bool) {
        starts_with(option.as_str(), HTTP_SCHEME)
    }

    fn add_destination(&mut self, option: &String) -> (setup: Setup) {
        self.enabled = true;
        Setup::ServeHttp { address: get_host_port(option) }
    }

    fn send(&self, message: &String) -> (out: Vec<Delivery>) {
        let mut out: Vec<Delivery> = Vec::new();
        if self.enabled {
            out.push(Delivery::Enqueue(message.clone().concat("\n")));
        }
        assert(deliveries_view(out@) =~= Self::outgoing(self@, message@));
        out
    }
}

/// Sends every message to the peers of each WebSocket endpoint it listens on.
pub struct WebSocketBroker {
    listeners: Vec<String>,
}

impl View for WebSocketBroker {
    /// The `host:port` of each endpoint, in the order they were named.
    type V = Seq<Seq<char>>;

    closed spec fn view(&self) -> Seq<Seq<char>> {
        self.listeners@.map_values(|s: String| s@)
    }
}

impl WebSocketBroker {
    /// A WebSocket server output with no endpoint yet.
    pub fn new() -> (b: WebSocketBroker)
        ensures
            b@ == Seq::<Seq<char>>::empty(),
    {
        let b = WebSocketBroker { listeners: Vec::new() };
        assert(b@ =~= Seq::<Seq<char>>::empty());
        b
    }
}

impl Broker for WebSocketBroker {
    open spec fn accepts(option: Seq<char>) -> bool {
        WS_SERVER_SCHEME@.is_prefix_of(option)
    }

    open spec fn can_add(option: Seq<char>) -> bool {
        host_port_of(option) is Some
    }

    open spec fn state_after_add(state: Seq<Seq<char>>, option: Seq<char>) -> Seq<Seq<char>> {
        state.push(host_port_of(option)->0)
    }

    open spec fn setup_for(state: Seq<Seq<char>>, option: Seq<char>) -> SetupView {
        SetupView::ListenWebSocket(host_port_of(option)->0)
    }

    open spec fn outgoing(state: Seq<Seq<char>>, message: Seq<char>) -> Seq<DeliveryView> {
        Seq::new(state.len(), |i: int| DeliveryView::Broadcast(i as nat, message))
    }

    fn matches(&self, option: &String) -> (r: bool) {
        starts_with(option.as_str(), WS_SERVER_SCHEME)
    }

    fn add_destination(&mut self, option: &String) -> (setup: Setup) {
        let address = get_host_port(option);
        self.listeners.push(address.clone());
        assert(self@ =~= Self::state_after_add(old(self)@, option@));
        Setup::ListenWebSocket { address }
    }

    fn send(&self, message: &String) -> (out: Vec<Delivery>) {
        let mut out: Vec<Delivery> = Vec::new();
        let n = self.listeners.len();
        for i in 0..n
            invariant
                n == self@.len(),
                deliveries_view(out@) =~= Self::outgoing(self@, message@).take(i as int),
        {
            let d = Delivery::Broadcast { listener: i, text: message.clone() };
            let ghost before = out@;
            out.push(d);
            assert(deliveries_view(out@) =~= deliveries_view(before).push(d@));
            assert(deliveries_view(out@) =~= Self::outgoing(self@, message@).take(i + 1));
        }
        assert(Self::outgoing(self@, message@).take(n as int) =~= Self::outgoing(self@, message@));
        out
    }
}

/// Sends every message to each WebSocket server it has connected to.
pub struct WebSocketClientBroker {
    servers: Vec<String>,
}

impl View for WebSocketClientBroker {
    /// The URL of each server, in the order they were named.
    type V = Seq<Seq<char>>;

    closed spec fn view(&self) -> Seq<Seq<char>> {
        self.servers@.map_values(|s: String| s@)
    }
}

impl WebSocketClientBroker {
    /// A WebSocket client output connected to no server yet.
    pub fn new() -> (b: WebSocketClientBroker)
        ensures
            b@ == Seq::<Seq<char>>::empty(),
    {
        let b = WebSocketClientBroker { servers: Vec::new() };
        assert(b@ =~= Seq::<Seq<char>>::empty());
        b
    }
}

impl Broker for WebSocketClientBroker {
    open spec fn accepts(option: Seq<char>) -> bool {
        WS_CLIENT_OPTION_SCHEME@.is_prefix_of(option)
    }

    open spec fn can_add(option: Seq<char>) -> bool {
        url_parses(client_url_of(option))
    }

    open spec fn state_after_add(state: Seq<Seq<char>>, option: Seq<char>) -> Seq<Seq<char>> {
        state.push(client_url_of(option))
    }

    open spec fn setup_for(state: Seq<Seq<char>>, option: Seq<char>) -> SetupView {
        SetupView::ConnectWebSocket(client_url_of(option), url_serialization(client_url_of(option)))
    }

    open spec fn outgoing(state: Seq<Seq<char>>, message: Seq<char>) -> Seq<DeliveryView> {
        if state.len() > 0 {
            seq![DeliveryView::ClientBroadcast(message)]
        } else {
            seq![]
        }
    }

    fn matches(&self, option: &String) -> (r: bool) {
        starts_with(option.as_str(), WS_CLIENT_OPTION_SCHEME)
    }

    fn add_destination(&mut self, option: &String) -> (setup: Setup) {
        let url_text = client_url_text(option);
        let url = match parse_url(url_text.as_str()) {
            Ok(url) => url,
            Err(_) => {
                assert(false);
                return Setup::Nothing;
            },
        };
        self.servers.push(url_text.clone());
        assert(self@ =~= Self::state_after_add(old(self)@, option@));
        Setup::ConnectWebSocket { url_text, url }
    }

    fn send(&self, message: &String) -> (out: Vec<Delivery>) {
        let mut out: Vec<Delivery> = Vec::new();
        if self.servers.len() > 0 {
            out.push(Delivery::ClientBroadcast(message.clone()));
        }
        assert(deliveries_view(out@) =~= Self::outgoing(self@, message@));
        out
    }
}

/// Sends every message as one datagram to each UDP destination named.
pub struct UdpBroker {
    destinations: Vec<String>,
}

impl View for UdpBroker {
    /// The destinations, in the order they were named.
    type V = Seq<Seq<char>>;

    closed spec fn view(&self) -> Seq<Seq<char>> {
        self.destinations@.map_values(|s: String| s@)
    }
}

impl UdpBroker {
    /// A UDP output with no destination yet.
    pub fn new() -> (b: UdpBroker)
        ensures
            b@ == Seq::<Seq<char>>::empty(),
    {
        let b = UdpBroker { destinations: Vec::new() };
        assert(b@ =~= Seq::<Seq<char>>::empty());
        b
    }
}

impl Broker for UdpBroker {
    open spec fn accepts(option: Seq<char>) -> bool {
        true
    }

    open spec fn can_add(option: Seq<char>) -> bool {
        true
    }

    open spec fn state_after_add(state: Seq<Seq<char>>, option: Seq<char>) -> Seq<Seq<char>> {
        state.push(option)
    }

    open spec fn setup_for(state: Seq<Seq<char>>, option: Seq<char>) -> SetupView {
        SetupView::Nothing
    }

    open spec fn outgoing(state: Seq<Seq<char>>, message: Seq<char>) -> Seq<DeliveryView> {
        Seq::new(state.len(), |i: int| DeliveryView::Datagram(state[i], encode_utf8(message)))
    }

    fn matches(&self, option: &String) -> (r: bool) {
        true
    }

    fn add_destination(&mut self, option: &String) -> (setup: Setup) {
        self.destinations.push(option.clone());
        assert(self@ =~= Self::state_after_add(old(self)@, option@));
        Setup::Nothing
    }

    fn send(&self, message: &String) -> (out: Vec<Delivery>) {
        let mut out: Vec<Delivery> = Vec::new();
        let n = self.destinations.len();
        for i in 0..n
            invariant
                n == self.destinations@.len(),
                self@ == self.destinations@.map_values(|s: String| s@),
                deliveries_view(out@) =~= Self::outgoing(self@, message@).take(i as int),
        {
            let payload = slice_to_vec(message.as_str().as_bytes());
            let d = Delivery::Datagram { destination: self.destinations[i].clone(), payload };
            let ghost before = out@;
            out.push(d);
            assert(deliveries_view(out@) =~= deliveries_view(before).push(d@));
            assert(deliveries_view(out@) =~= Self::outgoing(self@, message@).take(i + 1));
        }
        assert(Self::outgoing(self@, message@).take(n as int) =~= Self::outgoing(self@, message@));
        out
    }
}

/// Once stdout is named, stdout stays named: whatever the output's state,
/// taking a destination leaves it printing, and from then on every message
/// is printed unchanged.
pub proof fn lemma_stdout_stays_named(state: bool, option: Seq<char>, message: Seq<char>)
    ensures
        StdoutBroker::state_after_add(state, option),
        StdoutBroker::outgoing(StdoutBroker::state_after_add(state, option), message) == seq![
            DeliveryView::Print(message),
        ],
{
}

/// Once an HTTP endpoint is named, the HTTP output stays enabled: whatever
/// its state, taking a destination leaves it enabled (taking a destination
/// is the only change an output undergoes; sending leaves it as it is), and
/// from then on every message is queued followed by a newline.
pub proof fn lemma_http_stays_enabled(state: bool, option: Seq<char>, message: Seq<char>)
    ensures
        HttpBroker::state_after_add(state, option),
        HttpBroker::outgoing(HttpBroker::state_after_add(state, option), message) == seq![
            DeliveryView::Enqueue(message + "\n"@),
        ],
{
}

/// The socket a datagram leaves from.
#[derive(Debug, Clone, Copy, PartialEq, Eq)]
pub enum UdpFamily {
    /// The IPv4 socket.
    V4,
    /// The IPv6 socket.
    V6,
}

/// Chooses the socket for a datagram whose destination resolved to an IPv4
/// address (`is_ipv4`) or an IPv6 one.
pub fn udp_family(is_ipv4: bool) -> (family: UdpFamily)
    ensures
        family == (if is_ipv4 { UdpFamily::V4 } else { UdpFamily::V6 }),
{
    if is_ipv4 {
        UdpFamily::V4
    } else {
        UdpFamily::V6
    }
}

} // verus!
