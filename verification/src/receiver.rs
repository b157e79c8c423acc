//! The relay's inputs. Each input tells from an option whether the option
//! names it, and plans what the program opens to read messages from.

use vstd::prelude::*;
use crate::address::{get_host_port, host_port_of, parse_url, url_parses, url_serialization, ConnectUrl};
use crate::text::starts_with;

verus! {

/// The option that names standard input.
pub const STDIN_OPTION: &'static str = "stdin";

/// The scheme of options that name an HTTPS endpoint.
pub const HTTPS_SCHEME: &'static str = "https://";

/// The scheme of options that name a WebSocket server to read from.
pub const WS_INPUT_SCHEME: &'static str = "ws://";

/// The private key that the HTTPS input serves with.
pub const TLS_KEY_FILE: &'static str = "./cert/server.key";

/// The certificate chain that the HTTPS input serves with.
pub const TLS_CERT_FILE: &'static str = "./cert/server.crt";

/// What the program opens to read messages from.
#[derive(Debug)]
pub enum ReceiverPlan {
    /// Read lines from standard input.
    Stdin,
    /// Serve HTTPS on `address` (`host:port`) with the given key and
    /// certificate chain files; each non-empty request body chunk is a message.
    Https { address: String, key_file: String, cert_file: String },
    /// Connect to the WebSocket server at `url`; each text it sends is a
    /// message.
    WebSocket { url: ConnectUrl },
    /// Bind a UDP socket to `bind`; each datagram is a message.
    Udp { bind: String },
}

/// A `ReceiverPlan` as the contracts see it.
pub enum PlanView {
    Stdin,
    Https(Seq<char>, Seq<char>, Seq<char>),
    /// The serialization of the URL to connect to.
    WebSocket(Seq<char>),
    Udp(Seq<char>),
}

impl View for ReceiverPlan {
    type V = PlanView;

    open spec fn view(&self) -> PlanView {
        match self {
            ReceiverPlan::Stdin => PlanView::Stdin,
            ReceiverPlan::Https { address, key_file, cert_file } => PlanView::Https(
                address@,
                key_file@,
                cert_file@,
            ),
            ReceiverPlan::WebSocket { url } => PlanView::WebSocket(url@),
            ReceiverPlan::Udp { bind } => PlanView::Udp(bind@),
        }
    }
}

/// An input of the relay.
pub trait ReceiverCreator: Sized {
    /// Whether an option names this input.
    spec fn accepts(option: Seq<char>) -> bool;

    /// Whether this input can be opened from the option (the address in it
    /// can be read).
    spec fn can_create(option: Seq<char>) -> bool;

    /// What the program opens for the option.
    spec fn plan_for(option: Seq<char>) -> PlanView;

    /// Tells whether an option names this input.
    fn matches(&self, option: &String) -> (r: bool)
        ensures
            r == Self::accepts(option@),
    ;

    /// Plans what the program opens for the option.
    fn create_receiver(&self, option: &String) -> (plan: ReceiverPlan)
        requires
            Self::can_create(option@),
        ensures
            plan@ == Self::plan_for(option@),
    ;
}

/// Reads messages as lines of standard input.
pub struct StdinReceiverCreator;

impl ReceiverCreator for StdinReceiverCreator {
    open spec fn accepts(option: Seq<char>) -> bool {
        option == STDIN_OPTION@
    }

    open spec fn can_create(option: Seq<char>) -> bool {
        true
    }

    open spec fn plan_for(option: Seq<char>) -> PlanView {
        PlanView::Stdin
    }

    fn matches(&self, option: &String) -> (r: bool) {
        option.eq(&String::from_str(STDIN_OPTION))
    }

    fn create_receiver(&self, option: &String) -> (plan: ReceiverPlan) {
        ReceiverPlan::Stdin
    }
}

/// Reads messages as the bodies posted to an HTTPS endpoint.
pub struct HttpReceiverCreator;

impl ReceiverCreator for HttpReceiverCreator {
    open spec fn accepts(option: Seq<char>) -> bool {
        HTTPS_SCHEME@.is_prefix_of(option)
    }

    open spec fn can_create(option: Seq<char>) -> bool {
        host_port_of(option) is Some
    }

    open spec fn plan_for(option: Seq<char>) -> PlanView {
        PlanView::Https(host_port_of(option)->0, TLS_KEY_FILE@, TLS_CERT_FILE@)
    }

    fn matches(&self, option: &String) -> (r: bool) {
        starts_with(option.as_str(), HTTPS_SCHEME)
    }

    fn create_receiver(&self, option: &String) -> (plan: ReceiverPlan) {
        ReceiverPlan::Https {
            address: get_host_port(option),
            key_file: String::from_str(TLS_KEY_FILE),
            cert_file: String::from_str(TLS_CERT_FILE),
        }
    }
}

/// Reads messages as the texts that a WebSocket server sends.
pub struct WebSocketReceiverCreator;

impl ReceiverCreator for WebSocketReceiverCreator {
    open spec fn accepts(option: Seq<char>) -> bool {
        WS_INPUT_SCHEME@.is_prefix_of(option)
    }

    open spec fn can_create(option: Seq<char>) -> bool {
        url_parses(option)
    }

    open spec fn plan_for(option: Seq<char>) -> PlanView {
        PlanView::WebSocket(url_serialization(option))
    }

    fn matches(&self, option: &String) -> (r: bool) {
        starts_with(option.as_str(), WS_INPUT_SCHEME)
    }

    fn create_receiver(&self, option: &String) -> (plan: ReceiverPlan) {
        match parse_url(option.as_str()) {
            Ok(url) => ReceiverPlan::WebSocket { url },
            Err(_) => {
                assert(false);
                ReceiverPlan::Stdin
            },
        }
    }
}

/// Reads messages as datagrams on a UDP socket; it takes every option.
pub struct UdpReceiverCreator;

impl ReceiverCreator for UdpReceiverCreator {
    open spec fn accepts(option: Seq<char>) -> bool {
        true
    }

    open spec fn can_create(option: Seq<char>) -> bool {
        true
    }

    open spec fn plan_for(option: Seq<char>) -> PlanView {
        PlanView::Udp(option)
    }

    fn matches(&self, option: &String) -> (r: bool) {
        true
    }

    fn create_receiver(&self, option: &String) -> (plan: ReceiverPlan) {
        ReceiverPlan::Udp { bind: option.clone() }
    }
}

/// The message that one chunk of a posted body carries: the chunk's text,
/// unless it is empty, in which case nothing is forwarded.
pub fn chunk_message(text: String) -> (message: Option<String>)
    ensures
        message is Some <==> text@.len() > 0,
        message matches Some(m) ==> m@ == text@,
{
    if text.as_str().is_empty() {
        None
    } else {
        Some(text)
    }
}

} // verus!
