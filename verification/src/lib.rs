//! A message relay: it reads messages from one input (stdin, an HTTPS
//! endpoint, a WebSocket server or a UDP socket) and forwards each of them
//! to every configured output (stdout, an HTTP stream, WebSocket servers and
//! clients, UDP peers).
//!
//! This crate holds the relay's decisions: which input or output an option
//! names, what each output does with a message, how addresses are read from
//! options, and when a WebSocket peer is dropped. The program around it
//! performs the network and terminal work these decisions describe.

pub mod text;
pub mod address;
pub mod connect;
pub mod socket;
pub mod stream;
pub mod broker;
pub mod receiver;
pub mod relay;
