//! Transport-session core of a manual UDP/TCP tester, with the text helpers
//! that surround it.

pub mod addr;
pub mod event;
pub mod form;
pub mod hex_edit;
pub mod lifecycle;
pub mod netif;
pub mod registry;
pub mod tcp_client;
pub mod tcp_server;
pub mod text;
pub mod udp;
pub mod xlogger;
