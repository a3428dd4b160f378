//! A verified session engine for a line-oriented, stateful mail-retrieval
//! protocol (POP3).
//!
//! The crate holds the parts of a POP3 client that can be stated and proved
//! over plain values: classifying and reassembling server replies
//! (single-line and multi-line, with transparency un-escaping), the session
//! stage machine that decides which commands are legal before and after
//! authentication, the command formatter, and the connect/upgrade decision
//! sequence.  The byte stream itself (TCP, and the optional TLS upgrade) is
//! an external collaborator: a caller reads lines and writes the request
//! lines this engine hands out.

pub mod command;
pub mod connect;
pub mod error;
pub mod numbers;
pub mod reply;
pub mod session;
pub mod stage;
pub mod text;
