//! An HTTP proxy front end for a SOCKS5 relay.
//!
//! A client that speaks the HTTP proxy conventions, plain requests and
//! `CONNECT` tunnels, is served through a SOCKS5 relay.  This crate holds
//! the protocol logic of one such connection: the encoding of the SOCKS5
//! CONNECT command, the inspection of the request head, and the state
//! machine that orders the exchange.  It performs no I/O; a driver carries
//! out the actions that the state machine asks for and reports what
//! happened.

pub mod bridge;
pub mod error;
pub mod head;
pub mod request;
pub mod socks5;
pub mod text;
