//! A room-based chat relay's per-connection session protocol: the state
//! machine that moves a connection between rooms, the parser for its inbound
//! command frames, and the composition of every request it sends to the
//! shared room registry and every line it renders to its own client.
//!
//! The registry itself — membership bookkeeping and broadcast fan-out — is an
//! external collaborator reached through the request values in [`message`];
//! the transport layer that carries frames and delivers those requests lives
//! outside this crate and makes no decision of its own.

pub mod commands;
pub mod message;
pub mod session;
pub mod text;
