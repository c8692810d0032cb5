//! A small real-time control channel: clients send typed text commands that
//! mutate one shared piece of server state (recording on/off, signal
//! amplitude) and receive an acknowledgment or error per message.
//!
//! This crate holds the verified core: the protocol types, the message
//! codec, the command handlers, and the per-connection decision step. The
//! transport plumbing (socket listener, frame I/O) lives outside the
//! verified library and drives [`server::connection_step`] with plain
//! values.

pub mod codec;
pub mod handler;
pub mod message;
pub mod server;
pub mod state;
