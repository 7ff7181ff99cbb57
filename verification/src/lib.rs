//! A minimal remote-control wire protocol: a fixed three-byte header followed
//! by a textual payload, decoded into a [`protocol::Request`] and routed by a
//! dispatch table to one of a fixed set of host actions.
//!
//! The crate covers the protocol itself: framing, header-byte decoding,
//! payload keyword parsing, and the request-to-action dispatch rules. The
//! side effects the actions stand for (spawning a process, killing processes,
//! scheduling a host shutdown) are carried out by the surrounding program.

pub mod action;
pub mod codec;
pub mod dispatch;
pub mod protocol;

pub use protocol::ContentType;
pub use protocol::InfoType;
pub use protocol::PayloadType;
pub use protocol::Request;
