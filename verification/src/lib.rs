//! A wire-protocol codec for an NSQ-style, length-prefixed, frame-typed
//! messaging protocol.
//!
//! Incoming bytes are turned into discrete protocol frames (responses,
//! heartbeats, error frames, message deliveries) by [`NsqCodec::decode`],
//! and outgoing command values built by [`commands`] are serialized to
//! byte-exact wire commands by [`NsqCodec::encode`].

mod buffer;
mod text;
mod wire;

pub mod codec;
pub mod commands;
pub mod config;
pub mod error;

pub use codec::NsqCodec;
pub use codec::NsqValue;
