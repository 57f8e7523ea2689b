//! A real-time message relay: events from any connection are decoded, planned
//! for storage and fanned out to every registered peer.

pub mod attachment;
pub mod channel;
pub mod codec;
pub mod event;
pub mod json;
pub mod model;
pub mod registry;
pub mod session;
pub mod wire;
