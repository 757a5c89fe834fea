//! A typed publish/subscribe client over a handle-based message bus.
//!
//! The bus itself is driven by the embedding program; this library holds the
//! decisions around it: how a message type is named and encoded, when a
//! topic is created, sent on, received from or torn down, and how raw
//! receive events become typed values.

pub mod error;
pub mod format;
pub mod message;
pub mod msgpack;
pub mod process;
pub mod callback;
pub mod pubsub;
