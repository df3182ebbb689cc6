//! A single node of a line-delimited JSON message protocol: the typed message
//! model, the initialization handshake and the per-message state transitions.
pub mod ident;
pub mod laws;
pub mod message;
pub mod node;

pub use message::{Body, Message, NodeError, Payload};
pub use node::Node;
