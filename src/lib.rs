//! A single node of a message-driven test harness protocol: the typed
//! envelope and payload model, and the per-message state machine that
//! updates the node's state and builds its reply.

pub mod laws;
pub mod message;
pub mod node;
pub mod payload;

pub use message::{Body, BodyView, Message, MessageView};
pub use node::{EchoNode, NodeView, StepError, Workload};
pub use payload::{Payload, PayloadView};
