//! Typed request/response envelopes and the dispatch of create operations.
pub mod create;
pub mod envelope;

pub use create::{BasicMessage, CreateAction, CreateData, CreateRoutes};
pub use envelope::{EnvelopeError, Message};
