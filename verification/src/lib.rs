//! Relay of streamed text generation to a browser client.
//!
//! An upstream provider sends text in pieces. The producer forwards each piece
//! as a [`relay::event::GenerationEvent`] through a bounded channel. The relay
//! transform turns the events into display fragments for the client and asks
//! for the finished text to be stored once. Every decision of that pipeline is
//! a function from a state and an input to the next state and an action, so
//! that the caller does the waiting and the sending.
//!
//! - [`relay`]: the pipeline, from the provider's lines to the store append,
//!   with what holds of every run.
//! - [`model`]: the records and errors of the application.
//! - [`project_middleware`], [`middleware`]: who the caller is and whether a
//!   request may pass.
//! - [`router`]: what the request handlers decide.

pub mod middleware;
pub mod model;
pub mod project_middleware;
pub mod relay;
pub mod router;
