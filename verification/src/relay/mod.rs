//! The generation relay pipeline.

pub mod connection;
pub mod error;
pub mod event;
pub mod frame;
pub mod pipeline;
pub mod producer;
pub mod prompt;
pub mod render;
pub mod runs;
pub mod transform;
pub mod upstream;
