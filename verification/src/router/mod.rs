//! What the request handlers decide.

pub mod app;
