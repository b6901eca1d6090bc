//! The handlers of the application, one module for each group of routes.

pub mod auth;
pub mod chat;
pub mod settings;
