//! Bindings for the M2Web API, one module per concern.

pub mod client;
pub mod error;
pub mod ewon;
pub mod json;
pub mod text;
