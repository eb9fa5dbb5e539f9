//! Verified core logic of CoreML Studio: model-output interpretation, model
//! version grouping, rate limiting, session helpers, export rendering and the
//! decisions behind the user interface.

pub mod app;
pub mod bridge;
pub mod components;
pub mod json;
pub mod server;
pub mod text;
pub mod types;
