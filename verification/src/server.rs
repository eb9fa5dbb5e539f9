//! Server-side logic: output interpretation and request rate limiting.

pub mod inference;
pub mod interpreter;
pub mod middleware;
pub mod model_registry;
pub mod session_store;
