//! The state-guarded command core of a small application backend: a shared
//! user store behind a read/write lock, the handlers that use it, the routing
//! table that picks a handler by command name, and the error taxonomy that
//! crosses the boundary to callers.

pub mod commands;
pub mod error;
pub mod router;
mod engine;
pub mod state;
pub mod text;
