//! In-memory state and request decisions for a small user/post backend.
pub mod logline;
pub mod models;
pub mod state;
pub mod reply;
