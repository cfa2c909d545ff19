//! What the application asks of the engine.

pub mod export;
pub mod launcher;
pub mod project;
