//! The records the inventory is made of.

pub mod cache;
pub mod config;
pub mod export;
pub mod launcher;
pub mod project;
