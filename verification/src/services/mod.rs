//! The engine: scanning, classification and the store.

pub mod cache_manager;
pub mod clock;
pub mod launcher_service;
pub mod manifest;
pub mod platform;
pub mod reconciler;
pub mod scanner;
pub mod shortcut_manager;
pub mod stack_rules;
pub mod type_detector;
