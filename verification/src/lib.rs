//! Inventory of local source-control working directories: workspace scanning,
//! stack classification, catalog reconciliation and the settings around them.

pub mod models;
pub mod paths;
pub mod text;
pub mod services;
pub mod commands;
