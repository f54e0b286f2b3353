//! Core logic of a terminal dashboard for Clash/Mihomo proxy cores:
//! text helpers, configuration editing, command handling and update
//! scheduling, each stated against a mathematical model and proved.

pub mod text;
pub mod clock;
pub mod ui;
pub mod sort;
pub mod yaml;
pub mod state;
pub mod config;
pub mod config_laws;
pub mod repair_laws;
pub mod subscription;
pub mod scheduler;
pub mod updater;
pub mod dashboard;
pub mod instance;
pub mod core_manager;
pub mod view;
pub mod panels;
pub mod args;
pub mod client;
pub mod json;
pub mod context;
pub mod commands;
