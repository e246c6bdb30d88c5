pub mod config;
pub mod config_loader;
pub mod session;
pub mod error;
pub mod executor;
pub mod process;
pub mod text;
pub mod tools;
pub mod ui;
