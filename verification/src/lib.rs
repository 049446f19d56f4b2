pub mod common;
pub mod config;
pub mod naming;
pub mod sweep;
pub mod utils;
pub mod scheduler;
pub mod service;
