//! The pipeline: providers, the port table, aggregation, change detection
//! and the security audit.

pub mod discovery;
pub mod manager;
pub mod monitor;
pub mod port;
pub mod security;
pub mod security_scanner;
pub mod system_stats;
pub mod control;
