//! The decisions behind the commands of the application.

pub mod audit_commands;
pub mod llm_commands;
pub mod port_commands;
pub mod service_commands;
