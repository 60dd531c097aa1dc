//! The records that the providers produce and the pipeline passes on, and
//! the settings of the application around it.

pub mod service;
pub mod port;
pub mod config;
pub mod audit;
