//! The providers: each turns what one source reports into service records.

pub mod traits;
pub mod docker;
pub mod process;
pub mod launchd;
pub mod systemd;
pub mod windows_service;
