//! The controllers: what each can be asked to do, and how its failures read.
//! Running the commands is left to the caller.

pub mod traits;
pub mod docker_control;
pub mod process_control;
pub mod launchd_control;
pub mod systemd_control;
pub mod windows_control;
