//! The controller for the Windows service control manager.

use vstd::prelude::*;
use crate::services::control::traits::{ServiceControl};
use crate::text::compose::same_text;

verus! {

#[derive(Debug, Clone, Copy)]
pub struct WindowsControl {}

impl WindowsControl {
    pub fn new() -> (r: Self) {
        WindowsControl {  }
    }

    /// What every action answers on a host that is not Windows.
    pub fn unavailable_message() -> (r: &'static str)
        ensures
            r@ == "Windows services not available on this platform"@,
    {
        "Windows services not available on this platform"
    }
}

/// The seconds between the stop and the start of a restart.
pub const RESTART_PAUSE_SECS: u64 = 1;

impl ServiceControl for WindowsControl {
    open spec fn handled_type() -> Seq<char> {
        "windows_service"@
    }

    open spec fn autostart_supported() -> bool {
        false
    }

    fn can_handle(&self, service_type: &str) -> (r: bool) {
        same_text(service_type, "windows_service")
    }

    fn supports_autostart(&self) -> (r: bool) {
        false
    }
}

} // verus!
