//! The controller for the Linux init system.

use vstd::prelude::*;
use crate::services::control::traits::{ServiceControl};
use crate::text::compose::same_text;

verus! {

#[derive(Debug, Clone, Copy)]
pub struct SystemdControl {}

impl SystemdControl {
    pub fn new() -> (r: Self) {
        SystemdControl {  }
    }
}

impl ServiceControl for SystemdControl {
    open spec fn handled_type() -> Seq<char> {
        "systemd"@
    }

    open spec fn autostart_supported() -> bool {
        false
    }

    fn can_handle(&self, service_type: &str) -> (r: bool) {
        same_text(service_type, "systemd")
    }

    fn supports_autostart(&self) -> (r: bool) {
        false
    }
}

} // verus!
