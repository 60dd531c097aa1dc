//! The controller for the container runtime.

use vstd::prelude::*;
use crate::services::control::traits::{ServiceControl};
use crate::text::compose::same_text;

verus! {

/// The controller for containers. It works where the runtime could be reached.
#[derive(Debug, Clone, Copy)]
pub struct DockerControl {
    pub connected: bool,
}

/// The seconds that a container gets to stop by itself.
pub const STOP_GRACE_SECS: i32 = 10;

impl DockerControl {
    pub fn new(connected: bool) -> (r: Self)
        ensures
            r.connected == connected,
    {
        DockerControl { connected }
    }

    /// Whether an action can go ahead, or the message that says why not.
    pub fn ready(&self) -> (r: Result<(), &'static str>)
        ensures
            self.connected ==> r.is_ok(),
            !self.connected ==> r.is_err() && r.unwrap_err()@ == "Docker not available"@,
    {
        if self.connected {
            Ok(())
        } else {
            Err("Docker not available")
        }
    }
}

impl ServiceControl for DockerControl {
    open spec fn handled_type() -> Seq<char> {
        "docker"@
    }

    open spec fn autostart_supported() -> bool {
        false
    }

    fn can_handle(&self, service_type: &str) -> (r: bool) {
        same_text(service_type, "docker")
    }

    fn supports_autostart(&self) -> (r: bool) {
        false
    }
}

} // verus!
