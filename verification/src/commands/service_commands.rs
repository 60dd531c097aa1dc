//! Which controller a command goes to, and what it answers where none fits.

use vstd::prelude::*;
use crate::text::compose::static_text;
use crate::models::service::ServiceType;
use crate::services::control::traits::{ControlAction};
use crate::text::compose::same_text;
use crate::services::discovery::traits::HostOs;
use crate::text::compose::text_pair;

verus! {

/// The controllers.
#[derive(Debug, Clone, Copy, PartialEq, Eq, Structural)]
pub enum Controller {
    Docker,
    Launchd,
    Systemd,
    Windows,
    Process,
}

/// The controller that starts, stops or restarts a service of a kind on a
/// host: the container controller on every host, a platform controller on
/// its own platform only, the process controller for stopping only.
pub open spec fn controller_for(action: ControlAction, service_type: ServiceType, host: HostOs)
    -> Option<Controller> {
    match service_type {
        ServiceType::Docker => Some(Controller::Docker),
        ServiceType::Launchd => if host == HostOs::Macos {
            Some(Controller::Launchd)
        } else {
            None
        },
        ServiceType::Systemd => if host == HostOs::Linux {
            Some(Controller::Systemd)
        } else {
            None
        },
        ServiceType::WindowsService => if host == HostOs::Windows {
            Some(Controller::Windows)
        } else {
            None
        },
        ServiceType::Process => if action == ControlAction::Stop {
            Some(Controller::Process)
        } else {
            None
        },
    }
}

/// The controller that switches autostart for the kind of service with
/// this name on a host.
pub open spec fn autostart_controller_for(kind_name: Seq<char>, host: HostOs) -> Option<
    Controller,
> {
    if kind_name == "launchd"@ && host == HostOs::Macos {
        Some(Controller::Launchd)
    } else if kind_name == "systemd"@ && host == HostOs::Linux {
        Some(Controller::Systemd)
    } else if kind_name == "windows_service"@ && host == HostOs::Windows {
        Some(Controller::Windows)
    } else if kind_name == "docker"@ {
        Some(Controller::Docker)
    } else {
        None
    }
}

/// The answer where no controller takes an action. Killing is never
/// refused: it always goes to the process controller.
pub open spec fn refusal_text(action: ControlAction) -> Option<Seq<char>> {
    match action {
        ControlAction::Start => Some("Cannot start this type of service"@),
        ControlAction::Stop => Some("Cannot stop this type of service"@),
        ControlAction::Restart => Some("Cannot restart this type of service"@),
        ControlAction::Kill => None,
        ControlAction::EnableAutostart | ControlAction::DisableAutostart => Some(
            "Autostart wird f端r diesen Service-Typ nicht unterst端tzt"@,
        ),
    }
}

/// The controller for an action on a service of a kind.
pub fn select_controller(action: ControlAction, service_type: ServiceType, host: HostOs) -> (r:
    Option<Controller>)
    ensures
        r == controller_for(action, service_type, host),
{
    match service_type {
        ServiceType::Docker => Some(Controller::Docker),
        ServiceType::Launchd => if host == HostOs::Macos {
            Some(Controller::Launchd)
        } else {
            None
        },
        ServiceType::Systemd => if host == HostOs::Linux {
            Some(Controller::Systemd)
        } else {
            None
        },
        ServiceType::WindowsService => if host == HostOs::Windows {
            Some(Controller::Windows)
        } else {
            None
        },
        ServiceType::Process => if action == ControlAction::Stop {
            Some(Controller::Process)
        } else {
            None
        },
    }
}

/// The controller that switches autostart for a kind of service.
pub fn select_autostart_controller(kind_name: &str, host: HostOs) -> (r: Option<Controller>)
    ensures
        r == autostart_controller_for(kind_name@, host),
{
    if same_text(kind_name, "launchd") && host == HostOs::Macos {
        Some(Controller::Launchd)
    } else if same_text(kind_name, "systemd") && host == HostOs::Linux {
        Some(Controller::Systemd)
    } else if same_text(kind_name, "windows_service") && host == HostOs::Windows {
        Some(Controller::Windows)
    } else if same_text(kind_name, "docker") {
        Some(Controller::Docker)
    } else {
        None
    }
}

/// The answer where no controller takes an action.
pub fn refusal_message(action: ControlAction) -> (r: Option<&'static str>)
    ensures
        static_text(r) == refusal_text(action),
{
    match action {
        ControlAction::Start => Some("Cannot start this type of service"),
        ControlAction::Stop => Some("Cannot stop this type of service"),
        ControlAction::Restart => Some("Cannot restart this type of service"),
        ControlAction::Kill => None,
        ControlAction::EnableAutostart | ControlAction::DisableAutostart => Some(
            "Autostart wird f端r diesen Service-Typ nicht unterst端tzt",
        ),
    }
}

/// The answer for a service that the snapshot does not hold.
pub fn not_found_message(service_id: &str) -> (r: String)
    ensures
        r@ == "Service "@ + service_id@ + " not found"@,
{
    let head = text_pair("Service ", service_id);
    text_pair(head.as_str(), " not found")
}

} // verus!
