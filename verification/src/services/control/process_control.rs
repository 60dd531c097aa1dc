//! The controller for plain processes.

use vstd::prelude::*;
use crate::services::control::traits::{ControlAction, ServiceControl};
use crate::text::compose::same_text;
use crate::text::chars::str_chars;
use crate::text::compose::text_pair;
use crate::text::number::{parse_u32, parse_u32_spec};

verus! {

#[derive(Debug, Clone, Copy)]
pub struct ProcessControl {}

/// What a plain process can be asked: to stop and to be killed, nothing else.
pub open spec fn process_refusal(action: ControlAction) -> Option<Seq<char>> {
    match action {
        ControlAction::Start => Some("Cannot start a process - path information required"@),
        ControlAction::Restart => Some("Cannot restart a generic process"@),
        ControlAction::EnableAutostart | ControlAction::DisableAutostart => Some(
            "Autostart wird für allgemeine Prozesse nicht unterstützt. Verwenden Sie die Systemeinstellungen oder einen Service-Manager."@,
        ),
        ControlAction::Stop | ControlAction::Kill => None,
    }
}

impl ProcessControl {
    pub fn new() -> (r: Self) {
        ProcessControl {  }
    }

    /// The pid that a service id names, where it is a number.
    pub fn target_pid(&self, service_id: &str) -> (r: Option<u32>)
        ensures
            r == parse_u32_spec(service_id@),
    {
        parse_u32(&str_chars(service_id))
    }

    /// The message for an action that a plain process cannot be asked.
    pub fn refusal(&self, action: ControlAction) -> (r: Option<&'static str>)
        ensures
            crate::text::compose::static_text(r) == process_refusal(action),
    {
        match action {
            ControlAction::Start => Some("Cannot start a process - path information required"),
            ControlAction::Restart => Some("Cannot restart a generic process"),
            ControlAction::EnableAutostart | ControlAction::DisableAutostart => Some(
                "Autostart wird für allgemeine Prozesse nicht unterstützt. Verwenden Sie die Systemeinstellungen oder einen Service-Manager.",
            ),
            ControlAction::Stop | ControlAction::Kill => None,
        }
    }

    /// The message for a process that is gone.
    pub fn not_found_message(&self, service_id: &str) -> (r: String)
        ensures
            r@ == "Process "@ + service_id@ + " not found"@,
    {
        let head = text_pair("Process ", service_id);
        text_pair(head.as_str(), " not found")
    }
}

impl ServiceControl for ProcessControl {
    open spec fn handled_type() -> Seq<char> {
        "process"@
    }

    open spec fn autostart_supported() -> bool {
        false
    }

    fn can_handle(&self, service_type: &str) -> (r: bool) {
        same_text(service_type, "process")
    }

    fn supports_autostart(&self) -> (r: bool) {
        false
    }
}

} // verus!
