//! What the controllers have in common.

use vstd::prelude::*;
use crate::text::compose::text_pair;

verus! {

/// What a controller can be asked to do to a service.
#[derive(Debug, Clone, Copy, PartialEq, Eq, Structural)]
pub enum ControlAction {
    Start,
    Stop,
    Restart,
    Kill,
    EnableAutostart,
    DisableAutostart,
}

/// A controller of the services of one kind.
pub trait ServiceControl {
    /// The name of the kind of service that the controller handles.
    spec fn handled_type() -> Seq<char>;

    /// Whether the controller says of itself that it can switch autostart.
    spec fn autostart_supported() -> bool;

    /// Whether this controller handles services of the kind with this name.
    fn can_handle(&self, service_type: &str) -> (r: bool)
        ensures
            r == (service_type@ == Self::handled_type()),
    ;

    /// Whether autostart can be switched for this kind of service.
    fn supports_autostart(&self) -> (r: bool)
        ensures
            r == Self::autostart_supported(),
    ;
}

/// How an action is named in the message of its failure.
pub open spec fn action_phrase(action: ControlAction) -> Seq<char> {
    match action {
        ControlAction::Start => "start service"@,
        ControlAction::Stop => "stop service"@,
        ControlAction::Restart => "restart service"@,
        ControlAction::Kill => "kill service"@,
        ControlAction::EnableAutostart => "enable autostart"@,
        ControlAction::DisableAutostart => "disable autostart"@,
    }
}

/// The message for a command that failed: what was tried, and what the
/// command printed on its error stream.
pub open spec fn failure_text(action: ControlAction, stderr: Seq<char>) -> Seq<char> {
    "Failed to "@ + action_phrase(action) + ": "@ + stderr
}

/// How the run of a command ends for the caller.
pub open spec fn command_result(action: ControlAction, success: bool, stderr: Seq<char>) -> Result<
    (),
    Seq<char>,
> {
    if success {
        Ok(())
    } else {
        Err(failure_text(action, stderr))
    }
}

/// What a result with a message says.
pub open spec fn outcome_view(r: Result<(), String>) -> Result<(), Seq<char>> {
    match r {
        Ok(()) => Ok(()),
        Err(e) => Err(e@),
    }
}

/// The outcome of a command: success, or the message of its failure.
pub fn command_outcome(action: ControlAction, success: bool, stderr: &str) -> (r: Result<
    (),
    String,
>)
    ensures
        outcome_view(r) == command_result(action, success, stderr@),
{
    if success {
        Ok(())
    } else {
        let phrase = match action {
            ControlAction::Start => "start service",
            ControlAction::Stop => "stop service",
            ControlAction::Restart => "restart service",
            ControlAction::Kill => "kill service",
            ControlAction::EnableAutostart => "enable autostart",
            ControlAction::DisableAutostart => "disable autostart",
        };
        let head = text_pair("Failed to ", phrase);
        let mid = text_pair(head.as_str(), ": ");
        Err(text_pair(mid.as_str(), stderr))
    }
}

} // verus!
