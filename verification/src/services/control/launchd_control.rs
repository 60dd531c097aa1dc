//! The controller for the macOS launch manager.

use vstd::prelude::*;
use crate::services::control::traits::{ServiceControl};
use crate::text::compose::same_text;
use crate::text::chars::{str_chars, string_from_chars};
use crate::text::search::{trim, trimmed};
use crate::text::split::extend_chars;

verus! {

#[derive(Debug, Clone, Copy)]
pub struct LaunchdControl {}

impl LaunchdControl {
    pub fn new() -> (r: Self) {
        LaunchdControl {  }
    }
}

impl ServiceControl for LaunchdControl {
    open spec fn handled_type() -> Seq<char> {
        "launchd"@
    }

    open spec fn autostart_supported() -> bool {
        true
    }

    fn can_handle(&self, service_type: &str) -> (r: bool) {
        same_text(service_type, "launchd")
    }

    fn supports_autostart(&self) -> (r: bool) {
        true
    }
}

/// The milliseconds between the stop and the start of a restart.
pub const RESTART_PAUSE_MILLIS: u64 = 500;

/// The target of a job in the domain of the user whose id `id -u` printed.
pub open spec fn user_target(uid_output: Seq<char>, service_id: Seq<char>) -> Seq<char> {
    "gui/"@ + trimmed(uid_output) + "/"@ + service_id
}

/// The places where the property list of a job may lie, in the order in
/// which they are tried.
pub open spec fn plist_candidates(home: Seq<char>, service_id: Seq<char>) -> Seq<Seq<char>> {
    seq![
        "/Library/LaunchAgents/"@ + service_id + ".plist"@,
        home + "/Library/LaunchAgents/"@ + service_id + ".plist"@,
        "/Library/LaunchDaemons/"@ + service_id + ".plist"@,
    ]
}

fn three_parts(a: &str, b: &str, c: &str) -> (r: String)
    ensures
        r@ == a@ + b@ + c@,
{
    let mut out = str_chars(a);
    extend_chars(&mut out, &str_chars(b));
    extend_chars(&mut out, &str_chars(c));
    string_from_chars(&out)
}

/// The target of a job in the domain of the user.
pub fn domain_target(uid_output: &str, service_id: &str) -> (r: String)
    ensures
        r@ == user_target(uid_output@, service_id@),
{
    let mut out = str_chars("gui/");
    let uid = trim(&str_chars(uid_output));
    extend_chars(&mut out, &uid);
    extend_chars(&mut out, &str_chars("/"));
    extend_chars(&mut out, &str_chars(service_id));
    string_from_chars(&out)
}

/// The places where the property list of a job may lie. `home` is the home
/// directory; it is empty where none is known.
pub fn plist_paths(home: &str, service_id: &str) -> (r: Vec<String>)
    ensures
        crate::text::chars::string_views(r@) == plist_candidates(home@, service_id@),
{
    let mut out: Vec<String> = Vec::new();
    out.push(three_parts("/Library/LaunchAgents/", service_id, ".plist"));
    let mut second = str_chars(home);
    extend_chars(&mut second, &str_chars("/Library/LaunchAgents/"));
    extend_chars(&mut second, &str_chars(service_id));
    extend_chars(&mut second, &str_chars(".plist"));
    out.push(string_from_chars(&second));
    out.push(three_parts("/Library/LaunchDaemons/", service_id, ".plist"));
    assert(crate::text::chars::string_views(out@) =~= plist_candidates(home@, service_id@));
    out
}

} // verus!
