//! The ranges that the port commands work on.

use vstd::prelude::*;
use crate::models::port::{port_views, PortInfo};
use crate::services::port::resolver::{free_ports, PortResolver};

verus! {

/// The first port that is offered as free: the ports below need privileges.
pub const FIRST_USER_PORT: u16 = 1024;

/// The last port that is offered as free.
pub const LAST_PORT: u16 = 65535;

/// The host that a port scan probes.
pub fn scan_host() -> (r: &'static str)
    ensures
        r@ == "127.0.0.1"@,
{
    "127.0.0.1"
}

/// The first `count` free ports among the ports that need no privileges.
pub fn find_free_ports(port_usage: &Vec<PortInfo>, count: u16) -> (r: Vec<u16>)
    ensures
        r@ == free_ports(port_views(port_usage@), FIRST_USER_PORT, LAST_PORT, count as nat),
{
    PortResolver::new().find_free_ports(port_usage, FIRST_USER_PORT, LAST_PORT, count as usize)
}

} // verus!
