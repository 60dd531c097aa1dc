//! One entry of the host's table of listening ports.

use vstd::prelude::*;
use crate::models::service::{copy_text, text_of};

verus! {

#[derive(Debug, Clone, Copy, PartialEq, Eq, Structural)]
pub enum Protocol {
    Tcp,
    Udp,
}

#[derive(Debug, Clone, Copy, PartialEq, Eq, Structural)]
pub enum PortStatus {
    Occupied,
    Free,
}

#[derive(Debug)]
pub struct PortInfo {
    pub port: u16,
    pub protocol: Protocol,
    pub status: PortStatus,
    pub process_name: Option<String>,
    pub pid: Option<u32>,
}

/// What a port record says, as mathematical values.
pub ghost struct PortInfoView {
    pub port: u16,
    pub protocol: Protocol,
    pub status: PortStatus,
    pub process_name: Option<Seq<char>>,
    pub pid: Option<u32>,
}

impl View for PortInfo {
    type V = PortInfoView;

    open spec fn view(&self) -> PortInfoView {
        PortInfoView {
            port: self.port,
            protocol: self.protocol,
            status: self.status,
            process_name: text_of(self.process_name),
            pid: self.pid,
        }
    }
}

/// What a list of port records says.
pub open spec fn port_views(s: Seq<PortInfo>) -> Seq<PortInfoView> {
    Seq::new(s.len(), |i: int| s[i]@)
}

impl Clone for PortInfo {
    fn clone(&self) -> (r: Self)
        ensures
            r@ == self@,
    {
        PortInfo {
            port: self.port,
            protocol: self.protocol,
            status: self.status,
            process_name: copy_text(&self.process_name),
            pid: self.pid,
        }
    }
}

/// Some entry of the port table has this port.
pub open spec fn lists_port(table: Seq<PortInfoView>, port: u16) -> bool {
    exists|i: int| 0 <= i < table.len() && (#[trigger] table[i]).port == port
}

/// Whether some entry of the port table has this port.
pub fn table_lists_port(table: &Vec<PortInfo>, port: u16) -> (r: bool)
    ensures
        r == lists_port(port_views(table@), port),
{
    let ghost all = port_views(table@);
    let mut i: usize = 0;
    while i < table.len()
        invariant
            i <= table.len(),
            all == port_views(table@),
            forall|k: int| 0 <= k < i ==> (#[trigger] all[k]).port != port,
        decreases table.len() - i,
    {
        if table[i].port == port {
            assert(all[i as int].port == port);
            return true;
        }
        i += 1;
    }
    false
}

/// Whether the list holds this port.
pub fn ports_contain(ports: &Vec<u16>, port: u16) -> (r: bool)
    ensures
        r == ports@.contains(port),
{
    let mut i: usize = 0;
    while i < ports.len()
        invariant
            i <= ports.len(),
            forall|k: int| 0 <= k < i ==> ports@[k] != port,
        decreases ports.len() - i,
    {
        if ports[i] == port {
            return true;
        }
        i += 1;
    }
    false
}

/// The first `n` rows of a port table; all of them where it has fewer.
pub open spec fn rows_before(table: Seq<PortInfoView>, n: nat) -> Seq<PortInfoView> {
    if n <= table.len() {
        table.take(n as int)
    } else {
        table
    }
}

/// Whether one of the first `n` rows of the port table has this port.
pub fn listed_before(table: &Vec<PortInfo>, n: usize, port: u16) -> (r: bool)
    ensures
        r == lists_port(rows_before(port_views(table@), n as nat), port),
{
    let ghost rows = rows_before(port_views(table@), n as nat);
    let upto: usize = if n <= table.len() {
        n
    } else {
        table.len()
    };
    let mut i: usize = 0;
    while i < upto
        invariant
            i <= upto,
            upto == rows.len(),
            upto <= table.len(),
            rows == rows_before(port_views(table@), n as nat),
            forall|k: int| 0 <= k < i ==> (#[trigger] rows[k]).port != port,
        decreases upto - i,
    {
        if table[i].port == port {
            assert(rows[i as int].port == port);
            return true;
        }
        i += 1;
    }
    false
}

} // verus!
