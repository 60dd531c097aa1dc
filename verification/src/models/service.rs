//! One running or installed thing on the host, whatever reported it.

use vstd::prelude::*;

verus! {

#[derive(Debug, Clone, Copy, PartialEq, Eq, Structural)]
pub enum ServiceStatus {
    Running,
    Stopped,
    Error,
    Unknown,
}

#[derive(Debug, Clone, Copy, PartialEq, Eq, Structural)]
pub enum ServiceType {
    Docker,
    Systemd,
    Launchd,
    WindowsService,
    Process,
}

/// A service record. The two percentages are carried as the bit patterns of
/// single-precision numbers: nothing here computes with them.
#[derive(Debug)]
pub struct Service {
    pub id: String,
    pub name: String,
    pub status: ServiceStatus,
    pub service_type: ServiceType,
    pub ports: Vec<u16>,
    pub pid: Option<u32>,
    pub path: Option<String>,
    pub description: Option<String>,
    pub auto_start: bool,
    pub cpu_usage_bits: Option<u32>,
    pub memory_bytes: Option<u64>,
    pub memory_percent_bits: Option<u32>,
}

/// What a service record says, as mathematical values.
pub ghost struct ServiceView {
    pub id: Seq<char>,
    pub name: Seq<char>,
    pub status: ServiceStatus,
    pub service_type: ServiceType,
    pub ports: Seq<u16>,
    pub pid: Option<u32>,
    pub path: Option<Seq<char>>,
    pub description: Option<Seq<char>>,
    pub auto_start: bool,
    pub cpu_usage_bits: Option<u32>,
    pub memory_bytes: Option<u64>,
    pub memory_percent_bits: Option<u32>,
}

/// The text of an optional string.
pub open spec fn text_of(s: Option<String>) -> Option<Seq<char>> {
    match s {
        Some(t) => Some(t@),
        None => None,
    }
}

impl View for Service {
    type V = ServiceView;

    open spec fn view(&self) -> ServiceView {
        ServiceView {
            id: self.id@,
            name: self.name@,
            status: self.status,
            service_type: self.service_type,
            ports: self.ports@,
            pid: self.pid,
            path: text_of(self.path),
            description: text_of(self.description),
            auto_start: self.auto_start,
            cpu_usage_bits: self.cpu_usage_bits,
            memory_bytes: self.memory_bytes,
            memory_percent_bits: self.memory_percent_bits,
        }
    }
}

/// What a list of service records says.
pub open spec fn service_views(s: Seq<Service>) -> Seq<ServiceView> {
    Seq::new(s.len(), |i: int| s[i]@)
}

/// A copy of an optional string.
pub fn copy_text(s: &Option<String>) -> (r: Option<String>)
    ensures
        text_of(r) == text_of(*s),
{
    match s {
        Some(t) => Some(t.clone()),
        None => None,
    }
}

/// A copy of a list of ports.
pub fn copy_ports(ports: &Vec<u16>) -> (r: Vec<u16>)
    ensures
        r@ == ports@,
{
    let mut r: Vec<u16> = Vec::new();
    let mut i: usize = 0;
    while i < ports.len()
        invariant
            i <= ports.len(),
            r@ == ports@.take(i as int),
        decreases ports.len() - i,
    {
        r.push(ports[i]);
        i += 1;
    }
    r
}

impl Clone for Service {
    fn clone(&self) -> (r: Self)
        ensures
            r@ == self@,
    {
        Service {
            id: self.id.clone(),
            name: self.name.clone(),
            status: self.status,
            service_type: self.service_type,
            ports: copy_ports(&self.ports),
            pid: self.pid,
            path: copy_text(&self.path),
            description: copy_text(&self.description),
            auto_start: self.auto_start,
            cpu_usage_bits: self.cpu_usage_bits,
            memory_bytes: self.memory_bytes,
            memory_percent_bits: self.memory_percent_bits,
        }
    }
}

/// The name of a status, as change events carry it.
pub open spec fn status_label(status: ServiceStatus) -> Seq<char> {
    match status {
        ServiceStatus::Running => "Running"@,
        ServiceStatus::Stopped => "Stopped"@,
        ServiceStatus::Error => "Error"@,
        ServiceStatus::Unknown => "Unknown"@,
    }
}

impl ServiceStatus {
    pub open spec fn is_running(self) -> bool {
        self == ServiceStatus::Running
    }

    /// The name of this status.
    pub fn label(&self) -> (r: String)
        ensures
            r@ == status_label(*self),
    {
        match self {
            ServiceStatus::Running => "Running".to_string(),
            ServiceStatus::Stopped => "Stopped".to_string(),
            ServiceStatus::Error => "Error".to_string(),
            ServiceStatus::Unknown => "Unknown".to_string(),
        }
    }
}

/// Different statuses have different names.
pub proof fn lemma_status_labels_differ(a: ServiceStatus, b: ServiceStatus)
    ensures
        (status_label(a) == status_label(b)) == (a == b),
{
    reveal_strlit("Running");
    reveal_strlit("Stopped");
    reveal_strlit("Error");
    reveal_strlit("Unknown");
    if a != b {
        assert(status_label(a).len() != status_label(b).len() || status_label(a)[0]
            != status_label(b)[0]);
    }
}

} // verus!
