//! The provider for the container runtime.

use vstd::prelude::*;
use crate::models::service::{
    copy_text, service_views, text_of, Service, ServiceStatus, ServiceType, ServiceView,
};
use crate::services::discovery::traits::{no_services, ServiceDiscovery};
use crate::text::case::{lowercase, to_lowercase};
use crate::text::chars::{str_chars, string_from_chars, string_views};
use crate::text::compose::str_contains;
use crate::text::search::{contains_text, trim_leading, without_leading};

verus! {

/// What the runtime reports of one container, as plain values. `state` is
/// the name of the container's state, `restart_policy` the name of its
/// restart policy as the inspection of the container gave it.
#[derive(Debug)]
pub struct ContainerSummary {
    pub id: Option<String>,
    pub names: Option<Vec<String>>,
    pub state: Option<String>,
    pub public_ports: Option<Vec<Option<u16>>>,
    pub image: Option<String>,
    pub status: Option<String>,
    pub restart_policy: Option<String>,
}

pub ghost struct ContainerSummaryView {
    pub id: Option<Seq<char>>,
    pub names: Option<Seq<Seq<char>>>,
    pub state: Option<Seq<char>>,
    pub public_ports: Option<Seq<Option<u16>>>,
    pub image: Option<Seq<char>>,
    pub status: Option<Seq<char>>,
    pub restart_policy: Option<Seq<char>>,
}

impl View for ContainerSummary {
    type V = ContainerSummaryView;

    open spec fn view(&self) -> ContainerSummaryView {
        ContainerSummaryView {
            id: text_of(self.id),
            names: match self.names {
                Some(n) => Some(string_views(n@)),
                None => None,
            },
            state: text_of(self.state),
            public_ports: match self.public_ports {
                Some(p) => Some(p@),
                None => None,
            },
            image: text_of(self.image),
            status: text_of(self.status),
            restart_policy: text_of(self.restart_policy),
        }
    }
}

pub open spec fn container_views(s: Seq<ContainerSummary>) -> Seq<ContainerSummaryView> {
    Seq::new(s.len(), |i: int| s[i]@)
}

/// The status that the lower-case name of a container state stands for.
pub open spec fn lower_state_status(lower: Seq<char>) -> ServiceStatus {
    if contains_text(lower, "running"@) {
        ServiceStatus::Running
    } else if contains_text(lower, "exited"@) || contains_text(lower, "dead"@) {
        ServiceStatus::Stopped
    } else {
        ServiceStatus::Unknown
    }
}

/// The status that the name of a container state stands for, whatever its case.
pub open spec fn state_status(state: Option<Seq<char>>) -> ServiceStatus {
    match state {
        Some(text) => lower_state_status(lowercase(text)),
        None => ServiceStatus::Unknown,
    }
}

/// The id of a container; empty where the runtime gave none.
pub open spec fn container_id(c: ContainerSummaryView) -> Seq<char> {
    match c.id {
        Some(id) => id,
        None => Seq::<char>::empty(),
    }
}

/// The name of a container: its first name without the slashes in front.
pub open spec fn container_name(c: ContainerSummaryView) -> Seq<char> {
    match c.names {
        Some(names) => if names.len() > 0 {
            without_leading(names[0], '/')
        } else {
            "unknown"@
        },
        None => "unknown"@,
    }
}

/// The published ports among the port mappings, in order.
pub open spec fn published(ports: Seq<Option<u16>>) -> Seq<u16>
    decreases ports.len(),
{
    if ports.len() == 0 {
        Seq::<u16>::empty()
    } else {
        let rest = published(ports.drop_last());
        match ports.last() {
            Some(p) => rest.push(p),
            None => rest,
        }
    }
}

pub open spec fn container_ports(c: ContainerSummaryView) -> Seq<u16> {
    match c.public_ports {
        Some(ports) => published(ports),
        None => Seq::<u16>::empty(),
    }
}

/// Whether a restart policy of this lower-case name starts the container
/// by itself.
pub open spec fn lower_policy_restarts(lower: Seq<char>) -> bool {
    contains_text(lower, "always"@) || contains_text(lower, "unless"@)
}

/// Whether a restart policy of this name starts the container by itself,
/// whatever its case.
pub open spec fn policy_restarts(policy: Seq<char>) -> bool {
    lower_policy_restarts(lowercase(policy))
}

/// Whether the container starts by itself: it has an id and a restart
/// policy that says so.
pub open spec fn container_auto_start(c: ContainerSummaryView) -> bool {
    container_id(c).len() > 0 && match c.restart_policy {
        Some(policy) => policy_restarts(policy),
        None => false,
    }
}

/// The record of a container.
pub open spec fn container_record(c: ContainerSummaryView) -> ServiceView {
    ServiceView {
        id: container_id(c),
        name: container_name(c),
        status: state_status(c.state),
        service_type: ServiceType::Docker,
        ports: container_ports(c),
        pid: None,
        path: c.image,
        description: c.status,
        auto_start: container_auto_start(c),
        cpu_usage_bits: None,
        memory_bytes: None,
        memory_percent_bits: None,
    }
}

pub open spec fn container_records(s: Seq<ContainerSummaryView>) -> Seq<ServiceView> {
    Seq::new(s.len(), |i: int| container_record(s[i]))
}

/// The status that the lower-case name of a container state stands for.
pub fn status_of_lower_state(lower: &str) -> (r: ServiceStatus)
    ensures
        r == lower_state_status(lower@),
{
    if str_contains(lower, "running") {
        ServiceStatus::Running
    } else if str_contains(lower, "exited") || str_contains(lower, "dead") {
        ServiceStatus::Stopped
    } else {
        ServiceStatus::Unknown
    }
}

/// The status that the name of a container state stands for.
pub fn status_of_state(state: &Option<String>) -> (r: ServiceStatus)
    ensures
        r == state_status(text_of(*state)),
{
    match state {
        Some(text) => status_of_lower_state(to_lowercase(text.as_str()).as_str()),
        None => ServiceStatus::Unknown,
    }
}

/// Whether a restart policy of this lower-case name starts the container
/// by itself.
pub fn lower_policy_restarts_by_itself(lower: &str) -> (r: bool)
    ensures
        r == lower_policy_restarts(lower@),
{
    str_contains(lower, "always") || str_contains(lower, "unless")
}

/// Whether a restart policy of this name starts the container by itself.
pub fn restarts_by_itself(policy: &str) -> (r: bool)
    ensures
        r == policy_restarts(policy@),
{
    lower_policy_restarts_by_itself(to_lowercase(policy).as_str())
}

/// The published ports among the port mappings.
pub fn published_ports(ports: &Vec<Option<u16>>) -> (r: Vec<u16>)
    ensures
        r@ == published(ports@),
{
    let mut out: Vec<u16> = Vec::new();
    let mut i: usize = 0;
    while i < ports.len()
        invariant
            i <= ports.len(),
            out@ == published(ports@.take(i as int)),
        decreases ports.len() - i,
    {
        proof {
            assert(ports@.take(i + 1).drop_last() == ports@.take(i as int));
        }
        match ports[i] {
            Some(p) => {
                out.push(p);
            },
            None => {},
        }
        i += 1;
    }
    assert(ports@.take(ports.len() as int) == ports@);
    out
}

/// The record of a container.
pub fn service_from_container(c: &ContainerSummary) -> (r: Service)
    ensures
        r@ == container_record(c@),
{
    let id = match &c.id {
        Some(id) => id.clone(),
        None => String::new(),
    };
    let name = match &c.names {
        Some(names) => {
            if names.len() > 0 {
                assert(string_views(names@)[0] == names[0]@);
                string_from_chars(&trim_leading(&str_chars(names[0].as_str()), '/'))
            } else {
                "unknown".to_string()
            }
        },
        None => "unknown".to_string(),
    };
    let ports = match &c.public_ports {
        Some(p) => published_ports(p),
        None => Vec::new(),
    };
    let has_id = str_chars(id.as_str()).len() > 0;
    let auto_start = has_id && match &c.restart_policy {
        Some(policy) => restarts_by_itself(policy.as_str()),
        None => false,
    };
    Service {
        id,
        name,
        status: status_of_state(&c.state),
        service_type: ServiceType::Docker,
        ports,
        pid: None,
        path: copy_text(&c.image),
        description: copy_text(&c.status),
        auto_start,
        cpu_usage_bits: None,
        memory_bytes: None,
        memory_percent_bits: None,
    }
}

/// The container provider. It is available where the runtime could be reached.
#[derive(Debug, Clone, Copy)]
pub struct DockerDiscovery {
    pub connected: bool,
}

impl DockerDiscovery {
    pub fn new(connected: bool) -> (r: Self)
        ensures
            r.connected == connected,
    {
        DockerDiscovery { connected }
    }

    pub fn is_available(&self) -> (r: bool)
        ensures
            r == self.connected,
    {
        self.connected
    }

    /// Whether the restart policy of this container is worth asking for: a
    /// container without an id cannot be inspected.
    pub fn needs_inspection(&self, c: &ContainerSummary) -> (r: bool)
        ensures
            r == (self.connected && container_id(c@).len() > 0),
    {
        self.connected && match &c.id {
            Some(id) => str_chars(id.as_str()).len() > 0,
            None => false,
        }
    }

    /// One record for each container that the runtime listed, running or not,
    /// in the runtime's order; none where the runtime could not be reached.
    pub fn discover(&self, containers: &Vec<ContainerSummary>) -> (r: Vec<Service>)
        ensures
            service_views(r@) == if self.connected {
                container_records(container_views(containers@))
            } else {
                Seq::<ServiceView>::empty()
            },
    {
        if !self.connected {
            return no_services();
        }
        let ghost all = container_views(containers@);
        let mut out: Vec<Service> = Vec::new();
        let mut i: usize = 0;
        while i < containers.len()
            invariant
                i <= containers.len(),
                all == container_views(containers@),
                service_views(out@) == container_records(all).take(i as int),
            decreases containers.len() - i,
        {
            let ghost before = service_views(out@);
            let record = service_from_container(&containers[i]);
            out.push(record);
            assert(service_views(out@) == before.push(container_records(all)[i as int]));
            i += 1;
        }
        assert(container_records(all).take(containers.len() as int) == container_records(all));
        out
    }
}

impl ServiceDiscovery for DockerDiscovery {
    open spec fn name() -> Seq<char> {
        "Docker"@
    }

    fn provider_name(&self) -> (r: &'static str) {
        "Docker"
    }
}

} // verus!
