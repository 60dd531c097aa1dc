//! The provider for the macOS launch manager.

use vstd::prelude::*;
use crate::models::service::{service_views, Service, ServiceStatus, ServiceType, ServiceView};
use crate::services::discovery::traits::{record_view, HostOs, ServiceDiscovery};
use crate::text::chars::{str_chars, string_from_chars, views};
use crate::text::number::{parse_u32, parse_u32_spec};
use crate::text::split::{body_lines, lines, split_lines, split_words, words};

verus! {

/// The record of one line of `launchctl list`: pid or a dash, the last exit
/// status, the label. A job with a pid is running.
pub open spec fn launchd_entry(line: Seq<char>) -> Option<ServiceView> {
    let parts = words(line);
    if parts.len() >= 3 {
        Some(
            ServiceView {
                id: parts[2],
                name: parts[2],
                status: if parse_u32_spec(parts[0]).is_some() {
                    ServiceStatus::Running
                } else {
                    ServiceStatus::Stopped
                },
                service_type: ServiceType::Launchd,
                ports: Seq::<u16>::empty(),
                pid: parse_u32_spec(parts[0]),
                path: None,
                description: None,
                auto_start: true,
                cpu_usage_bits: None,
                memory_bytes: None,
                memory_percent_bits: None,
            },
        )
    } else {
        None
    }
}

/// The records of the lines `ls`, in order.
pub open spec fn launchd_entries(ls: Seq<Seq<char>>) -> Seq<ServiceView>
    decreases ls.len(),
{
    if ls.len() == 0 {
        Seq::<ServiceView>::empty()
    } else {
        let rest = launchd_entries(ls.drop_last());
        match launchd_entry(ls.last()) {
            Some(e) => rest.push(e),
            None => rest,
        }
    }
}

/// The records of a `launchctl list` listing: those of its lines behind the
/// header line.
pub open spec fn launchd_services(text: Seq<char>) -> Seq<ServiceView> {
    launchd_entries(body_lines(lines(text), 1))
}

/// Every record of a listing is a launch manager job that starts by itself,
/// has no ports, and runs exactly if it has a pid.
pub proof fn lemma_launchd_records(ls: Seq<Seq<char>>, i: int)
    requires
        0 <= i < launchd_entries(ls).len(),
    ensures
        launchd_entries(ls)[i].service_type == ServiceType::Launchd,
        launchd_entries(ls)[i].auto_start,
        launchd_entries(ls)[i].ports.len() == 0,
        launchd_entries(ls)[i].id == launchd_entries(ls)[i].name,
        launchd_entries(ls)[i].status.is_running() == launchd_entries(ls)[i].pid.is_some(),
    decreases ls.len(),
{
    if ls.len() > 0 {
        let rest = launchd_entries(ls.drop_last());
        if i < rest.len() {
            lemma_launchd_records(ls.drop_last(), i);
        }
    }
}

/// Reads one line of `launchctl list`.
pub fn read_launchd_line(line: &Vec<char>) -> (r: Option<Service>)
    ensures
        record_view(r) == launchd_entry(line@),
{
    let parts = split_words(line);
    if parts.len() >= 3 {
        assert(views(parts@)[0] == parts[0]@);
        assert(views(parts@)[2] == parts[2]@);
        let pid = parse_u32(&parts[0]);
        let status = if pid.is_some() {
            ServiceStatus::Running
        } else {
            ServiceStatus::Stopped
        };
        Some(
            Service {
                id: string_from_chars(&parts[2]),
                name: string_from_chars(&parts[2]),
                status,
                service_type: ServiceType::Launchd,
                ports: Vec::new(),
                pid,
                path: None,
                description: None,
                auto_start: true,
                cpu_usage_bits: None,
                memory_bytes: None,
                memory_percent_bits: None,
            },
        )
    } else {
        None
    }
}

#[derive(Debug, Clone, Copy)]
pub struct LaunchdDiscovery {}

impl LaunchdDiscovery {
    pub fn new() -> (r: Self) {
        LaunchdDiscovery {  }
    }

    /// The launch manager exists on macOS only.
    pub fn is_available(&self, host: HostOs) -> (r: bool)
        ensures
            r == (host == HostOs::Macos),
    {
        host == HostOs::Macos
    }

    /// The records in the output of `launchctl list`. A line that is no
    /// entry is passed over.
    pub fn discover(&self, output: &str) -> (r: Vec<Service>)
        ensures
            service_views(r@) == launchd_services(output@),
    {
        let chars = str_chars(output);
        let ls = split_lines(&chars);
        let ghost body = body_lines(views(ls@), 1);
        let mut out: Vec<Service> = Vec::new();
        if ls.len() <= 1 {
            assert(service_views(out@) == Seq::<ServiceView>::empty());
            return out;
        }
        let mut i: usize = 1;
        while i < ls.len()
            invariant
                1 <= i <= ls.len(),
                body == views(ls@).skip(1),
                service_views(out@) == launchd_entries(body.take(i - 1)),
            decreases ls.len() - i,
        {
            proof {
                assert(body.take(i - 1 + 1).drop_last() == body.take(i - 1));
                assert(body.take(i - 1 + 1).last() == ls[i as int]@);
            }
            match read_launchd_line(&ls[i]) {
                Some(e) => {
                    let ghost before = service_views(out@);
                    let ghost ev = e@;
                    out.push(e);
                    assert(service_views(out@) == before.push(ev));
                },
                None => {},
            }
            i += 1;
        }
        assert(body.take(ls.len() - 1) == body);
        out
    }
}

impl ServiceDiscovery for LaunchdDiscovery {
    open spec fn name() -> Seq<char> {
        "launchd"@
    }

    fn provider_name(&self) -> (r: &'static str) {
        "launchd"
    }
}

} // verus!
