//! The provider for the Linux init system.

use vstd::prelude::*;
use crate::models::service::{service_views, Service, ServiceStatus, ServiceType, ServiceView};
use crate::services::discovery::traits::{record_view, HostOs, ServiceDiscovery};
use crate::text::chars::{chars_eq_str, str_chars, string_from_chars, views};
use crate::text::search::{contains, contains_text, trim_suffixes, without_suffixes};
use crate::text::split::{join_from, joined, lines, split_lines, split_words, words};

verus! {

/// The status that the SUB column of a unit stands for.
pub open spec fn unit_status(sub: Seq<char>) -> ServiceStatus {
    if sub == "running"@ {
        ServiceStatus::Running
    } else if sub == "exited"@ || sub == "dead"@ || sub == "inactive"@ {
        ServiceStatus::Stopped
    } else if sub == "failed"@ {
        ServiceStatus::Error
    } else {
        ServiceStatus::Unknown
    }
}

/// The record of one line of `systemctl list-units`: unit, load state,
/// active state, sub state, and the description in the fields that follow.
/// Only lines that name a service unit have a record.
pub open spec fn systemd_entry(line: Seq<char>) -> Option<ServiceView> {
    let parts = words(line);
    if contains_text(line, ".service"@) && parts.len() >= 4 {
        Some(
            ServiceView {
                id: parts[0],
                name: without_suffixes(parts[0], ".service"@),
                status: unit_status(parts[3]),
                service_type: ServiceType::Systemd,
                ports: Seq::<u16>::empty(),
                pid: None,
                path: None,
                description: Some(joined(parts.skip(4), " "@)),
                auto_start: parts[1] == "enabled"@,
                cpu_usage_bits: None,
                memory_bytes: None,
                memory_percent_bits: None,
            },
        )
    } else {
        None
    }
}

/// The records of the lines `ls`, in order.
pub open spec fn systemd_entries(ls: Seq<Seq<char>>) -> Seq<ServiceView>
    decreases ls.len(),
{
    if ls.len() == 0 {
        Seq::<ServiceView>::empty()
    } else {
        let rest = systemd_entries(ls.drop_last());
        match systemd_entry(ls.last()) {
            Some(e) => rest.push(e),
            None => rest,
        }
    }
}

/// The records of a `systemctl list-units` listing.
pub open spec fn systemd_services(text: Seq<char>) -> Seq<ServiceView> {
    systemd_entries(lines(text))
}

/// Every record of a listing is a unit of the init system without pid and
/// ports, with a description.
pub proof fn lemma_systemd_records(ls: Seq<Seq<char>>, i: int)
    requires
        0 <= i < systemd_entries(ls).len(),
    ensures
        systemd_entries(ls)[i].service_type == ServiceType::Systemd,
        systemd_entries(ls)[i].pid.is_none(),
        systemd_entries(ls)[i].ports.len() == 0,
        systemd_entries(ls)[i].description.is_some(),
    decreases ls.len(),
{
    if ls.len() > 0 {
        let rest = systemd_entries(ls.drop_last());
        if i < rest.len() {
            lemma_systemd_records(ls.drop_last(), i);
        }
    }
}

pub fn read_unit_status(sub: &Vec<char>) -> (r: ServiceStatus)
    ensures
        r == unit_status(sub@),
{
    if chars_eq_str(sub, "running") {
        ServiceStatus::Running
    } else if chars_eq_str(sub, "exited") || chars_eq_str(sub, "dead") || chars_eq_str(
        sub,
        "inactive",
    ) {
        ServiceStatus::Stopped
    } else if chars_eq_str(sub, "failed") {
        ServiceStatus::Error
    } else {
        ServiceStatus::Unknown
    }
}

/// Reads one line of `systemctl list-units`.
pub fn read_systemd_line(line: &Vec<char>) -> (r: Option<Service>)
    ensures
        record_view(r) == systemd_entry(line@),
{
    let suffix = str_chars(".service");
    if !contains(line, &suffix) {
        return None;
    }
    let parts = split_words(line);
    if parts.len() >= 4 {
        assert(views(parts@)[0] == parts[0]@);
        assert(views(parts@)[1] == parts[1]@);
        assert(views(parts@)[3] == parts[3]@);
        let space = str_chars(" ");
        let description = join_from(&parts, 4, &space);
        Some(
            Service {
                id: string_from_chars(&parts[0]),
                name: string_from_chars(&trim_suffixes(&parts[0], &suffix)),
                status: read_unit_status(&parts[3]),
                service_type: ServiceType::Systemd,
                ports: Vec::new(),
                pid: None,
                path: None,
                description: Some(string_from_chars(&description)),
                auto_start: chars_eq_str(&parts[1], "enabled"),
                cpu_usage_bits: None,
                memory_bytes: None,
                memory_percent_bits: None,
            },
        )
    } else {
        None
    }
}

#[derive(Debug, Clone, Copy)]
pub struct SystemdDiscovery {}

impl SystemdDiscovery {
    pub fn new() -> (r: Self) {
        SystemdDiscovery {  }
    }

    /// The init system is available on Linux where `systemctl` can be run.
    pub fn is_available(&self, host: HostOs, systemctl_runs: bool) -> (r: bool)
        ensures
            r == (host == HostOs::Linux && systemctl_runs),
    {
        host == HostOs::Linux && systemctl_runs
    }

    /// The records in the output of
    /// `systemctl list-units --type=service --all --no-pager --plain`. A line
    /// that is no entry is passed over.
    pub fn discover(&self, output: &str) -> (r: Vec<Service>)
        ensures
            service_views(r@) == systemd_services(output@),
    {
        let chars = str_chars(output);
        let ls = split_lines(&chars);
        let ghost all = views(ls@);
        let mut out: Vec<Service> = Vec::new();
        let mut i: usize = 0;
        while i < ls.len()
            invariant
                i <= ls.len(),
                all == views(ls@),
                service_views(out@) == systemd_entries(all.take(i as int)),
            decreases ls.len() - i,
        {
            proof {
                assert(all.take(i + 1).drop_last() == all.take(i as int));
                assert(all.take(i + 1).last() == ls[i as int]@);
            }
            match read_systemd_line(&ls[i]) {
                Some(e) => {
                    let ghost before = service_views(out@);
                    let ghost ev = e@;
                    out.push(e);
                    assert(service_views(out@) == before.push(ev));
                },
                None => {},
            }
            i += 1;
        }
        assert(all.take(ls.len() as int) == all);
        out
    }
}

impl ServiceDiscovery for SystemdDiscovery {
    open spec fn name() -> Seq<char> {
        "systemd"@
    }

    fn provider_name(&self) -> (r: &'static str) {
        "systemd"
    }
}

} // verus!
