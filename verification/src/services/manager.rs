//! The aggregator: merges what the providers report with the port table into
//! one bounded, deduplicated, ranked snapshot.

use vstd::prelude::*;
use crate::models::port::{port_views, PortInfo, PortInfoView};
use crate::models::service::{
    service_views, Service, ServiceStatus, ServiceType, ServiceView,
};
use crate::services::discovery::launchd::{launchd_services, LaunchdDiscovery};
use crate::services::discovery::systemd::{systemd_services, SystemdDiscovery};
use crate::services::discovery::traits::{no_services, HostOs};
use crate::services::discovery::windows_service::{
    json_rows, listing_records, WindowsServiceDiscovery,
};
use crate::services::port::resolver::PortResolver;
use crate::ranking::{
    first_n,
    lemma_ranked_contains,
    lemma_ranked_in_rank_order,
    lemma_ranked_permutes,
    ranked,
    ranked_views,
    stable_sort,
    Ranked,
};
use crate::text::case::{lowercase, to_lowercase};
use crate::text::chars::{str_chars, string_from_chars};
use crate::text::number::{decimal, lemma_decimal_is_injective, push_decimal};
use crate::text::order::{chars_le, lemma_lex_le_total, lemma_lex_le_transitive, lex_le};
use crate::text::compose::text_with_number;
use crate::text::split::{extend_chars, joined};

verus! {

/// The most platform services that enter a snapshot.
pub const PLATFORM_SERVICE_LIMIT: usize = 100;

/// The most records synthesized for processes that no provider reported.
pub const RESIDUAL_LIMIT: usize = 50;

/// The most ports listed in one synthesized record.
pub const RESIDUAL_PORT_LIMIT: usize = 10;

/// The most ports named in the description of one synthesized record.
pub const SUMMARY_PORT_LIMIT: usize = 5;

/// The most records in a snapshot.
pub const SNAPSHOT_LIMIT: usize = 150;

/// The running records of `s`, in order.
pub open spec fn running_only(s: Seq<ServiceView>) -> Seq<ServiceView>
    decreases s.len(),
{
    if s.len() == 0 {
        Seq::<ServiceView>::empty()
    } else {
        let rest = running_only(s.drop_last());
        if s.last().status.is_running() {
            rest.push(s.last())
        } else {
            rest
        }
    }
}

/// The records of `s` that are not running, in order.
pub open spec fn idle_only(s: Seq<ServiceView>) -> Seq<ServiceView>
    decreases s.len(),
{
    if s.len() == 0 {
        Seq::<ServiceView>::empty()
    } else {
        let rest = idle_only(s.drop_last());
        if s.last().status.is_running() {
            rest
        } else {
            rest.push(s.last())
        }
    }
}

/// What a platform provider contributes: its running records first, then the
/// others, each group in the provider's order, cut to the limit.
pub open spec fn capped_platform(s: Seq<ServiceView>) -> Seq<ServiceView> {
    first_n(running_only(s) + idle_only(s), PLATFORM_SERVICE_LIMIT as nat)
}

/// The ports that the port table attributes to `pid`, in table order.
pub open spec fn ports_of(table: Seq<PortInfoView>, pid: u32) -> Seq<u16>
    decreases table.len(),
{
    if table.len() == 0 {
        Seq::<u16>::empty()
    } else {
        let rest = ports_of(table.drop_last(), pid);
        if table.last().pid == Some(pid) {
            rest.push(table.last().port)
        } else {
            rest
        }
    }
}

/// A record with its ports taken from the port table, if its pid is known.
pub open spec fn enriched_one(r: ServiceView, table: Seq<PortInfoView>) -> ServiceView {
    match r.pid {
        Some(pid) => ServiceView { ports: ports_of(table, pid), ..r },
        None => r,
    }
}

/// The records with their ports taken from the port table.
pub open spec fn enriched(s: Seq<ServiceView>, table: Seq<PortInfoView>) -> Seq<ServiceView> {
    Seq::new(s.len(), |i: int| enriched_one(s[i], table))
}

/// Sorts a platform provider's records running first and cuts them to the limit.
pub fn cap_platform_services(services: &Vec<Service>) -> (r: Vec<Service>)
    ensures
        service_views(r@) == capped_platform(service_views(services@)),
        r.len() <= PLATFORM_SERVICE_LIMIT,
{
    let ghost all = service_views(services@);
    let mut out: Vec<Service> = Vec::new();
    let mut i: usize = 0;
    while i < services.len()
        invariant
            i <= services.len(),
            all == service_views(services@),
            service_views(out@) == running_only(all.take(i as int)),
        decreases services.len() - i,
    {
        proof {
            assert(all.take(i + 1).drop_last() == all.take(i as int));
        }
        if services[i].status == ServiceStatus::Running {
            let ghost before = service_views(out@);
            out.push(services[i].clone());
            assert(service_views(out@) == before.push(all[i as int]));
        }
        i += 1;
    }
    assert(all.take(services.len() as int) == all);
    let ghost running = service_views(out@);
    i = 0;
    while i < services.len()
        invariant
            i <= services.len(),
            all == service_views(services@),
            service_views(out@) == running + idle_only(all.take(i as int)),
        decreases services.len() - i,
    {
        proof {
            assert(all.take(i + 1).drop_last() == all.take(i as int));
        }
        if services[i].status != ServiceStatus::Running {
            let ghost before = service_views(out@);
            out.push(services[i].clone());
            assert(service_views(out@) == before.push(all[i as int]));
            assert(before.push(all[i as int]) == running + idle_only(all.take(i as int)).push(
                all[i as int],
            ));
        }
        i += 1;
    }
    let ghost whole = service_views(out@);
    out.truncate(PLATFORM_SERVICE_LIMIT);
    assert(service_views(out@) == first_n(whole, PLATFORM_SERVICE_LIMIT as nat));
    out
}

/// The ports that the port table attributes to `pid`.
pub fn ports_owned_by(table: &Vec<PortInfo>, pid: u32) -> (r: Vec<u16>)
    ensures
        r@ == ports_of(port_views(table@), pid),
{
    let ghost all = port_views(table@);
    let mut out: Vec<u16> = Vec::new();
    let mut i: usize = 0;
    while i < table.len()
        invariant
            i <= table.len(),
            all == port_views(table@),
            out@ == ports_of(all.take(i as int), pid),
        decreases table.len() - i,
    {
        proof {
            assert(all.take(i + 1).drop_last() == all.take(i as int));
        }
        match table[i].pid {
            Some(p) => {
                if p == pid {
                    out.push(table[i].port);
                }
            },
            None => {},
        }
        i += 1;
    }
    assert(all.take(table.len() as int) == all);
    out
}

/// Replaces the ports of every record whose pid is known by the ports that
/// the port table attributes to that pid. What the provider reported for such
/// a record is dropped, not merged; the other fields stay as they are.
pub fn enrich_ports(services: Vec<Service>, table: &Vec<PortInfo>) -> (r: Vec<Service>)
    ensures
        service_views(r@) == enriched(service_views(services@), port_views(table@)),
        r.len() == services.len(),
        forall|i: int|
            0 <= i < r.len() ==> match services[i].pid {
                Some(pid) => (#[trigger] r[i]@).ports == ports_of(port_views(table@), pid),
                None => r[i]@ == services[i]@,
            },
{
    let ghost all = service_views(services@);
    let ghost ports = port_views(table@);
    let mut out: Vec<Service> = Vec::new();
    let ghost mut n: int = 0;
    for s in it: services
        invariant
            n == it.index(),
            it.seq() == services@,
            all == service_views(services@),
            ports == port_views(table@),
            service_views(out@) == enriched(all, ports).take(n),
    {
        let ghost before = service_views(out@);
        let ghost sv = s@;
        let ports_now = match s.pid {
            Some(pid) => ports_owned_by(table, pid),
            None => s.ports,
        };
        let t = Service {
            id: s.id,
            name: s.name,
            status: s.status,
            service_type: s.service_type,
            ports: ports_now,
            pid: s.pid,
            path: s.path,
            description: s.description,
            auto_start: s.auto_start,
            cpu_usage_bits: s.cpu_usage_bits,
            memory_bytes: s.memory_bytes,
            memory_percent_bits: s.memory_percent_bits,
        };
        assert(t@ == enriched_one(sv, ports));
        out.push(t);
        proof {
            assert(service_views(out@) == before.push(enriched_one(all[n], ports)));
            assert(enriched(all, ports).take(n + 1) == enriched(all, ports).take(n).push(
                enriched_one(all[n], ports),
            ));
            n = n + 1;
        }
    }
    assert(enriched(all, ports).take(n) == enriched(all, ports));
    assert forall|i: int| 0 <= i < out.len() implies match services[i].pid {
        Some(pid) => (#[trigger] out[i]@).ports == ports_of(port_views(table@), pid),
        None => out[i]@ == services[i]@,
    } by {
        assert(service_views(out@)[i] == enriched_one(all[i], ports));
    }
    out
}

/// The ports that one process holds, for ranking the processes that no
/// provider reported.
pub struct PortGroup {
    pub pid: u32,
    pub ports: Vec<u16>,
}

/// What a port group says, as mathematical values.
pub ghost struct PortGroupView {
    pub pid: u32,
    pub ports: Seq<u16>,
}

impl View for PortGroup {
    type V = PortGroupView;

    open spec fn view(&self) -> PortGroupView {
        PortGroupView { pid: self.pid, ports: self.ports@ }
    }
}

/// A process with more ports ranks before one with fewer.
impl Ranked for PortGroup {
    open spec fn may_precede(a: PortGroupView, b: PortGroupView) -> bool {
        a.ports.len() >= b.ports.len()
    }

    proof fn lemma_total(a: PortGroupView, b: PortGroupView) {
    }

    proof fn lemma_transitive(a: PortGroupView, b: PortGroupView, c: PortGroupView) {
    }

    fn precedes(&self, other: &Self) -> (r: bool) {
        self.ports.len() >= other.ports.len()
    }
}

/// A record ranks no later than another where it alone is running, or
/// where both are running or both are not and its lower-case name comes no
/// later than the other's.
pub open spec fn ranks_no_later(
    a_running: bool,
    a_lower_name: Seq<char>,
    b_running: bool,
    b_lower_name: Seq<char>,
) -> bool {
    if a_running != b_running {
        a_running
    } else {
        lex_le(a_lower_name, b_lower_name)
    }
}

/// Whether a record ranks no later than another, from their running states
/// and their lower-case names.
pub fn ranks_before(a_running: bool, a_lower_name: &str, b_running: bool, b_lower_name: &str) -> (r:
    bool)
    ensures
        r == ranks_no_later(a_running, a_lower_name@, b_running, b_lower_name@),
{
    if a_running != b_running {
        a_running
    } else {
        let a = str_chars(a_lower_name);
        let b = str_chars(b_lower_name);
        chars_le(&a, &b)
    }
}

/// A running record ranks before one that is not running; within each group
/// the records rank by the lower-case form of their names.
impl Ranked for Service {
    open spec fn may_precede(a: ServiceView, b: ServiceView) -> bool {
        ranks_no_later(
            a.status.is_running(),
            lowercase(a.name),
            b.status.is_running(),
            lowercase(b.name),
        )
    }

    proof fn lemma_total(a: ServiceView, b: ServiceView) {
        lemma_lex_le_total(lowercase(a.name), lowercase(b.name));
    }

    proof fn lemma_transitive(a: ServiceView, b: ServiceView, c: ServiceView) {
        if a.status.is_running() == b.status.is_running() && b.status.is_running()
            == c.status.is_running() {
            lemma_lex_le_transitive(lowercase(a.name), lowercase(b.name), lowercase(c.name));
        }
    }

    fn precedes(&self, other: &Self) -> (r: bool) {
        let mine = to_lowercase(self.name.as_str());
        let theirs = to_lowercase(other.name.as_str());
        ranks_before(
            self.status == ServiceStatus::Running,
            mine.as_str(),
            other.status == ServiceStatus::Running,
            theirs.as_str(),
        )
    }
}

/// Some record of `s` has this pid.
pub open spec fn claims_pid(s: Seq<ServiceView>, pid: u32) -> bool {
    exists|i: int| 0 <= i < s.len() && (#[trigger] s[i]).pid == Some(pid)
}

/// The pids of the port table that no record of `s` has, each once, in the
/// order in which the table first names them.
pub open spec fn unclaimed_pids(table: Seq<PortInfoView>, s: Seq<ServiceView>) -> Seq<u32>
    decreases table.len(),
{
    if table.len() == 0 {
        Seq::<u32>::empty()
    } else {
        let rest = unclaimed_pids(table.drop_last(), s);
        match table.last().pid {
            Some(pid) => if claims_pid(s, pid) || rest.contains(pid) {
                rest
            } else {
                rest.push(pid)
            },
            None => rest,
        }
    }
}

/// The unclaimed pids, each with the ports that the table attributes to it.
pub open spec fn unclaimed_groups(table: Seq<PortInfoView>, s: Seq<ServiceView>) -> Seq<
    PortGroupView,
> {
    let pids = unclaimed_pids(table, s);
    Seq::new(pids.len(), |i: int| PortGroupView { pid: pids[i], ports: ports_of(table, pids[i]) })
}

/// The name under which the port table first lists `pid`, if that entry has one.
pub open spec fn listed_name(table: Seq<PortInfoView>, pid: u32) -> Option<Seq<char>>
    decreases table.len(),
{
    if table.len() == 0 {
        None
    } else if table[0].pid == Some(pid) {
        table[0].process_name
    } else {
        listed_name(table.skip(1), pid)
    }
}

/// The name of a synthesized record: the listed name, or a name made of the pid.
pub open spec fn residual_name(table: Seq<PortInfoView>, pid: u32) -> Seq<char> {
    match listed_name(table, pid) {
        Some(name) => name,
        None => "Process "@ + decimal(pid as nat),
    }
}

/// The decimal forms of the first `n` ports at most.
pub open spec fn port_numbers(ports: Seq<u16>, n: nat) -> Seq<Seq<char>> {
    let shown = first_n(ports, n);
    Seq::new(shown.len(), |i: int| decimal(shown[i] as nat))
}

/// The description of a synthesized record: its one port, or its first ports.
pub open spec fn port_summary(ports: Seq<u16>) -> Seq<char> {
    if ports.len() == 1 {
        "Port "@ + decimal(ports[0] as nat)
    } else {
        "Ports: "@ + joined(port_numbers(ports, SUMMARY_PORT_LIMIT as nat), ", "@)
    }
}

/// The record synthesized for a process that holds ports and that no
/// provider reported.
pub open spec fn pseudo_record(table: Seq<PortInfoView>, group: PortGroupView) -> ServiceView {
    ServiceView {
        id: "process-"@ + decimal(group.pid as nat),
        name: residual_name(table, group.pid),
        status: ServiceStatus::Running,
        service_type: ServiceType::Process,
        ports: first_n(group.ports, RESIDUAL_PORT_LIMIT as nat),
        pid: Some(group.pid),
        path: None,
        description: Some(port_summary(group.ports)),
        auto_start: false,
        cpu_usage_bits: None,
        memory_bytes: None,
        memory_percent_bits: None,
    }
}

/// The unclaimed processes that get a record: those with the most ports, the
/// earlier-listed first among processes with equally many.
pub open spec fn residual_groups(table: Seq<PortInfoView>, s: Seq<ServiceView>) -> Seq<
    PortGroupView,
> {
    first_n(ranked::<PortGroup>(unclaimed_groups(table, s)), RESIDUAL_LIMIT as nat)
}

/// The records synthesized for the port table `table` beside the records `s`.
pub open spec fn residual(table: Seq<PortInfoView>, s: Seq<ServiceView>) -> Seq<ServiceView> {
    let top = residual_groups(table, s);
    Seq::new(top.len(), |i: int| pseudo_record(table, top[i]))
}

/// Whether some record has this pid.
pub fn has_pid(services: &Vec<Service>, pid: u32) -> (r: bool)
    ensures
        r == claims_pid(service_views(services@), pid),
{
    let ghost all = service_views(services@);
    let mut i: usize = 0;
    while i < services.len()
        invariant
            i <= services.len(),
            all == service_views(services@),
            forall|k: int| 0 <= k < i ==> (#[trigger] all[k]).pid != Some(pid),
        decreases services.len() - i,
    {
        match services[i].pid {
            Some(p) => {
                if p == pid {
                    assert(all[i as int].pid == Some(pid));
                    return true;
                }
            },
            None => {},
        }
        i += 1;
    }
    false
}

/// Whether `pid` is in the list.
pub fn lists_pid(pids: &Vec<u32>, pid: u32) -> (r: bool)
    ensures
        r == pids@.contains(pid),
{
    let mut i: usize = 0;
    while i < pids.len()
        invariant
            i <= pids.len(),
            forall|k: int| 0 <= k < i ==> pids@[k] != pid,
        decreases pids.len() - i,
    {
        if pids[i] == pid {
            return true;
        }
        i += 1;
    }
    false
}

/// The unclaimed pids of the port table with their ports.
pub fn group_unclaimed(table: &Vec<PortInfo>, services: &Vec<Service>) -> (r: Vec<PortGroup>)
    ensures
        ranked_views(r@) == unclaimed_groups(port_views(table@), service_views(services@)),
{
    let ghost all = port_views(table@);
    let ghost recs = service_views(services@);
    let mut pids: Vec<u32> = Vec::new();
    let mut i: usize = 0;
    while i < table.len()
        invariant
            i <= table.len(),
            all == port_views(table@),
            recs == service_views(services@),
            pids@ == unclaimed_pids(all.take(i as int), recs),
        decreases table.len() - i,
    {
        proof {
            assert(all.take(i + 1).drop_last() == all.take(i as int));
        }
        match table[i].pid {
            Some(pid) => {
                if !has_pid(services, pid) && !lists_pid(&pids, pid) {
                    pids.push(pid);
                }
            },
            None => {},
        }
        i += 1;
    }
    assert(all.take(table.len() as int) == all);
    let mut groups: Vec<PortGroup> = Vec::new();
    let mut k: usize = 0;
    while k < pids.len()
        invariant
            k <= pids.len(),
            all == port_views(table@),
            recs == service_views(services@),
            pids@ == unclaimed_pids(all, recs),
            ranked_views(groups@) == unclaimed_groups(all, recs).take(k as int),
        decreases pids.len() - k,
    {
        let ghost before = ranked_views(groups@);
        let group = PortGroup { pid: pids[k], ports: ports_owned_by(table, pids[k]) };
        groups.push(group);
        assert(ranked_views(groups@) == before.push(unclaimed_groups(all, recs)[k as int]));
        k += 1;
    }
    assert(unclaimed_groups(all, recs).take(pids.len() as int) == unclaimed_groups(all, recs));
    groups
}

/// The name under which the port table first lists `pid`.
pub fn find_listed_name(table: &Vec<PortInfo>, pid: u32) -> (r: Option<String>)
    ensures
        crate::models::service::text_of(r) == listed_name(port_views(table@), pid),
{
    let ghost all = port_views(table@);
    let mut i: usize = 0;
    assert(all.skip(0) == all);
    while i < table.len()
        invariant
            i <= table.len(),
            all == port_views(table@),
            listed_name(all, pid) == listed_name(all.skip(i as int), pid),
        decreases table.len() - i,
    {
        assert(all.skip(i as int)[0] == all[i as int]);
        assert(all.skip(i as int).skip(1) == all.skip(i + 1));
        match table[i].pid {
            Some(p) => {
                if p == pid {
                    return crate::models::service::copy_text(&table[i].process_name);
                }
            },
            None => {},
        }
        i += 1;
    }
    None
}

/// The description of a synthesized record.
pub fn summarize_ports(ports: &Vec<u16>) -> (r: String)
    ensures
        r@ == port_summary(ports@),
{
    if ports.len() == 1 {
        text_with_number("Port ", ports[0] as u64)
    } else {
        let mut out = str_chars("Ports: ");
        let sep = str_chars(", ");
        let ghost shown = port_numbers(ports@, SUMMARY_PORT_LIMIT as nat);
        let mut i: usize = 0;
        while i < ports.len() && i < SUMMARY_PORT_LIMIT
            invariant
                i <= ports.len(),
                i <= SUMMARY_PORT_LIMIT,
                i <= shown.len(),
                sep@ == ", "@,
                shown == port_numbers(ports@, SUMMARY_PORT_LIMIT as nat),
                out@ == "Ports: "@ + joined(shown.take(i as int), ", "@),
            decreases ports.len() - i,
        {
            proof {
                assert(shown.take(i + 1).drop_last() == shown.take(i as int));
                assert(shown.take(i + 1).last() == decimal(ports@[i as int] as nat));
            }
            let ghost before = out@;
            if i > 0 {
                extend_chars(&mut out, &sep);
            }
            push_decimal(&mut out, ports[i] as u64);
            proof {
                if i > 0 {
                    assert(out@ == "Ports: "@ + (joined(shown.take(i as int), ", "@) + ", "@
                        + decimal(ports@[i as int] as nat)));
                } else {
                    assert(joined(shown.take(0), ", "@) == Seq::<char>::empty());
                    assert(out@ == "Ports: "@ + decimal(ports@[i as int] as nat));
                }
            }
            i += 1;
        }
        assert(shown.take(i as int) == shown);
        string_from_chars(&out)
    }
}

/// The first ports of a process, as many as a synthesized record lists.
pub fn leading_ports(ports: &Vec<u16>) -> (r: Vec<u16>)
    ensures
        r@ == first_n(ports@, RESIDUAL_PORT_LIMIT as nat),
{
    let mut out: Vec<u16> = Vec::new();
    let mut i: usize = 0;
    while i < ports.len() && i < RESIDUAL_PORT_LIMIT
        invariant
            i <= ports.len(),
            i <= RESIDUAL_PORT_LIMIT,
            out@ == ports@.take(i as int),
        decreases ports.len() - i,
    {
        out.push(ports[i]);
        i += 1;
    }
    assert(ports@.take(ports.len() as int) == ports@);
    out
}

/// The record for a process that holds ports and that no provider reported.
pub fn synthesize_record(table: &Vec<PortInfo>, group: &PortGroup) -> (r: Service)
    ensures
        r@ == pseudo_record(port_views(table@), group@),
{
    let name = match find_listed_name(table, group.pid) {
        Some(name) => name,
        None => text_with_number("Process ", group.pid as u64),
    };
    Service {
        id: text_with_number("process-", group.pid as u64),
        name,
        status: ServiceStatus::Running,
        service_type: ServiceType::Process,
        ports: leading_ports(&group.ports),
        pid: Some(group.pid),
        path: None,
        description: Some(summarize_ports(&group.ports)),
        auto_start: false,
        cpu_usage_bits: None,
        memory_bytes: None,
        memory_percent_bits: None,
    }
}

/// Synthesizes records for the processes of the port table that no record of
/// `services` stands for: for the processes with the most ports, up to the limit.
pub fn synthesize_residual(table: &Vec<PortInfo>, services: &Vec<Service>) -> (r: Vec<Service>)
    ensures
        service_views(r@) == residual(port_views(table@), service_views(services@)),
        r.len() <= RESIDUAL_LIMIT,
{
    let ghost all = port_views(table@);
    let ghost recs = service_views(services@);
    let groups = group_unclaimed(table, services);
    let mut top = stable_sort(groups);
    let ghost whole = ranked_views(top@);
    top.truncate(RESIDUAL_LIMIT);
    assert(ranked_views(top@) == first_n(whole, RESIDUAL_LIMIT as nat));
    let mut out: Vec<Service> = Vec::new();
    let mut i: usize = 0;
    while i < top.len()
        invariant
            i <= top.len(),
            all == port_views(table@),
            ranked_views(top@) == residual_groups(all, recs),
            service_views(out@) == residual(all, recs).take(i as int),
        decreases top.len() - i,
    {
        let ghost before = service_views(out@);
        let record = synthesize_record(table, &top[i]);
        assert(top[i as int]@ == ranked_views(top@)[i as int]);
        out.push(record);
        assert(service_views(out@) == before.push(residual(all, recs)[i as int]));
        i += 1;
    }
    assert(residual(all, recs).take(top.len() as int) == residual(all, recs));
    out
}

/// Some record of `s` has this id.
pub open spec fn has_id(s: Seq<ServiceView>, id: Seq<char>) -> bool {
    exists|i: int| 0 <= i < s.len() && (#[trigger] s[i]).id == id
}

/// No two records of `s` share an id.
pub open spec fn ids_unique(s: Seq<ServiceView>) -> bool {
    forall|i: int, j: int|
        0 <= i < j < s.len() ==> (#[trigger] s[i]).id != (#[trigger] s[j]).id
}

/// The records of `s` without those whose id an earlier record has.
pub open spec fn unique_by_id(s: Seq<ServiceView>) -> Seq<ServiceView>
    decreases s.len(),
{
    if s.len() == 0 {
        Seq::<ServiceView>::empty()
    } else {
        let rest = unique_by_id(s.drop_last());
        if has_id(s.drop_last(), s.last().id) {
            rest
        } else {
            rest.push(s.last())
        }
    }
}

/// Deduplication keeps every id that occurs, and no other.
pub proof fn lemma_unique_keeps_ids(s: Seq<ServiceView>, id: Seq<char>)
    ensures
        has_id(unique_by_id(s), id) == has_id(s, id),
    decreases s.len(),
{
    if s.len() > 0 {
        let front = s.drop_last();
        lemma_unique_keeps_ids(front, id);
        lemma_unique_keeps_ids(front, s.last().id);
        let kept = unique_by_id(s);
        if has_id(s, id) {
            let i = choose|i: int| 0 <= i < s.len() && (#[trigger] s[i]).id == id;
            if i < s.len() - 1 {
                assert(front[i].id == id);
                let k = choose|k: int|
                    0 <= k < unique_by_id(front).len() && (#[trigger] unique_by_id(front)[k]).id
                        == id;
                assert(kept[k].id == id);
            } else if has_id(front, id) {
                let k = choose|k: int|
                    0 <= k < unique_by_id(front).len() && (#[trigger] unique_by_id(front)[k]).id
                        == id;
                assert(kept[k].id == id);
            } else {
                assert(kept[kept.len() - 1].id == id);
            }
        }
        if has_id(kept, id) {
            let k = choose|k: int| 0 <= k < kept.len() && (#[trigger] kept[k]).id == id;
            if k < unique_by_id(front).len() {
                assert(unique_by_id(front)[k].id == id);
                let i = choose|i: int| 0 <= i < front.len() && (#[trigger] front[i]).id == id;
                assert(s[i].id == id);
            } else {
                assert(s[s.len() - 1].id == id);
            }
        }
    }
}

/// After deduplication no two records share an id.
pub proof fn lemma_unique_by_id_is_unique(s: Seq<ServiceView>)
    ensures
        ids_unique(unique_by_id(s)),
        unique_by_id(s).len() <= s.len(),
    decreases s.len(),
{
    if s.len() > 0 {
        let front = s.drop_last();
        lemma_unique_by_id_is_unique(front);
        lemma_unique_keeps_ids(front, s.last().id);
        let kept = unique_by_id(s);
        assert forall|i: int, j: int| 0 <= i < j < kept.len() implies (#[trigger] kept[i]).id != (
        #[trigger] kept[j]).id by {
            if j == unique_by_id(front).len() {
                assert(unique_by_id(front)[i] == kept[i]);
            } else {
                assert(unique_by_id(front)[i] == kept[i]);
                assert(unique_by_id(front)[j] == kept[j]);
            }
        }
    }
}

/// Whether some record has this id.
pub fn contains_id(services: &Vec<Service>, id: &String) -> (r: bool)
    ensures
        r == has_id(service_views(services@), id@),
{
    let ghost all = service_views(services@);
    let mut i: usize = 0;
    while i < services.len()
        invariant
            i <= services.len(),
            all == service_views(services@),
            forall|k: int| 0 <= k < i ==> (#[trigger] all[k]).id != id@,
        decreases services.len() - i,
    {
        if services[i].id == *id {
            assert(all[i as int].id == id@);
            return true;
        }
        i += 1;
    }
    false
}

/// Drops every record whose id an earlier record has.
pub fn dedup_by_id(services: Vec<Service>) -> (r: Vec<Service>)
    ensures
        service_views(r@) == unique_by_id(service_views(services@)),
        ids_unique(service_views(r@)),
        r.len() <= services.len(),
{
    let ghost all = service_views(services@);
    let mut out: Vec<Service> = Vec::new();
    let ghost mut n: int = 0;
    for s in it: services
        invariant
            n == it.index(),
            it.seq() == services@,
            all == service_views(services@),
            service_views(out@) == unique_by_id(all.take(n)),
    {
        proof {
            assert(all.take(n + 1).drop_last() == all.take(n));
            assert(all.take(n + 1).last() == s@);
            lemma_unique_keeps_ids(all.take(n), s@.id);
        }
        if !contains_id(&out, &s.id) {
            let ghost before = service_views(out@);
            out.push(s);
            assert(service_views(out@) == before.push(all[n]));
        }
        proof {
            n = n + 1;
        }
    }
    proof {
        assert(all.take(n) == all);
        lemma_unique_by_id_is_unique(all);
    }
    out
}

/// The records that the providers contribute, with their ports enriched:
/// the containers, then the platform services that pass the cap.
pub open spec fn provided(
    table: Seq<PortInfoView>,
    containers: Seq<ServiceView>,
    platform: Seq<ServiceView>,
) -> Seq<ServiceView> {
    enriched(containers + capped_platform(platform), table)
}

/// All records before deduplication: the provided ones, then the synthesized ones.
pub open spec fn merged(
    table: Seq<PortInfoView>,
    containers: Seq<ServiceView>,
    platform: Seq<ServiceView>,
) -> Seq<ServiceView> {
    let given = provided(table, containers, platform);
    given + residual(table, given)
}

/// The snapshot: the merged records without repeated ids, in rank order, cut
/// to the limit.
pub open spec fn aggregated(
    table: Seq<PortInfoView>,
    containers: Seq<ServiceView>,
    platform: Seq<ServiceView>,
) -> Seq<ServiceView> {
    first_n(
        ranked::<Service>(unique_by_id(merged(table, containers, platform))),
        SNAPSHOT_LIMIT as nat,
    )
}

/// The first record of `s` with this id.
pub open spec fn first_with_id(s: Seq<ServiceView>, id: Seq<char>) -> Option<ServiceView>
    decreases s.len(),
{
    if s.len() == 0 {
        None
    } else if s[0].id == id {
        Some(s[0])
    } else {
        first_with_id(s.skip(1), id)
    }
}

/// What an optional record says.
pub open spec fn record_of(s: Option<Service>) -> Option<ServiceView> {
    match s {
        Some(r) => Some(r@),
        None => None,
    }
}

/// What the platform provider of a host contributes from the output of its
/// listing command: nothing where the host has no such provider, where the
/// command could not be run, or where its output is no listing.
pub open spec fn platform_records(host: HostOs, output: Option<Seq<char>>) -> Seq<ServiceView> {
    match output {
        Some(text) => match host {
            HostOs::Macos => launchd_services(text),
            HostOs::Linux => systemd_services(text),
            HostOs::Windows => match json_rows(text) {
                Some(rows) => listing_records(rows),
                None => Seq::<ServiceView>::empty(),
            },
            HostOs::Other => Seq::<ServiceView>::empty(),
        },
        None => Seq::<ServiceView>::empty(),
    }
}

/// Orchestrates one discovery cycle over what the providers and the port
/// tool delivered. The platform provider is the one of the host.
#[derive(Debug, Clone, Copy)]
pub struct ServiceManager {
    pub host: HostOs,
    pub launchd: LaunchdDiscovery,
    pub systemd: SystemdDiscovery,
    pub windows: WindowsServiceDiscovery,
    pub port_resolver: PortResolver,
}

impl ServiceManager {
    /// A manager for a host of this kind.
    pub fn new(host: HostOs) -> (r: Self)
        ensures
            r.host == host,
    {
        ServiceManager {
            host,
            launchd: LaunchdDiscovery::new(),
            systemd: SystemdDiscovery::new(),
            windows: WindowsServiceDiscovery::new(),
            port_resolver: PortResolver::new(),
        }
    }

    /// The records of the host's platform provider for the output of its
    /// listing command; `None` stands for a command that could not be run or
    /// that failed. A provider that fails contributes no record.
    pub fn platform_services(&self, output: Option<&str>) -> (r: Vec<Service>)
        ensures
            service_views(r@) == platform_records(
                self.host,
                match output {
                    Some(text) => Some(text@),
                    None => None,
                },
            ),
    {
        match output {
            Some(text) => match self.host {
                HostOs::Macos => self.launchd.discover(text),
                HostOs::Linux => self.systemd.discover(text),
                HostOs::Windows => match self.windows.discover(text) {
                    Ok(services) => services,
                    Err(_) => no_services(),
                },
                HostOs::Other => no_services(),
            },
            None => no_services(),
        }
    }

    /// Builds the snapshot from the port table, the container provider's
    /// records and the platform provider's records. A provider that failed
    /// or is not available contributes an empty list.
    pub fn discover_all(
        &self,
        port_usage: &Vec<PortInfo>,
        containers: Vec<Service>,
        platform_services: Vec<Service>,
    ) -> (r: Vec<Service>)
        ensures
            service_views(r@) == aggregated(
                port_views(port_usage@),
                service_views(containers@),
                service_views(platform_services@),
            ),
            r.len() <= SNAPSHOT_LIMIT,
    {
        let ghost table = port_views(port_usage@);
        let ghost given_containers = service_views(containers@);
        let ghost given_platform = service_views(platform_services@);
        let mut all = containers;
        let mut capped = cap_platform_services(&platform_services);
        let ghost capped_views = service_views(capped@);
        all.append(&mut capped);
        assert(service_views(all@) == given_containers + capped_views);
        let mut all = enrich_ports(all, port_usage);
        let ghost given = service_views(all@);
        assert(given == provided(table, given_containers, given_platform));
        let mut extra = synthesize_residual(port_usage, &all);
        let ghost extra_views = service_views(extra@);
        all.append(&mut extra);
        assert(service_views(all@) == given + extra_views);
        let unique = dedup_by_id(all);
        let mut sorted = stable_sort(unique);
        let ghost whole = service_views(sorted@);
        assert(whole == ranked_views(sorted@));
        assert(service_views(unique@) == ranked_views(unique@));
        sorted.truncate(SNAPSHOT_LIMIT);
        assert(service_views(sorted@) == first_n(whole, SNAPSHOT_LIMIT as nat));
        sorted
    }

    /// The record with this id in the snapshot built from these inputs. This
    /// runs a whole discovery cycle for one lookup.
    pub fn get_service(
        &self,
        id: &str,
        port_usage: &Vec<PortInfo>,
        containers: Vec<Service>,
        platform_services: Vec<Service>,
    ) -> (r: Option<Service>)
        ensures
            record_of(r) == first_with_id(
                aggregated(
                    port_views(port_usage@),
                    service_views(containers@),
                    service_views(platform_services@),
                ),
                id@,
            ),
    {
        let services = self.discover_all(port_usage, containers, platform_services);
        find_by_id(services, id)
    }
}

/// The first record with this id.
pub fn find_by_id(services: Vec<Service>, id: &str) -> (r: Option<Service>)
    ensures
        record_of(r) == first_with_id(service_views(services@), id@),
{
    let ghost all = service_views(services@);
    let wanted = str_chars(id);
    let ghost mut n: int = 0;
    assert(all.skip(0) == all);
    for s in it: services
        invariant
            n == it.index(),
            it.seq() == services@,
            all == service_views(services@),
            wanted@ == id@,
            first_with_id(all, id@) == first_with_id(all.skip(n), id@),
    {
        proof {
            assert(all.skip(n)[0] == s@);
            assert(all.skip(n).skip(1) == all.skip(n + 1));
        }
        let mine = str_chars(s.id.as_str());
        if crate::text::chars::chars_eq(&mine, &wanted) {
            return Some(s);
        }
        proof {
            n = n + 1;
        }
    }
    None
}

/// Two snapshots built from the same port table and the same provider
/// records are the same snapshot: the same records in the same order, and so
/// the same set of records.
pub proof fn lemma_same_inputs_same_snapshot(
    table: Seq<PortInfoView>,
    containers: Seq<ServiceView>,
    platform: Seq<ServiceView>,
    first: Seq<ServiceView>,
    second: Seq<ServiceView>,
)
    requires
        first == aggregated(table, containers, platform),
        second == aggregated(table, containers, platform),
    ensures
        first == second,
        first.to_multiset() == second.to_multiset(),
{
}

/// Every provided record with a known pid has exactly the ports that the
/// port table attributes to that pid, whatever its provider reported.
pub proof fn lemma_provided_ports_come_from_table(
    table: Seq<PortInfoView>,
    containers: Seq<ServiceView>,
    platform: Seq<ServiceView>,
    i: int,
)
    requires
        0 <= i < provided(table, containers, platform).len(),
    ensures
        match provided(table, containers, platform)[i].pid {
            Some(pid) => provided(table, containers, platform)[i].ports == ports_of(table, pid),
            None => provided(table, containers, platform)[i] == (containers + capped_platform(
                platform,
            ))[i],
        },
{
}

/// At most `RESIDUAL_LIMIT` records are synthesized, and they stand for the
/// unclaimed processes with the most ports: no process that was left out
/// holds more ports than one that was taken.
pub proof fn lemma_residual_takes_the_top(
    table: Seq<PortInfoView>,
    s: Seq<ServiceView>,
    taken: int,
    left_out: PortGroupView,
)
    requires
        0 <= taken < residual_groups(table, s).len(),
        unclaimed_groups(table, s).contains(left_out),
        !residual_groups(table, s).contains(left_out),
    ensures
        residual(table, s).len() <= RESIDUAL_LIMIT,
        residual(table, s).len() == residual_groups(table, s).len(),
        residual_groups(table, s).len() <= unclaimed_groups(table, s).len(),
        unclaimed_groups(table, s).contains(residual_groups(table, s)[taken]),
        residual_groups(table, s)[taken].ports.len() >= left_out.ports.len(),
{
    let all = unclaimed_groups(table, s);
    let order = ranked::<PortGroup>(all);
    let top = residual_groups(table, s);
    lemma_ranked_permutes::<PortGroup>(all);
    lemma_ranked_in_rank_order::<PortGroup>(all);
    lemma_ranked_contains::<PortGroup>(all, left_out);
    lemma_ranked_contains::<PortGroup>(all, top[taken]);
    assert(order[taken] == top[taken]);
    assert(order.contains(order[taken]));
    let k = choose|k: int| 0 <= k < order.len() && order[k] == left_out;
    if k < top.len() {
        assert(top[k] == left_out);
    }
    assert(PortGroup::may_precede(order[taken], order[k]));
}

/// A synthesized record stands for a running process with a pid that no
/// given record has, and lists ten ports at most, each attributed to that
/// pid by the port table.
pub proof fn lemma_residual_records(table: Seq<PortInfoView>, s: Seq<ServiceView>, i: int)
    requires
        0 <= i < residual(table, s).len(),
    ensures
        residual(table, s)[i].status == ServiceStatus::Running,
        residual(table, s)[i].service_type == ServiceType::Process,
        residual(table, s)[i].pid.is_some(),
        !claims_pid(s, residual(table, s)[i].pid.unwrap()),
        residual(table, s)[i].ports.len() <= RESIDUAL_PORT_LIMIT,
        residual(table, s)[i].ports == first_n(
            ports_of(table, residual(table, s)[i].pid.unwrap()),
            RESIDUAL_PORT_LIMIT as nat,
        ),
{
    let all = unclaimed_groups(table, s);
    let top = residual_groups(table, s);
    lemma_ranked_permutes::<PortGroup>(all);
    lemma_ranked_contains::<PortGroup>(all, top[i]);
    assert(ranked::<PortGroup>(all)[i] == top[i]);
    assert(ranked::<PortGroup>(all).contains(top[i]));
    let k = choose|k: int| 0 <= k < all.len() && all[k] == top[i];
    lemma_unclaimed_pids(table, s, k);
}

/// An unclaimed pid is one that no given record has.
pub proof fn lemma_unclaimed_pids(table: Seq<PortInfoView>, s: Seq<ServiceView>, k: int)
    requires
        0 <= k < unclaimed_pids(table, s).len(),
    ensures
        !claims_pid(s, unclaimed_pids(table, s)[k]),
    decreases table.len(),
{
    if table.len() > 0 {
        let rest = unclaimed_pids(table.drop_last(), s);
        if k < rest.len() {
            lemma_unclaimed_pids(table.drop_last(), s, k);
        }
    }
}

/// The list of unclaimed pids names no pid twice.
pub proof fn lemma_unclaimed_pids_are_distinct(table: Seq<PortInfoView>, s: Seq<ServiceView>)
    ensures
        unclaimed_pids(table, s).no_duplicates(),
    decreases table.len(),
{
    if table.len() > 0 {
        lemma_unclaimed_pids_are_distinct(table.drop_last(), s);
    }
}

/// No two synthesized records stand for the same process, and no two share
/// an id.
pub proof fn lemma_residual_ids_unique(table: Seq<PortInfoView>, s: Seq<ServiceView>)
    ensures
        ids_unique(residual(table, s)),
        forall|i: int, j: int|
            0 <= i < j < residual(table, s).len() ==> (#[trigger] residual(table, s)[i]).pid != (
            #[trigger] residual(table, s)[j]).pid,
{
    let pids = unclaimed_pids(table, s);
    let all = unclaimed_groups(table, s);
    let order = ranked::<PortGroup>(all);
    let top = residual_groups(table, s);
    let records = residual(table, s);
    lemma_unclaimed_pids_are_distinct(table, s);
    lemma_ranked_permutes::<PortGroup>(all);
    assert(all.no_duplicates()) by {
        assert forall|i: int, j: int| 0 <= i < all.len() && 0 <= j < all.len() && i != j implies all[i]
            != all[j] by {
            assert(all[i].pid == pids[i] && all[j].pid == pids[j]);
        }
    }
    all.lemma_multiset_has_no_duplicates();
    order.lemma_multiset_has_no_duplicates_conv();
    assert forall|i: int, j: int| 0 <= i < j < records.len() implies (#[trigger] records[i]).pid != (
    #[trigger] records[j]).pid && records[i].id != records[j].id by {
        assert(top[i] == order[i] && top[j] == order[j]);
        assert(order[i] != order[j]);
        lemma_ranked_contains::<PortGroup>(all, order[i]);
        lemma_ranked_contains::<PortGroup>(all, order[j]);
        assert(order.contains(order[i]));
        assert(order.contains(order[j]));
        let k = choose|k: int| 0 <= k < all.len() && all[k] == order[i];
        let m = choose|m: int| 0 <= m < all.len() && all[m] == order[j];
        assert(all[k].pid == pids[k] && all[m].pid == pids[m]);
        assert(k != m);
        assert(pids[k] != pids[m]);
        let a = decimal(top[i].pid as nat);
        let b = decimal(top[j].pid as nat);
        lemma_decimal_is_injective(top[i].pid as nat, top[j].pid as nat);
        if records[i].id == records[j].id {
            assert(("process-"@ + a).subrange("process-"@.len() as int, ("process-"@ + a).len() as int)
                =~= a);
            assert(("process-"@ + b).subrange("process-"@.len() as int, ("process-"@ + b).len() as int)
                =~= b);
        }
    }
}

/// The number of synthesized records: all unclaimed processes, or the limit.
pub proof fn lemma_residual_len(table: Seq<PortInfoView>, s: Seq<ServiceView>)
    ensures
        residual(table, s).len() == if unclaimed_pids(table, s).len() <= RESIDUAL_LIMIT {
            unclaimed_pids(table, s).len()
        } else {
            RESIDUAL_LIMIT as nat
        },
{
    lemma_ranked_permutes::<PortGroup>(unclaimed_groups(table, s));
}

/// A snapshot holds at most `SNAPSHOT_LIMIT` records, and exactly that many
/// where more distinct ids were merged.
pub proof fn lemma_snapshot_is_capped(
    table: Seq<PortInfoView>,
    containers: Seq<ServiceView>,
    platform: Seq<ServiceView>,
)
    ensures
        aggregated(table, containers, platform).len() <= SNAPSHOT_LIMIT,
        unique_by_id(merged(table, containers, platform)).len() > SNAPSHOT_LIMIT ==> aggregated(
            table,
            containers,
            platform,
        ).len() == SNAPSHOT_LIMIT,
        unique_by_id(merged(table, containers, platform)).len() <= SNAPSHOT_LIMIT ==> aggregated(
            table,
            containers,
            platform,
        ).len() == unique_by_id(merged(table, containers, platform)).len(),
{
    lemma_ranked_permutes::<Service>(unique_by_id(merged(table, containers, platform)));
}

/// In a snapshot, of two neighbours either the first is running and the
/// second is not, or both are running or both are not and the lower-case name
/// of the first comes no later than that of the second.
pub proof fn lemma_snapshot_order(
    table: Seq<PortInfoView>,
    containers: Seq<ServiceView>,
    platform: Seq<ServiceView>,
    i: int,
)
    requires
        0 <= i,
        i + 1 < aggregated(table, containers, platform).len(),
    ensures
        ({
            let a = aggregated(table, containers, platform)[i];
            let b = aggregated(table, containers, platform)[i + 1];
            (a.status.is_running() && !b.status.is_running()) || (a.status.is_running()
                == b.status.is_running() && lex_le(lowercase(a.name), lowercase(b.name)))
        }),
{
    let whole = ranked::<Service>(unique_by_id(merged(table, containers, platform)));
    lemma_ranked_in_rank_order::<Service>(unique_by_id(merged(table, containers, platform)));
    assert(aggregated(table, containers, platform)[i] == whole[i]);
    assert(aggregated(table, containers, platform)[i + 1] == whole[i + 1]);
    assert(Service::may_precede(whole[i], whole[i + 1]));
}

/// No two records of a snapshot share an id.
pub proof fn lemma_snapshot_ids_unique(
    table: Seq<PortInfoView>,
    containers: Seq<ServiceView>,
    platform: Seq<ServiceView>,
)
    ensures
        ids_unique(aggregated(table, containers, platform)),
{
    let unique = unique_by_id(merged(table, containers, platform));
    let whole = ranked::<Service>(unique);
    let snap = aggregated(table, containers, platform);
    lemma_unique_by_id_is_unique(merged(table, containers, platform));
    lemma_ranked_permutes::<Service>(unique);
    assert(unique.no_duplicates()) by {
        assert forall|i: int, j: int|
            0 <= i < unique.len() && 0 <= j < unique.len() && i != j implies unique[i]
            != unique[j] by {
            if i < j {
                assert(unique[i].id != unique[j].id);
            } else {
                assert(unique[j].id != unique[i].id);
            }
        }
    }
    unique.lemma_multiset_has_no_duplicates();
    whole.lemma_multiset_has_no_duplicates_conv();
    assert forall|i: int, j: int| 0 <= i < j < snap.len() implies (#[trigger] snap[i]).id != (
    #[trigger] snap[j]).id by {
        assert(snap[i] == whole[i] && snap[j] == whole[j]);
        assert(whole[i] != whole[j]);
        lemma_ranked_contains::<Service>(unique, whole[i]);
        lemma_ranked_contains::<Service>(unique, whole[j]);
        assert(whole.contains(whole[i]));
        assert(whole.contains(whole[j]));
        let k = choose|k: int| 0 <= k < unique.len() && unique[k] == whole[i];
        let m = choose|m: int| 0 <= m < unique.len() && unique[m] == whole[j];
        if k < m {
            assert(unique[k].id != unique[m].id);
        } else {
            assert(unique[m].id != unique[k].id);
        }
    }
}

} // verus!
