//! The change monitor: compares each new snapshot with the one before and
//! says what changed.

use vstd::prelude::*;
use core::time::Duration;
use crate::clock::span_of_secs;
use crate::models::service::{
    copy_ports, service_views, status_label, Service, ServiceView,
};
use crate::services::manager::{first_with_id, has_id, ids_unique};
use crate::models::port::ports_contain;

verus! {

/// What the monitor reports.
#[derive(Debug)]
pub enum ServiceEvent {
    /// The first snapshot, whole.
    ServicesDiscovered(Vec<Service>),
    /// A service has another status than in the snapshot before.
    ServiceStatusChanged { service_id: String, old_status: String, new_status: String },
    /// A service that the snapshot before did not hold.
    ServiceAdded(Service),
    /// A service of the snapshot before that is gone.
    ServiceRemoved { service_id: String },
    /// A service has other ports than in the snapshot before.
    ServicePortsChanged { service_id: String, ports: Vec<u16> },
}

/// What an event says, as mathematical values.
pub ghost enum ServiceEventView {
    ServicesDiscovered(Seq<ServiceView>),
    ServiceStatusChanged { service_id: Seq<char>, old_status: Seq<char>, new_status: Seq<char> },
    ServiceAdded(ServiceView),
    ServiceRemoved { service_id: Seq<char> },
    ServicePortsChanged { service_id: Seq<char>, ports: Seq<u16> },
}

impl View for ServiceEvent {
    type V = ServiceEventView;

    open spec fn view(&self) -> ServiceEventView {
        match self {
            ServiceEvent::ServicesDiscovered(all) => ServiceEventView::ServicesDiscovered(
                service_views(all@),
            ),
            ServiceEvent::ServiceStatusChanged { service_id, old_status, new_status } => {
                ServiceEventView::ServiceStatusChanged {
                    service_id: service_id@,
                    old_status: old_status@,
                    new_status: new_status@,
                }
            },
            ServiceEvent::ServiceAdded(s) => ServiceEventView::ServiceAdded(s@),
            ServiceEvent::ServiceRemoved { service_id } => ServiceEventView::ServiceRemoved {
                service_id: service_id@,
            },
            ServiceEvent::ServicePortsChanged { service_id, ports } => {
                ServiceEventView::ServicePortsChanged { service_id: service_id@, ports: ports@ }
            },
        }
    }
}

/// What a list of events says.
pub open spec fn event_views(s: Seq<ServiceEvent>) -> Seq<ServiceEventView> {
    Seq::new(s.len(), |i: int| s[i]@)
}

/// How often the monitor polls, and whether it reports at all.
#[derive(Debug, Clone, Copy)]
pub struct MonitorConfig {
    pub check_interval: Duration,
    pub enabled: bool,
}

impl Default for MonitorConfig {
    fn default() -> (r: Self)
        ensures
            r.check_interval == span_of_secs(5),
            r.enabled,
    {
        MonitorConfig { check_interval: Duration::from_secs(5), enabled: true }
    }
}

/// Sets the interval between polls to this many seconds. The loop sees the
/// change when it next reads the configuration.
pub fn set_monitor_interval(config: &mut MonitorConfig, seconds: u64)
    ensures
        final(config).check_interval == span_of_secs(seconds),
        final(config).enabled == old(config).enabled,
{
    config.check_interval = Duration::from_secs(seconds);
}

/// Switches reporting on or off.
pub fn enable_monitor(config: &mut MonitorConfig, enabled: bool)
    ensures
        final(config).enabled == enabled,
        final(config).check_interval == old(config).check_interval,
{
    config.enabled = enabled;
}

/// What the polling loop does in one iteration, and how long it sleeps after.
#[derive(Debug, Clone, Copy)]
pub enum MonitorStep {
    /// Take a snapshot, hand it to `tick` and publish the events.
    Poll { sleep: Duration },
    /// Reporting is switched off: only sleep.
    Idle { sleep: Duration },
}

/// What one iteration does under a configuration: it polls where reporting
/// is switched on, and sleeps for the configured interval either way.
pub open spec fn planned_step(config: MonitorConfig) -> MonitorStep {
    if config.enabled {
        MonitorStep::Poll { sleep: config.check_interval }
    } else {
        MonitorStep::Idle { sleep: config.check_interval }
    }
}

/// The status event for a record that the snapshot before held as `old`.
pub open spec fn status_change(old: ServiceView, now: ServiceView) -> Seq<ServiceEventView> {
    if old.status != now.status {
        seq![
            ServiceEventView::ServiceStatusChanged {
                service_id: now.id,
                old_status: status_label(old.status),
                new_status: status_label(now.status),
            },
        ]
    } else {
        Seq::<ServiceEventView>::empty()
    }
}

/// The ports event for a record that the snapshot before held as `old`:
/// one event where the two records do not hold the same set of ports. The
/// order in which a record lists its ports, and how often it lists one, make
/// no difference.
pub open spec fn ports_change(old: ServiceView, now: ServiceView) -> Seq<ServiceEventView> {
    if old.ports.to_set() != now.ports.to_set() {
        seq![ServiceEventView::ServicePortsChanged { service_id: now.id, ports: now.ports }]
    } else {
        Seq::<ServiceEventView>::empty()
    }
}

/// The events for one record of the new snapshot: a status event and a ports
/// event, each if its field changed, for a record that the baseline holds;
/// one event for a record that it does not hold.
pub open spec fn record_events(baseline: Seq<ServiceView>, now: ServiceView) -> Seq<
    ServiceEventView,
> {
    match first_with_id(baseline, now.id) {
        Some(old) => status_change(old, now) + ports_change(old, now),
        None => seq![ServiceEventView::ServiceAdded(now)],
    }
}

/// The events for the records of the new snapshot, in its order.
pub open spec fn change_events(baseline: Seq<ServiceView>, current: Seq<ServiceView>) -> Seq<
    ServiceEventView,
>
    decreases current.len(),
{
    if current.len() == 0 {
        Seq::<ServiceEventView>::empty()
    } else {
        change_events(baseline, current.drop_last()) + record_events(baseline, current.last())
    }
}

/// One event for each record of the baseline whose id the new snapshot lacks,
/// in the baseline's order.
pub open spec fn removal_events(baseline: Seq<ServiceView>, current: Seq<ServiceView>) -> Seq<
    ServiceEventView,
>
    decreases baseline.len(),
{
    if baseline.len() == 0 {
        Seq::<ServiceEventView>::empty()
    } else {
        let rest = removal_events(baseline.drop_last(), current);
        if has_id(current, baseline.last().id) {
            rest
        } else {
            rest.push(ServiceEventView::ServiceRemoved { service_id: baseline.last().id })
        }
    }
}

/// The events of one tick. With an empty baseline the whole snapshot is
/// reported at once and nothing is compared.
pub open spec fn tick_events(baseline: Seq<ServiceView>, current: Seq<ServiceView>) -> Seq<
    ServiceEventView,
> {
    if baseline.len() == 0 {
        seq![ServiceEventView::ServicesDiscovered(current)]
    } else {
        change_events(baseline, current) + removal_events(baseline, current)
    }
}

/// Where the first record with this id stands.
pub fn position_of_id(services: &Vec<Service>, id: &String) -> (r: Option<usize>)
    ensures
        match r {
            Some(i) => i < services.len() && first_with_id(service_views(services@), id@) == Some(
                services[i as int]@,
            ) && has_id(service_views(services@), id@),
            None => first_with_id(service_views(services@), id@).is_none() && !has_id(
                service_views(services@),
                id@,
            ),
        },
{
    let ghost all = service_views(services@);
    let mut i: usize = 0;
    assert(all.skip(0) == all);
    while i < services.len()
        invariant
            i <= services.len(),
            all == service_views(services@),
            first_with_id(all, id@) == first_with_id(all.skip(i as int), id@),
            forall|k: int| 0 <= k < i ==> (#[trigger] all[k]).id != id@,
        decreases services.len() - i,
    {
        assert(all.skip(i as int)[0] == all[i as int]);
        assert(all.skip(i as int).skip(1) == all.skip(i + 1));
        if services[i].id == *id {
            assert(all[i as int].id == id@);
            return Some(i);
        }
        i += 1;
    }
    assert(all.skip(services.len() as int).len() == 0);
    None
}

/// Whether every port of `a` is a port of `b`.
pub fn ports_within(a: &Vec<u16>, b: &Vec<u16>) -> (r: bool)
    ensures
        r == a@.to_set().subset_of(b@.to_set()),
{
    let mut i: usize = 0;
    while i < a.len()
        invariant
            i <= a.len(),
            forall|k: int| 0 <= k < i ==> b@.contains(#[trigger] a@[k]),
        decreases a.len() - i,
    {
        if !ports_contain(b, a[i]) {
            assert(a@.contains(a@[i as int]));
            assert(a@.to_set().contains(a@[i as int]));
            assert(!b@.to_set().contains(a@[i as int]));
            return false;
        }
        i += 1;
    }
    assert forall|x: u16| a@.to_set().contains(x) implies b@.to_set().contains(x) by {
        let k = choose|k: int| 0 <= k < a@.len() && a@[k] == x;
        assert(b@.contains(a@[k]));
    }
    true
}

/// Whether two lists of ports hold the same set of ports.
pub fn same_ports(a: &Vec<u16>, b: &Vec<u16>) -> (r: bool)
    ensures
        r == (a@.to_set() == b@.to_set()),
{
    let r = ports_within(a, b) && ports_within(b, a);
    proof {
        if r {
            assert(a@.to_set() =~= b@.to_set());
        }
    }
    r
}

/// Appends the events for one record of the new snapshot.
pub fn push_record_events(events: &mut Vec<ServiceEvent>, baseline: &Vec<Service>, now: &Service)
    ensures
        event_views(final(events)@) == event_views(old(events)@) + record_events(
            service_views(baseline@),
            now@,
        ),
{
    let ghost before = event_views(events@);
    match position_of_id(baseline, &now.id) {
        Some(i) => {
            let old_record = &baseline[i];
            if old_record.status != now.status {
                events.push(
                    ServiceEvent::ServiceStatusChanged {
                        service_id: now.id.clone(),
                        old_status: old_record.status.label(),
                        new_status: now.status.label(),
                    },
                );
            }
            let ghost middle = event_views(events@);
            assert(middle == before + status_change(old_record@, now@));
            if !same_ports(&old_record.ports, &now.ports) {
                events.push(
                    ServiceEvent::ServicePortsChanged {
                        service_id: now.id.clone(),
                        ports: copy_ports(&now.ports),
                    },
                );
            }
            assert(event_views(events@) == middle + ports_change(old_record@, now@));
            assert(event_views(events@) == before + (status_change(old_record@, now@)
                + ports_change(old_record@, now@)));
        },
        None => {
            events.push(ServiceEvent::ServiceAdded(now.clone()));
            assert(event_views(events@) == before + seq![ServiceEventView::ServiceAdded(now@)]);
        },
    }
}

/// Watches the snapshots of a host. It keeps the snapshot of the tick before
/// as its baseline; nothing but `tick` replaces it.
pub struct ServiceMonitor {
    config: MonitorConfig,
    last_state: Vec<Service>,
}

impl ServiceMonitor {
    /// What the baseline says.
    pub closed spec fn baseline(&self) -> Seq<ServiceView> {
        service_views(self.last_state@)
    }

    /// The configuration in force.
    pub closed spec fn settings(&self) -> MonitorConfig {
        self.config
    }

    /// A monitor with the default configuration and an empty baseline.
    pub fn new() -> (r: Self)
        ensures
            r.baseline().len() == 0,
            r.settings().check_interval == span_of_secs(5),
            r.settings().enabled,
    {
        ServiceMonitor { config: MonitorConfig::default(), last_state: Vec::new() }
    }

    /// The monitor with another configuration and the same baseline.
    pub fn with_config(self, config: MonitorConfig) -> (r: Self)
        ensures
            r.settings() == config,
            r.baseline() == self.baseline(),
    {
        ServiceMonitor { config, last_state: self.last_state }
    }

    /// The configuration in force.
    pub fn config(&self) -> (r: MonitorConfig)
        ensures
            r == self.settings(),
    {
        self.config
    }

    /// Starts one iteration of the polling loop with the configuration read at
    /// its top: the monitor polls if reporting is switched on, and sleeps for
    /// the configured interval either way. A later change of the configuration
    /// is seen by the next iteration.
    pub fn begin_iteration(&mut self, config: MonitorConfig) -> (r: MonitorStep)
        ensures
            final(self).settings() == config,
            final(self).baseline() == old(self).baseline(),
            r == planned_step(config),
    {
        self.config = config;
        if config.enabled {
            MonitorStep::Poll { sleep: config.check_interval }
        } else {
            MonitorStep::Idle { sleep: config.check_interval }
        }
    }

    /// Takes the new snapshot, says what changed since the baseline, and makes
    /// the new snapshot the baseline.
    pub fn tick(&mut self, current: Vec<Service>) -> (events: Vec<ServiceEvent>)
        ensures
            event_views(events@) == tick_events(old(self).baseline(), service_views(current@)),
            final(self).baseline() == service_views(current@),
            final(self).settings() == old(self).settings(),
    {
        let ghost base = service_views(self.last_state@);
        let ghost now = service_views(current@);
        let mut events: Vec<ServiceEvent> = Vec::new();
        if self.last_state.len() == 0 {
            let mut all: Vec<Service> = Vec::new();
            let mut i: usize = 0;
            while i < current.len()
                invariant
                    i <= current.len(),
                    now == service_views(current@),
                    service_views(all@) == now.take(i as int),
                decreases current.len() - i,
            {
                let ghost before = service_views(all@);
                all.push(current[i].clone());
                assert(service_views(all@) == before.push(now[i as int]));
                i += 1;
            }
            assert(now.take(current.len() as int) == now);
            events.push(ServiceEvent::ServicesDiscovered(all));
            assert(event_views(events@) == seq![ServiceEventView::ServicesDiscovered(now)]);
        } else {
            let mut i: usize = 0;
            while i < current.len()
                invariant
                    i <= current.len(),
                    now == service_views(current@),
                    base == service_views(self.last_state@),
                    event_views(events@) == change_events(base, now.take(i as int)),
                decreases current.len() - i,
            {
                proof {
                    assert(now.take(i + 1).drop_last() == now.take(i as int));
                    assert(now.take(i + 1).last() == current[i as int]@);
                }
                push_record_events(&mut events, &self.last_state, &current[i]);
                i += 1;
            }
            assert(now.take(current.len() as int) == now);
            let ghost changed = event_views(events@);
            let mut k: usize = 0;
            while k < self.last_state.len()
                invariant
                    k <= self.last_state.len(),
                    now == service_views(current@),
                    base == service_views(self.last_state@),
                    event_views(events@) == changed + removal_events(base.take(k as int), now),
                decreases self.last_state.len() - k,
            {
                proof {
                    assert(base.take(k + 1).drop_last() == base.take(k as int));
                    assert(base.take(k + 1).last() == self.last_state[k as int]@);
                }
                if position_of_id(&current, &self.last_state[k].id).is_none() {
                    let ghost before = event_views(events@);
                    events.push(
                        ServiceEvent::ServiceRemoved { service_id: self.last_state[k].id.clone() },
                    );
                    assert(event_views(events@) == before.push(
                        ServiceEventView::ServiceRemoved { service_id: base[k as int].id },
                    ));
                }
                k += 1;
            }
            assert(base.take(self.last_state.len() as int) == base);
        }
        self.last_state = current;
        events
    }
}

/// A record that lists the ports of its baseline record in another order
/// gives no ports event.
pub proof fn lemma_reordered_ports_are_no_change(old: ServiceView, now: ServiceView)
    requires
        old.ports.to_multiset() == now.ports.to_multiset(),
    ensures
        ports_change(old, now) == Seq::<ServiceEventView>::empty(),
{
    old.ports.to_multiset_ensures();
    now.ports.to_multiset_ensures();
    assert forall|x: u16| old.ports.to_set().contains(x) == now.ports.to_set().contains(x) by {
        assert(old.ports.contains(x) <==> old.ports.to_multiset().count(x) > 0);
        assert(now.ports.contains(x) <==> now.ports.to_multiset().count(x) > 0);
    }
    assert(old.ports.to_set() =~= now.ports.to_set());
}

/// In a snapshot without repeated ids the first record with the id of a
/// record is that record.
pub proof fn lemma_first_with_own_id(s: Seq<ServiceView>, i: int)
    requires
        ids_unique(s),
        0 <= i < s.len(),
    ensures
        first_with_id(s, s[i].id) == Some(s[i]),
    decreases i,
{
    if i > 0 {
        assert(s[0].id != s[i].id);
        let rest = s.skip(1);
        assert(ids_unique(rest)) by {
            assert forall|a: int, b: int| 0 <= a < b < rest.len() implies (#[trigger] rest[a]).id
                != (#[trigger] rest[b]).id by {
                assert(rest[a] == s[a + 1] && rest[b] == s[b + 1]);
            }
        }
        lemma_first_with_own_id(rest, i - 1);
    }
}

/// A snapshot that equals the baseline gives no event, where it is not
/// empty and holds no id twice.
pub proof fn lemma_unchanged_snapshot_is_silent(s: Seq<ServiceView>)
    requires
        ids_unique(s),
        s.len() > 0,
    ensures
        tick_events(s, s) == Seq::<ServiceEventView>::empty(),
{
    lemma_no_changes(s, s.len() as int);
    assert(s.take(s.len() as int) == s);
    lemma_no_removals(s, s.len() as int);
}

/// The records of a snapshot give no change event against the snapshot itself.
pub proof fn lemma_no_changes(s: Seq<ServiceView>, n: int)
    requires
        ids_unique(s),
        0 <= n <= s.len(),
    ensures
        change_events(s, s.take(n)) == Seq::<ServiceEventView>::empty(),
    decreases n,
{
    if n > 0 {
        lemma_no_changes(s, n - 1);
        assert(s.take(n).drop_last() == s.take(n - 1));
        lemma_first_with_own_id(s, n - 1);
        assert(record_events(s, s[n - 1]) == Seq::<ServiceEventView>::empty());
    }
}

/// The records of a snapshot give no removal event against the snapshot itself.
pub proof fn lemma_no_removals(s: Seq<ServiceView>, n: int)
    requires
        0 <= n <= s.len(),
    ensures
        removal_events(s.take(n), s) == Seq::<ServiceEventView>::empty(),
    decreases n,
{
    if n > 0 {
        lemma_no_removals(s, n - 1);
        assert(s.take(n).drop_last() == s.take(n - 1));
        assert(s[n - 1].id == s.take(n).last().id);
        assert(has_id(s, s.take(n).last().id));
    }
}

} // verus!
