//! The port scanner: which ports to probe, how many probes may run at once,
//! and what the outcomes add up to. Connecting is left to the caller.

use vstd::prelude::*;
use core::time::Duration;
use crate::clock::span_of_millis;
use crate::models::port::{port_views, PortInfo, PortInfoView, PortStatus, Protocol};

verus! {

/// The record of a port that accepted a connection.
pub open spec fn open_port(port: u16) -> PortInfoView {
    PortInfoView {
        port,
        protocol: Protocol::Tcp,
        status: PortStatus::Occupied,
        process_name: None,
        pid: None,
    }
}

/// The well-known ports that a quick scan probes, in probing order.
pub open spec fn common_port_list() -> Seq<u16> {
    seq![
        20u16,
        21u16,
        22u16,
        23u16,
        25u16,
        53u16,
        80u16,
        110u16,
        143u16,
        443u16,
        465u16,
        587u16,
        993u16,
        995u16,
        3000u16,
        3306u16,
        5432u16,
        5672u16,
        6379u16,
        8000u16,
        8080u16,
        8443u16,
        9000u16,
        27017u16,
    ]
}

/// One record for each outcome that says the port was open, in order.
pub open spec fn open_records(outcomes: Seq<(u16, bool)>) -> Seq<PortInfoView>
    decreases outcomes.len(),
{
    if outcomes.len() == 0 {
        Seq::<PortInfoView>::empty()
    } else {
        let rest = open_records(outcomes.drop_last());
        if outcomes.last().1 {
            rest.push(open_port(outcomes.last().0))
        } else {
            rest
        }
    }
}

/// The ports of the outcomes, in order.
pub open spec fn outcome_ports(outcomes: Seq<(u16, bool)>) -> Seq<u16> {
    Seq::new(outcomes.len(), |i: int| outcomes[i].0)
}

/// The ports from `first` up to `upto`, `upto` itself left out.
pub open spec fn port_range(first: int, upto: int) -> Seq<u16> {
    if upto <= first {
        Seq::<u16>::empty()
    } else {
        Seq::new((upto - first) as nat, |i: int| (first + i) as u16)
    }
}

/// What the caller of a range scan does next.
#[derive(Debug, Clone, Copy, PartialEq, Eq, Structural)]
pub enum ScanAction {
    /// Start a probe of this port.
    Probe(u16),
    /// Wait until one of the probes in flight has finished.
    Wait,
    /// No probe is in flight and none may start: the limit is zero.
    Blocked,
    /// Every port of the range was probed and every probe has finished.
    Done,
}

/// The list without the first occurrence of `x`; the list itself where `x`
/// does not occur.
pub open spec fn without_first(s: Seq<u16>, x: u16) -> Seq<u16> {
    match s.index_of_first(x) {
        Some(i) => s.remove(i),
        None => s,
    }
}

/// Where a value first stands in a list.
pub proof fn lemma_index_of_first_match(s: Seq<u16>, x: u16, i: int)
    requires
        0 <= i < s.len(),
        s[i] == x,
        forall|k: int| 0 <= k < i ==> s[k] != x,
    ensures
        s.index_of_first(x) == Some(i),
{
    assert(s.contains(x));
    s.index_of_first_ensures(x);
    let j = s.index_of_first(x).unwrap();
    if j < i {
        assert(s[j] != x);
    }
    if i < j {
        assert(s[i] != x);
    }
}

/// A scan of a range of ports under a limit on the probes in flight.
pub struct RangeScan {
    next: u32,
    end: u16,
    limit: usize,
    pending: Vec<u16>,
    found: Vec<PortInfo>,
    finished: Ghost<Seq<(u16, bool)>>,
    first: Ghost<int>,
}

impl RangeScan {
    #[verifier::type_invariant]
    spec fn wf(&self) -> bool {
        &&& self.pending.len() <= self.limit
        &&& 0 <= self.first@ <= self.next <= self.end + 1
        &&& port_views(self.found@) == open_records(self.finished@)
        &&& outcome_ports(self.finished@).to_multiset().add(self.pending@.to_multiset())
            == port_range(self.first@, self.next as int).to_multiset()
    }

    /// The first port of the range; behind the last where the range is empty.
    pub closed spec fn first_port(&self) -> int {
        self.first@
    }

    /// The outcomes taken so far, in the order in which the probes finished.
    pub closed spec fn outcomes(&self) -> Seq<(u16, bool)> {
        self.finished@
    }

    /// The ports whose probes are in flight, in the order in which they started.
    pub closed spec fn outstanding(&self) -> Seq<u16> {
        self.pending@
    }

    /// The most probes that may be in flight at once.
    pub closed spec fn limit(&self) -> nat {
        self.limit as nat
    }

    /// The port that the next probe is for; past the end of the range when
    /// every port has had its probe started.
    pub closed spec fn next_port(&self) -> int {
        self.next as int
    }

    /// The last port of the range.
    pub closed spec fn last_port(&self) -> u16 {
        self.end
    }

    /// The records of the ports found open so far: one for each outcome
    /// that says so, in the order in which the probes finished.
    pub open spec fn results(&self) -> Seq<PortInfoView> {
        open_records(self.outcomes())
    }

    /// How many probes are in flight: never more than the limit allows.
    pub fn in_flight(&self) -> (r: usize)
        ensures
            r == self.outstanding().len(),
            r <= self.limit(),
    {
        proof {
            use_type_invariant(self);
        }
        self.pending.len()
    }

    /// Says what to do next, and gives the scan after that step. A probe
    /// starts only while fewer probes are in flight than the limit allows; the
    /// ports are taken in ascending order.
    pub fn next_action(self) -> (r: (RangeScan, ScanAction))
        ensures
            r.0.limit() == self.limit(),
            r.0.last_port() == self.last_port(),
            r.0.first_port() == self.first_port(),
            r.0.outcomes() == self.outcomes(),
            r.0.results() == self.results(),
            r.0.outstanding().len() <= r.0.limit(),
            r.1 == if self.next_port() <= self.last_port() && self.outstanding().len()
                < self.limit() {
                ScanAction::Probe(self.next_port() as u16)
            } else if self.outstanding().len() > 0 {
                ScanAction::Wait
            } else if self.next_port() <= self.last_port() {
                ScanAction::Blocked
            } else {
                ScanAction::Done
            },
            match r.1 {
                ScanAction::Probe(port) => r.0.outstanding() == self.outstanding().push(port)
                    && r.0.next_port() == self.next_port() + 1,
                _ => r.0.outstanding() == self.outstanding() && r.0.next_port()
                    == self.next_port(),
            },
    {
        proof {
            use_type_invariant(&self);
        }
        let RangeScan { next, end, limit, pending, found, finished, first } = self;
        let mut pending = pending;
        if next <= end as u32 && pending.len() < limit {
            let port: u16 = next as u16;
            let ghost before = pending@;
            pending.push(port);
            proof {
                broadcast use vstd::seq_lib::to_multiset_build;

                assert(port_range(first@, next + 1) == port_range(first@, next as int).push(port));
                assert(pending@ == before.push(port));
                assert(outcome_ports(finished@).to_multiset().add(pending@.to_multiset())
                    =~= port_range(first@, next + 1).to_multiset());
            }
            (
                RangeScan { next: next + 1, end, limit, pending, found, finished, first },
                ScanAction::Probe(port),
            )
        } else if pending.len() > 0 {
            (RangeScan { next, end, limit, pending, found, finished, first }, ScanAction::Wait)
        } else if next <= end as u32 {
            (RangeScan { next, end, limit, pending, found, finished, first }, ScanAction::Blocked)
        } else {
            (RangeScan { next, end, limit, pending, found, finished, first }, ScanAction::Done)
        }
    }

    /// Takes the outcome of the probe of `port`, and gives the scan after it.
    /// The probe is no longer in flight; an open port adds its record to the
    /// results. An outcome for a port that has no probe in flight changes
    /// nothing and gives `false`.
    pub fn probe_finished(self, port: u16, open: bool) -> (r: (RangeScan, bool))
        ensures
            r.1 == self.outstanding().contains(port),
            r.0.limit() == self.limit(),
            r.0.last_port() == self.last_port(),
            r.0.next_port() == self.next_port(),
            r.0.outstanding().len() <= r.0.limit(),
            r.0.outstanding() == without_first(self.outstanding(), port),
            r.0.first_port() == self.first_port(),
            r.0.outcomes() == if r.1 {
                self.outcomes().push((port, open))
            } else {
                self.outcomes()
            },
            r.0.results() == if r.1 && open {
                self.results().push(open_port(port))
            } else {
                self.results()
            },
    {
        proof {
            use_type_invariant(&self);
        }
        let RangeScan { next, end, limit, pending, found, finished, first } = self;
        let mut pending = pending;
        let mut found = found;
        let ghost before_pending = pending@;
        let ghost history = finished@;
        let mut i: usize = 0;
        while i < pending.len()
            invariant
                i <= pending.len(),
                pending@ == before_pending,
                forall|k: int| 0 <= k < i ==> pending@[k] != port,
            ensures
                i < pending.len() ==> pending@[i as int] == port,
            decreases pending.len() - i,
        {
            if pending[i] == port {
                break ;
            }
            i += 1;
        }
        if i < pending.len() {
            assert(pending@[i as int] == port);
            assert(pending@.contains(port));
            proof {
                lemma_index_of_first_match(pending@, port, i as int);
            }
            pending.remove(i);
            if open {
                let ghost before = port_views(found@);
                found.push(
                    PortInfo {
                        port,
                        protocol: Protocol::Tcp,
                        status: PortStatus::Occupied,
                        process_name: None,
                        pid: None,
                    },
                );
                assert(port_views(found@) == before.push(open_port(port)));
            }
            proof {
                broadcast use vstd::seq_lib::to_multiset_build, vstd::seq_lib::to_multiset_remove;

                assert(history.push((port, open)).drop_last() == history);
                assert(outcome_ports(history.push((port, open))) == outcome_ports(history).push(
                    port,
                ));
                assert(pending@ == before_pending.remove(i as int));
                assert(before_pending.to_multiset().count(port) > 0) by {
                    before_pending.to_multiset_ensures();
                }
                assert(outcome_ports(history.push((port, open))).to_multiset().add(
                    pending@.to_multiset(),
                ) =~= outcome_ports(history).to_multiset().add(before_pending.to_multiset()));
            }
            (
                RangeScan {
                    next,
                    end,
                    limit,
                    pending,
                    found,
                    finished: Ghost(history.push((port, open))),
                    first,
                },
                true,
            )
        } else {
            proof {
                pending@.index_of_first_ensures(port);
            }
            (RangeScan { next, end, limit, pending, found, finished, first }, false)
        }
    }

    /// Whether the scan is over. When it is, every port of the range has had
    /// its probe, and each exactly one: the ports of the outcomes are the
    /// ports of the range, in the order in which the probes finished.
    pub fn is_done(&self) -> (r: bool)
        ensures
            r == (self.next_port() > self.last_port() && self.outstanding().len() == 0),
            r ==> outcome_ports(self.outcomes()).to_multiset() == port_range(
                self.first_port(),
                self.last_port() + 1,
            ).to_multiset(),
    {
        proof {
            use_type_invariant(self);
            if self.pending.len() == 0 {
                assert(self.pending@ == Seq::<u16>::empty());
                assert(self.pending@.to_multiset() =~= vstd::multiset::Multiset::<u16>::empty()) by {
                    self.pending@.to_multiset_ensures();
                }
                assert(outcome_ports(self.finished@).to_multiset().add(
                    self.pending@.to_multiset(),
                ) =~= outcome_ports(self.finished@).to_multiset());
            }
        }
        self.next > self.end as u32 && self.pending.len() == 0
    }

    /// Ends the scan and hands out the records of the ports found open.
    pub fn into_results(self) -> (r: Vec<PortInfo>)
        ensures
            port_views(r@) == self.results(),
            port_views(r@) == open_records(self.outcomes()),
    {
        proof {
            use_type_invariant(&self);
        }
        self.found
    }
}

/// Probes ports for reachability.
#[derive(Debug, Clone, Copy)]
pub struct PortScanner {
    pub timeout: Duration,
    pub max_concurrent: usize,
}

impl PortScanner {
    /// A scanner that gives each probe 200 ms and runs 100 probes at once at most.
    pub fn new() -> (r: Self)
        ensures
            r.timeout == span_of_millis(200),
            r.max_concurrent == 100,
    {
        PortScanner { timeout: Duration::from_millis(200), max_concurrent: 100 }
    }

    /// The scanner with another time for each probe.
    pub fn with_timeout(self, timeout: Duration) -> (r: Self)
        ensures
            r.timeout == timeout,
            r.max_concurrent == self.max_concurrent,
    {
        PortScanner { timeout, max_concurrent: self.max_concurrent }
    }

    /// The scanner with another limit on the probes in flight.
    pub fn with_concurrency(self, max: usize) -> (r: Self)
        ensures
            r.timeout == self.timeout,
            r.max_concurrent == max,
    {
        PortScanner { timeout: self.timeout, max_concurrent: max }
    }

    /// Begins a scan of the ports `start` to `end`, both included, with this
    /// scanner's limit on the probes in flight. Where `end` is below `start`
    /// there is nothing to probe.
    pub fn scan_range(&self, start: u16, end: u16) -> (r: RangeScan)
        ensures
            r.limit() == self.max_concurrent,
            r.outstanding().len() == 0,
            r.outcomes().len() == 0,
            r.results().len() == 0,
            r.first_port() == r.next_port(),
            r.last_port() == end,
            r.next_port() == if start <= end {
                start as int
            } else {
                end + 1
            },
    {
        let next: u32 = if start <= end {
            start as u32
        } else {
            end as u32 + 1
        };
        let found: Vec<PortInfo> = Vec::new();
        let pending: Vec<u16> = Vec::new();
        proof {
            assert(port_views(found@) == open_records(Seq::<(u16, bool)>::empty()));
            assert(outcome_ports(Seq::<(u16, bool)>::empty()) == Seq::<u16>::empty());
            assert(port_range(next as int, next as int) == Seq::<u16>::empty());
            assert(pending@ == Seq::<u16>::empty());
            Seq::<u16>::empty().to_multiset_ensures();
            assert forall|x: u16| Seq::<u16>::empty().to_multiset().count(x) == 0 by {
                assert(!Seq::<u16>::empty().contains(x));
            }
            assert(Seq::<u16>::empty().to_multiset().add(Seq::<u16>::empty().to_multiset())
                =~= Seq::<u16>::empty().to_multiset());
        }
        RangeScan {
            next,
            end,
            limit: self.max_concurrent,
            pending,
            found,
            finished: Ghost(Seq::empty()),
            first: Ghost(next as int),
        }
    }

    /// The well-known ports that a quick scan probes, one after the other.
    pub fn common_ports(&self) -> (r: Vec<u16>)
        ensures
            r@ == common_port_list(),
    {
        let r: Vec<u16> = vec![
            20u16,
            21u16,
            22u16,
            23u16,
            25u16,
            53u16,
            80u16,
            110u16,
            143u16,
            443u16,
            465u16,
            587u16,
            993u16,
            995u16,
            3000u16,
            3306u16,
            5432u16,
            5672u16,
            6379u16,
            8000u16,
            8080u16,
            8443u16,
            9000u16,
            27017u16,
        ];
        assert(r@ =~= common_port_list());
        r
    }

    /// The records for the outcomes of a run of probes: one for each port
    /// that accepted a connection, in the order of the outcomes. A probe that
    /// timed out counts as a port that is not open.
    pub fn scan_common_ports(&self, outcomes: &Vec<(u16, bool)>) -> (r: Vec<PortInfo>)
        ensures
            port_views(r@) == open_records(outcomes@),
    {
        let mut out: Vec<PortInfo> = Vec::new();
        let mut i: usize = 0;
        while i < outcomes.len()
            invariant
                i <= outcomes.len(),
                port_views(out@) == open_records(outcomes@.take(i as int)),
            decreases outcomes.len() - i,
        {
            proof {
                assert(outcomes@.take(i + 1).drop_last() == outcomes@.take(i as int));
            }
            if outcomes[i].1 {
                let ghost before = port_views(out@);
                out.push(
                    PortInfo {
                        port: outcomes[i].0,
                        protocol: Protocol::Tcp,
                        status: PortStatus::Occupied,
                        process_name: None,
                        pid: None,
                    },
                );
                assert(port_views(out@) == before.push(open_port(outcomes@[i as int].0)));
            }
            i += 1;
        }
        assert(outcomes@.take(outcomes.len() as int) == outcomes@);
        out
    }
}

impl Default for PortScanner {
    fn default() -> (r: Self) {
        PortScanner::new()
    }
}

} // verus!
