//! The provider for the process table.

use vstd::prelude::*;
use crate::models::service::{
    copy_text, service_views, text_of, Service, ServiceStatus, ServiceType, ServiceView,
};
use crate::services::discovery::traits::ServiceDiscovery;
use crate::text::chars::{chars_eq_str, str_chars, string_from_chars, string_views};
use crate::text::number::{decimal, decimal_chars};
use crate::text::split::{extend_chars, joined};

verus! {

/// What the process table reports of one process, as plain values. `state`
/// is the name of the process state; the two percentages are the bit
/// patterns of single-precision numbers. `memory_percent_bits` is the
/// memory of the process as a share of the total memory, in percent; it
/// means nothing where the total memory is not known.
#[derive(Debug)]
pub struct ProcessSample {
    pub pid: u32,
    pub name: String,
    pub state: String,
    pub memory_bytes: u64,
    pub memory_percent_bits: u32,
    pub cpu_usage_bits: u32,
    pub exe: Option<String>,
    pub cmd: Vec<String>,
}

pub ghost struct ProcessSampleView {
    pub pid: u32,
    pub name: Seq<char>,
    pub state: Seq<char>,
    pub memory_bytes: u64,
    pub memory_percent_bits: u32,
    pub cpu_usage_bits: u32,
    pub exe: Option<Seq<char>>,
    pub cmd: Seq<Seq<char>>,
}

impl View for ProcessSample {
    type V = ProcessSampleView;

    open spec fn view(&self) -> ProcessSampleView {
        ProcessSampleView {
            pid: self.pid,
            name: self.name@,
            state: self.state@,
            memory_bytes: self.memory_bytes,
            memory_percent_bits: self.memory_percent_bits,
            cpu_usage_bits: self.cpu_usage_bits,
            exe: text_of(self.exe),
            cmd: string_views(self.cmd@),
        }
    }
}

pub open spec fn sample_views(s: Seq<ProcessSample>) -> Seq<ProcessSampleView> {
    Seq::new(s.len(), |i: int| s[i]@)
}

/// The record of a process: its id is its pid in decimal, its description
/// its command line, its ports are left empty. It has a share of the total
/// memory only where the total memory is known, that is, not zero.
pub open spec fn process_record(p: ProcessSampleView, total_memory: u64) -> ServiceView {
    ServiceView {
        id: decimal(p.pid as nat),
        name: p.name,
        status: if p.state == "Run"@ {
            ServiceStatus::Running
        } else {
            ServiceStatus::Stopped
        },
        service_type: ServiceType::Process,
        ports: Seq::<u16>::empty(),
        pid: Some(p.pid),
        path: p.exe,
        description: Some(joined(p.cmd, " "@)),
        auto_start: false,
        cpu_usage_bits: Some(p.cpu_usage_bits),
        memory_bytes: Some(p.memory_bytes),
        memory_percent_bits: if total_memory > 0 {
            Some(p.memory_percent_bits)
        } else {
            None
        },
    }
}

/// The records of the processes, in order.
pub open spec fn process_records(s: Seq<ProcessSampleView>, total_memory: u64) -> Seq<
    ServiceView,
> {
    Seq::new(s.len(), |i: int| process_record(s[i], total_memory))
}

/// The arguments of a command line with one space between neighbours.
pub fn command_line(cmd: &Vec<String>) -> (r: String)
    ensures
        r@ == joined(string_views(cmd@), " "@),
{
    let ghost all = string_views(cmd@);
    let space = str_chars(" ");
    let mut out: Vec<char> = Vec::new();
    let mut i: usize = 0;
    while i < cmd.len()
        invariant
            i <= cmd.len(),
            all == string_views(cmd@),
            space@ == " "@,
            out@ == joined(all.take(i as int), " "@),
        decreases cmd.len() - i,
    {
        proof {
            assert(all.take(i + 1).drop_last() == all.take(i as int));
            assert(all.take(i + 1).last() == cmd[i as int]@);
        }
        if i > 0 {
            extend_chars(&mut out, &space);
        }
        let arg = str_chars(cmd[i].as_str());
        extend_chars(&mut out, &arg);
        i += 1;
    }
    assert(all.take(cmd.len() as int) == all);
    string_from_chars(&out)
}

/// The record of a process.
pub fn service_from_process(p: &ProcessSample, total_memory: u64) -> (r: Service)
    ensures
        r@ == process_record(p@, total_memory),
{
    let state = str_chars(p.state.as_str());
    Service {
        id: string_from_chars(&decimal_chars(p.pid as u64)),
        name: p.name.clone(),
        status: if chars_eq_str(&state, "Run") {
            ServiceStatus::Running
        } else {
            ServiceStatus::Stopped
        },
        service_type: ServiceType::Process,
        ports: Vec::new(),
        pid: Some(p.pid),
        path: copy_text(&p.exe),
        description: Some(command_line(&p.cmd)),
        auto_start: false,
        cpu_usage_bits: Some(p.cpu_usage_bits),
        memory_bytes: Some(p.memory_bytes),
        memory_percent_bits: if total_memory > 0 {
            Some(p.memory_percent_bits)
        } else {
            None
        },
    }
}

/// The process provider. It is available on every host.
#[derive(Debug, Clone, Copy)]
pub struct ProcessDiscovery {
    pub total_memory: u64,
}

impl ProcessDiscovery {
    pub fn new(total_memory: u64) -> (r: Self)
        ensures
            r.total_memory == total_memory,
    {
        ProcessDiscovery { total_memory }
    }

    pub fn is_available(&self) -> (r: bool)
        ensures
            r,
    {
        true
    }

    /// Whether a share of the total memory can be given for a process: only
    /// where the total is known.
    pub fn reports_memory_share(&self) -> (r: bool)
        ensures
            r == (self.total_memory > 0),
    {
        self.total_memory > 0
    }

    /// One record for each process, in the order of the samples. A record
    /// has a share of the total memory only where this provider knows the
    /// total memory.
    pub fn discover(&self, samples: &Vec<ProcessSample>) -> (r: Vec<Service>)
        ensures
            service_views(r@) == process_records(sample_views(samples@), self.total_memory),
            r.len() == samples.len(),
            forall|i: int|
                0 <= i < r.len() ==> (#[trigger] r[i]@).memory_percent_bits == if self.total_memory
                    > 0 {
                    Some(samples[i].memory_percent_bits)
                } else {
                    None::<u32>
                },
    {
        let total_memory = self.total_memory;
        let ghost all = sample_views(samples@);
        let mut out: Vec<Service> = Vec::new();
        let mut i: usize = 0;
        while i < samples.len()
            invariant
                i <= samples.len(),
                all == sample_views(samples@),
                service_views(out@) == process_records(all, total_memory).take(i as int),
            decreases samples.len() - i,
        {
            let ghost before = service_views(out@);
            let record = service_from_process(&samples[i], total_memory);
            out.push(record);
            assert(service_views(out@) == before.push(
                process_records(all, total_memory)[i as int],
            ));
            i += 1;
        }
        assert(process_records(all, total_memory).take(samples.len() as int) == process_records(
            all,
            total_memory,
        ));
        assert forall|i: int| 0 <= i < out.len() implies (#[trigger] out[i]@).memory_percent_bits
            == if total_memory > 0 {
            Some(samples[i].memory_percent_bits)
        } else {
            None::<u32>
        } by {
            assert(service_views(out@)[i] == process_record(all[i], total_memory));
        }
        out
    }
}

impl ServiceDiscovery for ProcessDiscovery {
    open spec fn name() -> Seq<char> {
        "Process"@
    }

    fn provider_name(&self) -> (r: &'static str) {
        "Process"
    }
}

} // verus!
