//! The port resolver: reads the listings of the host's port tools.
//!
//! A listing is read line by line. A line that does not have the shape of an
//! entry is passed over; it never ends the reading.

use vstd::prelude::*;
use crate::models::port::{
    lists_port, port_views, table_lists_port, PortInfo, PortInfoView, PortStatus, Protocol,
};
use crate::services::discovery::traits::HostOs;
use crate::ranking::{
    first_n, in_rank_order, lemma_ranked_in_rank_order, lemma_ranked_is_stable, ranked,
    ranked_views, stable_sort, Ranked,
};
use crate::text::chars::{chars_eq_str, str_chars, string_from_chars, views};
use crate::text::number::{parse_u16, parse_u16_spec, parse_u32, parse_u32_spec};
use crate::text::search::{
    contains, contains_text, has_prefix, split_after, split_before, starts_with, text_after,
    text_before, trim_trailing_brackets, without_trailing_brackets,
};
use crate::text::split::{
    body_lines, last_segment, lines, nth_segment, segment_at, segment_last, split_lines,
    split_words, words,
};

verus! {

/// The tools whose listings the resolver reads.
#[derive(Debug, Clone, Copy, PartialEq, Eq, Structural)]
pub enum PortTool {
    /// `lsof -i -P -n`
    Lsof,
    /// `ss -tulnp`
    Ss,
    /// `netstat -tulpn`
    Netstat,
    /// `netstat -ano`
    NetstatWindows,
}

/// The tool that lists the ports of a host: `lsof` on macOS, `ss` on Linux,
/// `netstat` on Windows, none elsewhere.
pub open spec fn host_tool(host: HostOs) -> Option<PortTool> {
    match host {
        HostOs::Macos => Some(PortTool::Lsof),
        HostOs::Linux => Some(PortTool::Ss),
        HostOs::Windows => Some(PortTool::NetstatWindows),
        HostOs::Other => None,
    }
}

/// The tool to fall back on where the first tool is missing or failed:
/// `netstat` on Linux, none elsewhere.
pub open spec fn host_fallback_tool(host: HostOs) -> Option<PortTool> {
    match host {
        HostOs::Linux => Some(PortTool::Netstat),
        _ => None,
    }
}

impl PortTool {
    /// The tool that lists the ports of a host.
    pub fn for_host(host: HostOs) -> (r: Option<PortTool>)
        ensures
            r == host_tool(host),
    {
        match host {
            HostOs::Macos => Some(PortTool::Lsof),
            HostOs::Linux => Some(PortTool::Ss),
            HostOs::Windows => Some(PortTool::NetstatWindows),
            HostOs::Other => None,
        }
    }

    /// The tool to fall back on where the first is missing or failed.
    pub fn fallback_for_host(host: HostOs) -> (r: Option<PortTool>)
        ensures
            r == host_fallback_tool(host),
    {
        match host {
            HostOs::Linux => Some(PortTool::Netstat),
            _ => None,
        }
    }
}

/// What an optional port record says.
pub open spec fn entry_of(e: Option<PortInfo>) -> Option<PortInfoView> {
    match e {
        Some(p) => Some(p@),
        None => None,
    }
}

/// The text of an optional character vector.
pub open spec fn chars_of(v: Option<Vec<char>>) -> Option<Seq<char>> {
    match v {
        Some(t) => Some(t@),
        None => None,
    }
}

/// The protocol of a line that begins with its name: TCP for `tcp`, UDP for
/// every other line.
pub open spec fn protocol_by_prefix(line: Seq<char>) -> Protocol {
    if has_prefix(line, "tcp"@) {
        Protocol::Tcp
    } else {
        Protocol::Udp
    }
}

/// The entry of one line of an `lsof` listing: command, pid and, in the
/// ninth field, the address, whose part behind the last colon is the port.
pub open spec fn lsof_entry(line: Seq<char>) -> Option<PortInfoView> {
    let parts = words(line);
    if parts.len() >= 9 {
        match parse_u16_spec(without_trailing_brackets(last_segment(parts[8], ':'))) {
            Some(port) => Some(
                PortInfoView {
                    port,
                    protocol: if contains_text(line, "TCP"@) {
                        Protocol::Tcp
                    } else {
                        Protocol::Udp
                    },
                    status: PortStatus::Occupied,
                    process_name: Some(parts[0]),
                    pid: parse_u32_spec(parts[1]),
                },
            ),
            None => None,
        }
    } else {
        None
    }
}

/// The process name in the process field of an `ss` line: what stands
/// between the first two double quotes.
pub open spec fn ss_process_name(info: Seq<char>) -> Option<Seq<char>> {
    nth_segment(info, '"', 1)
}

/// The pid in the process field of an `ss` line: the number behind the first
/// `pid=`, up to the next comma.
pub open spec fn ss_process_pid(info: Seq<char>) -> Option<u32> {
    match text_after(info, "pid="@) {
        Some(rest) => match nth_segment(text_before(rest, "pid="@), ',', 0) {
            Some(number) => parse_u32_spec(number),
            None => None,
        },
        None => None,
    }
}

/// The entry of one line of an `ss` listing: the local address is the
/// fifth field, the process the seventh where there is one.
pub open spec fn ss_entry(line: Seq<char>) -> Option<PortInfoView> {
    let parts = words(line);
    if parts.len() >= 5 {
        match parse_u16_spec(last_segment(parts[4], ':')) {
            Some(port) => Some(
                PortInfoView {
                    port,
                    protocol: protocol_by_prefix(line),
                    status: PortStatus::Occupied,
                    process_name: if parts.len() > 6 {
                        ss_process_name(parts[6])
                    } else {
                        None
                    },
                    pid: if parts.len() > 6 {
                        ss_process_pid(parts[6])
                    } else {
                        None
                    },
                },
            ),
            None => None,
        }
    } else {
        None
    }
}

/// The pid in the last field of a `netstat` line, `pid/name`.
pub open spec fn netstat_process_pid(info: Seq<char>) -> Option<u32> {
    match nth_segment(info, '/', 0) {
        Some(number) => parse_u32_spec(number),
        None => None,
    }
}

/// The entry of one line of a `netstat` listing: the local address is the
/// fourth field, the process the last.
pub open spec fn netstat_entry(line: Seq<char>) -> Option<PortInfoView> {
    let parts = words(line);
    if parts.len() >= 4 {
        match parse_u16_spec(last_segment(parts[3], ':')) {
            Some(port) => Some(
                PortInfoView {
                    port,
                    protocol: protocol_by_prefix(line),
                    status: PortStatus::Occupied,
                    process_name: nth_segment(parts.last(), '/', 1),
                    pid: netstat_process_pid(parts.last()),
                },
            ),
            None => None,
        }
    } else {
        None
    }
}

/// The entry of one line of a Windows `netstat` listing: protocol, local
/// address and, in the last field, the pid.
pub open spec fn netstat_windows_entry(line: Seq<char>) -> Option<PortInfoView> {
    let parts = words(line);
    if parts.len() >= 5 && (parts[0] == "TCP"@ || parts[0] == "UDP"@) {
        match parse_u16_spec(last_segment(parts[1], ':')) {
            Some(port) => Some(
                PortInfoView {
                    port,
                    protocol: if parts[0] == "TCP"@ {
                        Protocol::Tcp
                    } else {
                        Protocol::Udp
                    },
                    status: PortStatus::Occupied,
                    process_name: None,
                    pid: parse_u32_spec(parts.last()),
                },
            ),
            None => None,
        }
    } else {
        None
    }
}

/// The entry of one line in the listing of `tool`.
pub open spec fn tool_entry(tool: PortTool, line: Seq<char>) -> Option<PortInfoView> {
    match tool {
        PortTool::Lsof => lsof_entry(line),
        PortTool::Ss => ss_entry(line),
        PortTool::Netstat => netstat_entry(line),
        PortTool::NetstatWindows => netstat_windows_entry(line),
    }
}

/// The number of header lines in the listing of `tool`.
pub open spec fn header_lines(tool: PortTool) -> nat {
    match tool {
        PortTool::Lsof => 1,
        PortTool::Ss => 1,
        PortTool::Netstat => 2,
        PortTool::NetstatWindows => 4,
    }
}

/// The entries of the lines `ls`, in order.
pub open spec fn tool_entries(tool: PortTool, ls: Seq<Seq<char>>) -> Seq<PortInfoView>
    decreases ls.len(),
{
    if ls.len() == 0 {
        Seq::<PortInfoView>::empty()
    } else {
        let rest = tool_entries(tool, ls.drop_last());
        match tool_entry(tool, ls.last()) {
            Some(e) => rest.push(e),
            None => rest,
        }
    }
}

/// The entries of a listing: those of its lines behind the header.
pub open spec fn listing_entries(tool: PortTool, text: Seq<char>) -> Seq<PortInfoView> {
    tool_entries(tool, body_lines(lines(text), header_lines(tool)))
}

/// The records without those that have the port of the record before them.
pub open spec fn one_per_port(s: Seq<PortInfoView>) -> Seq<PortInfoView>
    decreases s.len(),
{
    if s.len() == 0 {
        Seq::<PortInfoView>::empty()
    } else {
        let rest = one_per_port(s.drop_last());
        if rest.len() > 0 && rest.last().port == s.last().port {
            rest
        } else {
            rest.push(s.last())
        }
    }
}

/// In a port table the entry with the lower port ranks first.
impl Ranked for PortInfo {
    open spec fn may_precede(a: PortInfoView, b: PortInfoView) -> bool {
        a.port <= b.port
    }

    proof fn lemma_total(a: PortInfoView, b: PortInfoView) {
    }

    proof fn lemma_transitive(a: PortInfoView, b: PortInfoView, c: PortInfoView) {
    }

    fn precedes(&self, other: &Self) -> (r: bool) {
        self.port <= other.port
    }
}

/// The table that an `lsof` listing gives: its entries by ascending port,
/// and of the entries with one port the one that the listing has first.
pub open spec fn lsof_table(text: Seq<char>) -> Seq<PortInfoView> {
    one_per_port(ranked::<PortInfo>(listing_entries(PortTool::Lsof, text)))
}

/// The port table that the listing of `tool` gives.
pub open spec fn port_table(tool: PortTool, text: Seq<char>) -> Seq<PortInfoView> {
    match tool {
        PortTool::Lsof => lsof_table(text),
        _ => listing_entries(tool, text),
    }
}

/// A string with the text of an optional character vector.
pub fn string_of(v: Option<Vec<char>>) -> (r: Option<String>)
    ensures
        crate::models::service::text_of(r) == chars_of(v),
{
    match v {
        Some(t) => Some(string_from_chars(&t)),
        None => None,
    }
}

/// The protocol of a line that begins with its name.
pub fn protocol_of(line: &Vec<char>) -> (r: Protocol)
    ensures
        r == protocol_by_prefix(line@),
{
    let tcp = str_chars("tcp");
    if starts_with(line, &tcp) {
        Protocol::Tcp
    } else {
        Protocol::Udp
    }
}

/// Reads one line of an `lsof` listing.
pub fn read_lsof_line(line: &Vec<char>) -> (r: Option<PortInfo>)
    ensures
        entry_of(r) == lsof_entry(line@),
{
    let parts = split_words(line);
    if parts.len() >= 9 {
        assert(views(parts@)[8] == parts[8]@);
        assert(views(parts@)[0] == parts[0]@);
        assert(views(parts@)[1] == parts[1]@);
        let tail = segment_last(&parts[8], ':');
        let number = trim_trailing_brackets(&tail);
        match parse_u16(&number) {
            Some(port) => {
                let tcp = str_chars("TCP");
                let protocol = if contains(line, &tcp) {
                    Protocol::Tcp
                } else {
                    Protocol::Udp
                };
                Some(
                    PortInfo {
                        port,
                        protocol,
                        status: PortStatus::Occupied,
                        process_name: Some(string_from_chars(&parts[0])),
                        pid: parse_u32(&parts[1]),
                    },
                )
            },
            None => None,
        }
    } else {
        None
    }
}

/// Reads the pid out of the process field of an `ss` line.
pub fn read_ss_pid(info: &Vec<char>) -> (r: Option<u32>)
    ensures
        r == ss_process_pid(info@),
{
    let mark = str_chars("pid=");
    match split_after(info, &mark) {
        Some(rest) => {
            let piece = split_before(&rest, &mark);
            match segment_at(&piece, ',', 0) {
                Some(number) => parse_u32(&number),
                None => None,
            }
        },
        None => None,
    }
}

/// Reads one line of an `ss` listing.
pub fn read_ss_line(line: &Vec<char>) -> (r: Option<PortInfo>)
    ensures
        entry_of(r) == ss_entry(line@),
{
    let parts = split_words(line);
    if parts.len() >= 5 {
        assert(views(parts@)[4] == parts[4]@);
        let number = segment_last(&parts[4], ':');
        match parse_u16(&number) {
            Some(port) => {
                let (process_name, pid) = if parts.len() > 6 {
                    assert(views(parts@)[6] == parts[6]@);
                    (string_of(segment_at(&parts[6], '"', 1)), read_ss_pid(&parts[6]))
                } else {
                    (None, None)
                };
                Some(
                    PortInfo {
                        port,
                        protocol: protocol_of(line),
                        status: PortStatus::Occupied,
                        process_name,
                        pid,
                    },
                )
            },
            None => None,
        }
    } else {
        None
    }
}

/// Reads one line of a `netstat` listing.
pub fn read_netstat_line(line: &Vec<char>) -> (r: Option<PortInfo>)
    ensures
        entry_of(r) == netstat_entry(line@),
{
    let parts = split_words(line);
    if parts.len() >= 4 {
        assert(views(parts@)[3] == parts[3]@);
        let last = &parts[parts.len() - 1];
        assert(views(parts@).last() == last@);
        let number = segment_last(&parts[3], ':');
        match parse_u16(&number) {
            Some(port) => {
                let pid = match segment_at(last, '/', 0) {
                    Some(n) => parse_u32(&n),
                    None => None,
                };
                Some(
                    PortInfo {
                        port,
                        protocol: protocol_of(line),
                        status: PortStatus::Occupied,
                        process_name: string_of(segment_at(last, '/', 1)),
                        pid,
                    },
                )
            },
            None => None,
        }
    } else {
        None
    }
}

/// Reads one line of a Windows `netstat` listing.
pub fn read_netstat_windows_line(line: &Vec<char>) -> (r: Option<PortInfo>)
    ensures
        entry_of(r) == netstat_windows_entry(line@),
{
    let parts = split_words(line);
    if parts.len() >= 5 {
        assert(views(parts@)[0] == parts[0]@);
        assert(views(parts@)[1] == parts[1]@);
        let last = &parts[parts.len() - 1];
        assert(views(parts@).last() == last@);
        let protocol = if chars_eq_str(&parts[0], "TCP") {
            Protocol::Tcp
        } else if chars_eq_str(&parts[0], "UDP") {
            Protocol::Udp
        } else {
            return None;
        };
        let number = segment_last(&parts[1], ':');
        match parse_u16(&number) {
            Some(port) => Some(
                PortInfo {
                    port,
                    protocol,
                    status: PortStatus::Occupied,
                    process_name: None,
                    pid: parse_u32(last),
                },
            ),
            None => None,
        }
    } else {
        None
    }
}

/// Reads one line of the listing of `tool`.
pub fn read_line(tool: PortTool, line: &Vec<char>) -> (r: Option<PortInfo>)
    ensures
        entry_of(r) == tool_entry(tool, line@),
{
    match tool {
        PortTool::Lsof => read_lsof_line(line),
        PortTool::Ss => read_ss_line(line),
        PortTool::Netstat => read_netstat_line(line),
        PortTool::NetstatWindows => read_netstat_windows_line(line),
    }
}

/// Reads the entries of the listing of `tool`, line by line.
pub fn read_listing(tool: PortTool, output: &str) -> (r: Vec<PortInfo>)
    ensures
        port_views(r@) == listing_entries(tool, output@),
{
    let chars = str_chars(output);
    let ls = split_lines(&chars);
    let header: usize = match tool {
        PortTool::Lsof => 1,
        PortTool::Ss => 1,
        PortTool::Netstat => 2,
        PortTool::NetstatWindows => 4,
    };
    let ghost body = body_lines(views(ls@), header as nat);
    let mut out: Vec<PortInfo> = Vec::new();
    if ls.len() <= header {
        return out;
    }
    let mut i: usize = header;
    while i < ls.len()
        invariant
            header <= i <= ls.len(),
            body == views(ls@).skip(header as int),
            port_views(out@) == tool_entries(tool, body.take(i - header)),
        decreases ls.len() - i,
    {
        proof {
            assert(body.take(i - header + 1).drop_last() == body.take(i - header));
            assert(body.take(i - header + 1).last() == ls[i as int]@);
        }
        match read_line(tool, &ls[i]) {
            Some(e) => {
                let ghost before = port_views(out@);
                let ghost ev = e@;
                out.push(e);
                assert(port_views(out@) == before.push(ev));
            },
            None => {},
        }
        i += 1;
    }
    assert(body.take(ls.len() - header) == body);
    out
}

/// Drops every record that has the port of the record before it.
pub fn dedup_by_port(table: Vec<PortInfo>) -> (r: Vec<PortInfo>)
    ensures
        port_views(r@) == one_per_port(port_views(table@)),
{
    let ghost all = port_views(table@);
    let mut out: Vec<PortInfo> = Vec::new();
    let ghost mut n: int = 0;
    for e in it: table
        invariant
            n == it.index(),
            it.seq() == table@,
            all == port_views(table@),
            port_views(out@) == one_per_port(all.take(n)),
    {
        proof {
            assert(all.take(n + 1).drop_last() == all.take(n));
            assert(all.take(n + 1).last() == e@);
        }
        let repeated = out.len() > 0 && out[out.len() - 1].port == e.port;
        assert(out.len() > 0 ==> port_views(out@).last() == out[out.len() - 1]@);
        if !repeated {
            let ghost before = port_views(out@);
            let ghost ev = e@;
            out.push(e);
            assert(port_views(out@) == before.push(ev));
        }
        proof {
            n = n + 1;
        }
    }
    assert(all.take(n) == all);
    out
}

/// The ports of `[start, upto)` that the table does not list, ascending.
pub open spec fn free_ports_below(table: Seq<PortInfoView>, start: int, upto: int) -> Seq<u16>
    decreases upto - start,
{
    if upto <= start {
        Seq::<u16>::empty()
    } else {
        let rest = free_ports_below(table, start, upto - 1);
        if lists_port(table, (upto - 1) as u16) {
            rest
        } else {
            rest.push((upto - 1) as u16)
        }
    }
}

/// The first `count` ports of `[start, end]` that the table does not list.
pub open spec fn free_ports(table: Seq<PortInfoView>, start: u16, end: u16, count: nat) -> Seq<
    u16,
> {
    first_n(free_ports_below(table, start as int, end + 1), count)
}

/// Turns the output of the host's port-enumeration tool into port records.
#[derive(Debug, Clone, Copy)]
pub struct PortResolver {}

impl PortResolver {
    pub fn new() -> (r: Self) {
        PortResolver {  }
    }

    /// Reads the output of `lsof -i -P -n`. Of the entries with one port the
    /// table keeps the first; it is ordered by port.
    pub fn parse_lsof_output(&self, output: &str) -> (r: Vec<PortInfo>)
        ensures
            port_views(r@) == lsof_table(output@),
    {
        let entries = read_listing(PortTool::Lsof, output);
        let sorted = stable_sort(entries);
        assert(ranked_views(sorted@) == port_views(sorted@));
        assert(ranked_views(entries@) == port_views(entries@));
        dedup_by_port(sorted)
    }

    /// Reads the output of `ss -tulnp`.
    pub fn parse_ss_output(&self, output: &str) -> (r: Vec<PortInfo>)
        ensures
            port_views(r@) == listing_entries(PortTool::Ss, output@),
    {
        read_listing(PortTool::Ss, output)
    }

    /// Reads the output of `netstat -tulpn`.
    pub fn parse_netstat_output(&self, output: &str) -> (r: Vec<PortInfo>)
        ensures
            port_views(r@) == listing_entries(PortTool::Netstat, output@),
    {
        read_listing(PortTool::Netstat, output)
    }

    /// Reads the output of `netstat -ano`.
    pub fn parse_netstat_windows_output(&self, output: &str) -> (r: Vec<PortInfo>)
        ensures
            port_views(r@) == listing_entries(PortTool::NetstatWindows, output@),
    {
        read_listing(PortTool::NetstatWindows, output)
    }

    /// The port table from what the tool printed. `None` stands for a tool
    /// that is missing or that failed: the table is then empty.
    pub fn port_usage_from(&self, tool: PortTool, output: Option<&str>) -> (r: Vec<PortInfo>)
        ensures
            port_views(r@) == match output {
                Some(text) => port_table(tool, text@),
                None => Seq::<PortInfoView>::empty(),
            },
    {
        match output {
            Some(text) => match tool {
                PortTool::Lsof => self.parse_lsof_output(text),
                PortTool::Ss => self.parse_ss_output(text),
                PortTool::Netstat => self.parse_netstat_output(text),
                PortTool::NetstatWindows => self.parse_netstat_windows_output(text),
            },
            None => {
                let r: Vec<PortInfo> = Vec::new();
                assert(port_views(r@) == Seq::<PortInfoView>::empty());
                r
            },
        }
    }

    /// The first `count` ports of `[start, end]` that the port table
    /// `port_usage` does not list, ascending. The answer holds for the
    /// moment of the listing only.
    pub fn find_free_ports(&self, port_usage: &Vec<PortInfo>, start: u16, end: u16, count: usize)
        -> (r: Vec<u16>)
        ensures
            r@ == free_ports(port_views(port_usage@), start, end, count as nat),
            r.len() <= count,
    {
        let ghost table = port_views(port_usage@);
        let mut out: Vec<u16> = Vec::new();
        let mut port: u32 = start as u32;
        let limit: u32 = end as u32 + 1;
        if count == 0 {
            assert(free_ports(table, start, end, 0) == Seq::<u16>::empty());
            return out;
        }
        while port < limit
            invariant
                start <= port,
                port <= limit || (limit <= start && port == start),
                limit == end + 1,
                count > 0,
                table == port_views(port_usage@),
                out@ == free_ports_below(table, start as int, port as int),
                out.len() < count,
            decreases limit - port,
        {
            let p: u16 = port as u16;
            if !table_lists_port(port_usage, p) {
                out.push(p);
                if out.len() == count {
                    proof {
                        lemma_free_ports_prefix(table, start as int, port + 1, limit as int);
                        assert(free_ports_below(table, start as int, limit as int).take(
                            count as int,
                        ) == out@);
                    }
                    return out;
                }
            }
            port += 1;
        }
        assert(out@ == free_ports_below(table, start as int, limit as int)) by {
            if limit <= start {
                assert(port == start);
            } else {
                assert(port == limit);
            }
        }
        out
    }
}

/// The free ports below a bound are the first of the free ports below a
/// higher bound.
pub proof fn lemma_free_ports_prefix(table: Seq<PortInfoView>, start: int, mid: int, upto: int)
    requires
        start <= mid <= upto,
    ensures
        free_ports_below(table, start, mid).len() <= free_ports_below(table, start, upto).len(),
        free_ports_below(table, start, upto).take(
            free_ports_below(table, start, mid).len() as int,
        ) == free_ports_below(table, start, mid),
    decreases upto - mid,
{
    if mid < upto {
        lemma_free_ports_prefix(table, start, mid, upto - 1);
        let a = free_ports_below(table, start, mid);
        let b = free_ports_below(table, start, upto - 1);
        let c = free_ports_below(table, start, upto);
        assert(c.take(a.len() as int) == b.take(a.len() as int));
    } else {
        let a = free_ports_below(table, start, mid);
        assert(a.take(a.len() as int) == a);
    }
}

impl Default for PortResolver {
    fn default() -> (r: Self) {
        PortResolver::new()
    }
}

/// Every entry of a listing is an occupied port.
pub proof fn lemma_entries_are_occupied(tool: PortTool, ls: Seq<Seq<char>>, i: int)
    requires
        0 <= i < tool_entries(tool, ls).len(),
    ensures
        tool_entries(tool, ls)[i].status == PortStatus::Occupied,
    decreases ls.len(),
{
    if ls.len() > 0 {
        let rest = tool_entries(tool, ls.drop_last());
        if i < rest.len() {
            lemma_entries_are_occupied(tool, ls.drop_last(), i);
        }
    }
}

/// A listing gives one entry for each of its lines at most, and none for
/// its header.
pub proof fn lemma_entries_are_bounded(tool: PortTool, ls: Seq<Seq<char>>)
    ensures
        tool_entries(tool, ls).len() <= ls.len(),
    decreases ls.len(),
{
    if ls.len() > 0 {
        lemma_entries_are_bounded(tool, ls.drop_last());
    }
}

/// The ports of a list of records ascend strictly.
pub open spec fn ports_ascend(s: Seq<PortInfoView>) -> bool {
    forall|i: int, j: int| 0 <= i < j < s.len() ==> s[i].port < s[j].port
}

/// Dropping the repeated ports of a list ordered by port leaves a list whose
/// ports ascend strictly, and keeps every port of the list.
pub proof fn lemma_one_per_port_ascends(s: Seq<PortInfoView>)
    requires
        in_rank_order::<PortInfo>(s),
    ensures
        ports_ascend(one_per_port(s)),
        one_per_port(s).len() <= s.len(),
        s.len() > 0 ==> one_per_port(s).len() > 0 && one_per_port(s).last().port == s.last().port,
        forall|i: int| 0 <= i < s.len() ==> lists_port(one_per_port(s), (#[trigger] s[i]).port),
    decreases s.len(),
{
    if s.len() > 0 {
        let front = s.drop_last();
        assert(in_rank_order::<PortInfo>(front)) by {
            assert forall|i: int, j: int| 0 <= i < j < front.len() implies PortInfo::may_precede(
                front[i],
                front[j],
            ) by {
                assert(front[i] == s[i] && front[j] == s[j]);
            }
        }
        lemma_one_per_port_ascends(front);
        let rest = one_per_port(front);
        let all = one_per_port(s);
        if front.len() > 0 {
            assert(PortInfo::may_precede(s[front.len() - 1], s[s.len() - 1]));
            assert(front.last() == s[front.len() - 1]);
        }
        assert forall|i: int| 0 <= i < s.len() implies lists_port(all, (#[trigger] s[i]).port) by {
            if i < front.len() {
                assert(front[i] == s[i]);
                let k = choose|k: int| 0 <= k < rest.len() && (#[trigger] rest[k]).port == s[i].port;
                assert(all[k].port == s[i].port);
            } else {
                assert(all[all.len() - 1].port == s[i].port);
            }
        }
    }
}

/// The entries of a list that have this port, in order.
pub open spec fn with_port(s: Seq<PortInfoView>, port: u16) -> Seq<PortInfoView> {
    s.filter(|e: PortInfoView| e.port == port)
}

/// No entry of a list has a port that no entry of it lists.
pub proof fn lemma_with_port_of_unlisted(s: Seq<PortInfoView>, port: u16)
    requires
        !lists_port(s, port),
    ensures
        with_port(s, port).len() == 0,
    decreases s.len(),
{
    reveal(Seq::filter);
    if s.len() > 0 {
        assert(s[s.len() - 1].port != port);
        assert(!lists_port(s.drop_last(), port)) by {
            if lists_port(s.drop_last(), port) {
                let k = choose|k: int|
                    0 <= k < s.drop_last().len() && (#[trigger] s.drop_last()[k]).port == port;
                assert(s[k].port == port);
            }
        }
        lemma_with_port_of_unlisted(s.drop_last(), port);
    }
}

/// Of the entries with one port, dropping the repeated ports of a list
/// ordered by port keeps the one that the list has first.
pub proof fn lemma_one_per_port_keeps_first(s: Seq<PortInfoView>, i: int)
    requires
        in_rank_order::<PortInfo>(s),
        0 <= i < one_per_port(s).len(),
    ensures
        with_port(s, one_per_port(s)[i].port).len() > 0,
        one_per_port(s)[i] == with_port(s, one_per_port(s)[i].port)[0],
    decreases s.len(),
{
    reveal(Seq::filter);
    if s.len() > 0 {
        let front = s.drop_last();
        let rest = one_per_port(front);
        let kept = one_per_port(s);
        let port = kept[i].port;
        assert(in_rank_order::<PortInfo>(front)) by {
            assert forall|a: int, b: int| 0 <= a < b < front.len() implies PortInfo::may_precede(
                front[a],
                front[b],
            ) by {
                assert(front[a] == s[a] && front[b] == s[b]);
            }
        }
        lemma_one_per_port_ascends(front);
        if i < rest.len() {
            lemma_one_per_port_keeps_first(front, i);
            assert(kept[i] == rest[i]);
        } else {
            assert(kept[i] == s.last());
            if lists_port(front, port) {
                let k = choose|k: int| 0 <= k < front.len() && (#[trigger] front[k]).port == port;
                assert(PortInfo::may_precede(s[k], s[front.len() - 1]));
                assert(PortInfo::may_precede(s[front.len() - 1], s[s.len() - 1]));
                assert(front.last() == s[front.len() - 1]);
                assert(front[k] == s[k]);
                assert(rest.last().port == port);
            }
            lemma_with_port_of_unlisted(front, port);
        }
    }
}

/// Each entry of the table of an `lsof` listing is, of the entries of the
/// listing with its port, the one that the listing has first.
pub proof fn lemma_lsof_table_keeps_first(text: Seq<char>, i: int)
    requires
        0 <= i < lsof_table(text).len(),
    ensures
        with_port(listing_entries(PortTool::Lsof, text), lsof_table(text)[i].port).len() > 0,
        lsof_table(text)[i] == with_port(
            listing_entries(PortTool::Lsof, text),
            lsof_table(text)[i].port,
        )[0],
{
    let entries = listing_entries(PortTool::Lsof, text);
    let order = ranked::<PortInfo>(entries);
    let port = lsof_table(text)[i].port;
    lemma_ranked_in_rank_order::<PortInfo>(entries);
    lemma_one_per_port_keeps_first(order, i);
    lemma_ranked_is_stable::<PortInfo>(entries, |e: PortInfoView| e.port == port);
}

/// The table of an `lsof` listing names each port once, in ascending order.
pub proof fn lemma_lsof_table_ascends(text: Seq<char>)
    ensures
        ports_ascend(lsof_table(text)),
{
    let entries = listing_entries(PortTool::Lsof, text);
    lemma_ranked_in_rank_order::<PortInfo>(entries);
    lemma_one_per_port_ascends(ranked::<PortInfo>(entries));
}

/// The free ports below a bound lie in the range, are not listed, ascend
/// strictly, and none that is free is left out.
pub proof fn lemma_free_ports_below(table: Seq<PortInfoView>, start: int, upto: int)
    requires
        0 <= start,
        upto <= 65536,
    ensures
        forall|i: int|
            0 <= i < free_ports_below(table, start, upto).len() ==> start <= (
            #[trigger] free_ports_below(table, start, upto)[i]) < upto && !lists_port(
                table,
                free_ports_below(table, start, upto)[i],
            ),
        forall|i: int, j: int|
            0 <= i < j < free_ports_below(table, start, upto).len() ==> free_ports_below(
                table,
                start,
                upto,
            )[i] < free_ports_below(table, start, upto)[j],
        forall|p: u16|
            start <= p < upto && !lists_port(table, p) ==> free_ports_below(
                table,
                start,
                upto,
            ).contains(p),
    decreases upto - start,
{
    if upto > start {
        lemma_free_ports_below(table, start, upto - 1);
        let rest = free_ports_below(table, start, upto - 1);
        let all = free_ports_below(table, start, upto);
        assert forall|p: u16| start <= p < upto && !lists_port(table, p) implies all.contains(
            p,
        ) by {
            if p < upto - 1 {
                assert(rest.contains(p));
                let k = choose|k: int| 0 <= k < rest.len() && rest[k] == p;
                assert(all[k] == p);
            } else {
                assert(all[all.len() - 1] == p);
            }
        }
    }
}

/// What `find_free_ports` returns: ports of the range that the table does
/// not list, in strictly ascending order, at most `count` of them; and a free
/// port of the range is missing only where `count` ports came before it.
pub proof fn lemma_free_ports(table: Seq<PortInfoView>, start: u16, end: u16, count: nat)
    ensures
        free_ports(table, start, end, count).len() <= count,
        forall|i: int|
            0 <= i < free_ports(table, start, end, count).len() ==> start <= (
            #[trigger] free_ports(table, start, end, count)[i]) <= end && !lists_port(
                table,
                free_ports(table, start, end, count)[i],
            ),
        forall|i: int, j: int|
            0 <= i < j < free_ports(table, start, end, count).len() ==> free_ports(
                table,
                start,
                end,
                count,
            )[i] < free_ports(table, start, end, count)[j],
        forall|p: u16|
            start <= p <= end && !lists_port(table, p) && !free_ports(
                table,
                start,
                end,
                count,
            ).contains(p) ==> free_ports(table, start, end, count).len() == count && (count > 0
                ==> free_ports(table, start, end, count).last() < p),
{
    let whole = free_ports_below(table, start as int, end + 1);
    let got = free_ports(table, start, end, count);
    lemma_free_ports_below(table, start as int, end + 1);
    assert forall|i: int| 0 <= i < got.len() implies start <= (#[trigger] got[i]) <= end
        && !lists_port(table, got[i]) by {
        assert(got[i] == whole[i]);
    }
    assert forall|i: int, j: int| 0 <= i < j < got.len() implies got[i] < got[j] by {
        assert(got[i] == whole[i] && got[j] == whole[j]);
    }
    assert forall|p: u16|
        start <= p <= end && !lists_port(table, p) && !got.contains(p) implies got.len() == count
        && (count > 0 ==> got.last() < p) by {
        assert(whole.contains(p));
        let k = choose|k: int| 0 <= k < whole.len() && whole[k] == p;
        if k < got.len() {
            assert(got[k] == p);
        }
        if count > 0 {
            assert(got.last() == whole[count - 1]);
        }
    }
}

} // verus!
