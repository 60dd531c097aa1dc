//! The audit trail: what kind of thing was done, and how the trail is
//! listed and exported.

use vstd::prelude::*;
use crate::models::service::text_of;
use crate::text::chars::{str_chars, string_from_chars, views};
use crate::text::split::{extend_chars, lines, split_lines};

verus! {

#[derive(Debug, Clone, Copy, PartialEq, Eq, Structural)]
pub enum EventType {
    ServiceStart,
    ServiceStop,
    ServiceRestart,
    ProcessKill,
    ConfigChange,
    PrivilegeEscalation,
    LlmAnalysis,
    PortScan,
}

/// The name of a kind of event, as an export writes it.
pub open spec fn event_label(kind: EventType) -> Seq<char> {
    match kind {
        EventType::ServiceStart => "ServiceStart"@,
        EventType::ServiceStop => "ServiceStop"@,
        EventType::ServiceRestart => "ServiceRestart"@,
        EventType::ProcessKill => "ProcessKill"@,
        EventType::ConfigChange => "ConfigChange"@,
        EventType::PrivilegeEscalation => "PrivilegeEscalation"@,
        EventType::LlmAnalysis => "LlmAnalysis"@,
        EventType::PortScan => "PortScan"@,
    }
}

impl EventType {
    pub fn label(&self) -> (r: &'static str)
        ensures
            r@ == event_label(*self),
    {
        match self {
            EventType::ServiceStart => "ServiceStart",
            EventType::ServiceStop => "ServiceStop",
            EventType::ServiceRestart => "ServiceRestart",
            EventType::ProcessKill => "ProcessKill",
            EventType::ConfigChange => "ConfigChange",
            EventType::PrivilegeEscalation => "PrivilegeEscalation",
            EventType::LlmAnalysis => "LlmAnalysis",
            EventType::PortScan => "PortScan",
        }
    }
}

/// What an entry of the audit trail says of an operation. The logger adds
/// the id of the entry, the time and the user.
#[derive(Debug)]
pub struct AuditDraft {
    pub event_type: EventType,
    pub operation: String,
    pub service_id: Option<String>,
    pub success: bool,
    pub error_message: Option<String>,
}

pub ghost struct AuditDraftView {
    pub event_type: EventType,
    pub operation: Seq<char>,
    pub service_id: Option<Seq<char>>,
    pub success: bool,
    pub error_message: Option<Seq<char>>,
}

impl View for AuditDraft {
    type V = AuditDraftView;

    open spec fn view(&self) -> AuditDraftView {
        AuditDraftView {
            event_type: self.event_type,
            operation: self.operation@,
            service_id: text_of(self.service_id),
            success: self.success,
            error_message: text_of(self.error_message),
        }
    }
}

impl AuditDraft {
    /// The entry for an operation that succeeded and concerns no service.
    pub fn new(event_type: EventType, operation: String) -> (r: Self)
        ensures
            r@ == (AuditDraftView {
                event_type,
                operation: operation@,
                service_id: None,
                success: true,
                error_message: None,
            }),
    {
        AuditDraft { event_type, operation, service_id: None, success: true, error_message: None }
    }

    /// The entry for an operation on a service, with its outcome.
    pub fn service_event(
        event_type: EventType,
        service_id: &str,
        operation: &str,
        success: bool,
        error: Option<&str>,
    ) -> (r: Self)
        ensures
            r@ == (AuditDraftView {
                event_type,
                operation: operation@,
                service_id: Some(service_id@),
                success,
                error_message: match error {
                    Some(e) => Some(e@),
                    None => None,
                },
            }),
    {
        AuditDraft {
            event_type,
            operation: operation.to_string(),
            service_id: Some(service_id.to_string()),
            success,
            error_message: match error {
                Some(e) => Some(e.to_string()),
                None => None,
            },
        }
    }
}

/// One entry of the audit trail as an export needs it; the time is already
/// written out.
#[derive(Debug)]
pub struct AuditRow {
    pub timestamp: String,
    pub event_type: EventType,
    pub user: String,
    pub operation: String,
    pub service_id: Option<String>,
    pub success: bool,
    pub error_message: Option<String>,
}

pub ghost struct AuditRowView {
    pub timestamp: Seq<char>,
    pub event_type: EventType,
    pub user: Seq<char>,
    pub operation: Seq<char>,
    pub service_id: Option<Seq<char>>,
    pub success: bool,
    pub error_message: Option<Seq<char>>,
}

impl View for AuditRow {
    type V = AuditRowView;

    open spec fn view(&self) -> AuditRowView {
        AuditRowView {
            timestamp: self.timestamp@,
            event_type: self.event_type,
            user: self.user@,
            operation: self.operation@,
            service_id: text_of(self.service_id),
            success: self.success,
            error_message: text_of(self.error_message),
        }
    }
}

pub open spec fn row_views(rows: Seq<AuditRow>) -> Seq<AuditRowView> {
    Seq::new(rows.len(), |i: int| rows[i]@)
}

/// The text of an optional field; empty where the field is absent.
pub open spec fn or_empty(t: Option<Seq<char>>) -> Seq<char> {
    match t {
        Some(s) => s,
        None => Seq::<char>::empty(),
    }
}

/// The header line of a CSV export.
pub open spec fn csv_header() -> Seq<char> {
    "timestamp,event_type,user,operation,service_id,success,error_message\n"@
}

/// One line of a CSV export: the fields of a row with commas between them.
/// The fields are written as they are.
pub open spec fn csv_line(row: AuditRowView) -> Seq<char> {
    row.timestamp + ","@ + event_label(row.event_type) + ","@ + row.user + ","@ + row.operation
        + ","@ + or_empty(row.service_id) + ","@ + (if row.success {
        "true"@
    } else {
        "false"@
    }) + ","@ + or_empty(row.error_message) + "\n"@
}

/// The lines of the rows, one after the other.
pub open spec fn csv_body(rows: Seq<AuditRowView>) -> Seq<char>
    decreases rows.len(),
{
    if rows.len() == 0 {
        Seq::<char>::empty()
    } else {
        csv_body(rows.drop_last()) + csv_line(rows.last())
    }
}

/// Appends a text to `out`.
fn push_text(out: &mut Vec<char>, text: &str)
    ensures
        final(out)@ == old(out)@ + text@,
{
    let chars = str_chars(text);
    extend_chars(out, &chars);
}

/// Appends the text of an optional field to `out`.
fn push_field(out: &mut Vec<char>, field: &Option<String>)
    ensures
        final(out)@ == old(out)@ + or_empty(text_of(*field)),
{
    match field {
        Some(text) => push_text(out, text.as_str()),
        None => {
            assert(out@ == out@ + Seq::<char>::empty());
        },
    }
}

/// One line of a CSV export.
pub fn csv_line_chars(row: &AuditRow) -> (r: Vec<char>)
    ensures
        r@ == csv_line(row@),
{
    let mut out = str_chars(row.timestamp.as_str());
    push_text(&mut out, ",");
    push_text(&mut out, row.event_type.label());
    push_text(&mut out, ",");
    push_text(&mut out, row.user.as_str());
    push_text(&mut out, ",");
    push_text(&mut out, row.operation.as_str());
    push_text(&mut out, ",");
    push_field(&mut out, &row.service_id);
    push_text(&mut out, ",");
    push_text(
        &mut out,
        if row.success {
            "true"
        } else {
            "false"
        },
    );
    push_text(&mut out, ",");
    push_field(&mut out, &row.error_message);
    push_text(&mut out, "\n");
    out
}

/// The audit trail as CSV: the header line, then one line for each row.
pub fn export_csv(rows: &Vec<AuditRow>) -> (r: String)
    ensures
        r@ == csv_header() + csv_body(row_views(rows@)),
{
    let ghost all = row_views(rows@);
    let mut out = str_chars("timestamp,event_type,user,operation,service_id,success,error_message\n");
    let mut i: usize = 0;
    assert(out@ == csv_header() + csv_body(all.take(0)));
    while i < rows.len()
        invariant
            i <= rows.len(),
            all == row_views(rows@),
            out@ == csv_header() + csv_body(all.take(i as int)),
        decreases rows.len() - i,
    {
        proof {
            assert(all.take(i + 1).drop_last() == all.take(i as int));
            assert(all.take(i + 1).last() == rows[i as int]@);
        }
        let line = csv_line_chars(&rows[i]);
        extend_chars(&mut out, &line);
        assert(out@ == csv_header() + (csv_body(all.take(i as int)) + line@));
        i += 1;
    }
    assert(all.take(rows.len() as int) == all);
    string_from_chars(&out)
}

/// The last `limit` items of `s`, the last one first.
pub open spec fn newest_first<A>(s: Seq<A>, limit: nat) -> Seq<A> {
    let n = if s.len() <= limit {
        s.len()
    } else {
        limit
    };
    Seq::new(n, |i: int| s[s.len() - 1 - i])
}

/// The last `limit` lines of the trail's file, the newest first.
pub fn recent_lines(content: &str, limit: usize) -> (r: Vec<String>)
    ensures
        crate::text::chars::string_views(r@) == newest_first(lines(content@), limit as nat),
{
    let chars = str_chars(content);
    let ls = split_lines(&chars);
    let ghost all = views(ls@);
    let ghost want = newest_first(all, limit as nat);
    let n: usize = if ls.len() <= limit {
        ls.len()
    } else {
        limit
    };
    let mut out: Vec<String> = Vec::new();
    let mut i: usize = 0;
    while i < n
        invariant
            i <= n,
            n <= ls.len(),
            n == want.len(),
            all == views(ls@),
            want == newest_first(all, limit as nat),
            crate::text::chars::string_views(out@) == want.take(i as int),
        decreases n - i,
    {
        let ghost before = crate::text::chars::string_views(out@);
        let line = string_from_chars(&ls[ls.len() - 1 - i]);
        out.push(line);
        assert(crate::text::chars::string_views(out@) == before.push(want[i as int]));
        i += 1;
    }
    assert(want.take(n as int) == want);
    out
}

/// How many entries a listing of the trail shows where no number is asked for.
pub const DEFAULT_AUDIT_LIMIT: u32 = 100;

/// How many entries an export of the trail holds at most.
pub const EXPORT_AUDIT_LIMIT: usize = 10000;

/// The number of entries to list.
pub fn listing_limit(limit: Option<u32>) -> (r: usize)
    ensures
        r == match limit {
            Some(n) => n as usize,
            None => DEFAULT_AUDIT_LIMIT as usize,
        },
{
    match limit {
        Some(n) => n as usize,
        None => DEFAULT_AUDIT_LIMIT as usize,
    }
}

} // verus!
