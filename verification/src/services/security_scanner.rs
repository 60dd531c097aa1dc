//! The security audit: a fixed set of rules over a snapshot and the port table.

use vstd::prelude::*;
use crate::models::port::{
    listed_before, lists_port, port_views, ports_contain, rows_before, table_lists_port, PortInfo,
    PortInfoView,
};
use crate::models::service::{copy_text, service_views, text_of, Service, ServiceView};
use crate::services::port::resolver::PortResolver;
use crate::text::case::{lowercase, to_lowercase};
use crate::text::chars::{chars_eq, chars_eq_str, str_chars};
use crate::text::compose::{
    str_contains, str_starts_with, text_around_number, text_pair, text_with_number,
};
use crate::text::number::{decimal, decimal_chars};
use crate::text::chars::views;
use crate::text::search::{
    before_last, contains_text, has_prefix, split_before, split_before_last, text_before, trim,
    trimmed,
};
use crate::text::split::{last_segment, lines, segment_last, split_lines, split_words, words};

verus! {

/// How grave an issue is. `Critical` is the gravest, `Info` the least grave.
#[derive(Debug, Clone, Copy, PartialEq, Eq, Structural)]
pub enum SecuritySeverity {
    Critical,
    High,
    Medium,
    Low,
    Info,
}

/// The place of a severity in the order from the least grave (0) upward.
pub open spec fn severity_rank(s: SecuritySeverity) -> nat {
    match s {
        SecuritySeverity::Critical => 4,
        SecuritySeverity::High => 3,
        SecuritySeverity::Medium => 2,
        SecuritySeverity::Low => 1,
        SecuritySeverity::Info => 0,
    }
}

/// The severities stand in one line: no two share a place, and `Critical`
/// stands above `High`, `High` above `Medium`, `Medium` above `Low`, `Low`
/// above `Info`.
pub proof fn lemma_severity_order_is_total(a: SecuritySeverity, b: SecuritySeverity)
    ensures
        (severity_rank(a) == severity_rank(b)) == (a == b),
        severity_rank(a) >= severity_rank(b) || severity_rank(b) >= severity_rank(a),
        severity_rank(SecuritySeverity::Critical) > severity_rank(SecuritySeverity::High),
        severity_rank(SecuritySeverity::High) > severity_rank(SecuritySeverity::Medium),
        severity_rank(SecuritySeverity::Medium) > severity_rank(SecuritySeverity::Low),
        severity_rank(SecuritySeverity::Low) > severity_rank(SecuritySeverity::Info),
{
}

impl SecuritySeverity {
    /// The place of this severity in the order from the least grave upward.
    pub fn rank(&self) -> (r: u8)
        ensures
            r == severity_rank(*self),
    {
        match self {
            SecuritySeverity::Critical => 4,
            SecuritySeverity::High => 3,
            SecuritySeverity::Medium => 2,
            SecuritySeverity::Low => 1,
            SecuritySeverity::Info => 0,
        }
    }

    /// Whether this severity is at least as grave as `other`.
    pub fn at_least(&self, other: &SecuritySeverity) -> (r: bool)
        ensures
            r == (severity_rank(*self) >= severity_rank(*other)),
    {
        self.rank() >= other.rank()
    }
}

#[derive(Debug, Clone, Copy, PartialEq, Eq, Structural)]
pub enum SecurityCategory {
    UnencryptedConnection,
    PublicExposure,
    DefaultCredentials,
    OutdatedSoftware,
    MissingAuthentication,
    InsecureConfiguration,
    PrivilegeEscalation,
    DataLeakage,
}

#[derive(Debug)]
pub struct SecurityIssue {
    pub id: String,
    pub service_id: Option<String>,
    pub service_name: Option<String>,
    pub category: SecurityCategory,
    pub severity: SecuritySeverity,
    pub title: String,
    pub description: String,
    pub recommendation: String,
    pub port: Option<u16>,
    pub details: Option<String>,
}

/// What an issue says, as mathematical values.
pub ghost struct SecurityIssueView {
    pub id: Seq<char>,
    pub service_id: Option<Seq<char>>,
    pub service_name: Option<Seq<char>>,
    pub category: SecurityCategory,
    pub severity: SecuritySeverity,
    pub title: Seq<char>,
    pub description: Seq<char>,
    pub recommendation: Seq<char>,
    pub port: Option<u16>,
    pub details: Option<Seq<char>>,
}

impl View for SecurityIssue {
    type V = SecurityIssueView;

    open spec fn view(&self) -> SecurityIssueView {
        SecurityIssueView {
            id: self.id@,
            service_id: text_of(self.service_id),
            service_name: text_of(self.service_name),
            category: self.category,
            severity: self.severity,
            title: self.title@,
            description: self.description@,
            recommendation: self.recommendation@,
            port: self.port,
            details: text_of(self.details),
        }
    }
}

/// What a list of issues says.
pub open spec fn issue_views(s: Seq<SecurityIssue>) -> Seq<SecurityIssueView> {
    Seq::new(s.len(), |i: int| s[i]@)
}

#[derive(Debug)]
pub struct SecurityScanResult {
    pub issues: Vec<SecurityIssue>,
    pub scan_timestamp: u64,
    pub services_scanned: usize,
    pub ports_scanned: usize,
    pub critical_count: usize,
    pub high_count: usize,
    pub medium_count: usize,
    pub low_count: usize,
}

/// The ports whose protocols are unencrypted or unauthenticated by default,
/// in the order in which the audit reports them.
pub open spec fn insecure_port_table() -> Seq<u16> {
    seq![
        21u16,
        23u16,
        25u16,
        69u16,
        80u16,
        110u16,
        143u16,
        161u16,
        389u16,
        445u16,
        512u16,
        513u16,
        514u16,
        1433u16,
        1521u16,
        3306u16,
        5432u16,
        6379u16,
        11211u16,
        27017u16,
    ]
}

/// The protocol or product that usually listens on a port of the table.
pub open spec fn insecure_label(port: u16) -> Seq<char> {
    if port == 21 {
        "FTP"@
    } else if port == 23 {
        "Telnet"@
    } else if port == 25 {
        "SMTP"@
    } else if port == 69 {
        "TFTP"@
    } else if port == 80 {
        "HTTP"@
    } else if port == 110 {
        "POP3"@
    } else if port == 143 {
        "IMAP"@
    } else if port == 161 {
        "SNMP"@
    } else if port == 389 {
        "LDAP"@
    } else if port == 445 {
        "SMB"@
    } else if port == 512 {
        "rexec"@
    } else if port == 513 {
        "rlogin"@
    } else if port == 514 {
        "rsh"@
    } else if port == 1433 {
        "MSSQL"@
    } else if port == 1521 {
        "Oracle"@
    } else if port == 3306 {
        "MySQL"@
    } else if port == 5432 {
        "PostgreSQL"@
    } else if port == 6379 {
        "Redis"@
    } else if port == 11211 {
        "Memcached"@
    } else if port == 27017 {
        "MongoDB"@
    } else {
        ""@
    }
}

/// Why an open port of the table is a concern.
pub open spec fn insecure_note(port: u16) -> Seq<char> {
    if port == 21 {
        "FTP überträgt Daten unverschlüsselt, inkl. Passwörter"@
    } else if port == 23 {
        "Telnet ist unverschlüsselt, verwende SSH stattdessen"@
    } else if port == 25 {
        "SMTP ohne TLS überträgt E-Mails unverschlüsselt"@
    } else if port == 69 {
        "TFTP hat keine Authentifizierung"@
    } else if port == 80 {
        "HTTP ist unverschlüsselt, verwende HTTPS"@
    } else if port == 110 {
        "POP3 ohne TLS überträgt E-Mails unverschlüsselt"@
    } else if port == 143 {
        "IMAP ohne TLS überträgt E-Mails unverschlüsselt"@
    } else if port == 161 {
        "SNMP v1/v2 hat schwache Authentifizierung"@
    } else if port == 389 {
        "LDAP ohne TLS überträgt Verzeichnisdaten unverschlüsselt"@
    } else if port == 445 {
        "SMB kann für Angriffe missbraucht werden"@
    } else if port == 512 {
        "Remote Execution ohne starke Authentifizierung"@
    } else if port == 513 {
        "Remote Login ist unsicher, verwende SSH"@
    } else if port == 514 {
        "Remote Shell ist unsicher, verwende SSH"@
    } else if port == 1433 || port == 1521 || port == 3306 || port == 5432 {
        "Datenbank sollte nicht öffentlich erreichbar sein"@
    } else if port == 6379 {
        "Redis hat oft keine Authentifizierung"@
    } else if port == 11211 {
        "Memcached hat keine Authentifizierung"@
    } else if port == 27017 {
        "MongoDB sollte nicht öffentlich erreichbar sein"@
    } else {
        ""@
    }
}

/// The ports on which databases and caches listen.
pub open spec fn is_database_port(port: u16) -> bool {
    port == 1433 || port == 1521 || port == 3306 || port == 5432 || port == 6379 || port == 11211
        || port == 27017 || port == 5984 || port == 9200 || port == 9300
}

/// How grave an open port is: critical for the legacy remote-access ports,
/// high for the file transfer ports, medium for the common unencrypted
/// application ports, low for every other port.
pub open spec fn port_severity(port: u16) -> SecuritySeverity {
    if port == 23 || port == 512 || port == 513 || port == 514 {
        SecuritySeverity::Critical
    } else if port == 21 || port == 69 {
        SecuritySeverity::High
    } else if port == 80 || port == 110 || port == 143 || port == 389 || port == 25 || port == 161
        || port == 445 {
        SecuritySeverity::Medium
    } else {
        SecuritySeverity::Low
    }
}

/// What to do about an open port.
pub open spec fn port_recommendation(port: u16) -> Seq<char> {
    if port == 21 {
        "Verwende SFTP (Port 22) statt FTP"@
    } else if port == 23 {
        "Verwende SSH (Port 22) statt Telnet"@
    } else if port == 25 {
        "Aktiviere STARTTLS oder verwende Port 587 mit TLS"@
    } else if port == 80 {
        "Aktiviere HTTPS und leite HTTP auf HTTPS um"@
    } else if port == 110 {
        "Verwende POP3S (Port 995) mit TLS"@
    } else if port == 143 {
        "Verwende IMAPS (Port 993) mit TLS"@
    } else if port == 389 {
        "Verwende LDAPS (Port 636) mit TLS"@
    } else if port == 445 {
        "Beschränke SMB-Zugriff auf lokales Netzwerk"@
    } else if is_database_port(port) {
        "Binde Datenbank an localhost und verwende SSH-Tunnel für Remote-Zugriff"@
    } else {
        "Prüfe ob dieser Port wirklich öffentlich erreichbar sein muss"@
    }
}

/// The first record that lists this port.
pub open spec fn first_with_port(services: Seq<ServiceView>, port: u16) -> Option<ServiceView>
    decreases services.len(),
{
    if services.len() == 0 {
        None
    } else if services[0].ports.contains(port) {
        Some(services[0])
    } else {
        first_with_port(services.skip(1), port)
    }
}

pub open spec fn id_of(s: Option<ServiceView>) -> Option<Seq<char>> {
    match s {
        Some(r) => Some(r.id),
        None => None,
    }
}

pub open spec fn name_of(s: Option<ServiceView>) -> Option<Seq<char>> {
    match s {
        Some(r) => Some(r.name),
        None => None,
    }
}

/// The issue for an open port of the insecure-port table.
pub open spec fn port_issue(port: u16, services: Seq<ServiceView>) -> SecurityIssueView {
    SecurityIssueView {
        id: "port-"@ + decimal(port as nat),
        service_id: id_of(first_with_port(services, port)),
        service_name: name_of(first_with_port(services, port)),
        category: SecurityCategory::UnencryptedConnection,
        severity: port_severity(port),
        title: insecure_label(port) + " Port "@ + decimal(port as nat) + " ist offen"@,
        description: insecure_note(port),
        recommendation: port_recommendation(port),
        port: Some(port),
        details: None,
    }
}

/// One issue for each of the listed ports that is open, in their order.
pub open spec fn port_issues_for(
    ports: Seq<u16>,
    table: Seq<PortInfoView>,
    services: Seq<ServiceView>,
) -> Seq<SecurityIssueView>
    decreases ports.len(),
{
    if ports.len() == 0 {
        Seq::<SecurityIssueView>::empty()
    } else {
        let rest = port_issues_for(ports.drop_last(), table, services);
        if lists_port(table, ports.last()) {
            rest.push(port_issue(ports.last(), services))
        } else {
            rest
        }
    }
}

/// The issue for a database port that is bound to a public address.
pub open spec fn exposure_issue(entry: PortInfoView, services: Seq<ServiceView>)
    -> SecurityIssueView {
    SecurityIssueView {
        id: "public-db-"@ + decimal(entry.port as nat),
        service_id: id_of(first_with_port(services, entry.port)),
        service_name: entry.process_name,
        category: SecurityCategory::PublicExposure,
        severity: SecuritySeverity::Critical,
        title: "Datenbank auf Port "@ + decimal(entry.port as nat) + " ist öffentlich erreichbar"@,
        description: "Datenbanken sollten nicht von außen erreichbar sein"@,
        recommendation:
            "Binde die Datenbank an localhost (127.0.0.1) oder verwende eine Firewall"@,
        port: Some(entry.port),
        details: entry.process_name,
    }
}

/// Whether a row of the port table gives an exposure issue: its port is a
/// database port, is among the publicly bound ports, and stands in no row
/// before it. `before` are the rows before it.
pub open spec fn exposes(row: PortInfoView, before: Seq<PortInfoView>, public_ports: Seq<u16>)
    -> bool {
    is_database_port(row.port) && public_ports.contains(row.port) && !lists_port(
        before,
        row.port,
    )
}

/// One issue for each database port of the port table that is among the
/// publicly bound ports: for the row that names the port first, in table
/// order. A port that the table names in several rows has one issue.
pub open spec fn exposure_issues(
    table: Seq<PortInfoView>,
    public_ports: Seq<u16>,
    services: Seq<ServiceView>,
) -> Seq<SecurityIssueView>
    decreases table.len(),
{
    if table.len() == 0 {
        Seq::<SecurityIssueView>::empty()
    } else {
        let rest = exposure_issues(table.drop_last(), public_ports, services);
        if exposes(table.last(), table.drop_last(), public_ports) {
            rest.push(exposure_issue(table.last(), services))
        } else {
            rest
        }
    }
}

pub open spec fn redis_issue(s: ServiceView) -> SecurityIssueView {
    SecurityIssueView {
        id: "redis-auth-"@ + s.id,
        service_id: Some(s.id),
        service_name: Some(s.name),
        category: SecurityCategory::MissingAuthentication,
        severity: SecuritySeverity::High,
        title: "Redis möglicherweise ohne Authentifizierung"@,
        description: "Redis hat standardmäßig keine Passwort-Authentifizierung"@,
        recommendation: "Setze ein Passwort mit 'requirepass' in redis.conf"@,
        port: Some(6379u16),
        details: None,
    }
}

pub open spec fn mongo_issue(s: ServiceView) -> SecurityIssueView {
    SecurityIssueView {
        id: "mongo-auth-"@ + s.id,
        service_id: Some(s.id),
        service_name: Some(s.name),
        category: SecurityCategory::MissingAuthentication,
        severity: SecuritySeverity::High,
        title: "MongoDB möglicherweise ohne Authentifizierung"@,
        description: "MongoDB hat standardmäßig keine Authentifizierung aktiviert"@,
        recommendation: "Aktiviere Authentifizierung mit --auth Flag"@,
        port: Some(27017u16),
        details: None,
    }
}

pub open spec fn first_port(ports: Seq<u16>) -> Option<u16> {
    if ports.len() > 0 {
        Some(ports[0])
    } else {
        None
    }
}

pub open spec fn elastic_issue(s: ServiceView) -> SecurityIssueView {
    SecurityIssueView {
        id: "elastic-auth-"@ + s.id,
        service_id: Some(s.id),
        service_name: Some(s.name),
        category: SecurityCategory::MissingAuthentication,
        severity: SecuritySeverity::Medium,
        title: "Elasticsearch Security prüfen"@,
        description: "Elasticsearch X-Pack Security sollte aktiviert sein"@,
        recommendation: "Aktiviere X-Pack Security für Authentifizierung und TLS"@,
        port: first_port(s.ports),
        details: None,
    }
}

/// The Redis rule applies to a service with this lower-case name, whatever
/// its ports.
pub open spec fn redis_applies_to(lower_name: Seq<char>) -> bool {
    contains_text(lower_name, "redis"@)
}

/// The MongoDB rule applies to a service with this lower-case name, whatever
/// its ports.
pub open spec fn mongo_applies_to(lower_name: Seq<char>) -> bool {
    contains_text(lower_name, "mongodb"@)
}

/// The Elasticsearch rule applies to a service with this lower-case name.
pub open spec fn elastic_applies_to(lower_name: Seq<char>) -> bool {
    contains_text(lower_name, "elasticsearch"@)
}

/// The Redis rule applies to a service: by its name alone, whatever its case.
pub open spec fn redis_applies(s: ServiceView) -> bool {
    redis_applies_to(lowercase(s.name))
}

/// The MongoDB rule applies to a service: by its name alone, whatever its case.
pub open spec fn mongo_applies(s: ServiceView) -> bool {
    mongo_applies_to(lowercase(s.name))
}

/// The Elasticsearch rule applies to a service: by its name alone, whatever
/// its case.
pub open spec fn elastic_applies(s: ServiceView) -> bool {
    elastic_applies_to(lowercase(s.name))
}

/// The issues of a service whose lower-case name is `lower_name` under the
/// rules for software that is insecure by default.
pub open spec fn issues_by_lower_name(lower_name: Seq<char>, s: ServiceView) -> Seq<
    SecurityIssueView,
> {
    (if redis_applies_to(lower_name) {
        seq![redis_issue(s)]
    } else {
        Seq::<SecurityIssueView>::empty()
    }) + (if mongo_applies_to(lower_name) {
        seq![mongo_issue(s)]
    } else {
        Seq::<SecurityIssueView>::empty()
    }) + (if elastic_applies_to(lower_name) {
        seq![elastic_issue(s)]
    } else {
        Seq::<SecurityIssueView>::empty()
    })
}

/// The issues of one service under the rules for software that is insecure
/// by default. They do not depend on what the port rules found.
pub open spec fn service_issues(s: ServiceView) -> Seq<SecurityIssueView> {
    issues_by_lower_name(lowercase(s.name), s)
}

pub open spec fn software_issues(services: Seq<ServiceView>) -> Seq<SecurityIssueView>
    decreases services.len(),
{
    if services.len() == 0 {
        Seq::<SecurityIssueView>::empty()
    } else {
        software_issues(services.drop_last()) + service_issues(services.last())
    }
}

/// A lower-case name that begins like the name of a service of the system
/// itself.
pub open spec fn has_system_prefix(lower: Seq<char>) -> bool {
    has_prefix(lower, "com.apple."@) || has_prefix(lower, "systemd"@) || has_prefix(
        lower,
        "launchd"@,
    ) || has_prefix(lower, "kernel"@) || has_prefix(lower, "init"@)
}

/// A service of the system itself, by the start of its lower-case name.
pub open spec fn is_system_name(name: Seq<char>) -> bool {
    has_system_prefix(lowercase(name))
}

/// What the owner query printed for `pid`: the text of the first answer for it.
pub open spec fn owner_of(owners: Seq<(u32, String)>, pid: u32) -> Option<Seq<char>>
    decreases owners.len(),
{
    if owners.len() == 0 {
        None
    } else if owners[0].0 == pid {
        Some(owners[0].1@)
    } else {
        owner_of(owners.skip(1), pid)
    }
}

/// The service runs as the superuser and is no service of the system itself.
pub open spec fn runs_as_root(s: ServiceView, owners: Seq<(u32, String)>) -> bool {
    match s.pid {
        Some(pid) => match owner_of(owners, pid) {
            Some(text) => trimmed(text) == "root"@ && !is_system_name(s.name),
            None => false,
        },
        None => false,
    }
}

pub open spec fn root_issue(s: ServiceView) -> SecurityIssueView {
    SecurityIssueView {
        id: "root-"@ + s.id,
        service_id: Some(s.id),
        service_name: Some(s.name),
        category: SecurityCategory::PrivilegeEscalation,
        severity: SecuritySeverity::Medium,
        title: s.name + " läuft als root"@,
        description: "Services sollten mit minimalen Rechten laufen"@,
        recommendation: "Erstelle einen dedizierten Benutzer für diesen Service"@,
        port: first_port(s.ports),
        details: Some("PID: "@ + decimal(s.pid.unwrap() as nat)),
    }
}

pub open spec fn root_issues(services: Seq<ServiceView>, owners: Seq<(u32, String)>) -> Seq<
    SecurityIssueView,
>
    decreases services.len(),
{
    if services.len() == 0 {
        Seq::<SecurityIssueView>::empty()
    } else {
        let rest = root_issues(services.drop_last(), owners);
        if runs_as_root(services.last(), owners) {
            rest.push(root_issue(services.last()))
        } else {
            rest
        }
    }
}

/// All issues of an audit: the port rules, the exposure rule, the software
/// rules and the superuser rule, in this order.
pub open spec fn audit_issues(
    services: Seq<ServiceView>,
    table: Seq<PortInfoView>,
    public_ports: Seq<u16>,
    owners: Seq<(u32, String)>,
) -> Seq<SecurityIssueView> {
    port_issues_for(insecure_port_table(), table, services) + exposure_issues(
        table,
        public_ports,
        services,
    ) + software_issues(services) + root_issues(services, owners)
}

/// How many issues have this severity.
pub open spec fn count_severity(issues: Seq<SecurityIssueView>, severity: SecuritySeverity) -> nat
    decreases issues.len(),
{
    if issues.len() == 0 {
        0
    } else {
        count_severity(issues.drop_last(), severity) + if issues.last().severity == severity {
            1nat
        } else {
            0nat
        }
    }
}

/// The ports of the table, each once, in the order in which it first names them.
pub open spec fn distinct_ports(table: Seq<PortInfoView>) -> Seq<u16>
    decreases table.len(),
{
    if table.len() == 0 {
        Seq::<u16>::empty()
    } else {
        let rest = distinct_ports(table.drop_last());
        if rest.contains(table.last().port) {
            rest
        } else {
            rest.push(table.last().port)
        }
    }
}

/// The ports of the insecure-port table, in report order.
pub fn insecure_ports() -> (r: Vec<u16>)
    ensures
        r@ == insecure_port_table(),
{
    let r: Vec<u16> = vec![
        21u16,
        23u16,
        25u16,
        69u16,
        80u16,
        110u16,
        143u16,
        161u16,
        389u16,
        445u16,
        512u16,
        513u16,
        514u16,
        1433u16,
        1521u16,
        3306u16,
        5432u16,
        6379u16,
        11211u16,
        27017u16,
    ];
    assert(r@ =~= insecure_port_table());
    r
}

/// The protocol or product that usually listens on a port of the table.
pub fn insecure_label_text(port: u16) -> (r: &'static str)
    ensures
        r@ == insecure_label(port),
{
    if port == 21 {
        "FTP"
    } else if port == 23 {
        "Telnet"
    } else if port == 25 {
        "SMTP"
    } else if port == 69 {
        "TFTP"
    } else if port == 80 {
        "HTTP"
    } else if port == 110 {
        "POP3"
    } else if port == 143 {
        "IMAP"
    } else if port == 161 {
        "SNMP"
    } else if port == 389 {
        "LDAP"
    } else if port == 445 {
        "SMB"
    } else if port == 512 {
        "rexec"
    } else if port == 513 {
        "rlogin"
    } else if port == 514 {
        "rsh"
    } else if port == 1433 {
        "MSSQL"
    } else if port == 1521 {
        "Oracle"
    } else if port == 3306 {
        "MySQL"
    } else if port == 5432 {
        "PostgreSQL"
    } else if port == 6379 {
        "Redis"
    } else if port == 11211 {
        "Memcached"
    } else if port == 27017 {
        "MongoDB"
    } else {
        ""
    }
}

/// Why an open port of the table is a concern.
pub fn insecure_note_text(port: u16) -> (r: &'static str)
    ensures
        r@ == insecure_note(port),
{
    if port == 21 {
        "FTP überträgt Daten unverschlüsselt, inkl. Passwörter"
    } else if port == 23 {
        "Telnet ist unverschlüsselt, verwende SSH stattdessen"
    } else if port == 25 {
        "SMTP ohne TLS überträgt E-Mails unverschlüsselt"
    } else if port == 69 {
        "TFTP hat keine Authentifizierung"
    } else if port == 80 {
        "HTTP ist unverschlüsselt, verwende HTTPS"
    } else if port == 110 {
        "POP3 ohne TLS überträgt E-Mails unverschlüsselt"
    } else if port == 143 {
        "IMAP ohne TLS überträgt E-Mails unverschlüsselt"
    } else if port == 161 {
        "SNMP v1/v2 hat schwache Authentifizierung"
    } else if port == 389 {
        "LDAP ohne TLS überträgt Verzeichnisdaten unverschlüsselt"
    } else if port == 445 {
        "SMB kann für Angriffe missbraucht werden"
    } else if port == 512 {
        "Remote Execution ohne starke Authentifizierung"
    } else if port == 513 {
        "Remote Login ist unsicher, verwende SSH"
    } else if port == 514 {
        "Remote Shell ist unsicher, verwende SSH"
    } else if port == 1433 || port == 1521 || port == 3306 || port == 5432 {
        "Datenbank sollte nicht öffentlich erreichbar sein"
    } else if port == 6379 {
        "Redis hat oft keine Authentifizierung"
    } else if port == 11211 {
        "Memcached hat keine Authentifizierung"
    } else if port == 27017 {
        "MongoDB sollte nicht öffentlich erreichbar sein"
    } else {
        ""
    }
}

/// Where the first record that lists this port stands.
pub fn find_with_port(services: &Vec<Service>, port: u16) -> (r: Option<usize>)
    ensures
        match r {
            Some(i) => i < services.len() && first_with_port(service_views(services@), port)
                == Some(services[i as int]@),
            None => first_with_port(service_views(services@), port).is_none(),
        },
{
    let ghost all = service_views(services@);
    let mut i: usize = 0;
    assert(all.skip(0) == all);
    while i < services.len()
        invariant
            i <= services.len(),
            all == service_views(services@),
            first_with_port(all, port) == first_with_port(all.skip(i as int), port),
        decreases services.len() - i,
    {
        assert(all.skip(i as int)[0] == all[i as int]);
        assert(all.skip(i as int).skip(1) == all.skip(i + 1));
        if ports_contain(&services[i].ports, port) {
            return Some(i);
        }
        i += 1;
    }
    None
}

/// What the owner query printed for `pid`.
pub fn find_owner(owners: &Vec<(u32, String)>, pid: u32) -> (r: Option<usize>)
    ensures
        match r {
            Some(i) => i < owners.len() && owner_of(owners@, pid) == Some(owners[i as int].1@),
            None => owner_of(owners@, pid).is_none(),
        },
{
    let mut i: usize = 0;
    assert(owners@.skip(0) == owners@);
    while i < owners.len()
        invariant
            i <= owners.len(),
            owner_of(owners@, pid) == owner_of(owners@.skip(i as int), pid),
        decreases owners.len() - i,
    {
        assert(owners@.skip(i as int)[0] == owners@[i as int]);
        assert(owners@.skip(i as int).skip(1) == owners@.skip(i + 1));
        if owners[i].0 == pid {
            return Some(i);
        }
        i += 1;
    }
    None
}

/// An address on which a socket takes connections from every host.
pub open spec fn is_wildcard_address(address: Seq<char>) -> bool {
    address == "0.0.0.0"@ || address == "[::]"@ || address == "*"@
}

/// Whether a field of a listing of `lsof` names a socket bound to `port` on
/// a wildcard address. The local address stands before the arrow, if the
/// field has one; the port stands behind its last colon and counts whole.
pub open spec fn lsof_field_is_public(field: Seq<char>, port: u16) -> bool {
    let local = text_before(field, "->"@);
    is_wildcard_address(before_last(local, ':')) && last_segment(local, ':') == decimal(
        port as nat,
    )
}

/// Whether a listing of the sockets on `port`, as `lsof` prints it, shows a
/// socket bound to `port` on a wildcard address.
pub open spec fn lsof_shows_public(output: Seq<char>, port: u16) -> bool {
    exists|i: int|
        0 <= i < words(output).len() && lsof_field_is_public(#[trigger] words(output)[i], port)
}

/// Whether an address is one on which a socket takes connections from
/// every host.
pub fn is_wildcard(address: &Vec<char>) -> (r: bool)
    ensures
        r == is_wildcard_address(address@),
{
    chars_eq_str(address, "0.0.0.0") || chars_eq_str(address, "[::]") || chars_eq_str(address, "*")
}

/// Whether a field of a listing of `lsof` names a socket bound to `port` on
/// a wildcard address.
pub fn read_lsof_bind(field: &Vec<char>, port: u16) -> (r: bool)
    ensures
        r == lsof_field_is_public(field@, port),
{
    let arrow = str_chars("->");
    let local = split_before(field, &arrow);
    let address = split_before_last(&local, ':');
    let number = segment_last(&local, ':');
    let wanted = decimal_chars(port as u64);
    is_wildcard(&address) && chars_eq(&number, &wanted)
}

/// Whether a line of a listing of `ss` shows a socket bound to a wildcard
/// address. The local address with its port is the fourth field; what the
/// line says of the peer does not count.
pub open spec fn ss_line_is_public(line: Seq<char>) -> bool {
    words(line).len() >= 4 && is_wildcard_address(before_last(words(line)[3], ':'))
}

/// Whether a listing of the sockets on one port, as `ss` prints it, shows a
/// socket bound to a wildcard address.
pub open spec fn ss_shows_public(output: Seq<char>) -> bool {
    exists|i: int| 0 <= i < lines(output).len() && ss_line_is_public(#[trigger] lines(output)[i])
}

/// Whether a line of a listing of `ss` shows a socket bound to a wildcard
/// address.
pub fn read_ss_bind(line: &Vec<char>) -> (r: bool)
    ensures
        r == ss_line_is_public(line@),
{
    let parts = split_words(line);
    if parts.len() >= 4 {
        assert(views(parts@)[3] == parts[3]@);
        let address = split_before_last(&parts[3], ':');
        is_wildcard(&address)
    } else {
        false
    }
}

/// How many issues have this severity.
pub fn count_by_severity(issues: &Vec<SecurityIssue>, severity: SecuritySeverity) -> (r: usize)
    ensures
        r == count_severity(issue_views(issues@), severity),
{
    let ghost all = issue_views(issues@);
    let mut n: usize = 0;
    let mut i: usize = 0;
    while i < issues.len()
        invariant
            i <= issues.len(),
            all == issue_views(issues@),
            n == count_severity(all.take(i as int), severity),
            n <= i,
        decreases issues.len() - i,
    {
        proof {
            assert(all.take(i + 1).drop_last() == all.take(i as int));
        }
        if issues[i].severity == severity {
            n += 1;
        }
        i += 1;
    }
    assert(all.take(issues.len() as int) == all);
    n
}

/// How many different ports the table names.
pub fn count_distinct_ports(table: &Vec<PortInfo>) -> (r: usize)
    ensures
        r == distinct_ports(port_views(table@)).len(),
{
    let ghost all = port_views(table@);
    let mut seen: Vec<u16> = Vec::new();
    let mut i: usize = 0;
    while i < table.len()
        invariant
            i <= table.len(),
            all == port_views(table@),
            seen@ == distinct_ports(all.take(i as int)),
            seen.len() <= i,
        decreases table.len() - i,
    {
        proof {
            assert(all.take(i + 1).drop_last() == all.take(i as int));
        }
        if !ports_contain(&seen, table[i].port) {
            seen.push(table[i].port);
        }
        i += 1;
    }
    assert(all.take(table.len() as int) == all);
    seen.len()
}

/// Evaluates the audit rules.
#[derive(Debug, Clone, Copy)]
pub struct SecurityScanner {
    pub port_resolver: PortResolver,
}

impl SecurityScanner {
    pub fn new() -> (r: Self) {
        SecurityScanner { port_resolver: PortResolver::new() }
    }

    pub fn is_database_port(port: u16) -> (r: bool)
        ensures
            r == is_database_port(port),
    {
        port == 1433 || port == 1521 || port == 3306 || port == 5432 || port == 6379 || port
            == 11211 || port == 27017 || port == 5984 || port == 9200 || port == 9300
    }

    pub fn get_port_severity(&self, port: u16) -> (r: SecuritySeverity)
        ensures
            r == port_severity(port),
    {
        if port == 23 || port == 512 || port == 513 || port == 514 {
            SecuritySeverity::Critical
        } else if port == 21 || port == 69 {
            SecuritySeverity::High
        } else if port == 80 || port == 110 || port == 143 || port == 389 || port == 25 || port
            == 161 || port == 445 {
            SecuritySeverity::Medium
        } else {
            SecuritySeverity::Low
        }
    }

    pub fn get_port_recommendation(&self, port: u16) -> (r: String)
        ensures
            r@ == port_recommendation(port),
    {
        if port == 21 {
            "Verwende SFTP (Port 22) statt FTP".to_string()
        } else if port == 23 {
            "Verwende SSH (Port 22) statt Telnet".to_string()
        } else if port == 25 {
            "Aktiviere STARTTLS oder verwende Port 587 mit TLS".to_string()
        } else if port == 80 {
            "Aktiviere HTTPS und leite HTTP auf HTTPS um".to_string()
        } else if port == 110 {
            "Verwende POP3S (Port 995) mit TLS".to_string()
        } else if port == 143 {
            "Verwende IMAPS (Port 993) mit TLS".to_string()
        } else if port == 389 {
            "Verwende LDAPS (Port 636) mit TLS".to_string()
        } else if port == 445 {
            "Beschränke SMB-Zugriff auf lokales Netzwerk".to_string()
        } else if Self::is_database_port(port) {
            "Binde Datenbank an localhost und verwende SSH-Tunnel für Remote-Zugriff".to_string()
        } else {
            "Prüfe ob dieser Port wirklich öffentlich erreichbar sein muss".to_string()
        }
    }

    /// Whether the name is that of a service of the system itself.
    pub fn is_system_service(&self, name: &str) -> (r: bool)
        ensures
            r == is_system_name(name@),
    {
        Self::begins_like_system_service(to_lowercase(name).as_str())
    }

    /// Whether a lower-case name begins like the name of a service of the
    /// system itself.
    pub fn begins_like_system_service(lower: &str) -> (r: bool)
        ensures
            r == has_system_prefix(lower@),
    {
        str_starts_with(lower, "com.apple.") || str_starts_with(lower, "systemd")
            || str_starts_with(lower, "launchd") || str_starts_with(lower, "kernel")
            || str_starts_with(lower, "init")
    }

    /// Whether the output of `lsof -i :<port> -P -n` shows a socket bound to
    /// the port on a wildcard address.
    pub fn lsof_shows_public_bind(&self, output: &str, port: u16) -> (r: bool)
        ensures
            r == lsof_shows_public(output@, port),
    {
        let fields = split_words(&str_chars(output));
        let ghost all = words(output@);
        let mut i: usize = 0;
        while i < fields.len()
            invariant
                i <= fields.len(),
                all == views(fields@),
                all == words(output@),
                forall|k: int| 0 <= k < i ==> !lsof_field_is_public(#[trigger] all[k], port),
            decreases fields.len() - i,
        {
            assert(all[i as int] == fields[i as int]@);
            if read_lsof_bind(&fields[i], port) {
                return true;
            }
            i += 1;
        }
        false
    }

    /// Whether the output of `ss -tlnp 'sport = :<port>'` shows a socket
    /// bound to a wildcard address.
    pub fn ss_shows_public_bind(&self, output: &str) -> (r: bool)
        ensures
            r == ss_shows_public(output@),
    {
        let ls = split_lines(&str_chars(output));
        let ghost all = lines(output@);
        let mut i: usize = 0;
        while i < ls.len()
            invariant
                i <= ls.len(),
                all == views(ls@),
                all == lines(output@),
                forall|k: int| 0 <= k < i ==> !ss_line_is_public(#[trigger] all[k]),
            decreases ls.len() - i,
        {
            assert(all[i as int] == ls[i as int]@);
            if read_ss_bind(&ls[i]) {
                return true;
            }
            i += 1;
        }
        false
    }

    /// The port rule: one issue for each port of the insecure-port table that is open.
    pub fn check_open_ports(
        &self,
        services: &Vec<Service>,
        port_usage: &Vec<PortInfo>,
        issues: &mut Vec<SecurityIssue>,
    )
        ensures
            issue_views(final(issues)@) == issue_views(old(issues)@) + port_issues_for(
                insecure_port_table(),
                port_views(port_usage@),
                service_views(services@),
            ),
    {
        let ghost start = issue_views(issues@);
        let ghost table = port_views(port_usage@);
        let ghost recs = service_views(services@);
        let ports = insecure_ports();
        let mut i: usize = 0;
        while i < ports.len()
            invariant
                i <= ports.len(),
                ports@ == insecure_port_table(),
                table == port_views(port_usage@),
                recs == service_views(services@),
                issue_views(issues@) == start + port_issues_for(ports@.take(i as int), table, recs),
            decreases ports.len() - i,
        {
            proof {
                assert(ports@.take(i + 1).drop_last() == ports@.take(i as int));
            }
            let port = ports[i];
            if table_lists_port(port_usage, port) {
                let (service_id, service_name) = match find_with_port(services, port) {
                    Some(k) => (Some(services[k].id.clone()), Some(services[k].name.clone())),
                    None => (None, None),
                };
                let title = text_pair(
                    insecure_label_text(port),
                    text_around_number(" Port ", port as u64, " ist offen").as_str(),
                );
                let issue = SecurityIssue {
                    id: text_with_number("port-", port as u64),
                    service_id,
                    service_name,
                    category: SecurityCategory::UnencryptedConnection,
                    severity: self.get_port_severity(port),
                    title,
                    description: insecure_note_text(port).to_string(),
                    recommendation: self.get_port_recommendation(port),
                    port: Some(port),
                    details: None,
                };
                assert(issue@.title == port_issue(port, recs).title) by {
                    assert(insecure_label(port) + (" Port "@ + decimal(port as nat)
                        + " ist offen"@) == insecure_label(port) + " Port "@ + decimal(
                        port as nat,
                    ) + " ist offen"@);
                }
                assert(issue@ == port_issue(port, recs));
                let ghost before = issue_views(issues@);
                issues.push(issue);
                assert(issue_views(issues@) == before.push(port_issue(port, recs)));
            }
            i += 1;
        }
        assert(ports@.take(ports.len() as int) == ports@);
    }

    /// The exposure rule: one issue for each database port of the port table
    /// that was found bound to a public address, however many rows name it.
    pub fn check_public_databases(
        &self,
        services: &Vec<Service>,
        port_usage: &Vec<PortInfo>,
        public_ports: &Vec<u16>,
        issues: &mut Vec<SecurityIssue>,
    )
        ensures
            issue_views(final(issues)@) == issue_views(old(issues)@) + exposure_issues(
                port_views(port_usage@),
                public_ports@,
                service_views(services@),
            ),
    {
        let ghost start = issue_views(issues@);
        let ghost table = port_views(port_usage@);
        let ghost recs = service_views(services@);
        let mut i: usize = 0;
        while i < port_usage.len()
            invariant
                i <= port_usage.len(),
                table == port_views(port_usage@),
                recs == service_views(services@),
                issue_views(issues@) == start + exposure_issues(
                    table.take(i as int),
                    public_ports@,
                    recs,
                ),
            decreases port_usage.len() - i,
        {
            proof {
                assert(table.take(i + 1).drop_last() == table.take(i as int));
                assert(rows_before(table, i as nat) == table.take(i as int));
            }
            let entry = &port_usage[i];
            if Self::is_database_port(entry.port) && ports_contain(public_ports, entry.port)
                && !listed_before(port_usage, i, entry.port) {
                let service_id = match find_with_port(services, entry.port) {
                    Some(k) => Some(services[k].id.clone()),
                    None => None,
                };
                let issue = SecurityIssue {
                    id: text_with_number("public-db-", entry.port as u64),
                    service_id,
                    service_name: copy_text(&entry.process_name),
                    category: SecurityCategory::PublicExposure,
                    severity: SecuritySeverity::Critical,
                    title: text_around_number(
                        "Datenbank auf Port ",
                        entry.port as u64,
                        " ist öffentlich erreichbar",
                    ),
                    description: "Datenbanken sollten nicht von außen erreichbar sein".to_string(),
                    recommendation:
                        "Binde die Datenbank an localhost (127.0.0.1) oder verwende eine Firewall".to_string(),
                    port: Some(entry.port),
                    details: copy_text(&entry.process_name),
                };
                assert(issue@ == exposure_issue(table[i as int], recs));
                let ghost before = issue_views(issues@);
                issues.push(issue);
                assert(issue_views(issues@) == before.push(exposure_issue(table[i as int], recs)));
            }
            i += 1;
        }
        assert(table.take(port_usage.len() as int) == table);
    }

    /// The software rules for one service: the issues for software that is insecure by
    /// default, found by its name.
    pub fn check_service_security(&self, service: &Service, issues: &mut Vec<SecurityIssue>)
        ensures
            issue_views(final(issues)@) == issue_views(old(issues)@) + service_issues(service@),
    {
        let lower = to_lowercase(service.name.as_str());
        self.check_lower_name(lower.as_str(), service, issues);
    }

    /// The software rules for a service whose lower-case name is given.
    pub fn check_lower_name(&self, lower: &str, service: &Service, issues: &mut Vec<SecurityIssue>)
        ensures
            issue_views(final(issues)@) == issue_views(old(issues)@) + issues_by_lower_name(
                lower@,
                service@,
            ),
    {
        let ghost start = issue_views(issues@);
        if str_contains(lower, "redis") {
            let issue = SecurityIssue {
                id: text_pair("redis-auth-", service.id.as_str()),
                service_id: Some(service.id.clone()),
                service_name: Some(service.name.clone()),
                category: SecurityCategory::MissingAuthentication,
                severity: SecuritySeverity::High,
                title: "Redis möglicherweise ohne Authentifizierung".to_string(),
                description: "Redis hat standardmäßig keine Passwort-Authentifizierung".to_string(),
                recommendation: "Setze ein Passwort mit 'requirepass' in redis.conf".to_string(),
                port: Some(6379),
                details: None,
            };
            let ghost before = issue_views(issues@);
            issues.push(issue);
            assert(issue_views(issues@) == before + seq![redis_issue(service@)]);
        }
        let ghost after_redis = issue_views(issues@);
        if str_contains(lower, "mongodb") {
            let issue = SecurityIssue {
                id: text_pair("mongo-auth-", service.id.as_str()),
                service_id: Some(service.id.clone()),
                service_name: Some(service.name.clone()),
                category: SecurityCategory::MissingAuthentication,
                severity: SecuritySeverity::High,
                title: "MongoDB möglicherweise ohne Authentifizierung".to_string(),
                description: "MongoDB hat standardmäßig keine Authentifizierung aktiviert".to_string(),
                recommendation: "Aktiviere Authentifizierung mit --auth Flag".to_string(),
                port: Some(27017),
                details: None,
            };
            let ghost before = issue_views(issues@);
            issues.push(issue);
            assert(issue_views(issues@) == before + seq![mongo_issue(service@)]);
        }
        let ghost after_mongo = issue_views(issues@);
        if str_contains(lower, "elasticsearch") {
            let port = if service.ports.len() > 0 {
                Some(service.ports[0])
            } else {
                None
            };
            let issue = SecurityIssue {
                id: text_pair("elastic-auth-", service.id.as_str()),
                service_id: Some(service.id.clone()),
                service_name: Some(service.name.clone()),
                category: SecurityCategory::MissingAuthentication,
                severity: SecuritySeverity::Medium,
                title: "Elasticsearch Security prüfen".to_string(),
                description: "Elasticsearch X-Pack Security sollte aktiviert sein".to_string(),
                recommendation: "Aktiviere X-Pack Security für Authentifizierung und TLS".to_string(),
                port,
                details: None,
            };
            let ghost before = issue_views(issues@);
            issues.push(issue);
            assert(issue_views(issues@) == before + seq![elastic_issue(service@)]);
        }
        assert(issue_views(issues@) == start + issues_by_lower_name(lower@, service@));
    }

    /// The superuser rule: one issue for each service that runs as the superuser and is
    /// no service of the system itself. `owners` holds, for each pid that was
    /// asked about, what the owner query printed.
    pub fn check_root_services(
        &self,
        services: &Vec<Service>,
        owners: &Vec<(u32, String)>,
        issues: &mut Vec<SecurityIssue>,
    )
        ensures
            issue_views(final(issues)@) == issue_views(old(issues)@) + root_issues(
                service_views(services@),
                owners@,
            ),
    {
        let ghost start = issue_views(issues@);
        let ghost recs = service_views(services@);
        let mut i: usize = 0;
        while i < services.len()
            invariant
                i <= services.len(),
                recs == service_views(services@),
                issue_views(issues@) == start + root_issues(recs.take(i as int), owners@),
            decreases services.len() - i,
        {
            proof {
                assert(recs.take(i + 1).drop_last() == recs.take(i as int));
            }
            let service = &services[i];
            if let Some(pid) = service.pid {
                if let Some(k) = find_owner(owners, pid) {
                    let user = trim(&str_chars(owners[k].1.as_str()));
                    if chars_eq_str(&user, "root") && !self.is_system_service(
                        service.name.as_str(),
                    ) {
                        let port = if service.ports.len() > 0 {
                            Some(service.ports[0])
                        } else {
                            None
                        };
                        let issue = SecurityIssue {
                            id: text_pair("root-", service.id.as_str()),
                            service_id: Some(service.id.clone()),
                            service_name: Some(service.name.clone()),
                            category: SecurityCategory::PrivilegeEscalation,
                            severity: SecuritySeverity::Medium,
                            title: text_pair(service.name.as_str(), " läuft als root"),
                            description: "Services sollten mit minimalen Rechten laufen".to_string(),
                            recommendation:
                                "Erstelle einen dedizierten Benutzer für diesen Service".to_string(),
                            port,
                            details: Some(text_with_number("PID: ", pid as u64)),
                        };
                        assert(issue@ == root_issue(recs[i as int]));
                        let ghost before = issue_views(issues@);
                        issues.push(issue);
                        assert(issue_views(issues@) == before.push(root_issue(recs[i as int])));
                    }
                }
            }
            i += 1;
        }
        assert(recs.take(services.len() as int) == recs);
    }

    /// Audits a snapshot. `port_usage` is the port table, `public_ports` the
    /// database ports that were found bound to a public address, `owners`
    /// what the owner query printed for the pids asked about (empty where the
    /// host has no such query), `scan_timestamp` the time of the audit in
    /// seconds. The audit never fails: a check that could not be made on the
    /// host contributes no issue.
    pub fn scan(
        &self,
        services: &Vec<Service>,
        port_usage: &Vec<PortInfo>,
        public_ports: &Vec<u16>,
        owners: &Vec<(u32, String)>,
        scan_timestamp: u64,
    ) -> (r: SecurityScanResult)
        ensures
            issue_views(r.issues@) == audit_issues(
                service_views(services@),
                port_views(port_usage@),
                public_ports@,
                owners@,
            ),
            r.scan_timestamp == scan_timestamp,
            r.services_scanned == services.len(),
            r.ports_scanned == distinct_ports(port_views(port_usage@)).len(),
            r.critical_count == count_severity(issue_views(r.issues@), SecuritySeverity::Critical),
            r.high_count == count_severity(issue_views(r.issues@), SecuritySeverity::High),
            r.medium_count == count_severity(issue_views(r.issues@), SecuritySeverity::Medium),
            r.low_count == count_severity(issue_views(r.issues@), SecuritySeverity::Low),
    {
        let ghost recs = service_views(services@);
        let mut issues: Vec<SecurityIssue> = Vec::new();
        self.check_open_ports(services, port_usage, &mut issues);
        self.check_public_databases(services, port_usage, public_ports, &mut issues);
        let ghost before_software = issue_views(issues@);
        let mut i: usize = 0;
        while i < services.len()
            invariant
                i <= services.len(),
                recs == service_views(services@),
                issue_views(issues@) == before_software + software_issues(recs.take(i as int)),
            decreases services.len() - i,
        {
            proof {
                assert(recs.take(i + 1).drop_last() == recs.take(i as int));
                assert(recs.take(i + 1).last() == services[i as int]@);
            }
            self.check_service_security(&services[i], &mut issues);
            i += 1;
        }
        assert(recs.take(services.len() as int) == recs);
        self.check_root_services(services, owners, &mut issues);
        let critical_count = count_by_severity(&issues, SecuritySeverity::Critical);
        let high_count = count_by_severity(&issues, SecuritySeverity::High);
        let medium_count = count_by_severity(&issues, SecuritySeverity::Medium);
        let low_count = count_by_severity(&issues, SecuritySeverity::Low);
        SecurityScanResult {
            issues,
            scan_timestamp,
            services_scanned: services.len(),
            ports_scanned: count_distinct_ports(port_usage),
            critical_count,
            high_count,
            medium_count,
            low_count,
        }
    }
}

impl Default for SecurityScanner {
    fn default() -> (r: Self) {
        SecurityScanner::new()
    }
}

/// An open port of a list of table ports has its issue among the port issues.
pub proof fn lemma_open_port_has_issue(
    ports: Seq<u16>,
    table: Seq<PortInfoView>,
    services: Seq<ServiceView>,
    i: int,
)
    requires
        0 <= i < ports.len(),
        lists_port(table, ports[i]),
    ensures
        port_issues_for(ports, table, services).contains(port_issue(ports[i], services)),
    decreases ports.len(),
{
    let all = port_issues_for(ports, table, services);
    if i == ports.len() - 1 {
        assert(all.last() == port_issue(ports[i], services));
    } else {
        lemma_open_port_has_issue(ports.drop_last(), table, services, i);
        let rest = port_issues_for(ports.drop_last(), table, services);
        let k = choose|k: int| 0 <= k < rest.len() && rest[k] == port_issue(ports[i], services);
        assert(all[k] == rest[k]);
    }
}

/// A service has its software issues among those of the whole list.
pub proof fn lemma_service_issue_is_reported(
    services: Seq<ServiceView>,
    i: int,
    issue: SecurityIssueView,
)
    requires
        0 <= i < services.len(),
        service_issues(services[i]).contains(issue),
    ensures
        software_issues(services).contains(issue),
    decreases services.len(),
{
    let all = software_issues(services);
    let front = software_issues(services.drop_last());
    if i == services.len() - 1 {
        let mine = service_issues(services[i]);
        let k = choose|k: int| 0 <= k < mine.len() && mine[k] == issue;
        assert(all[front.len() + k] == issue);
    } else {
        lemma_service_issue_is_reported(services.drop_last(), i, issue);
        let k = choose|k: int| 0 <= k < front.len() && front[k] == issue;
        assert(all[k] == issue);
    }
}

/// An open port of the insecure-port table is reported whatever else the
/// audit finds: with the severity of its port, as an unencrypted connection.
pub proof fn lemma_insecure_port_is_reported(
    services: Seq<ServiceView>,
    table: Seq<PortInfoView>,
    public_ports: Seq<u16>,
    owners: Seq<(u32, String)>,
    i: int,
)
    requires
        0 <= i < insecure_port_table().len(),
        lists_port(table, insecure_port_table()[i]),
    ensures
        audit_issues(services, table, public_ports, owners).contains(
            port_issue(insecure_port_table()[i], services),
        ),
        port_issue(insecure_port_table()[i], services).category
            == SecurityCategory::UnencryptedConnection,
        port_issue(insecure_port_table()[i], services).severity == port_severity(
            insecure_port_table()[i],
        ),
{
    let port = insecure_port_table()[i];
    lemma_open_port_has_issue(insecure_port_table(), table, services, i);
    let first = port_issues_for(insecure_port_table(), table, services);
    let k = choose|k: int| 0 <= k < first.len() && first[k] == port_issue(port, services);
    assert(audit_issues(services, table, public_ports, owners)[k] == first[k]);
}

/// The rules are independent: a Redis service on an open port 6379 gets both
/// the issue of the port rule and the issue of the Redis rule.
pub proof fn lemma_rules_are_independent(
    services: Seq<ServiceView>,
    table: Seq<PortInfoView>,
    public_ports: Seq<u16>,
    owners: Seq<(u32, String)>,
    i: int,
)
    requires
        0 <= i < services.len(),
        redis_applies(services[i]),
        lists_port(table, 6379u16),
    ensures
        audit_issues(services, table, public_ports, owners).contains(
            port_issue(6379u16, services),
        ),
        audit_issues(services, table, public_ports, owners).contains(redis_issue(services[i])),
{
    assert(insecure_port_table()[17] == 6379u16);
    lemma_insecure_port_is_reported(services, table, public_ports, owners, 17);
    let issue = redis_issue(services[i]);
    assert(service_issues(services[i])[0] == issue);
    lemma_service_issue_is_reported(services, i, issue);
    let a = port_issues_for(insecure_port_table(), table, services);
    let b = exposure_issues(table, public_ports, services);
    let c = software_issues(services);
    let k = choose|k: int| 0 <= k < c.len() && c[k] == issue;
    assert(audit_issues(services, table, public_ports, owners)[a.len() + b.len() + k] == issue);
}

/// Every exposure issue is for a database port that the table lists and
/// that is among the publicly bound ports; it is critical.
pub proof fn lemma_exposure_issue_ports(
    table: Seq<PortInfoView>,
    public_ports: Seq<u16>,
    services: Seq<ServiceView>,
    i: int,
)
    requires
        0 <= i < exposure_issues(table, public_ports, services).len(),
    ensures
        ({
            let issue = exposure_issues(table, public_ports, services)[i];
            &&& issue.port.is_some()
            &&& is_database_port(issue.port.unwrap())
            &&& public_ports.contains(issue.port.unwrap())
            &&& lists_port(table, issue.port.unwrap())
            &&& issue.category == SecurityCategory::PublicExposure
            &&& issue.severity == SecuritySeverity::Critical
        }),
    decreases table.len(),
{
    if table.len() > 0 {
        let front = table.drop_last();
        let rest = exposure_issues(front, public_ports, services);
        if i < rest.len() {
            lemma_exposure_issue_ports(front, public_ports, services, i);
            let port = rest[i].port.unwrap();
            let k = choose|k: int| 0 <= k < front.len() && (#[trigger] front[k]).port == port;
            assert(table[k].port == port);
        } else {
            assert(table[table.len() - 1].port == table.last().port);
        }
    }
}

/// No two exposure issues are for the same port: a port that the table
/// names in several rows has one issue.
pub proof fn lemma_exposure_is_one_per_port(
    table: Seq<PortInfoView>,
    public_ports: Seq<u16>,
    services: Seq<ServiceView>,
    i: int,
    j: int,
)
    requires
        0 <= i < j < exposure_issues(table, public_ports, services).len(),
    ensures
        exposure_issues(table, public_ports, services)[i].port != exposure_issues(
            table,
            public_ports,
            services,
        )[j].port,
    decreases table.len(),
{
    if table.len() > 0 {
        let front = table.drop_last();
        let rest = exposure_issues(front, public_ports, services);
        if j < rest.len() {
            lemma_exposure_is_one_per_port(front, public_ports, services, i, j);
        } else {
            lemma_exposure_issue_ports(front, public_ports, services, i);
        }
    }
}

/// A database port that the table lists and that is among the publicly
/// bound ports has its exposure issue.
pub proof fn lemma_public_database_is_reported(
    table: Seq<PortInfoView>,
    public_ports: Seq<u16>,
    services: Seq<ServiceView>,
    port: u16,
)
    requires
        lists_port(table, port),
        is_database_port(port),
        public_ports.contains(port),
    ensures
        exists|i: int|
            0 <= i < exposure_issues(table, public_ports, services).len() && (
            #[trigger] exposure_issues(table, public_ports, services)[i]).port == Some(port),
    decreases table.len(),
{
    if table.len() > 0 {
        let front = table.drop_last();
        let rest = exposure_issues(front, public_ports, services);
        let all = exposure_issues(table, public_ports, services);
        if lists_port(front, port) {
            lemma_public_database_is_reported(front, public_ports, services, port);
            let i = choose|i: int| 0 <= i < rest.len() && (#[trigger] rest[i]).port == Some(port);
            assert(all[i] == rest[i]);
        } else {
            let k = choose|k: int| 0 <= k < table.len() && (#[trigger] table[k]).port == port;
            if k < front.len() {
                assert(front[k].port == port);
            }
            assert(table.last().port == port);
            assert(all[all.len() - 1].port == Some(port));
        }
    }
}

/// Every issue is counted under its severity, and under no other.
pub proof fn lemma_counts_add_up(issues: Seq<SecurityIssueView>)
    ensures
        count_severity(issues, SecuritySeverity::Critical) + count_severity(
            issues,
            SecuritySeverity::High,
        ) + count_severity(issues, SecuritySeverity::Medium) + count_severity(
            issues,
            SecuritySeverity::Low,
        ) + count_severity(issues, SecuritySeverity::Info) == issues.len(),
    decreases issues.len(),
{
    if issues.len() > 0 {
        lemma_counts_add_up(issues.drop_last());
    }
}

} // verus!
