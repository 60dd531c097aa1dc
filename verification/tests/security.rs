use network_manager::models::port::{PortInfo, PortStatus, Protocol};
use network_manager::models::service::{Service, ServiceStatus, ServiceType};
use network_manager::services::manager::enrich_ports;
use network_manager::services::security_scanner::{
    insecure_ports, SecurityCategory, SecurityIssue, SecurityScanner, SecuritySeverity,
};

fn entry(port: u16, pid: Option<u32>, name: Option<&str>) -> PortInfo {
    PortInfo {
        port,
        protocol: Protocol::Tcp,
        status: PortStatus::Occupied,
        process_name: name.map(String::from),
        pid,
    }
}

fn service(id: &str, name: &str, pid: Option<u32>, ports: Vec<u16>) -> Service {
    Service {
        id: id.to_string(),
        name: name.to_string(),
        status: ServiceStatus::Running,
        service_type: ServiceType::Process,
        ports,
        pid,
        path: None,
        description: None,
        auto_start: false,
        cpu_usage_bits: None,
        memory_bytes: None,
        memory_percent_bits: None,
    }
}

fn with_category(issues: &[SecurityIssue], category: SecurityCategory) -> Vec<&SecurityIssue> {
    issues.iter().filter(|i| i.category == category).collect()
}

#[test]
fn telnet_port_is_critical() {
    let scanner = SecurityScanner::new();
    let result = scanner.scan(&Vec::new(), &vec![entry(23, None, None)], &Vec::new(), &Vec::new(), 1700000000);
    assert_eq!(result.issues.len(), 1);
    let issue = &result.issues[0];
    assert_eq!(issue.severity, SecuritySeverity::Critical);
    assert_eq!(issue.category, SecurityCategory::UnencryptedConnection);
    assert_eq!(issue.id, "port-23");
    assert_eq!(issue.title, "Telnet Port 23 ist offen");
    assert_eq!(issue.description, "Telnet ist unverschlüsselt, verwende SSH stattdessen");
    assert_eq!(issue.recommendation, "Verwende SSH (Port 22) statt Telnet");
    assert_eq!(issue.port, Some(23));
    assert_eq!(issue.service_id, None);
    assert_eq!(issue.service_name, None);
    assert_eq!(issue.details, None);
    assert_eq!(result.critical_count, 1);
    assert_eq!(result.high_count, 0);
    assert_eq!(result.medium_count, 0);
    assert_eq!(result.low_count, 0);
    assert_eq!(result.ports_scanned, 1);
    assert_eq!(result.services_scanned, 0);
    assert_eq!(result.scan_timestamp, 1700000000);
}

#[test]
fn redis_rules_are_independent() {
    let scanner = SecurityScanner::new();
    let services = vec![service("p1", "redis-server", Some(10), vec![6379])];
    let result = scanner.scan(&services, &vec![entry(6379, Some(10), Some("redis-server"))], &Vec::new(), &Vec::new(), 0);
    assert_eq!(result.issues.len(), 2);
    let port_rule = &result.issues[0];
    assert_eq!(port_rule.id, "port-6379");
    assert_eq!(port_rule.category, SecurityCategory::UnencryptedConnection);
    assert_eq!(port_rule.severity, SecuritySeverity::Low);
    assert_eq!(port_rule.title, "Redis Port 6379 ist offen");
    assert_eq!(port_rule.service_id.as_deref(), Some("p1"));
    assert_eq!(port_rule.service_name.as_deref(), Some("redis-server"));
    assert_eq!(
        port_rule.recommendation,
        "Binde Datenbank an localhost und verwende SSH-Tunnel für Remote-Zugriff"
    );
    let redis = &result.issues[1];
    assert_eq!(redis.id, "redis-auth-p1");
    assert_eq!(redis.category, SecurityCategory::MissingAuthentication);
    assert_eq!(redis.severity, SecuritySeverity::High);
    assert_eq!(redis.port, Some(6379));
    assert_eq!(result.high_count, 1);
    assert_eq!(result.low_count, 1);
}

#[test]
fn end_to_end_enrich_then_scan() {
    let table = vec![entry(6379, Some(10), None)];
    let services = enrich_ports(vec![service("p1", "redis-server", Some(10), vec![])], &table);
    assert_eq!(services[0].ports, vec![6379]);
    // the host has 22, 80 and 6379 open
    let open = vec![entry(22, None, None), entry(80, None, None), entry(6379, Some(10), None)];
    let result = SecurityScanner::new().scan(&services, &open, &Vec::new(), &Vec::new(), 5);
    let unencrypted = with_category(&result.issues, SecurityCategory::UnencryptedConnection);
    let for_80: Vec<_> = unencrypted.iter().filter(|i| i.port == Some(80)).collect();
    assert_eq!(for_80.len(), 1);
    assert_eq!(for_80[0].severity, SecuritySeverity::Medium);
    assert!(result.issues.iter().all(|i| i.port != Some(22)));
    let missing = with_category(&result.issues, SecurityCategory::MissingAuthentication);
    assert_eq!(missing.len(), 1);
    assert_eq!(missing[0].service_name.as_deref(), Some("redis-server"));
    assert_eq!(result.ports_scanned, 3);
    assert_eq!(result.services_scanned, 1);
}

#[test]
fn port_issues_follow_table_order() {
    let open: Vec<PortInfo> = vec![27017, 21, 69, 445, 21].into_iter().map(|p| entry(p, None, None)).collect();
    let result = SecurityScanner::new().scan(&Vec::new(), &open, &Vec::new(), &Vec::new(), 0);
    let ports: Vec<u16> = result.issues.iter().map(|i| i.port.unwrap()).collect();
    assert_eq!(ports, vec![21, 69, 445, 27017]);
    let sev: Vec<SecuritySeverity> = result.issues.iter().map(|i| i.severity).collect();
    assert_eq!(
        sev,
        vec![SecuritySeverity::High, SecuritySeverity::High, SecuritySeverity::Medium, SecuritySeverity::Low]
    );
    assert_eq!(result.ports_scanned, 4);
    assert_eq!(result.high_count, 2);
    assert_eq!(result.medium_count, 1);
    assert_eq!(result.low_count, 1);
    assert_eq!(result.critical_count, 0);
}

#[test]
fn severity_and_recommendation_tables() {
    let s = SecurityScanner::new();
    for p in [23u16, 512, 513, 514] {
        assert_eq!(s.get_port_severity(p), SecuritySeverity::Critical);
    }
    for p in [21u16, 69] {
        assert_eq!(s.get_port_severity(p), SecuritySeverity::High);
    }
    for p in [80u16, 110, 143, 389, 25, 161, 445] {
        assert_eq!(s.get_port_severity(p), SecuritySeverity::Medium);
    }
    for p in [22u16, 1433, 6379, 0, 65535] {
        assert_eq!(s.get_port_severity(p), SecuritySeverity::Low);
    }
    assert_eq!(s.get_port_recommendation(21), "Verwende SFTP (Port 22) statt FTP");
    assert_eq!(s.get_port_recommendation(25), "Aktiviere STARTTLS oder verwende Port 587 mit TLS");
    assert_eq!(s.get_port_recommendation(80), "Aktiviere HTTPS und leite HTTP auf HTTPS um");
    assert_eq!(s.get_port_recommendation(110), "Verwende POP3S (Port 995) mit TLS");
    assert_eq!(s.get_port_recommendation(143), "Verwende IMAPS (Port 993) mit TLS");
    assert_eq!(s.get_port_recommendation(389), "Verwende LDAPS (Port 636) mit TLS");
    assert_eq!(s.get_port_recommendation(445), "Beschränke SMB-Zugriff auf lokales Netzwerk");
    assert_eq!(
        s.get_port_recommendation(9200),
        "Binde Datenbank an localhost und verwende SSH-Tunnel für Remote-Zugriff"
    );
    assert_eq!(
        s.get_port_recommendation(161),
        "Prüfe ob dieser Port wirklich öffentlich erreichbar sein muss"
    );
    assert_eq!(insecure_ports().len(), 20);
    assert!(SecuritySeverity::Critical.at_least(&SecuritySeverity::High));
    assert!(SecuritySeverity::High.at_least(&SecuritySeverity::Medium));
    assert!(SecuritySeverity::Medium.at_least(&SecuritySeverity::Low));
    assert!(SecuritySeverity::Low.at_least(&SecuritySeverity::Info));
    assert!(!SecuritySeverity::Info.at_least(&SecuritySeverity::Low));
    assert_eq!(SecuritySeverity::Critical.rank(), 4);
}

#[test]
fn public_database_is_critical() {
    let services = vec![service("db", "postgres", Some(5), vec![5432])];
    let table = vec![entry(5432, Some(5), Some("postgres")), entry(9200, None, None), entry(8080, None, Some("web"))];
    let public = vec![5432u16, 8080];
    let result = SecurityScanner::new().scan(&services, &table, &public, &Vec::new(), 0);
    let exposure = with_category(&result.issues, SecurityCategory::PublicExposure);
    assert_eq!(exposure.len(), 1);
    let issue = exposure[0];
    assert_eq!(issue.id, "public-db-5432");
    assert_eq!(issue.severity, SecuritySeverity::Critical);
    assert_eq!(issue.title, "Datenbank auf Port 5432 ist öffentlich erreichbar");
    assert_eq!(issue.description, "Datenbanken sollten nicht von außen erreichbar sein");
    assert_eq!(
        issue.recommendation,
        "Binde die Datenbank an localhost (127.0.0.1) oder verwende eine Firewall"
    );
    assert_eq!(issue.service_id.as_deref(), Some("db"));
    assert_eq!(issue.service_name.as_deref(), Some("postgres"));
    assert_eq!(issue.details.as_deref(), Some("postgres"));
    assert_eq!(issue.port, Some(5432));
    // 5432 is also in the insecure-port table
    assert_eq!(result.issues.len(), 2);
    assert_eq!(result.critical_count, 1);
    assert_eq!(result.low_count, 1);
}

#[test]
fn software_rules_by_name() {
    // the rules go by the name alone, whatever the ports
    let services = vec![
        service("m", "MongoDB Server", None, vec![27017]),
        service("m2", "mongodb", None, vec![27018]),
        service("e", "ElasticSearch-node", None, vec![9200, 9300]),
        service("e2", "elasticsearch", None, vec![]),
        service("r", "Redis", None, vec![]),
        service("n", "nginx", None, vec![6379, 27017]),
    ];
    let result = SecurityScanner::new().scan(&services, &Vec::new(), &Vec::new(), &Vec::new(), 0);
    let ids: Vec<&str> = result.issues.iter().map(|i| i.id.as_str()).collect();
    assert_eq!(
        ids,
        vec!["mongo-auth-m", "mongo-auth-m2", "elastic-auth-e", "elastic-auth-e2", "redis-auth-r"]
    );
    assert_eq!(result.issues[0].severity, SecuritySeverity::High);
    assert_eq!(result.issues[0].port, Some(27017));
    assert_eq!(result.issues[0].title, "MongoDB möglicherweise ohne Authentifizierung");
    assert_eq!(result.issues[1].port, Some(27017));
    assert_eq!(result.issues[2].severity, SecuritySeverity::Medium);
    assert_eq!(result.issues[2].port, Some(9200));
    assert_eq!(result.issues[2].title, "Elasticsearch Security prüfen");
    assert_eq!(result.issues[3].port, None);
    assert_eq!(result.issues[4].category, SecurityCategory::MissingAuthentication);
    assert_eq!(result.issues[4].severity, SecuritySeverity::High);
    assert_eq!(result.issues[4].service_id.as_deref(), Some("r"));
    assert_eq!(result.issues[4].port, Some(6379));
    assert_eq!(result.high_count, 3);
    assert_eq!(result.medium_count, 2);
}

#[test]
fn redis_by_name_without_ports() {
    let services = vec![service("r", "Redis", None, vec![])];
    let result = SecurityScanner::new().scan(&services, &Vec::new(), &Vec::new(), &Vec::new(), 0);
    assert_eq!(result.issues.len(), 1);
    assert_eq!(result.issues[0].category, SecurityCategory::MissingAuthentication);
    assert_eq!(result.issues[0].service_id.as_deref(), Some("r"));
    assert_eq!(result.issues[0].id, "redis-auth-r");
}

#[test]
fn one_exposure_issue_for_each_port() {
    let services = vec![service("db", "postgres", Some(5), vec![5432])];
    // the usual case: one row for IPv4 and one for IPv6
    let table = vec![
        entry(5432, Some(5), Some("postgres")),
        entry(6379, Some(6), None),
        entry(5432, Some(5), Some("postgres6")),
        entry(27017, Some(7), Some("mongod")),
        entry(6379, Some(8), Some("late")),
    ];
    let public = vec![27017u16, 5432, 5432];
    let result = SecurityScanner::new().scan(&services, &table, &public, &Vec::new(), 0);
    let exposure = with_category(&result.issues, SecurityCategory::PublicExposure);
    let ids: Vec<&str> = exposure.iter().map(|i| i.id.as_str()).collect();
    assert_eq!(ids, vec!["public-db-5432", "public-db-27017"]);
    assert_eq!(exposure[0].service_name.as_deref(), Some("postgres"));
    assert_eq!(exposure[0].details.as_deref(), Some("postgres"));
    assert_eq!(exposure[1].service_name.as_deref(), Some("mongod"));
    assert_eq!(result.critical_count, 2);
    // bound to loopback only, or the query failed: none
    let none = SecurityScanner::new().scan(&services, &table, &Vec::new(), &Vec::new(), 0);
    assert!(with_category(&none.issues, SecurityCategory::PublicExposure).is_empty());
}

#[test]
fn root_services_are_flagged() {
    let services = vec![
        service("a", "nginx", Some(100), vec![80, 443]),
        service("b", "systemd-journald", Some(101), vec![]),
        service("c", "worker", Some(102), vec![]),
        service("d", "nopid", None, vec![]),
        service("e", "unasked", Some(104), vec![]),
        service("f", "Com.Apple.thing", Some(105), vec![]),
    ];
    let owners = vec![
        (100u32, "root\n".to_string()),
        (101, "root\n".to_string()),
        (102, "www-data\n".to_string()),
        (105, " root ".to_string()),
        (100, "nobody".to_string()),
    ];
    let result = SecurityScanner::new().scan(&services, &Vec::new(), &Vec::new(), &owners, 0);
    assert_eq!(result.issues.len(), 1);
    let issue = &result.issues[0];
    assert_eq!(issue.id, "root-a");
    assert_eq!(issue.category, SecurityCategory::PrivilegeEscalation);
    assert_eq!(issue.severity, SecuritySeverity::Medium);
    assert_eq!(issue.title, "nginx läuft als root");
    assert_eq!(issue.description, "Services sollten mit minimalen Rechten laufen");
    assert_eq!(issue.recommendation, "Erstelle einen dedizierten Benutzer für diesen Service");
    assert_eq!(issue.port, Some(80));
    assert_eq!(issue.details.as_deref(), Some("PID: 100"));
    assert_eq!(issue.service_id.as_deref(), Some("a"));
    assert_eq!(issue.service_name.as_deref(), Some("nginx"));
}

#[test]
fn system_service_names() {
    let s = SecurityScanner::new();
    assert!(s.is_system_service("com.apple.Finder"));
    assert!(s.is_system_service("SystemD-logind"));
    assert!(s.is_system_service("launchd"));
    assert!(s.is_system_service("KERNEL_task"));
    assert!(s.is_system_service("init"));
    assert!(!s.is_system_service("nginx"));
    assert!(!s.is_system_service("my-systemd"));
    assert!(!s.is_system_service(""));
}

#[test]
fn public_bind_detection() {
    let s = SecurityScanner::new();
    assert!(s.lsof_shows_public_bind("redis 1 me 6u IPv4 0 0t0 TCP *:6379 (LISTEN)", 6379));
    assert!(s.lsof_shows_public_bind("x TCP 0.0.0.0:6379 (LISTEN)", 6379));
    assert!(s.lsof_shows_public_bind("x TCP [::]:6379 (LISTEN)", 6379));
    assert!(!s.lsof_shows_public_bind("x TCP 127.0.0.1:6379 (LISTEN)", 6379));
    assert!(!s.lsof_shows_public_bind("x TCP *:637 (LISTEN)", 6379));
    // the port counts whole, and only the local address counts
    assert!(!s.lsof_shows_public_bind("x TCP *:63790 (LISTEN)", 6379));
    assert!(!s.lsof_shows_public_bind("x TCP *:8080 (LISTEN)", 80));
    assert!(!s.lsof_shows_public_bind("x TCP 10.0.0.1:6379->10.0.0.2:50000 (ESTABLISHED)", 6379));
    assert!(s.lsof_shows_public_bind(
        "COMMAND PID USER FD TYPE DEVICE SIZE/OFF NODE NAME\n\
redis 7 me 6u IPv4 0x1 0t0 TCP 127.0.0.1:6379 (LISTEN)\n\
redis 7 me 7u IPv6 0x2 0t0 TCP [::]:6379 (LISTEN)\n",
        6379
    ));
    assert!(!s.lsof_shows_public_bind("", 6379));
    assert!(s.ss_shows_public_bind("LISTEN 0 128 0.0.0.0:5432 0.0.0.0:*"));
    assert!(s.ss_shows_public_bind("LISTEN 0 128 [::]:5432 [::]:*"));
    assert!(s.ss_shows_public_bind("LISTEN 0 128 *:5432 *:*"));
    // the peer column of a listener is a wildcard; only the local address counts
    assert!(!s.ss_shows_public_bind("LISTEN 0 128 127.0.0.1:5432 0.0.0.0:*"));
    assert!(!s.ss_shows_public_bind("LISTEN 0 128 127.0.0.1:5432 *:*"));
    assert!(!s.ss_shows_public_bind("LISTEN 0 128 [::1]:5432 [::]:*"));
    assert!(!s.ss_shows_public_bind("LISTEN 0 128 10.0.0.5:5432 0.0.0.0:*"));
    assert!(!s.ss_shows_public_bind("State Recv-Q Send-Q Local Address:Port Peer Address:Port Process"));
    assert!(!s.ss_shows_public_bind(""));
    assert!(!s.ss_shows_public_bind("0.0.0.0:5432"));
    let listing = "State  Recv-Q Send-Q Local Address:Port Peer Address:Port Process\n\
LISTEN 0      244        127.0.0.1:5432      0.0.0.0:*     users:((\"postgres\",pid=9,fd=5))\n\
LISTEN 0      244             [::]:5432         [::]:*     users:((\"postgres\",pid=9,fd=6))\n";
    assert!(s.ss_shows_public_bind(listing));
    assert!(SecurityScanner::is_database_port(5984));
    assert!(!SecurityScanner::is_database_port(80));
}

#[test]
fn scan_of_nothing_finds_nothing() {
    let result = SecurityScanner::new().scan(&Vec::new(), &Vec::new(), &Vec::new(), &Vec::new(), 42);
    assert!(result.issues.is_empty());
    assert_eq!(
        (result.critical_count, result.high_count, result.medium_count, result.low_count),
        (0, 0, 0, 0)
    );
    assert_eq!(result.ports_scanned, 0);
    assert_eq!(result.scan_timestamp, 42);
}

#[test]
fn rules_on_lower_case_names() {
    assert!(SecurityScanner::begins_like_system_service("com.apple.finder"));
    assert!(SecurityScanner::begins_like_system_service("initd"));
    // the name is taken as it is: an upper-case name begins like none
    assert!(!SecurityScanner::begins_like_system_service("Launchd"));
    let s = service("r", "whatever", None, vec![6379]);
    let mut issues = Vec::new();
    SecurityScanner::new().check_lower_name("my redis", &s, &mut issues);
    assert_eq!(issues.len(), 1);
    assert_eq!(issues[0].id, "redis-auth-r");
    assert_eq!(issues[0].service_name.as_deref(), Some("whatever"));
    SecurityScanner::new().check_lower_name("REDIS", &s, &mut issues);
    assert_eq!(issues.len(), 1);
    SecurityScanner::new().check_lower_name("elasticsearch mongodb", &s, &mut issues);
    assert_eq!(issues.len(), 3);
    assert_eq!(issues[1].id, "mongo-auth-r");
    assert_eq!(issues[2].id, "elastic-auth-r");
    let bare = service("b", "b", None, vec![]);
    SecurityScanner::new().check_lower_name("redis", &bare, &mut issues);
    assert_eq!(issues.len(), 4);
    assert_eq!(issues[3].id, "redis-auth-b");
}
