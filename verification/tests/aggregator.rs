use network_manager::models::port::{PortInfo, PortStatus, Protocol};
use network_manager::models::service::{Service, ServiceStatus, ServiceType};
use network_manager::services::discovery::traits::HostOs;
use network_manager::services::manager::{
    cap_platform_services, dedup_by_id, enrich_ports, ranks_before, synthesize_residual,
    ServiceManager,
};

fn record(id: &str, name: &str, status: ServiceStatus, pid: Option<u32>, ports: Vec<u16>) -> Service {
    Service {
        id: id.to_string(),
        name: name.to_string(),
        status,
        service_type: ServiceType::Launchd,
        ports,
        pid,
        path: None,
        description: None,
        auto_start: false,
        cpu_usage_bits: None,
        memory_bytes: None,
        memory_percent_bits: None,
    }
}

fn entry(port: u16, pid: Option<u32>, name: Option<&str>) -> PortInfo {
    PortInfo {
        port,
        protocol: Protocol::Tcp,
        status: PortStatus::Occupied,
        process_name: name.map(String::from),
        pid,
    }
}

#[test]
fn enrichment_replaces_ports_exactly() {
    let table = vec![entry(6379, Some(10), None), entry(80, Some(11), None), entry(6380, Some(10), None)];
    let services = vec![
        record("p1", "redis-server", ServiceStatus::Running, Some(10), vec![1, 2, 3]),
        record("p2", "nopid", ServiceStatus::Running, None, vec![9]),
        record("p3", "quiet", ServiceStatus::Running, Some(77), vec![5]),
    ];
    let out = enrich_ports(services, &table);
    assert_eq!(out.len(), 3);
    assert_eq!(out[0].ports, vec![6379, 6380]);
    assert_eq!(out[1].ports, vec![9]);
    assert_eq!(out[2].ports, Vec::<u16>::new());
    assert_eq!(out[0].id, "p1");
    assert_eq!(out[0].name, "redis-server");
}

#[test]
fn residual_keeps_the_fifty_busiest() {
    let mut table = Vec::new();
    for pid in 1..=60u32 {
        // pid k holds k ports
        for j in 0..pid {
            table.push(entry((1000 + pid * 70 + j) as u16, Some(pid), Some("proc")));
        }
    }
    let out = synthesize_residual(&table, &Vec::new());
    assert_eq!(out.len(), 50);
    let pids: Vec<u32> = out.iter().map(|s| s.pid.unwrap()).collect();
    let expected: Vec<u32> = (11..=60u32).rev().collect();
    assert_eq!(pids, expected);
    assert_eq!(out[0].id, "process-60");
    assert_eq!(out[0].ports.len(), 10);
    assert_eq!(out[0].status, ServiceStatus::Running);
    assert_eq!(out[0].service_type, ServiceType::Process);
}

#[test]
fn residual_describes_ports() {
    let table = vec![
        entry(8080, Some(5), None),
        entry(22, Some(6), Some("sshd")),
        entry(8081, Some(5), Some("late-name")),
        entry(1, Some(7), None),
        entry(2, Some(7), None),
        entry(3, Some(7), None),
        entry(4, Some(7), None),
        entry(5, Some(7), None),
        entry(6, Some(7), None),
        entry(443, None, Some("anonymous")),
    ];
    let claimed = vec![record("x", "x", ServiceStatus::Stopped, Some(6), vec![])];
    let out = synthesize_residual(&table, &claimed);
    assert_eq!(out.len(), 2);
    assert_eq!(out[0].id, "process-7");
    assert_eq!(out[0].name, "Process 7");
    assert_eq!(out[0].description.as_deref(), Some("Ports: 1, 2, 3, 4, 5"));
    assert_eq!(out[0].ports, vec![1, 2, 3, 4, 5, 6]);
    assert_eq!(out[1].id, "process-5");
    assert_eq!(out[1].name, "Process 5");
    assert_eq!(out[1].description.as_deref(), Some("Ports: 8080, 8081"));
    let single = synthesize_residual(&vec![entry(9, Some(1), Some("one"))], &Vec::new());
    assert_eq!(single[0].description.as_deref(), Some("Port 9"));
    assert_eq!(single[0].name, "one");
    assert_eq!(single[0].pid, Some(1));
    assert!(!single[0].auto_start);
}

#[test]
fn residual_ties_keep_table_order() {
    let table = vec![entry(1, Some(30), None), entry(2, Some(20), None), entry(3, Some(10), None)];
    let out = synthesize_residual(&table, &Vec::new());
    let pids: Vec<u32> = out.iter().map(|s| s.pid.unwrap()).collect();
    assert_eq!(pids, vec![30, 20, 10]);
}

#[test]
fn platform_cap_prefers_running() {
    let mut services = Vec::new();
    for i in 0..120 {
        let status = if i % 2 == 0 { ServiceStatus::Stopped } else { ServiceStatus::Running };
        services.push(record(&format!("s{}", i), "n", status, None, vec![]));
    }
    let out = cap_platform_services(&services);
    assert_eq!(out.len(), 100);
    for s in out.iter().take(60) {
        assert_eq!(s.status, ServiceStatus::Running);
    }
    for s in out.iter().skip(60) {
        assert_eq!(s.status, ServiceStatus::Stopped);
    }
    assert_eq!(out[0].id, "s1");
    assert_eq!(out[59].id, "s119");
    assert_eq!(out[60].id, "s0");
    assert_eq!(out[99].id, "s78");
}

#[test]
fn dedup_first_occurrence_wins() {
    let services = vec![
        record("a", "first", ServiceStatus::Running, None, vec![]),
        record("b", "other", ServiceStatus::Running, None, vec![]),
        record("a", "second", ServiceStatus::Stopped, None, vec![]),
    ];
    let out = dedup_by_id(services);
    assert_eq!(out.len(), 2);
    assert_eq!(out[0].name, "first");
    assert_eq!(out[1].id, "b");
}

#[test]
fn snapshot_is_capped_at_150() {
    let mut containers = Vec::new();
    for i in 0..200 {
        containers.push(record(&format!("c{}", i), &format!("name{:03}", i), ServiceStatus::Running, None, vec![]));
    }
    let out = ServiceManager::new(HostOs::Linux).discover_all(&Vec::new(), containers, Vec::new());
    assert_eq!(out.len(), 150);
    assert_eq!(out[0].name, "name000");
    assert_eq!(out[149].name, "name149");
}

#[test]
fn snapshot_order_running_then_name() {
    let containers = vec![
        record("1", "zeta", ServiceStatus::Stopped, None, vec![]),
        record("2", "Beta", ServiceStatus::Running, None, vec![]),
        record("3", "alpha", ServiceStatus::Running, None, vec![]),
        record("4", "Alpha", ServiceStatus::Error, None, vec![]),
        record("5", "beta", ServiceStatus::Running, None, vec![]),
    ];
    let out = ServiceManager::new(HostOs::Linux).discover_all(&Vec::new(), containers, Vec::new());
    let ids: Vec<&str> = out.iter().map(|s| s.id.as_str()).collect();
    assert_eq!(ids, vec!["3", "2", "5", "4", "1"]);
    for pair in out.windows(2) {
        let a_run = pair[0].status == ServiceStatus::Running;
        let b_run = pair[1].status == ServiceStatus::Running;
        assert!(
            (a_run && !b_run)
                || (a_run == b_run && pair[0].name.to_lowercase() <= pair[1].name.to_lowercase())
        );
    }
}

#[test]
fn snapshot_is_idempotent() {
    let table = vec![entry(6379, Some(10), Some("redis")), entry(80, Some(11), Some("nginx"))];
    let make = || vec![record("p1", "redis-server", ServiceStatus::Running, Some(10), vec![])];
    let plat = || vec![record("u1", "unit", ServiceStatus::Stopped, None, vec![])];
    let m = ServiceManager::new(HostOs::Linux);
    let a = m.discover_all(&table, make(), plat());
    let b = m.discover_all(&table, make(), plat());
    let ia: Vec<(String, Vec<u16>)> = a.iter().map(|s| (s.id.clone(), s.ports.clone())).collect();
    let ib: Vec<(String, Vec<u16>)> = b.iter().map(|s| (s.id.clone(), s.ports.clone())).collect();
    assert_eq!(ia, ib);
    assert_eq!(ia.len(), 3);
}

#[test]
fn get_service_finds_by_id() {
    let table = vec![entry(6379, Some(10), Some("redis"))];
    let m = ServiceManager::new(HostOs::Linux);
    let found = m.get_service(
        "p1",
        &table,
        vec![record("p1", "redis-server", ServiceStatus::Running, Some(10), vec![])],
        Vec::new(),
    );
    assert_eq!(found.unwrap().ports, vec![6379]);
    let missing = m.get_service("nope", &table, Vec::new(), Vec::new());
    assert!(missing.is_none());
}

struct Rng(u64);

impl Rng {
    fn next(&mut self) -> u64 {
        self.0 = self.0.wrapping_mul(6364136223846793005).wrapping_add(1442695040888963407);
        self.0 >> 33
    }
}

#[test]
fn random_snapshots_agree_with_std_sorting() {
    let names = ["alpha", "Alpha", "beta", "BETA", "Zed", "äther", "Ärger", "a", "", "b2", "B10"];
    let statuses =
        [ServiceStatus::Running, ServiceStatus::Stopped, ServiceStatus::Error, ServiceStatus::Unknown];
    let mut rng = Rng(99);
    for round in 0..60 {
        let n = if round % 10 == 0 { 180 } else { rng.next() % 40 };
        let mut given = Vec::new();
        for _ in 0..n {
            let id = format!("id{}", rng.next() % (n + 3));
            let name = names[(rng.next() % names.len() as u64) as usize];
            let status = statuses[(rng.next() % 4) as usize];
            given.push(record(&id, name, status, None, vec![rng.next() as u16]));
        }
        let mut expected: Vec<(String, String, ServiceStatus, Vec<u16>)> = Vec::new();
        for s in &given {
            if !expected.iter().any(|e| e.0 == s.id) {
                expected.push((s.id.clone(), s.name.clone(), s.status, s.ports.clone()));
            }
        }
        expected.sort_by(|a, b| {
            let a_running = a.2 == ServiceStatus::Running;
            let b_running = b.2 == ServiceStatus::Running;
            b_running.cmp(&a_running).then_with(|| a.1.to_lowercase().cmp(&b.1.to_lowercase()))
        });
        expected.truncate(150);
        let out = ServiceManager::new(HostOs::Other).discover_all(&Vec::new(), given, Vec::new());
        let got: Vec<(String, String, ServiceStatus, Vec<u16>)> =
            out.iter().map(|s| (s.id.clone(), s.name.clone(), s.status, s.ports.clone())).collect();
        assert_eq!(got, expected);
    }
}

#[test]
fn random_residuals_rank_by_port_count() {
    let mut rng = Rng(5);
    for _ in 0..60 {
        let n = rng.next() % 300;
        let mut table = Vec::new();
        for _ in 0..n {
            let pid = if rng.next() % 5 == 0 { None } else { Some((rng.next() % 70) as u32) };
            table.push(entry(rng.next() as u16, pid, None));
        }
        let claimed: Vec<Service> = (0..(rng.next() % 10))
            .map(|i| record(&format!("c{}", i), "c", ServiceStatus::Running, Some((rng.next() % 70) as u32), vec![]))
            .collect();
        let mut groups: Vec<(u32, Vec<u16>)> = Vec::new();
        for e in &table {
            if let Some(pid) = e.pid {
                if claimed.iter().any(|s| s.pid == Some(pid)) {
                    continue;
                }
                match groups.iter_mut().find(|g| g.0 == pid) {
                    Some(g) => g.1.push(e.port),
                    None => groups.push((pid, vec![e.port])),
                }
            }
        }
        groups.sort_by(|a, b| b.1.len().cmp(&a.1.len()));
        groups.truncate(50);
        let out = synthesize_residual(&table, &claimed);
        let got: Vec<(u32, Vec<u16>)> = out.iter().map(|s| (s.pid.unwrap(), s.ports.clone())).collect();
        let expected: Vec<(u32, Vec<u16>)> =
            groups.into_iter().map(|(pid, ports)| (pid, ports.into_iter().take(10).collect())).collect();
        assert_eq!(got, expected);
    }
}

#[test]
fn ranking_of_two_records() {
    assert!(ranks_before(true, "zzz", false, "aaa"));
    assert!(!ranks_before(false, "aaa", true, "zzz"));
    assert!(ranks_before(true, "alpha", true, "beta"));
    assert!(!ranks_before(true, "beta", true, "alpha"));
    assert!(ranks_before(false, "same", false, "same"));
    assert!(ranks_before(false, "", false, "a"));
    // the names are taken as they are: upper case comes before lower case
    assert!(ranks_before(true, "Zed", true, "alpha"));
}
