use std::time::Duration;

use network_manager::models::port::{PortStatus, Protocol};
use network_manager::services::port::scanner::{PortScanner, ScanAction};

#[test]
fn scanner_defaults_and_builders() {
    let scanner = PortScanner::new();
    assert_eq!(scanner.timeout, Duration::from_millis(200));
    assert_eq!(scanner.max_concurrent, 100);
    let scanner = scanner.with_timeout(Duration::from_secs(2)).with_concurrency(7);
    assert_eq!(scanner.timeout, Duration::from_secs(2));
    assert_eq!(scanner.max_concurrent, 7);
    let scanner = PortScanner::default().with_concurrency(3).with_timeout(Duration::from_millis(5));
    assert_eq!(scanner.max_concurrent, 3);
    assert_eq!(scanner.timeout, Duration::from_millis(5));
}

#[test]
fn range_scan_never_exceeds_the_limit() {
    let k = 4usize;
    let mut scan = PortScanner::new().with_concurrency(k).scan_range(1000, 1029);
    let mut running: Vec<u16> = Vec::new();
    let mut started: Vec<u16> = Vec::new();
    let mut peak = 0usize;
    loop {
        let (next, action) = scan.next_action();
        scan = next;
        match action {
            ScanAction::Probe(port) => {
                running.push(port);
                started.push(port);
                peak = peak.max(running.len());
                assert!(running.len() <= k);
                assert_eq!(scan.in_flight(), running.len());
            }
            ScanAction::Wait => {
                assert_eq!(running.len(), k.min(running.len()));
                // the probe that started last finishes first
                let port = running.pop().unwrap();
                let (next, known) = scan.probe_finished(port, port % 3 == 0);
                scan = next;
                assert!(known);
            }
            ScanAction::Blocked => panic!("a scan with a positive limit cannot block"),
            ScanAction::Done => break,
        }
    }
    assert!(scan.is_done());
    assert_eq!(peak, k);
    assert_eq!(started, (1000..=1029).collect::<Vec<u16>>());
    let found = scan.into_results();
    let ports: Vec<u16> = found.iter().map(|p| p.port).collect();
    let mut sorted = ports.clone();
    sorted.sort();
    assert_eq!(sorted, vec![1002, 1005, 1008, 1011, 1014, 1017, 1020, 1023, 1026, 1029]);
    // completion order, not port order: 1002 started early and finished last
    assert_eq!(ports[0], 1005);
    assert_eq!(ports[ports.len() - 1], 1002);
    for p in &found {
        assert_eq!(p.protocol, Protocol::Tcp);
        assert_eq!(p.status, PortStatus::Occupied);
        assert_eq!(p.process_name, None);
        assert_eq!(p.pid, None);
    }
}

#[test]
fn range_scan_edges() {
    // an empty range is done at once
    let scan = PortScanner::new().scan_range(10, 9);
    let (scan, action) = scan.next_action();
    assert_eq!(action, ScanAction::Done);
    assert!(scan.is_done());
    assert!(scan.into_results().is_empty());
    // the last port of all
    let scan = PortScanner::new().scan_range(65535, 65535);
    let (scan, action) = scan.next_action();
    assert_eq!(action, ScanAction::Probe(65535));
    let (scan, action) = scan.next_action();
    assert_eq!(action, ScanAction::Wait);
    let (scan, known) = scan.probe_finished(1, true);
    assert!(!known);
    assert_eq!(scan.in_flight(), 1);
    let (scan, known) = scan.probe_finished(65535, true);
    assert!(known);
    let (scan, action) = scan.next_action();
    assert_eq!(action, ScanAction::Done);
    assert_eq!(scan.into_results().len(), 1);
    // a limit of zero admits no probe
    let scan = PortScanner::new().with_concurrency(0).scan_range(1, 2);
    let (_, action) = scan.next_action();
    assert_eq!(action, ScanAction::Blocked);
}

#[test]
fn common_ports_in_probing_order() {
    let scanner = PortScanner::new();
    assert_eq!(
        scanner.common_ports(),
        vec![
            20, 21, 22, 23, 25, 53, 80, 110, 143, 443, 465, 587, 993, 995, 3000, 3306, 5432, 5672,
            6379, 8000, 8080, 8443, 9000, 27017
        ]
    );
    let outcomes = vec![(20u16, false), (22, true), (80, true), (443, false), (8080, true)];
    let found = scanner.scan_common_ports(&outcomes);
    let ports: Vec<u16> = found.iter().map(|p| p.port).collect();
    assert_eq!(ports, vec![22, 80, 8080]);
    assert!(scanner.scan_common_ports(&Vec::new()).is_empty());
}
