use std::time::Duration;

use network_manager::models::service::{Service, ServiceStatus, ServiceType};
use network_manager::services::monitor::{
    MonitorConfig, MonitorStep, ServiceEvent, ServiceMonitor,
};

fn record(id: &str, status: ServiceStatus, ports: Vec<u16>) -> Service {
    Service {
        id: id.to_string(),
        name: format!("name-{}", id),
        status,
        service_type: ServiceType::Docker,
        ports,
        pid: None,
        path: None,
        description: None,
        auto_start: false,
        cpu_usage_bits: None,
        memory_bytes: None,
        memory_percent_bits: None,
    }
}

#[test]
fn first_tick_reports_whole_snapshot() {
    let mut monitor = ServiceMonitor::new();
    let events = monitor.tick(vec![
        record("A", ServiceStatus::Running, vec![80]),
        record("B", ServiceStatus::Stopped, vec![]),
    ]);
    assert_eq!(events.len(), 1);
    match &events[0] {
        ServiceEvent::ServicesDiscovered(all) => {
            assert_eq!(all.len(), 2);
            assert_eq!(all[0].id, "A");
            assert_eq!(all[0].ports, vec![80]);
            assert_eq!(all[1].id, "B");
        }
        other => panic!("unexpected event {:?}", other),
    }
}

#[test]
fn monitor_diff_status_added_none_removed() {
    let mut monitor = ServiceMonitor::new();
    monitor.tick(vec![
        record("A", ServiceStatus::Running, vec![]),
        record("B", ServiceStatus::Stopped, vec![]),
    ]);
    let events = monitor.tick(vec![
        record("A", ServiceStatus::Stopped, vec![]),
        record("B", ServiceStatus::Stopped, vec![]),
        record("C", ServiceStatus::Running, vec![]),
    ]);
    let mut status_changed = 0;
    let mut added = 0;
    let mut removed = 0;
    let mut others = 0;
    for e in &events {
        match e {
            ServiceEvent::ServiceStatusChanged { service_id, old_status, new_status } => {
                assert_eq!(service_id, "A");
                assert_eq!(old_status, "Running");
                assert_eq!(new_status, "Stopped");
                status_changed += 1;
            }
            ServiceEvent::ServiceAdded(s) => {
                assert_eq!(s.id, "C");
                assert_eq!(s.status, ServiceStatus::Running);
                added += 1;
            }
            ServiceEvent::ServiceRemoved { .. } => removed += 1,
            _ => others += 1,
        }
    }
    assert_eq!((status_changed, added, removed, others), (1, 1, 0, 0));
    assert_eq!(events.len(), 2);
}

#[test]
fn status_and_ports_may_both_change() {
    let mut monitor = ServiceMonitor::new();
    monitor.tick(vec![record("A", ServiceStatus::Running, vec![80]), record("gone", ServiceStatus::Error, vec![1])]);
    let events = monitor.tick(vec![record("A", ServiceStatus::Unknown, vec![80, 443])]);
    assert_eq!(events.len(), 3);
    match &events[0] {
        ServiceEvent::ServiceStatusChanged { service_id, old_status, new_status } => {
            assert_eq!(service_id, "A");
            assert_eq!(old_status, "Running");
            assert_eq!(new_status, "Unknown");
        }
        other => panic!("unexpected event {:?}", other),
    }
    match &events[1] {
        ServiceEvent::ServicePortsChanged { service_id, ports } => {
            assert_eq!(service_id, "A");
            assert_eq!(ports, &vec![80, 443]);
        }
        other => panic!("unexpected event {:?}", other),
    }
    match &events[2] {
        ServiceEvent::ServiceRemoved { service_id } => assert_eq!(service_id, "gone"),
        other => panic!("unexpected event {:?}", other),
    }
}

#[test]
fn ports_are_compared_as_sets() {
    let mut monitor = ServiceMonitor::new();
    monitor.tick(vec![record("X", ServiceStatus::Running, vec![80, 443])]);
    // another order, and a port named twice: the same set
    assert!(monitor.tick(vec![record("X", ServiceStatus::Running, vec![443, 80])]).is_empty());
    assert!(monitor.tick(vec![record("X", ServiceStatus::Running, vec![80, 443, 80])]).is_empty());
    let events = monitor.tick(vec![record("X", ServiceStatus::Running, vec![443])]);
    assert_eq!(events.len(), 1);
    match &events[0] {
        ServiceEvent::ServicePortsChanged { service_id, ports } => {
            assert_eq!(service_id, "X");
            assert_eq!(ports, &vec![443]);
        }
        other => panic!("unexpected event {:?}", other),
    }
    let events = monitor.tick(vec![record("X", ServiceStatus::Running, vec![443, 8080])]);
    assert_eq!(events.len(), 1);
    assert!(monitor.tick(vec![record("X", ServiceStatus::Running, vec![])]).len() == 1);
    assert!(monitor.tick(vec![record("X", ServiceStatus::Running, vec![])]).is_empty());
}

#[test]
fn unchanged_snapshot_is_silent_and_baseline_moves() {
    let mut monitor = ServiceMonitor::new();
    monitor.tick(vec![record("A", ServiceStatus::Running, vec![80])]);
    assert!(monitor.tick(vec![record("A", ServiceStatus::Running, vec![80])]).is_empty());
    let events = monitor.tick(vec![record("A", ServiceStatus::Error, vec![80])]);
    assert_eq!(events.len(), 1);
    // the baseline is now the snapshot with the error status
    let events = monitor.tick(vec![record("A", ServiceStatus::Error, vec![80])]);
    assert!(events.is_empty());
}

#[test]
fn empty_baseline_after_empty_snapshot_reports_whole_again() {
    let mut monitor = ServiceMonitor::new();
    let first = monitor.tick(Vec::new());
    assert_eq!(first.len(), 1);
    let second = monitor.tick(vec![record("A", ServiceStatus::Running, vec![])]);
    assert_eq!(second.len(), 1);
    assert!(matches!(&second[0], ServiceEvent::ServicesDiscovered(all) if all.len() == 1));
    let third = monitor.tick(Vec::new());
    assert_eq!(third.len(), 1);
    assert!(matches!(&third[0], ServiceEvent::ServiceRemoved { service_id } if service_id == "A"));
}

#[test]
fn default_config_polls_every_five_seconds() {
    let config = MonitorConfig::default();
    assert_eq!(config.check_interval, Duration::from_secs(5));
    assert!(config.enabled);
    let monitor = ServiceMonitor::new();
    assert_eq!(monitor.config().check_interval, Duration::from_secs(5));
    assert!(monitor.config().enabled);
}

#[test]
fn configuration_applies_at_the_next_iteration() {
    let mut monitor = ServiceMonitor::new().with_config(MonitorConfig {
        check_interval: Duration::from_secs(1),
        enabled: true,
    });
    assert_eq!(monitor.config().check_interval, Duration::from_secs(1));
    let step = monitor.begin_iteration(MonitorConfig { check_interval: Duration::from_secs(9), enabled: false });
    assert!(matches!(step, MonitorStep::Idle { sleep } if sleep == Duration::from_secs(9)));
    assert!(!monitor.config().enabled);
    let step = monitor.begin_iteration(MonitorConfig { check_interval: Duration::from_secs(2), enabled: true });
    assert!(matches!(step, MonitorStep::Poll { sleep } if sleep == Duration::from_secs(2)));
}

#[test]
fn status_labels() {
    assert_eq!(ServiceStatus::Running.label(), "Running");
    assert_eq!(ServiceStatus::Stopped.label(), "Stopped");
    assert_eq!(ServiceStatus::Error.label(), "Error");
    assert_eq!(ServiceStatus::Unknown.label(), "Unknown");
}
