use network_manager::commands::audit_commands::{export_format, ExportFormat};
use network_manager::commands::port_commands::{find_free_ports, scan_host};
use network_manager::commands::service_commands::{
    not_found_message, refusal_message, select_autostart_controller, select_controller, Controller,
};
use network_manager::models::audit::{
    export_csv, listing_limit, recent_lines, AuditDraft, AuditRow, EventType,
};
use network_manager::models::config::{Config, OllamaConfig, SecurityConfig, Theme, ThemeMode};
use network_manager::models::port::{PortInfo, PortStatus, Protocol};
use network_manager::models::service::ServiceType;
use network_manager::services::control::docker_control::DockerControl;
use network_manager::services::control::launchd_control::{
    domain_target, plist_paths, LaunchdControl,
};
use network_manager::services::control::process_control::ProcessControl;
use network_manager::services::control::systemd_control::SystemdControl;
use network_manager::services::control::traits::{command_outcome, ControlAction, ServiceControl};
use network_manager::services::control::windows_control::WindowsControl;
use network_manager::services::discovery::traits::HostOs;
use network_manager::services::manager::ServiceManager;
use network_manager::services::port::resolver::PortTool;
use network_manager::services::security::encryption::{
    ConfigEncryption, EncryptedConfig, EncryptionError,
};
use network_manager::services::system_stats::{
    amd_card_name, is_card_key, read_nvidia_line, unknown_provider_message, GpuProvider,
};

#[test]
fn config_defaults() {
    let c = Config::default();
    assert_eq!(c.theme.mode, ThemeMode::System);
    assert_eq!(c.refresh_interval_ms, 0);
    assert!(!c.ollama.enabled);
    assert_eq!(c.ollama.endpoint, "http://localhost:11434");
    assert_eq!(c.ollama.model, "mistral:7b-instruct");
    assert_eq!(c.ollama.timeout_seconds, 30);
    assert!(c.security.audit_logging);
    assert!(c.security.require_confirmation_for_kill);
    assert_eq!(c.security.privilege_cache_ttl_minutes, 15);
    let d = c.clone();
    assert_eq!(d.ollama.model, c.ollama.model);
    assert_eq!(Theme::default().mode, ThemeMode::default());
    assert_eq!(OllamaConfig::default().timeout_seconds, 30);
    assert_eq!(SecurityConfig::default().privilege_cache_ttl_minutes, 15);
}

#[test]
fn audit_export_and_listing() {
    let rows = vec![
        AuditRow {
            timestamp: "2024-01-02 03:04:05 UTC".to_string(),
            event_type: EventType::ServiceStart,
            user: "alice".to_string(),
            operation: "start".to_string(),
            service_id: Some("nginx".to_string()),
            success: true,
            error_message: None,
        },
        AuditRow {
            timestamp: "t2".to_string(),
            event_type: EventType::ProcessKill,
            user: "bob".to_string(),
            operation: "kill".to_string(),
            service_id: None,
            success: false,
            error_message: Some("denied".to_string()),
        },
    ];
    assert_eq!(
        export_csv(&rows),
        "timestamp,event_type,user,operation,service_id,success,error_message\n\
2024-01-02 03:04:05 UTC,ServiceStart,alice,start,nginx,true,\n\
t2,ProcessKill,bob,kill,,false,denied\n"
    );
    assert_eq!(
        export_csv(&Vec::new()),
        "timestamp,event_type,user,operation,service_id,success,error_message\n"
    );
    assert_eq!(EventType::LlmAnalysis.label(), "LlmAnalysis");
    assert_eq!(EventType::PrivilegeEscalation.label(), "PrivilegeEscalation");
    assert_eq!(recent_lines("a\nb\nc\n", 2), vec!["c".to_string(), "b".to_string()]);
    assert_eq!(recent_lines("a\nb\nc", 10), vec!["c".to_string(), "b".to_string(), "a".to_string()]);
    assert!(recent_lines("a\nb", 0).is_empty());
    assert!(recent_lines("", 5).is_empty());
    assert_eq!(listing_limit(None), 100);
    assert_eq!(listing_limit(Some(7)), 7);
    assert_eq!(export_format("json"), Ok(ExportFormat::Json));
    assert_eq!(export_format("csv"), Ok(ExportFormat::Csv));
    assert_eq!(export_format("xml"), Err("Unsupported format: xml".to_string()));
}

#[test]
fn controllers_know_their_kind() {
    assert!(LaunchdControl::new().can_handle("launchd"));
    assert!(!LaunchdControl::new().can_handle("systemd"));
    assert!(LaunchdControl::new().supports_autostart());
    assert!(SystemdControl::new().can_handle("systemd"));
    assert!(!SystemdControl::new().supports_autostart());
    assert!(WindowsControl::new().can_handle("windows_service"));
    assert!(!WindowsControl::new().can_handle("windows"));
    assert!(DockerControl::new(true).can_handle("docker"));
    assert!(!DockerControl::new(true).supports_autostart());
    assert!(ProcessControl::new().can_handle("process"));
    assert!(!ProcessControl::new().can_handle("Process"));
    assert_eq!(DockerControl::new(false).ready(), Err("Docker not available"));
    assert_eq!(DockerControl::new(true).ready(), Ok(()));
    assert_eq!(WindowsControl::unavailable_message(), "Windows services not available on this platform");
}

#[test]
fn control_outcomes() {
    assert_eq!(command_outcome(ControlAction::Start, true, "ignored"), Ok(()));
    assert_eq!(
        command_outcome(ControlAction::Start, false, "boom"),
        Err("Failed to start service: boom".to_string())
    );
    assert_eq!(
        command_outcome(ControlAction::Stop, false, ""),
        Err("Failed to stop service: ".to_string())
    );
    assert_eq!(
        command_outcome(ControlAction::Restart, false, "x"),
        Err("Failed to restart service: x".to_string())
    );
    assert_eq!(
        command_outcome(ControlAction::Kill, false, "x"),
        Err("Failed to kill service: x".to_string())
    );
    assert_eq!(
        command_outcome(ControlAction::EnableAutostart, false, "x"),
        Err("Failed to enable autostart: x".to_string())
    );
    assert_eq!(
        command_outcome(ControlAction::DisableAutostart, false, "x"),
        Err("Failed to disable autostart: x".to_string())
    );
    let p = ProcessControl::new();
    assert_eq!(p.target_pid("1234"), Some(1234));
    assert_eq!(p.target_pid("abc"), None);
    assert_eq!(p.not_found_message("77"), "Process 77 not found");
    assert_eq!(p.refusal(ControlAction::Start), Some("Cannot start a process - path information required"));
    assert_eq!(p.refusal(ControlAction::Restart), Some("Cannot restart a generic process"));
    assert_eq!(p.refusal(ControlAction::Stop), None);
    assert_eq!(p.refusal(ControlAction::Kill), None);
    assert!(p.refusal(ControlAction::EnableAutostart).unwrap().starts_with("Autostart wird für allgemeine Prozesse"));
    assert_eq!(domain_target("501\n", "com.example.job"), "gui/501/com.example.job");
    assert_eq!(
        plist_paths("/Users/me", "job"),
        vec![
            "/Library/LaunchAgents/job.plist".to_string(),
            "/Users/me/Library/LaunchAgents/job.plist".to_string(),
            "/Library/LaunchDaemons/job.plist".to_string(),
        ]
    );
    assert_eq!(plist_paths("", "j")[1], "/Library/LaunchAgents/j.plist");
}

#[test]
fn command_dispatch() {
    let (start, stop, restart) = (ControlAction::Start, ControlAction::Stop, ControlAction::Restart);
    for action in [start, stop, restart] {
        for host in [HostOs::Macos, HostOs::Linux, HostOs::Windows, HostOs::Other] {
            assert_eq!(select_controller(action, ServiceType::Docker, host), Some(Controller::Docker));
        }
        assert_eq!(select_controller(action, ServiceType::Launchd, HostOs::Macos), Some(Controller::Launchd));
        assert_eq!(select_controller(action, ServiceType::Launchd, HostOs::Linux), None);
        assert_eq!(select_controller(action, ServiceType::Systemd, HostOs::Linux), Some(Controller::Systemd));
        assert_eq!(select_controller(action, ServiceType::Systemd, HostOs::Macos), None);
        assert_eq!(select_controller(action, ServiceType::WindowsService, HostOs::Windows), Some(Controller::Windows));
        assert_eq!(select_controller(action, ServiceType::WindowsService, HostOs::Other), None);
    }
    assert_eq!(select_controller(stop, ServiceType::Process, HostOs::Linux), Some(Controller::Process));
    assert_eq!(select_controller(start, ServiceType::Process, HostOs::Linux), None);
    assert_eq!(select_controller(restart, ServiceType::Process, HostOs::Linux), None);
    assert_eq!(select_autostart_controller("launchd", HostOs::Macos), Some(Controller::Launchd));
    assert_eq!(select_autostart_controller("launchd", HostOs::Linux), None);
    assert_eq!(select_autostart_controller("systemd", HostOs::Linux), Some(Controller::Systemd));
    assert_eq!(select_autostart_controller("windows_service", HostOs::Windows), Some(Controller::Windows));
    assert_eq!(select_autostart_controller("docker", HostOs::Other), Some(Controller::Docker));
    assert_eq!(select_autostart_controller("process", HostOs::Linux), None);
    assert_eq!(refusal_message(start), Some("Cannot start this type of service"));
    assert_eq!(refusal_message(stop), Some("Cannot stop this type of service"));
    assert_eq!(refusal_message(restart), Some("Cannot restart this type of service"));
    assert_eq!(refusal_message(ControlAction::Kill), None);
    assert!(refusal_message(ControlAction::EnableAutostart).unwrap().starts_with("Autostart wird"));
    assert_eq!(not_found_message("abc"), "Service abc not found");
}

#[test]
fn port_commands_range() {
    let table: Vec<PortInfo> = [1024u16, 1025, 1027]
        .iter()
        .map(|&port| PortInfo {
            port,
            protocol: Protocol::Tcp,
            status: PortStatus::Occupied,
            process_name: None,
            pid: None,
        })
        .collect();
    assert_eq!(find_free_ports(&table, 3), vec![1026, 1028, 1029]);
    assert_eq!(find_free_ports(&table, 0), Vec::<u16>::new());
    assert_eq!(scan_host(), "127.0.0.1");
}

#[test]
fn gpu_providers() {
    assert_eq!(GpuProvider::from_name("auto"), Some(GpuProvider::Auto));
    assert_eq!(GpuProvider::from_name("Apple"), Some(GpuProvider::Apple));
    assert_eq!(GpuProvider::from_name("NVIDIA"), Some(GpuProvider::Nvidia));
    assert_eq!(GpuProvider::from_name("amd"), Some(GpuProvider::Amd));
    assert_eq!(GpuProvider::from_name("None"), Some(GpuProvider::NoGpu));
    assert_eq!(GpuProvider::from_name("intel"), None);
    assert_eq!(GpuProvider::from_lower_name("amd"), Some(GpuProvider::Amd));
    assert_eq!(GpuProvider::from_lower_name("AMD"), None);
    assert_eq!(unknown_provider_message("intel"), "Unknown GPU provider: intel");
    assert_eq!(GpuProvider::detect(HostOs::Macos, true, true, true), GpuProvider::Apple);
    assert_eq!(GpuProvider::detect(HostOs::Macos, false, true, true), GpuProvider::Nvidia);
    assert_eq!(GpuProvider::detect(HostOs::Linux, true, false, true), GpuProvider::Amd);
    assert_eq!(GpuProvider::detect(HostOs::Windows, false, false, true), GpuProvider::NoGpu);
    assert_eq!(GpuProvider::Auto.resolve(GpuProvider::Nvidia), GpuProvider::Nvidia);
    assert_eq!(GpuProvider::Amd.resolve(GpuProvider::Nvidia), GpuProvider::Amd);
    assert!(GpuProvider::Apple.reports_figures());
    assert!(!GpuProvider::Auto.reports_figures());
    assert!(!GpuProvider::NoGpu.reports_figures());
    let row = read_nvidia_line("NVIDIA GeForce RTX 3080, 45, 2048, 10240, 61, 220.5").unwrap();
    assert_eq!(row.name, "NVIDIA GeForce RTX 3080");
    assert_eq!(row.usage, "45");
    assert_eq!(row.memory_used_bytes, Some(2048 * 1024 * 1024));
    assert_eq!(row.memory_total_bytes, Some(10240u64 * 1024 * 1024));
    assert_eq!(row.temperature, "61");
    assert_eq!(row.power, "220.5");
    let odd = read_nvidia_line("a,b,c,[N/A],e,f,g").unwrap();
    assert_eq!(odd.memory_used_bytes, None);
    assert_eq!(odd.memory_total_bytes, None);
    assert!(read_nvidia_line("a,b,c").is_none());
    assert!(is_card_key("card0"));
    assert!(!is_card_key("system"));
    assert_eq!(amd_card_name("card1"), "AMD GPU card1");
}

#[test]
fn host_tools_and_platform_provider() {
    assert_eq!(PortTool::for_host(HostOs::Macos), Some(PortTool::Lsof));
    assert_eq!(PortTool::for_host(HostOs::Linux), Some(PortTool::Ss));
    assert_eq!(PortTool::for_host(HostOs::Windows), Some(PortTool::NetstatWindows));
    assert_eq!(PortTool::for_host(HostOs::Other), None);
    assert_eq!(PortTool::fallback_for_host(HostOs::Linux), Some(PortTool::Netstat));
    assert_eq!(PortTool::fallback_for_host(HostOs::Macos), None);
    let mac = ServiceManager::new(HostOs::Macos);
    assert_eq!(mac.platform_services(Some("PID Status Label\n1 0 a.b\n")).len(), 1);
    assert!(mac.platform_services(None).is_empty());
    let linux = ServiceManager::new(HostOs::Linux);
    let units = linux.platform_services(Some("a.service loaded active running A\n"));
    assert_eq!(units.len(), 1);
    assert_eq!(units[0].name, "a");
    let windows = ServiceManager::new(HostOs::Windows);
    assert_eq!(windows.platform_services(Some("[{\"Name\": \"S\", \"Status\": 4}]")).len(), 1);
    assert!(windows.platform_services(Some("oops")).is_empty());
    assert!(ServiceManager::new(HostOs::Other).platform_services(Some("x y z")).is_empty());
}

#[test]
fn settings_are_sealed_and_opened() {
    let rules = ConfigEncryption::new();
    let data = b"{\"theme\":\"dark\"}".to_vec();
    let salt = b"0123456789abcdefghijkl".to_vec();
    let nonce = vec![7u8; 12];
    let sealed = rules.encrypt(&data, "correct horse", salt.clone(), nonce.clone()).unwrap();
    assert_eq!(sealed.salt, salt);
    assert_eq!(sealed.nonce, nonce);
    assert_ne!(sealed.ciphertext, data);
    assert_eq!(sealed.ciphertext.len(), data.len() + 16);
    // the same inputs give the same seal
    let again = rules.encrypt(&data, "correct horse", salt.clone(), nonce.clone()).unwrap();
    assert_eq!(again.ciphertext, sealed.ciphertext);
    assert_eq!(rules.decrypt(&sealed, "correct horse"), Ok(data.clone()));
    assert_eq!(
        rules.decrypt(&sealed, "wrong"),
        Err(EncryptionError::Decryption)
    );
}

#[test]
fn sealing_errors() {
    let rules = ConfigEncryption::new();
    let data = vec![1u8, 2, 3];
    // a salt that is too short for the key derivation
    assert_eq!(
        rules.encrypt(&data, "pw", vec![1, 2, 3], vec![0u8; 12]).unwrap_err(),
        EncryptionError::KeyDerivation
    );
    // a nonce of the wrong length
    assert_eq!(
        rules.encrypt(&data, "pw", b"0123456789abcdef".to_vec(), vec![0u8; 11]).unwrap_err(),
        EncryptionError::Cipher
    );
    let bad_nonce = EncryptedConfig {
        salt: b"0123456789abcdef".to_vec(),
        nonce: vec![0u8; 5],
        ciphertext: vec![0u8; 32],
    };
    assert_eq!(rules.decrypt(&bad_nonce, "pw"), Err(EncryptionError::Decryption));
    let forged = EncryptedConfig {
        salt: b"0123456789abcdef".to_vec(),
        nonce: vec![0u8; 12],
        ciphertext: vec![0u8; 32],
    };
    assert_eq!(rules.decrypt(&forged, "pw"), Err(EncryptionError::Decryption));
    assert_eq!(EncryptionError::KeyDerivation.message(), "Key derivation failed");
    assert_eq!(EncryptionError::Cipher.message(), "Failed to create cipher");
    assert_eq!(EncryptionError::Encryption.message(), "Encryption failed");
    assert_eq!(EncryptionError::Decryption.message(), "Decryption failed - wrong password?");
}

#[test]
fn audit_drafts() {
    let plain = AuditDraft::new(EventType::ConfigChange, "update".to_string());
    assert_eq!(plain.event_type, EventType::ConfigChange);
    assert_eq!(plain.operation, "update");
    assert_eq!(plain.service_id, None);
    assert!(plain.success);
    assert_eq!(plain.error_message, None);
    let failed = AuditDraft::service_event(EventType::ServiceStop, "nginx", "stop", false, Some("denied"));
    assert_eq!(failed.event_type, EventType::ServiceStop);
    assert_eq!(failed.service_id.as_deref(), Some("nginx"));
    assert_eq!(failed.operation, "stop");
    assert!(!failed.success);
    assert_eq!(failed.error_message.as_deref(), Some("denied"));
    let fine = AuditDraft::service_event(EventType::ServiceStart, "a", "start", true, None);
    assert!(fine.success);
    assert_eq!(fine.error_message, None);
}
