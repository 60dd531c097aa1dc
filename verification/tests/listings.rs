use network_manager::models::port::{PortInfo, Protocol};
use network_manager::models::service::{Service, ServiceStatus};
use network_manager::services::discovery::launchd::LaunchdDiscovery;
use network_manager::services::discovery::systemd::SystemdDiscovery;
use network_manager::services::port::resolver::PortResolver;

type Entry = (u16, bool, Option<String>, Option<u32>);

fn entries(table: &[PortInfo]) -> Vec<Entry> {
    table
        .iter()
        .map(|p| (p.port, p.protocol == Protocol::Tcp, p.process_name.clone(), p.pid))
        .collect()
}

// What each listing means, written with the string functions of std.

fn lsof_by_std(output: &str) -> Vec<Entry> {
    let mut ports: Vec<Entry> = vec![];
    for line in output.lines().skip(1) {
        let parts: Vec<&str> = line.split_whitespace().collect();
        if parts.len() >= 9 {
            let pid = parts[1].parse::<u32>().ok();
            if let Some(port_str) = parts[8].split(':').last() {
                if let Ok(port) = port_str.trim_end_matches(|c| c == ')' || c == '(').parse::<u16>() {
                    ports.push((port, line.contains("TCP"), Some(parts[0].to_string()), pid));
                }
            }
        }
    }
    ports.sort_by_key(|p| p.0);
    ports.dedup_by_key(|p| p.0);
    ports
}

fn ss_by_std(output: &str) -> Vec<Entry> {
    let mut ports = vec![];
    for line in output.lines().skip(1) {
        let parts: Vec<&str> = line.split_whitespace().collect();
        if parts.len() >= 5 {
            if let Ok(port) = parts[4].rsplit(':').next().unwrap().parse::<u16>() {
                let (name, pid) = match parts.get(6) {
                    Some(info) => (
                        info.split('"').nth(1).map(String::from),
                        info.split("pid=")
                            .nth(1)
                            .and_then(|s| s.split(',').next())
                            .and_then(|s| s.parse().ok()),
                    ),
                    None => (None, None),
                };
                ports.push((port, line.starts_with("tcp"), name, pid));
            }
        }
    }
    ports
}

fn netstat_by_std(output: &str) -> Vec<Entry> {
    let mut ports = vec![];
    for line in output.lines().skip(2) {
        let parts: Vec<&str> = line.split_whitespace().collect();
        if parts.len() >= 4 {
            if let Ok(port) = parts[3].rsplit(':').next().unwrap().parse::<u16>() {
                let mut split = parts.last().unwrap().split('/');
                let pid = split.next().and_then(|s| s.parse().ok());
                let name = split.next().map(String::from);
                ports.push((port, line.starts_with("tcp"), name, pid));
            }
        }
    }
    ports
}

fn netstat_windows_by_std(output: &str) -> Vec<Entry> {
    let mut ports = vec![];
    for line in output.lines().skip(4) {
        let parts: Vec<&str> = line.split_whitespace().collect();
        if parts.len() >= 5 {
            let tcp = match parts[0] {
                "TCP" => true,
                "UDP" => false,
                _ => continue,
            };
            if let Ok(port) = parts[1].rsplit(':').next().unwrap().parse::<u16>() {
                ports.push((port, tcp, None, parts.last().and_then(|s| s.parse().ok())));
            }
        }
    }
    ports
}

type Unit = (String, String, ServiceStatus, Option<u32>, Option<String>, bool);

fn units(services: &[Service]) -> Vec<Unit> {
    services
        .iter()
        .map(|s| (s.id.clone(), s.name.clone(), s.status, s.pid, s.description.clone(), s.auto_start))
        .collect()
}

fn launchd_by_std(output: &str) -> Vec<Unit> {
    output
        .lines()
        .skip(1)
        .filter_map(|line| {
            let parts: Vec<&str> = line.split_whitespace().collect();
            if parts.len() >= 3 {
                let pid = parts[0].parse::<u32>().ok();
                let status = if pid.is_some() { ServiceStatus::Running } else { ServiceStatus::Stopped };
                Some((parts[2].to_string(), parts[2].to_string(), status, pid, None, true))
            } else {
                None
            }
        })
        .collect()
}

fn systemd_by_std(output: &str) -> Vec<Unit> {
    output
        .lines()
        .filter(|line| line.contains(".service"))
        .filter_map(|line| {
            let parts: Vec<&str> = line.split_whitespace().collect();
            if parts.len() >= 4 {
                let status = match parts[3] {
                    "running" => ServiceStatus::Running,
                    "exited" | "dead" | "inactive" => ServiceStatus::Stopped,
                    "failed" => ServiceStatus::Error,
                    _ => ServiceStatus::Unknown,
                };
                Some((
                    parts[0].to_string(),
                    parts[0].trim_end_matches(".service").to_string(),
                    status,
                    None,
                    parts.get(4..).map(|p| p.join(" ")),
                    parts[1] == "enabled",
                ))
            } else {
                None
            }
        })
        .collect()
}

struct Lines(u64);

impl Lines {
    fn next(&mut self) -> u64 {
        self.0 = self.0.wrapping_mul(6364136223846793005).wrapping_add(1442695040888963407);
        self.0 >> 33
    }

    fn pick<'a>(&mut self, words: &[&'a str]) -> &'a str {
        words[(self.next() % words.len() as u64) as usize]
    }

    fn listing(&mut self, words: &[&str]) -> String {
        let mut text = String::new();
        let lines = self.next() % 9;
        for _ in 0..lines {
            let fields = self.next() % 12;
            for k in 0..fields {
                if k > 0 {
                    text.push_str(self.pick(&[" ", "  ", "\t"]));
                }
                text.push_str(self.pick(words));
            }
            text.push_str(self.pick(&["\n", "\n", "\r\n", "\n\n"]));
        }
        text
    }
}

const WORDS: &[&str] = &[
    "tcp", "udp", "tcp6", "TCP", "UDP", "LISTEN", "0", "128", "*:80", "0.0.0.0:22", "[::]:443",
    ":::8080", "127.0.0.1:65536", "host:+53", "a:b:99)", "*:*", "users:((\"sshd\",pid=12,fd=3))",
    "users:((\"x\",pid=,fd=3))", "pid=7pid=8,", "1234/sshd", "-", "99/", "/name", "612", "-9",
    "com.apple.x", "ssh.service", "a.service.service", ".service", "loaded", "enabled", "active",
    "running", "exited", "dead", "inactive", "failed", "waiting", "(LISTEN)", "IPv4", "0t0",
    "node", "+5", "65535", "4294967295", "4294967296",
];

#[test]
fn listings_agree_with_std_reading() {
    let mut rng = Lines(7);
    let resolver = PortResolver::new();
    for _ in 0..1500 {
        let text = rng.listing(WORDS);
        assert_eq!(entries(&resolver.parse_lsof_output(&text)), lsof_by_std(&text), "{:?}", text);
        assert_eq!(entries(&resolver.parse_ss_output(&text)), ss_by_std(&text), "{:?}", text);
        assert_eq!(entries(&resolver.parse_netstat_output(&text)), netstat_by_std(&text), "{:?}", text);
        assert_eq!(
            entries(&resolver.parse_netstat_windows_output(&text)),
            netstat_windows_by_std(&text),
            "{:?}",
            text
        );
        assert_eq!(units(&LaunchdDiscovery::new().discover(&text)), launchd_by_std(&text), "{:?}", text);
        assert_eq!(units(&SystemdDiscovery::new().discover(&text)), systemd_by_std(&text), "{:?}", text);
    }
}
