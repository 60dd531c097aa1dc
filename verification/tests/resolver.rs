use network_manager::models::port::{PortInfo, PortStatus, Protocol};
use network_manager::services::port::resolver::{PortResolver, PortTool};

fn summary(table: &[PortInfo]) -> Vec<(u16, Protocol, Option<String>, Option<u32>)> {
    table
        .iter()
        .map(|p| {
            assert_eq!(p.status, PortStatus::Occupied);
            (p.port, p.protocol, p.process_name.clone(), p.pid)
        })
        .collect()
}

const LSOF: &str = "COMMAND     PID   USER   FD   TYPE             DEVICE SIZE/OFF NODE NAME\n\
rapportd    612   me   10u  IPv4 0x1234      0t0  TCP *:49152 (LISTEN)\n\
redis-ser  1001   me    6u  IPv4 0xabc       0t0  TCP 127.0.0.1:6379 (LISTEN)\n\
mDNSRespo   300   me    7u  IPv4 0xdef       0t0  UDP *:5353\n\
short line\n\
second     1002   me    6u  IPv6 0xabd       0t0  TCP [::1]:6379 (LISTEN)\n\
weird      abc    me    6u  IPv4 0xabe       0t0  TCP *:http (LISTEN)\n\
nopid      xyz    me    6u  IPv4 0xabf       0t0  TCP *:8080 (LISTEN)\n";

#[test]
fn lsof_listing_sorted_and_deduplicated() {
    let table = PortResolver::new().parse_lsof_output(LSOF);
    assert_eq!(
        summary(&table),
        vec![
            (5353, Protocol::Udp, Some("mDNSRespo".to_string()), Some(300)),
            (6379, Protocol::Tcp, Some("redis-ser".to_string()), Some(1001)),
            (8080, Protocol::Tcp, Some("nopid".to_string()), None),
            (49152, Protocol::Tcp, Some("rapportd".to_string()), Some(612)),
        ]
    );
}

#[test]
fn lsof_port_with_trailing_brackets() {
    let text = "HEADER\nproc 7 u 1 2 3 4 TCP host:443)( x\n";
    let table = PortResolver::new().parse_lsof_output(text);
    assert_eq!(summary(&table), vec![(443, Protocol::Tcp, Some("proc".to_string()), Some(7))]);
}

const SS: &str = "Netid State  Recv-Q Send-Q Local Address:Port Peer Address:Port Process\n\
tcp   LISTEN 0      128    0.0.0.0:22         0.0.0.0:*     users:((\"sshd\",pid=1234,fd=3))\n\
udp   UNCONN 0      0      127.0.0.53%lo:53   0.0.0.0:*     users:((\"systemd-resolve\",pid=700,fd=12))\n\
tcp   LISTEN 0      511    [::]:80            [::]:*\n\
garbage\n\
tcp   LISTEN 0      511    *:notaport         *:*\n\
tcp   LISTEN 0      5      127.0.0.1:70000    *:*\n\
tcp   LISTEN 0      5      127.0.0.1:+443     *:*           users:((pid=x,fd=1))\n";

#[test]
fn ss_listing_entries() {
    let table = PortResolver::new().parse_ss_output(SS);
    assert_eq!(
        summary(&table),
        vec![
            (22, Protocol::Tcp, Some("sshd".to_string()), Some(1234)),
            (53, Protocol::Udp, Some("systemd-resolve".to_string()), Some(700)),
            (80, Protocol::Tcp, None, None),
            (443, Protocol::Tcp, None, None),
        ]
    );
}

#[test]
fn ss_pid_is_cut_at_next_marker_and_comma() {
    let text = "H\ntcp L 0 0 1.1.1.1:9 *:* users:((\"a\",pid=12pid=99,fd=3))\n";
    let table = PortResolver::new().parse_ss_output(text);
    assert_eq!(summary(&table), vec![(9, Protocol::Tcp, Some("a".to_string()), Some(12))]);
}

const NETSTAT: &str = "Active Internet connections (only servers)\n\
Proto Recv-Q Send-Q Local Address           Foreign Address         State       PID/Program name\n\
tcp        0      0 0.0.0.0:22              0.0.0.0:*               LISTEN      1234/sshd\n\
udp        0      0 0.0.0.0:68              0.0.0.0:*                           900/dhclient\n\
tcp6       0      0 :::80                   :::*                    LISTEN      -\n\
x y z\n";

#[test]
fn netstat_listing_entries() {
    let table = PortResolver::new().parse_netstat_output(NETSTAT);
    assert_eq!(
        summary(&table),
        vec![
            (22, Protocol::Tcp, Some("sshd".to_string()), Some(1234)),
            (68, Protocol::Udp, Some("dhclient".to_string()), Some(900)),
            (80, Protocol::Tcp, None, None),
        ]
    );
}

const NETSTAT_WINDOWS: &str = "\r\nActive Connections\r\n\r\n  Proto  Local Address          Foreign Address        State           PID\r\n  TCP    0.0.0.0:135            0.0.0.0:0              LISTENING       1100\r\n  UDP    0.0.0.0:5353           *:*                                    2200\r\n  UDP    0.0.0.0:500            *:*                    x               2300\r\n  ICMP   0.0.0.0:1              *:*                    x               1\r\n  TCP    [::]:445               [::]:0                 LISTENING       4\r\n";

#[test]
fn netstat_windows_listing_entries() {
    let table = PortResolver::new().parse_netstat_windows_output(NETSTAT_WINDOWS);
    assert_eq!(
        summary(&table),
        vec![
            (135, Protocol::Tcp, None, Some(1100)),
            (500, Protocol::Udp, None, Some(2300)),
            (445, Protocol::Tcp, None, Some(4)),
        ]
    );
}

#[test]
fn malformed_lines_never_abort() {
    let r = PortResolver::new();
    assert!(r.parse_ss_output("").is_empty());
    assert!(r.parse_ss_output("only a header").is_empty());
    assert!(r.parse_lsof_output("\n\n\n").is_empty());
    assert!(r.parse_netstat_output("a\nb").is_empty());
    assert!(r.parse_netstat_windows_output("1\n2\n3\n4").is_empty());
}

#[test]
fn missing_tool_gives_empty_table() {
    let r = PortResolver::new();
    assert!(r.port_usage_from(PortTool::Ss, None).is_empty());
    let table = r.port_usage_from(PortTool::Ss, Some(SS));
    assert_eq!(table.len(), 4);
    let table = r.port_usage_from(PortTool::Lsof, Some(LSOF));
    assert_eq!(table.len(), 4);
    assert_eq!(r.port_usage_from(PortTool::Netstat, Some(NETSTAT)).len(), 3);
    assert_eq!(r.port_usage_from(PortTool::NetstatWindows, Some(NETSTAT_WINDOWS)).len(), 3);
}

fn occupied(ports: &[u16]) -> Vec<PortInfo> {
    ports
        .iter()
        .map(|&port| PortInfo {
            port,
            protocol: Protocol::Tcp,
            status: PortStatus::Occupied,
            process_name: None,
            pid: None,
        })
        .collect()
}

#[test]
fn free_ports_ascending_and_absent() {
    let r = PortResolver::new();
    let table = occupied(&[1024, 1026, 1027]);
    assert_eq!(r.find_free_ports(&table, 1024, 1030, 3), vec![1025, 1028, 1029]);
    assert_eq!(r.find_free_ports(&table, 1024, 1030, 10), vec![1025, 1028, 1029, 1030]);
    assert_eq!(r.find_free_ports(&table, 1024, 1030, 0), Vec::<u16>::new());
    assert_eq!(r.find_free_ports(&table, 1030, 1024, 5), Vec::<u16>::new());
    assert_eq!(r.find_free_ports(&table, 1026, 1027, 5), Vec::<u16>::new());
}

#[test]
fn free_ports_up_to_the_last_port() {
    let r = PortResolver::new();
    let table = occupied(&[65534]);
    assert_eq!(r.find_free_ports(&table, 65533, 65535, 5), vec![65533, 65535]);
    assert_eq!(r.find_free_ports(&Vec::new(), 0, 2, 5), vec![0, 1, 2]);
    assert_eq!(r.find_free_ports(&Vec::new(), 1024, 65535, 2), vec![1024, 1025]);
}
