use packetguard::config::{FilterConfig, NFQueueConfig, PacketGuardConfig};
use packetguard::config::select_monitored_interfaces;
use packetguard::engine::{inspect_frame, inspect_ip_packet};
use packetguard::evaluate::{evaluate, Category, EventDetail, Severity};
use packetguard::frame::parse_frame;
use packetguard::guard::{guard_plan, guard_step, GuardAction, GuardEvent, GuardPlan, GuardState};
use packetguard::policy::{build_policy, ip_blocked, Policy, PolicyError};
use packetguard::signal::{extract_signal, Signal};
use packetguard::{Mode, Verdict};

fn ipv4_packet(src: [u8; 4], dst: [u8; 4], protocol: u8, transport: &[u8]) -> Vec<u8> {
    let total_len = (20 + transport.len()) as u16;
    let mut p = vec![
        0x45, 0, (total_len >> 8) as u8, (total_len & 0xff) as u8, 0, 0, 0, 0, 64, protocol, 0, 0,
    ];
    p.extend_from_slice(&src);
    p.extend_from_slice(&dst);
    p.extend_from_slice(transport);
    p
}

fn tcp_segment(sport: u16, dport: u16, payload: &[u8]) -> Vec<u8> {
    let mut t = vec![
        (sport >> 8) as u8,
        (sport & 0xff) as u8,
        (dport >> 8) as u8,
        (dport & 0xff) as u8,
        0, 0, 0, 0, 0, 0, 0, 0,
        0x50, 0, 0, 0, 0, 0, 0, 0,
    ];
    t.extend_from_slice(payload);
    t
}

fn udp_datagram(sport: u16, dport: u16, payload: &[u8]) -> Vec<u8> {
    let len = (8 + payload.len()) as u16;
    let mut u = vec![
        (sport >> 8) as u8,
        (sport & 0xff) as u8,
        (dport >> 8) as u8,
        (dport & 0xff) as u8,
        (len >> 8) as u8,
        (len & 0xff) as u8,
        0, 0,
    ];
    u.extend_from_slice(payload);
    u
}

fn eth_frame(ethertype: [u8; 2], inner: &[u8]) -> Vec<u8> {
    let mut f = vec![0u8; 12];
    f.extend_from_slice(&ethertype);
    f.extend_from_slice(inner);
    f
}

fn policy(blocklist: Vec<u32>, http: bool, dns: bool, fail_open: bool) -> Policy {
    Policy {
        blocklisted_ips: blocklist,
        log_dangerous_http: http,
        log_dns_queries: dns,
        fail_open,
    }
}

#[test]
fn blocklist_precedence_drops_and_logs_both() {
    let payload = b"GET / HTTP/1.1\r\nHost: leak.example\r\n\r\n";
    let seg = tcp_segment(40000, 80, payload);
    let pkt = ipv4_packet([10, 0, 0, 1], [93, 184, 216, 34], 6, &seg);
    let frame = eth_frame([0x08, 0x00], &pkt);
    let pol = policy(vec![0x5db8d822], true, true, false);
    let inspection = inspect_frame(&frame, &pol, Mode::Guard);
    assert_eq!(inspection.verdict, Some(Verdict::Drop));
    assert_ne!(inspection.verdict, Some(Verdict::Accept));
    assert_eq!(inspection.events.len(), 2);
    assert_eq!(inspection.events[0].category, Category::Http);
    assert_eq!(inspection.events[0].severity, Severity::Warning);
    match &inspection.events[0].detail {
        EventDetail::HttpHeaders { lines } => {
            assert_eq!(lines, &vec!["Host: leak.example".to_string()]);
        }
        _ => panic!("http detail expected"),
    }
    assert_eq!(inspection.events[1].category, Category::Drop);
    match &inspection.events[1].detail {
        EventDetail::BlockedDestination { dst } => assert_eq!(*dst, 0x5db8d822),
        _ => panic!("blocked detail expected"),
    }
}

#[test]
fn unblocked_tcp_is_accepted() {
    let seg = tcp_segment(40000, 80, b"GET / HTTP/1.1\r\nHost: ok\r\n");
    let pkt = ipv4_packet([10, 0, 0, 1], [1, 1, 1, 1], 6, &seg);
    let frame = eth_frame([0x08, 0x00], &pkt);
    let pol = policy(vec![0x5db8d822], true, true, false);
    let inspection = inspect_frame(&frame, &pol, Mode::Guard);
    assert_eq!(inspection.verdict, Some(Verdict::Accept));
    assert_eq!(inspection.events.len(), 1);
    assert_eq!(inspection.events[0].category, Category::Http);
}

#[test]
fn http_event_needs_toggle_and_guard_mode() {
    let seg = tcp_segment(40000, 80, b"Host: x\r\n");
    let pkt = ipv4_packet([10, 0, 0, 1], [1, 1, 1, 1], 6, &seg);
    let frame = eth_frame([0x08, 0x00], &pkt);
    // Toggle off: no event.
    let pol = policy(vec![], false, true, false);
    let inspection = inspect_frame(&frame, &pol, Mode::Guard);
    assert!(inspection.events.is_empty());
    // Sniff mode: the signal is extracted but the evaluator emits no
    // HTTP event; there is no verdict either.
    let pol = policy(vec![], true, true, false);
    let inspection = inspect_frame(&frame, &pol, Mode::Sniff);
    assert!(matches!(inspection.signal, Signal::HttpHeaderHit { .. }));
    assert!(inspection.events.is_empty());
    assert_eq!(inspection.verdict, None);
}

#[test]
fn http_lines_capped_at_three_in_guard_mode() {
    let payload = b"Host: a\r\nHost: b\r\nHost: c\r\nHost: d\r\n";
    let seg = tcp_segment(1, 80, payload);
    let pkt = ipv4_packet([10, 0, 0, 1], [1, 1, 1, 1], 6, &seg);
    let frame = eth_frame([0x08, 0x00], &pkt);
    let parsed = parse_frame(&frame);
    match extract_signal(&parsed, Mode::Guard) {
        Signal::HttpHeaderHit { lines } => assert_eq!(lines.len(), 3),
        _ => panic!("http signal expected"),
    }
    match extract_signal(&parsed, Mode::Sniff) {
        Signal::HttpHeaderHit { lines } => assert_eq!(lines.len(), 4),
        _ => panic!("http signal expected"),
    }
}

#[test]
fn dns_query_logged_when_toggled() {
    let mut q = vec![0u8; 12];
    q.extend_from_slice(&[4, b'l', b'e', b'a', b'k', 2, b'i', b'o', 0]);
    let dg = udp_datagram(5353, 53, &q);
    let pkt = ipv4_packet([10, 0, 0, 1], [8, 8, 8, 8], 17, &dg);
    let frame = eth_frame([0x08, 0x00], &pkt);
    let pol = policy(vec![], true, true, false);
    let inspection = inspect_frame(&frame, &pol, Mode::Sniff);
    assert!(matches!(inspection.signal, Signal::DnsQuery { .. }));
    assert_eq!(inspection.events.len(), 1);
    assert_eq!(inspection.events[0].category, Category::Dns);
    match &inspection.events[0].detail {
        EventDetail::DnsLookup { name, dst } => {
            assert_eq!(name, "leak.io");
            assert_eq!(*dst, 0x08080808);
        }
        _ => panic!("dns detail expected"),
    }
    // Toggle off: no event, and in guard mode the packet still passes.
    let pol = policy(vec![], true, false, false);
    let inspection = inspect_frame(&frame, &pol, Mode::Guard);
    assert!(inspection.events.is_empty());
    assert_eq!(inspection.verdict, Some(Verdict::Accept));
}

#[test]
fn opaque_tls_summary() {
    let seg = tcp_segment(50000, 443, &[0u8; 33]);
    let pkt = ipv4_packet([10, 0, 0, 1], [1, 1, 1, 1], 6, &seg);
    let frame = eth_frame([0x08, 0x00], &pkt);
    let parsed = parse_frame(&frame);
    match extract_signal(&parsed, Mode::Sniff) {
        Signal::OpaqueTransport { byte_count, sport, dport } => {
            assert_eq!(byte_count, 33);
            assert_eq!(sport, 50000);
            assert_eq!(dport, 443);
        }
        _ => panic!("opaque signal expected"),
    }
}

#[test]
fn non_inspectable_packets_pass_with_no_events() {
    let pol = policy(vec![0x01010101], true, true, false);
    // Not IPv4 at all.
    let frame = eth_frame([0x86, 0xdd], &[0u8; 40]);
    let inspection = inspect_frame(&frame, &pol, Mode::Guard);
    assert!(inspection.events.is_empty());
    assert_eq!(inspection.verdict, Some(Verdict::Accept));
    assert_eq!(inspection.signal, Signal::NoSignal);
    // ICMP: neither TCP nor UDP, even to a blocklisted destination.
    let pkt = ipv4_packet([10, 0, 0, 1], [1, 1, 1, 1], 1, &[8, 0, 0, 0]);
    let frame = eth_frame([0x08, 0x00], &pkt);
    let inspection = inspect_frame(&frame, &pol, Mode::Guard);
    assert!(inspection.events.is_empty());
    assert_eq!(inspection.verdict, Some(Verdict::Accept));
    let inspection = inspect_frame(&frame, &pol, Mode::Sniff);
    assert!(inspection.events.is_empty());
    assert_eq!(inspection.verdict, None);
}

#[test]
fn evaluation_is_idempotent() {
    let payload = b"GET / HTTP/1.1\r\nHost: leak.example\r\n\r\n";
    let seg = tcp_segment(40000, 80, payload);
    let pkt = ipv4_packet([10, 0, 0, 1], [93, 184, 216, 34], 6, &seg);
    let frame = eth_frame([0x08, 0x00], &pkt);
    let pol = policy(vec![0x5db8d822], true, true, false);
    let parsed = parse_frame(&frame);
    let signal = extract_signal(&parsed, Mode::Guard);
    let first = evaluate(&parsed, &signal, &pol, Mode::Guard);
    let second = evaluate(&parsed, &signal, &pol, Mode::Guard);
    assert_eq!(first.verdict, second.verdict);
    assert_eq!(first.events, second.events);
}

#[test]
fn ip_packets_from_the_queue_transport_are_inspected_alike() {
    let seg = tcp_segment(40000, 80, b"Host: leak.example\r\n");
    let pkt = ipv4_packet([10, 0, 0, 1], [93, 184, 216, 34], 6, &seg);
    let pol = policy(vec![0x5db8d822], true, true, false);
    let inspection = inspect_ip_packet(&pkt, &pol, Mode::Guard);
    assert_eq!(inspection.verdict, Some(Verdict::Drop));
    assert_eq!(inspection.events.len(), 2);
}

#[test]
fn blocklist_membership() {
    assert!(ip_blocked(&vec![1, 2, 3], 2));
    assert!(!ip_blocked(&vec![1, 2, 3], 4));
    assert!(!ip_blocked(&vec![], 4));
}

#[test]
fn policy_built_from_valid_entries() {
    let filter = FilterConfig {
        drop_if_ip_matches: vec!["93.184.216.34".to_string(), "10.0.0.1".to_string()],
        drop_if_hostname_matches: vec![],
        log_dangerous_http: true,
        log_dns_queries: false,
    };
    let pol = build_policy(&filter, true).expect("policy expected");
    assert_eq!(pol.blocklisted_ips, vec![0x5db8d822, 0x0a000001]);
    assert!(pol.log_dangerous_http);
    assert!(!pol.log_dns_queries);
    assert!(pol.fail_open);
}

#[test]
fn policy_reports_first_invalid_entry() {
    let filter = FilterConfig {
        drop_if_ip_matches: vec!["1.2.3.4".to_string(), "300.1.1.1".to_string()],
        drop_if_hostname_matches: vec![],
        log_dangerous_http: false,
        log_dns_queries: false,
    };
    match build_policy(&filter, false) {
        Err(PolicyError::InvalidIp { index, entry }) => {
            assert_eq!(index, 1);
            assert_eq!(entry, "300.1.1.1");
        }
        Ok(_) => panic!("invalid entry must be rejected"),
    }
}

fn config(mode: &str, nfqueue: Option<NFQueueConfig>) -> PacketGuardConfig {
    PacketGuardConfig {
        mode: mode.to_string(),
        interfaces: None,
        filter: FilterConfig {
            drop_if_ip_matches: vec![],
            drop_if_hostname_matches: vec![],
            log_dangerous_http: false,
            log_dns_queries: false,
        },
        nfqueue,
    }
}

#[test]
fn mode_queries_ignore_ascii_case() {
    assert!(config("sniff", None).is_sniff_mode());
    assert!(config("SNIFF", None).is_sniff_mode());
    assert!(!config("guard", None).is_sniff_mode());
    assert!(config("Guard", None).is_guard_mode());
    assert!(!config("sniffer", None).is_sniff_mode());
}

#[test]
fn nfqueue_enabled_needs_presence_and_flag() {
    assert!(!config("guard", None).nfqueue_enabled());
    let q = NFQueueConfig { enabled: false, queue_num: 1, fail_open: false };
    assert!(!config("guard", Some(q)).nfqueue_enabled());
    let q = NFQueueConfig { enabled: true, queue_num: 1, fail_open: false };
    assert!(config("guard", Some(q)).nfqueue_enabled());
}

#[test]
fn guard_plan_follows_configuration() {
    assert_eq!(guard_plan(&config("guard", None)), GuardPlan::Disabled);
    let q = NFQueueConfig { enabled: false, queue_num: 7, fail_open: true };
    assert_eq!(guard_plan(&config("guard", Some(q))), GuardPlan::Disabled);
    let q = NFQueueConfig { enabled: true, queue_num: 7, fail_open: true };
    assert_eq!(
        guard_plan(&config("guard", Some(q))),
        GuardPlan::Activate { queue_num: 7, fail_open: true }
    );
}

#[test]
fn fail_open_governs_run_failure() {
    // fail_open: the runner warns and stops; the process survives.
    let (state, action) = guard_step(GuardState::Running, GuardEvent::RunFailed, true);
    assert_eq!(state, GuardState::Stopped);
    assert_eq!(action, GuardAction::WarnAndStop);
    // fail-closed: the same failure is fatal.
    let (state, action) = guard_step(GuardState::Running, GuardEvent::RunFailed, false);
    assert_eq!(state, GuardState::Stopped);
    assert_eq!(action, GuardAction::FatalError);
}

#[test]
fn guard_life_cycle() {
    let (state, action) = guard_step(GuardState::Idle, GuardEvent::BindSucceeded, true);
    assert_eq!((state, action), (GuardState::Bound, GuardAction::Proceed));
    let (state, action) = guard_step(state, GuardEvent::RunStarted, true);
    assert_eq!((state, action), (GuardState::Running, GuardAction::KeepRunning));
    let (state, action) = guard_step(state, GuardEvent::MessageProcessed, true);
    assert_eq!((state, action), (GuardState::Running, GuardAction::KeepRunning));
    let (_, action) = guard_step(GuardState::Idle, GuardEvent::BindFailed, true);
    assert_eq!(action, GuardAction::FatalError);
}

#[test]
fn interface_selection_keeps_monitored_names_in_order() {
    let names = vec![
        "kewnet-a".to_string(),
        "eth0".to_string(),
        "kewnet-b".to_string(),
        "lo".to_string(),
        "kewne".to_string(),
    ];
    let picked = select_monitored_interfaces(&names);
    assert_eq!(picked, vec!["kewnet-a".to_string(), "kewnet-b".to_string()]);
}
