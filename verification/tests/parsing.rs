use packetguard::dns::extract_dns;
use packetguard::frame::{parse_frame, parse_ip_packet, ParsedPacket, Transport};
use packetguard::http::extract_http;
use packetguard::policy::{format_ipv4, parse_ipv4};

fn ipv4_packet(src: [u8; 4], dst: [u8; 4], protocol: u8, transport: &[u8]) -> Vec<u8> {
    let total_len = (20 + transport.len()) as u16;
    let mut p = vec![
        0x45, 0, (total_len >> 8) as u8, (total_len & 0xff) as u8, 0, 0, 0, 0, 64, protocol, 0, 0,
    ];
    p.extend_from_slice(&src);
    p.extend_from_slice(&dst);
    p.extend_from_slice(transport);
    p
}

fn tcp_segment(sport: u16, dport: u16, payload: &[u8]) -> Vec<u8> {
    let mut t = vec![
        (sport >> 8) as u8,
        (sport & 0xff) as u8,
        (dport >> 8) as u8,
        (dport & 0xff) as u8,
        0, 0, 0, 0, 0, 0, 0, 0,
        0x50, 0, 0, 0, 0, 0, 0, 0,
    ];
    t.extend_from_slice(payload);
    t
}

fn udp_datagram(sport: u16, dport: u16, payload: &[u8]) -> Vec<u8> {
    let len = (8 + payload.len()) as u16;
    let mut u = vec![
        (sport >> 8) as u8,
        (sport & 0xff) as u8,
        (dport >> 8) as u8,
        (dport & 0xff) as u8,
        (len >> 8) as u8,
        (len & 0xff) as u8,
        0, 0,
    ];
    u.extend_from_slice(payload);
    u
}

fn eth_frame(ethertype: [u8; 2], inner: &[u8]) -> Vec<u8> {
    let mut f = vec![0u8; 12];
    f.extend_from_slice(&ethertype);
    f.extend_from_slice(inner);
    f
}

#[test]
fn parse_frame_tcp_fields() {
    let seg = tcp_segment(12345, 80, b"hello");
    let pkt = ipv4_packet([10, 0, 0, 1], [93, 184, 216, 34], 6, &seg);
    let frame = eth_frame([0x08, 0x00], &pkt);
    let parsed = parse_frame(&frame);
    let net = parsed.net.expect("ipv4 layer expected");
    assert_eq!(net.src, 0x0a000001);
    assert_eq!(net.dst, 0x5db8d822);
    match net.transport {
        Transport::Tcp { sport, dport, payload } => {
            assert_eq!(sport, 12345);
            assert_eq!(dport, 80);
            assert_eq!(payload, b"hello".to_vec());
        }
        _ => panic!("tcp transport expected"),
    }
}

#[test]
fn parse_frame_udp_fields() {
    let dg = udp_datagram(5353, 53, b"\x00\x01");
    let pkt = ipv4_packet([192, 168, 1, 2], [8, 8, 8, 8], 17, &dg);
    let frame = eth_frame([0x08, 0x00], &pkt);
    let parsed = parse_frame(&frame);
    let net = parsed.net.expect("ipv4 layer expected");
    match net.transport {
        Transport::Udp { sport, dport, payload } => {
            assert_eq!(sport, 5353);
            assert_eq!(dport, 53);
            assert_eq!(payload, b"\x00\x01".to_vec());
        }
        _ => panic!("udp transport expected"),
    }
}

#[test]
fn parse_frame_rejects_short_and_foreign_input() {
    assert!(parse_frame(&[]).net.is_none());
    assert!(parse_frame(&[0u8; 13]).net.is_none());
    // ARP ether-type: no IPv4 layer.
    let frame = eth_frame([0x08, 0x06], &[0u8; 28]);
    assert!(parse_frame(&frame).net.is_none());
    // IPv4 ether-type but a truncated IPv4 header.
    let frame = eth_frame([0x08, 0x00], &[0x45u8; 10]);
    assert!(parse_frame(&frame).net.is_none());
    // Version nibble is not 4.
    let pkt = ipv4_packet([1, 1, 1, 1], [2, 2, 2, 2], 6, &tcp_segment(1, 2, b""));
    let mut bad = pkt.clone();
    bad[0] = 0x65;
    assert!(parse_frame(&eth_frame([0x08, 0x00], &bad)).net.is_none());
}

#[test]
fn parse_frame_out_of_range_lengths_mean_absent_transport() {
    // Total length pointing past the buffer: transport absent, addresses kept.
    let seg = tcp_segment(1, 2, b"x");
    let mut pkt = ipv4_packet([1, 2, 3, 4], [5, 6, 7, 8], 6, &seg);
    pkt[2] = 0xff;
    pkt[3] = 0xff;
    let parsed = parse_frame(&eth_frame([0x08, 0x00], &pkt));
    let net = parsed.net.expect("ipv4 layer expected");
    assert_eq!(net.src, 0x01020304);
    assert!(matches!(net.transport, Transport::Other));
    // TCP data offset past the segment end: transport absent.
    let mut seg = tcp_segment(1, 2, b"");
    seg[12] = 0xf0;
    let pkt = ipv4_packet([1, 2, 3, 4], [5, 6, 7, 8], 6, &seg);
    let parsed = parse_frame(&eth_frame([0x08, 0x00], &pkt));
    assert!(matches!(parsed.net.unwrap().transport, Transport::Other));
}

#[test]
fn parse_never_panics_on_fuzzed_buffers() {
    // A small linear-congruential stream exercises arbitrary inputs.
    let mut state: u64 = 0x2545f4914f6cdd1d;
    for len in 0..200usize {
        let mut buf = Vec::with_capacity(len);
        for _ in 0..len {
            state = state.wrapping_mul(6364136223846793005).wrapping_add(1442695040888963407);
            buf.push((state >> 33) as u8);
        }
        let _: ParsedPacket = parse_frame(&buf);
        let _: ParsedPacket = parse_ip_packet(&buf);
        let _ = extract_dns(&buf);
        let _ = extract_http(&buf, 3);
    }
}

fn dns_query_payload(labels: &[&[u8]]) -> Vec<u8> {
    let mut p = vec![0u8; 12];
    for l in labels {
        p.push(l.len() as u8);
        p.extend_from_slice(l);
    }
    p.push(0);
    p
}

#[test]
fn dns_round_trip() {
    let payload = dns_query_payload(&[b"a", b"b", b"example"]);
    assert_eq!(extract_dns(&payload), Some("a.b.example".to_string()));
}

#[test]
fn dns_single_label() {
    let payload = dns_query_payload(&[b"localhost"]);
    assert_eq!(extract_dns(&payload), Some("localhost".to_string()));
}

#[test]
fn dns_malformed_yields_none() {
    // Too short for any label.
    assert_eq!(extract_dns(&[0u8; 12]), None);
    assert_eq!(extract_dns(&[]), None);
    // A zero-length first label: no labels found.
    assert_eq!(extract_dns(&[0u8; 13]), None);
    // A length byte running past the buffer: no partial name.
    let mut p = vec![0u8; 12];
    p.extend_from_slice(&[5, b'a', b'b']);
    assert_eq!(extract_dns(&p), None);
}

#[test]
fn dns_non_ascii_label_decodes_with_replacement() {
    let mut p = vec![0u8; 12];
    p.extend_from_slice(&[1, 0xff, 0]);
    assert_eq!(extract_dns(&p), Some("\u{fffd}".to_string()));
}

#[test]
fn http_header_extraction() {
    let payload = b"GET / HTTP/1.1\r\nHost: example.com\r\nUser-Agent: x\r\n\r\n";
    let lines = extract_http(payload, 10);
    assert_eq!(lines, vec!["Host: example.com".to_string(), "User-Agent: x".to_string()]);
}

#[test]
fn http_matching_is_case_insensitive_and_keeps_casing() {
    let payload = b"get / http/1.0\r\nhOsT: A.example\r\nUSER-AGENT: curl\r\n";
    let lines = extract_http(payload, 10);
    assert_eq!(lines, vec!["hOsT: A.example".to_string(), "USER-AGENT: curl".to_string()]);
}

#[test]
fn http_cap_limits_reported_matches() {
    let payload = b"Host: a\r\nHost: b\r\nHost: c\r\nHost: d\r\nHost: e\r\n";
    assert_eq!(extract_http(payload, 3).len(), 3);
    assert_eq!(extract_http(payload, 10).len(), 5);
}

#[test]
fn http_scans_only_the_first_ten_lines() {
    let mut payload = Vec::new();
    for _ in 0..10 {
        payload.extend_from_slice(b"X: y\r\n");
    }
    payload.extend_from_slice(b"Host: late\r\n");
    assert_eq!(extract_http(&payload, 10), Vec::<String>::new());
}

#[test]
fn http_no_match_is_empty() {
    assert_eq!(extract_http(b"", 10), Vec::<String>::new());
    assert_eq!(extract_http(b"GET / HTTP/1.1\r\n\r\n", 10), Vec::<String>::new());
    // An invalid UTF-8 byte does not abort the scan of other lines.
    assert_eq!(extract_http(b"\xff\xfe\r\nHost: ok\r\n", 10), vec!["Host: ok".to_string()]);
}

#[test]
fn ipv4_literal_parsing() {
    assert_eq!(parse_ipv4("1.2.3.4"), Some(0x01020304));
    assert_eq!(parse_ipv4("0.0.0.0"), Some(0));
    assert_eq!(parse_ipv4("255.255.255.255"), Some(0xffffffff));
    assert_eq!(parse_ipv4("93.184.216.34"), Some(0x5db8d822));
    assert_eq!(parse_ipv4("256.1.1.1"), None);
    assert_eq!(parse_ipv4("01.2.3.4"), None);
    assert_eq!(parse_ipv4("1.2.3"), None);
    assert_eq!(parse_ipv4("1.2.3.4.5"), None);
    assert_eq!(parse_ipv4("1.2.3."), None);
    assert_eq!(parse_ipv4(""), None);
    assert_eq!(parse_ipv4("a.b.c.d"), None);
    assert_eq!(parse_ipv4("1..2.3"), None);
}

#[test]
fn ipv4_formatting_round_trips() {
    assert_eq!(format_ipv4(0x5db8d822), "93.184.216.34");
    assert_eq!(format_ipv4(0), "0.0.0.0");
    assert_eq!(format_ipv4(0xffffffff), "255.255.255.255");
    assert_eq!(format_ipv4(0x0a000001), "10.0.0.1");
    for ip in [0u32, 1, 255, 256, 0x01020304, 0xdeadbeef, 0xffffffff] {
        assert_eq!(parse_ipv4(&format_ipv4(ip)), Some(ip));
    }
}
