//! Application-layer signal extraction.
//!
//! Given a parsed packet, at most one signal is extracted, chosen by
//! transport kind and port: a DNS query name (UDP, destination port 53),
//! matched HTTP header lines (TCP, port 80 on either side), or an opaque
//! byte-count summary for TLS-port traffic (TCP, port 443 on either side).
//! Extraction is best-effort and total: malformed payloads yield no
//! signal, never an error.

use vstd::prelude::*;
use crate::Mode;
use crate::dns::{extract_dns, spec_dns_name};
use crate::frame::{PacketModel, ParsedPacket, Transport, TransportModel};
use crate::http::{extract_http, spec_http_hits};

verus! {

/// An extracted application-layer observation. At most one per packet.
#[derive(PartialEq, Eq, Debug)]
pub enum Signal {
    DnsQuery { name: String },
    HttpHeaderHit { lines: Vec<String> },
    OpaqueTransport { byte_count: usize, sport: u16, dport: u16 },
    NoSignal,
}

/// Mathematical model of `Signal`.
pub enum SignalModel {
    DnsQuery { name: Seq<char> },
    HttpHeaderHit { lines: Seq<Seq<char>> },
    OpaqueTransport { byte_count: usize, sport: u16, dport: u16 },
    NoSignal,
}

impl View for Signal {
    type V = SignalModel;

    open spec fn view(&self) -> SignalModel {
        match self {
            Signal::DnsQuery { name } => SignalModel::DnsQuery { name: name@ },
            Signal::HttpHeaderHit { lines } => SignalModel::HttpHeaderHit {
                lines: lines.deep_view(),
            },
            Signal::OpaqueTransport { byte_count, sport, dport } => SignalModel::OpaqueTransport {
                byte_count: *byte_count,
                sport: *sport,
                dport: *dport,
            },
            Signal::NoSignal => SignalModel::NoSignal,
        }
    }
}

/// How many matched header lines a signal reports: up to 3 in guard mode
/// (a log summary), every match within the scanned lines in sniff mode.
pub open spec fn spec_hit_cap(mode: Mode) -> nat {
    match mode {
        Mode::Sniff => 10,
        Mode::Guard => 3,
    }
}

/// The signal extracted from one transport layer.
pub open spec fn spec_extract_transport(t: TransportModel, mode: Mode) -> SignalModel {
    match t {
        TransportModel::Tcp { sport, dport, payload } => {
            if sport == 80 || dport == 80 {
                let lines = spec_http_hits(payload, spec_hit_cap(mode));
                if lines.len() > 0 {
                    SignalModel::HttpHeaderHit { lines }
                } else {
                    SignalModel::NoSignal
                }
            } else if sport == 443 || dport == 443 {
                SignalModel::OpaqueTransport {
                    byte_count: payload.len() as usize,
                    sport,
                    dport,
                }
            } else {
                SignalModel::NoSignal
            }
        },
        TransportModel::Udp { sport: _, dport, payload } => {
            if dport == 53 {
                match spec_dns_name(payload) {
                    Some(name) => SignalModel::DnsQuery { name },
                    None => SignalModel::NoSignal,
                }
            } else {
                SignalModel::NoSignal
            }
        },
        TransportModel::Other => SignalModel::NoSignal,
    }
}

/// The signal extracted from one parsed packet: nothing when no IPv4
/// layer is present.
pub open spec fn spec_extract(p: PacketModel, mode: Mode) -> SignalModel {
    match p.net {
        Some(n) => spec_extract_transport(n.transport, mode),
        None => SignalModel::NoSignal,
    }
}

/// Extracts the application-layer signal of a parsed packet: total and
/// pure, selected by transport kind and port.
pub fn extract_signal(packet: &ParsedPacket, mode: Mode) -> (r: Signal)
    ensures
        r@ == spec_extract(packet@, mode),
{
    match &packet.net {
        Some(net) => match &net.transport {
            Transport::Tcp { sport, dport, payload } => {
                if *sport == 80 || *dport == 80 {
                    let cap: usize = match mode {
                        Mode::Sniff => 10,
                        Mode::Guard => 3,
                    };
                    let lines = extract_http(payload.as_slice(), cap);
                    if lines.len() > 0 {
                        Signal::HttpHeaderHit { lines }
                    } else {
                        Signal::NoSignal
                    }
                } else if *sport == 443 || *dport == 443 {
                    Signal::OpaqueTransport {
                        byte_count: payload.len(),
                        sport: *sport,
                        dport: *dport,
                    }
                } else {
                    Signal::NoSignal
                }
            },
            Transport::Udp { sport: _, dport, payload } => {
                if *dport == 53 {
                    match extract_dns(payload.as_slice()) {
                        Some(name) => Signal::DnsQuery { name },
                        None => Signal::NoSignal,
                    }
                } else {
                    Signal::NoSignal
                }
            },
            Transport::Other => Signal::NoSignal,
        },
        None => Signal::NoSignal,
    }
}

} // verus!
