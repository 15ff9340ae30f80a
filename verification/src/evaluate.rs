//! Policy evaluation: from parsed packet, extracted signal and policy to
//! log events and, in guard mode, a binding verdict.
//!
//! Evaluation order is fixed: a dangerous-HTTP log event (guard mode,
//! observability only), then the destination blocklist (the only rule that
//! drops), then DNS-query logging. Evaluation is a pure function of its
//! inputs — no hidden state, no dependence on prior packets.

use vstd::prelude::*;
use crate::{Mode, Verdict};
use crate::frame::{PacketModel, ParsedPacket, Transport, TransportModel};
use crate::policy::{ip_blocked, Policy, PolicyModel};
use crate::signal::{Signal, SignalModel};

verus! {

/// The classification a log event reports.
#[derive(Clone, Copy, PartialEq, Eq, Structural, Debug)]
pub enum Category {
    Http,
    Dns,
    Drop,
}

/// How urgent a log event is.
#[derive(Clone, Copy, PartialEq, Eq, Structural, Debug)]
pub enum Severity {
    Info,
    Warning,
}

/// What a log event carries beyond its category and severity.
#[derive(PartialEq, Eq, Debug)]
pub enum EventDetail {
    HttpHeaders { lines: Vec<String> },
    BlockedDestination { dst: u32 },
    DnsLookup { name: String, dst: u32 },
}

/// One structured log event emitted by the evaluator.
#[derive(PartialEq, Eq, Debug)]
pub struct LogEvent {
    pub category: Category,
    pub severity: Severity,
    pub detail: EventDetail,
}

/// Mathematical model of `EventDetail`.
pub enum EventDetailModel {
    HttpHeaders { lines: Seq<Seq<char>> },
    BlockedDestination { dst: u32 },
    DnsLookup { name: Seq<char>, dst: u32 },
}

/// Mathematical model of `LogEvent`.
pub struct LogEventModel {
    pub category: Category,
    pub severity: Severity,
    pub detail: EventDetailModel,
}

impl View for EventDetail {
    type V = EventDetailModel;

    open spec fn view(&self) -> EventDetailModel {
        match self {
            EventDetail::HttpHeaders { lines } => EventDetailModel::HttpHeaders {
                lines: lines.deep_view(),
            },
            EventDetail::BlockedDestination { dst } => EventDetailModel::BlockedDestination {
                dst: *dst,
            },
            EventDetail::DnsLookup { name, dst } => EventDetailModel::DnsLookup {
                name: name@,
                dst: *dst,
            },
        }
    }
}

impl View for LogEvent {
    type V = LogEventModel;

    open spec fn view(&self) -> LogEventModel {
        LogEventModel { category: self.category, severity: self.severity, detail: self.detail@ }
    }
}

impl DeepView for LogEvent {
    type V = LogEventModel;

    open spec fn deep_view(&self) -> LogEventModel {
        self@
    }
}

/// Whether the packet has a TCP transport.
pub open spec fn is_tcp(p: PacketModel) -> bool {
    match p.net {
        Some(n) => n.transport is Tcp,
        None => false,
    }
}

/// Whether the packet has a UDP transport with destination port 53.
pub open spec fn is_dns_dest(p: PacketModel) -> bool {
    match p.net {
        Some(n) => match n.transport {
            TransportModel::Udp { dport, .. } => dport == 53,
            _ => false,
        },
        None => false,
    }
}

/// Whether the packet's destination address is blocklisted. False when no
/// IPv4 layer is present.
pub open spec fn is_blocked(p: PacketModel, pol: PolicyModel) -> bool {
    match p.net {
        Some(n) => n.transport is Tcp && pol.blocklisted_ips.contains(n.dst),
        None => false,
    }
}

/// The log events and optional verdict one evaluation produces, in the
/// fixed order: dangerous-HTTP event (guard mode, TCP, toggle on, signal
/// present), blocked-destination event (TCP, destination on the
/// blocklist), DNS-query event (UDP to port 53, toggle on, signal
/// present). The verdict exists exactly in guard mode and is `Drop`
/// exactly on a blocklist match.
pub open spec fn spec_evaluate(
    p: PacketModel,
    s: SignalModel,
    pol: PolicyModel,
    mode: Mode,
) -> (Seq<LogEventModel>, Option<Verdict>) {
    let dst = match p.net {
        Some(n) => n.dst,
        None => 0,
    };
    let http_events: Seq<LogEventModel> = if mode is Guard && is_tcp(p) && pol.log_dangerous_http
        && s matches SignalModel::HttpHeaderHit { .. } {
        seq![
            LogEventModel {
                category: Category::Http,
                severity: Severity::Warning,
                detail: EventDetailModel::HttpHeaders {
                    lines: s->HttpHeaderHit_lines,
                },
            },
        ]
    } else {
        seq![]
    };
    let drop_events: Seq<LogEventModel> = if is_blocked(p, pol) {
        seq![
            LogEventModel {
                category: Category::Drop,
                severity: Severity::Warning,
                detail: EventDetailModel::BlockedDestination { dst },
            },
        ]
    } else {
        seq![]
    };
    let dns_events: Seq<LogEventModel> = if is_dns_dest(p) && pol.log_dns_queries
        && s matches SignalModel::DnsQuery { .. } {
        seq![
            LogEventModel {
                category: Category::Dns,
                severity: Severity::Warning,
                detail: EventDetailModel::DnsLookup { name: s->DnsQuery_name, dst },
            },
        ]
    } else {
        seq![]
    };
    let verdict = if mode is Guard {
        if is_blocked(p, pol) {
            Some(Verdict::Drop)
        } else {
            Some(Verdict::Accept)
        }
    } else {
        None
    };
    (http_events + drop_events + dns_events, verdict)
}

/// The outcome of one evaluation: the emitted log events in order, and a
/// verdict in guard mode.
pub struct Evaluation {
    pub events: Vec<LogEvent>,
    pub verdict: Option<Verdict>,
}

fn clone_strings(v: &Vec<String>) -> (r: Vec<String>)
    ensures
        r.deep_view() == v.deep_view(),
{
    let r = v.clone();
    assert(r.deep_view() =~= v.deep_view()) by {
        assert(forall|i: int| 0 <= i < v@.len() ==> r@[i]@ == v@[i]@);
    }
    r
}

/// Evaluates one packet against the policy: emits the log events the
/// fixed rule order calls for and, in guard mode, decides the verdict.
/// Pure: the result is a function of the arguments alone.
pub fn evaluate(packet: &ParsedPacket, signal: &Signal, policy: &Policy, mode: Mode) -> (r:
    Evaluation)
    ensures
        (r.events.deep_view(), r.verdict) == spec_evaluate(packet@, signal@, policy@, mode),
{
    let ghost goal = spec_evaluate(packet@, signal@, policy@, mode);
    let mut events: Vec<LogEvent> = Vec::new();
    let mut blocked = false;
    match &packet.net {
        Some(net) => {
            let tcp = matches!(&net.transport, Transport::Tcp { .. });
            if mode == Mode::Guard && tcp && policy.log_dangerous_http {
                if let Signal::HttpHeaderHit { lines } = signal {
                    events.push(
                        LogEvent {
                            category: Category::Http,
                            severity: Severity::Warning,
                            detail: EventDetail::HttpHeaders { lines: clone_strings(lines) },
                        },
                    );
                }
            }
            if tcp && ip_blocked(&policy.blocklisted_ips, net.dst) {
                blocked = true;
                events.push(
                    LogEvent {
                        category: Category::Drop,
                        severity: Severity::Warning,
                        detail: EventDetail::BlockedDestination { dst: net.dst },
                    },
                );
            }
            if let Transport::Udp { dport, .. } = &net.transport {
                if *dport == 53 && policy.log_dns_queries {
                    if let Signal::DnsQuery { name } = signal {
                        events.push(
                            LogEvent {
                                category: Category::Dns,
                                severity: Severity::Warning,
                                detail: EventDetail::DnsLookup {
                                    name: name.clone(),
                                    dst: net.dst,
                                },
                            },
                        );
                    }
                }
            }
        },
        None => {},
    }
    let verdict = if mode == Mode::Guard {
        if blocked {
            Some(Verdict::Drop)
        } else {
            Some(Verdict::Accept)
        }
    } else {
        None
    };
    assert(events.deep_view() =~= goal.0);
    Evaluation { events, verdict }
}

/// Law: blocklist precedence. A TCP packet whose destination is
/// blocklisted is dropped in guard mode — never accepted — and when the
/// dangerous-HTTP toggle is on and a header signal is present, both the
/// HTTP event and the blocked event are emitted, in that order.
pub proof fn lemma_blocklist_precedence(p: PacketModel, s: SignalModel, pol: PolicyModel)
    requires
        is_blocked(p, pol),
    ensures
        spec_evaluate(p, s, pol, Mode::Guard).1 == Some(Verdict::Drop),
        spec_evaluate(p, s, pol, Mode::Guard).1 != Some(Verdict::Accept),
        (pol.log_dangerous_http && (s matches SignalModel::HttpHeaderHit { .. }))
            ==> spec_evaluate(p, s, pol, Mode::Guard).0.len() >= 2
            && spec_evaluate(p, s, pol, Mode::Guard).0[0].category == Category::Http
            && spec_evaluate(p, s, pol, Mode::Guard).0[1].category == Category::Drop,
{
}

/// Law: idempotence. Evaluation is a pure function of packet, signal,
/// policy and mode: two evaluations of the same inputs yield identical
/// log events and identical verdicts.
pub proof fn lemma_evaluate_idempotent(
    p: PacketModel,
    s: SignalModel,
    pol: PolicyModel,
    mode: Mode,
    first: (Seq<LogEventModel>, Option<Verdict>),
    second: (Seq<LogEventModel>, Option<Verdict>),
)
    requires
        first == spec_evaluate(p, s, pol, mode),
        second == spec_evaluate(p, s, pol, mode),
    ensures
        first == second,
{
}

/// Law: pass-through of uninspectable traffic. A packet that is not IPv4,
/// or whose transport is neither TCP nor UDP, yields no log events and, in
/// guard mode, the verdict `Accept`.
pub proof fn lemma_non_inspectable_passes(p: PacketModel, s: SignalModel, pol: PolicyModel, mode: Mode)
    requires
        match p.net {
            Some(n) => n.transport is Other,
            None => true,
        },
    ensures
        spec_evaluate(p, s, pol, mode).0 == Seq::<LogEventModel>::empty(),
        mode is Guard ==> spec_evaluate(p, s, pol, mode).1 == Some(Verdict::Accept),
        mode is Sniff ==> spec_evaluate(p, s, pol, mode).1 is None,
{
    assert(spec_evaluate(p, s, pol, mode).0 =~= Seq::<LogEventModel>::empty());
}

} // verus!
