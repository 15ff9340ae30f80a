//! The inspection pipeline: frame parser, signal extractor and policy
//! evaluator composed over one raw buffer.

use vstd::prelude::*;
use crate::Mode;
use crate::Verdict;
use crate::evaluate::{evaluate, spec_evaluate, Evaluation, LogEvent};
use crate::frame::{parse_frame, parse_ip_packet, spec_parse_frame, spec_parse_ip, PacketModel};
use crate::policy::Policy;
use crate::signal::{extract_signal, spec_extract, Signal};

verus! {

/// Everything one inspection yields: the extracted signal, the log events
/// in order, and — in guard mode — the verdict.
pub struct Inspection {
    pub signal: Signal,
    pub events: Vec<LogEvent>,
    pub verdict: Option<Verdict>,
}

/// Inspects one raw layer-2 frame, as a capture transport delivers it:
/// parse, extract, evaluate. Total: arbitrary bytes are inspected without
/// error, and in guard mode always receive a verdict.
pub fn inspect_frame(raw: &[u8], policy: &Policy, mode: Mode) -> (r: Inspection)
    ensures
        r.signal@ == spec_extract(spec_parse_frame(raw@), mode),
        (r.events.deep_view(), r.verdict) == spec_evaluate(
            spec_parse_frame(raw@),
            spec_extract(spec_parse_frame(raw@), mode),
            policy@,
            mode,
        ),
{
    let packet = parse_frame(raw);
    let signal = extract_signal(&packet, mode);
    let Evaluation { events, verdict } = evaluate(&packet, &signal, policy, mode);
    Inspection { signal, events, verdict }
}

/// Inspects one IPv4 packet, as an inline queue transport delivers it
/// (network layer first, no link-layer header): parse, extract, evaluate.
pub fn inspect_ip_packet(raw: &[u8], policy: &Policy, mode: Mode) -> (r: Inspection)
    ensures
        r.signal@ == spec_extract(PacketModel { net: spec_parse_ip(raw@) }, mode),
        (r.events.deep_view(), r.verdict) == spec_evaluate(
            PacketModel { net: spec_parse_ip(raw@) },
            spec_extract(PacketModel { net: spec_parse_ip(raw@) }, mode),
            policy@,
            mode,
        ),
{
    let packet = parse_ip_packet(raw);
    let signal = extract_signal(&packet, mode);
    let Evaluation { events, verdict } = evaluate(&packet, &signal, policy, mode);
    Inspection { signal, events, verdict }
}

} // verus!
