//! Packet inspection and verdict engine.
//!
//! Decodes raw layer-2 frames into a typed view of Ethernet, IPv4 and
//! TCP/UDP layers, extracts application-layer signals (DNS query names,
//! HTTP header lines, opaque TLS summaries), and evaluates them against a
//! policy, producing log events and — in inline (guard) mode — an
//! accept/drop verdict.

use vstd::prelude::*;

pub mod config;
pub mod dns;
pub mod engine;
pub mod evaluate;
pub mod frame;
pub mod guard;
pub mod http;
pub mod policy;
pub mod signal;
pub mod text;

verus! {

/// The operating mode of the engine: passive capture (`Sniff`) or inline
/// filtering through an in-kernel queue (`Guard`).
#[derive(Clone, Copy, PartialEq, Eq, Structural, Debug)]
pub enum Mode {
    Sniff,
    Guard,
}

/// The binding decision returned to the inline transport for one packet.
#[derive(Clone, Copy, PartialEq, Eq, Structural, Debug)]
pub enum Verdict {
    Accept,
    Drop,
}

} // verus!
