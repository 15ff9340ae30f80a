//! Frame parser: decodes a raw byte buffer into a typed view of the
//! Ethernet, IPv4 and TCP/UDP layers.
//!
//! Parsing is total: any structural inconsistency (too-short buffer,
//! unsupported ether-type, non-IPv4 version, out-of-range length fields)
//! results in the corresponding layer being absent, never an error and
//! never a read past the buffer bounds.

use vstd::prelude::*;
use vstd::slice::{slice_subrange, slice_to_vec};

verus! {

/// The transport layer of a parsed packet, with ports and a copy of the
/// transport payload when the transport is recognised.
pub enum Transport {
    Tcp { sport: u16, dport: u16, payload: Vec<u8> },
    Udp { sport: u16, dport: u16, payload: Vec<u8> },
    Other,
}

/// The network layer of a parsed packet: IPv4 addresses as 32-bit
/// big-endian values, and the transport layer found inside.
pub struct NetLayer {
    pub src: u32,
    pub dst: u32,
    pub transport: Transport,
}

/// A typed view of one raw frame. `net` is `None` when the frame does not
/// carry an IPv4 packet; a recognised IPv4 packet with an unrecognised or
/// malformed transport has `Transport::Other`.
pub struct ParsedPacket {
    pub net: Option<NetLayer>,
}

/// Mathematical model of `Transport`.
pub enum TransportModel {
    Tcp { sport: u16, dport: u16, payload: Seq<u8> },
    Udp { sport: u16, dport: u16, payload: Seq<u8> },
    Other,
}

/// Mathematical model of `NetLayer`.
pub struct NetLayerModel {
    pub src: u32,
    pub dst: u32,
    pub transport: TransportModel,
}

/// Mathematical model of `ParsedPacket`.
pub struct PacketModel {
    pub net: Option<NetLayerModel>,
}

impl View for Transport {
    type V = TransportModel;

    open spec fn view(&self) -> TransportModel {
        match self {
            Transport::Tcp { sport, dport, payload } => TransportModel::Tcp {
                sport: *sport,
                dport: *dport,
                payload: payload@,
            },
            Transport::Udp { sport, dport, payload } => TransportModel::Udp {
                sport: *sport,
                dport: *dport,
                payload: payload@,
            },
            Transport::Other => TransportModel::Other,
        }
    }
}

impl View for NetLayer {
    type V = NetLayerModel;

    open spec fn view(&self) -> NetLayerModel {
        NetLayerModel { src: self.src, dst: self.dst, transport: self.transport@ }
    }
}

impl View for ParsedPacket {
    type V = PacketModel;

    open spec fn view(&self) -> PacketModel {
        match self.net {
            Some(ref n) => PacketModel { net: Some(n@) },
            None => PacketModel { net: None },
        }
    }
}

/// The 16-bit big-endian value of two bytes.
pub open spec fn be16(b0: u8, b1: u8) -> u16 {
    ((b0 as int) * 0x100 + (b1 as int)) as u16
}

/// The 32-bit big-endian value of four bytes.
pub open spec fn be32(b0: u8, b1: u8, b2: u8, b3: u8) -> u32 {
    ((b0 as int) * 0x1000000 + (b1 as int) * 0x10000 + (b2 as int) * 0x100 + (b3 as int)) as u32
}

/// What the transport layer of an IPv4 packet with protocol number `proto`
/// and payload bytes `p` parses to: TCP (protocol 6) needs a 20-byte header
/// and an in-range data offset, UDP (protocol 17) needs its 8-byte header;
/// anything else, or a header that does not fit, is `Other`.
pub open spec fn spec_parse_transport(proto: u8, p: Seq<u8>) -> TransportModel {
    if proto == 6 {
        if p.len() >= 20 {
            let doff = (p[12] / 16) as int * 4;
            if doff >= 20 && doff <= p.len() {
                TransportModel::Tcp {
                    sport: be16(p[0], p[1]),
                    dport: be16(p[2], p[3]),
                    payload: p.skip(doff),
                }
            } else {
                TransportModel::Other
            }
        } else {
            TransportModel::Other
        }
    } else if proto == 17 {
        if p.len() >= 8 {
            TransportModel::Udp {
                sport: be16(p[0], p[1]),
                dport: be16(p[2], p[3]),
                payload: p.skip(8),
            }
        } else {
            TransportModel::Other
        }
    } else {
        TransportModel::Other
    }
}

/// What the bytes of an IPv4 packet parse to. The layer is present only if
/// the buffer holds a 20-byte minimum header, the version nibble is 4, and
/// the header length fits inside the buffer. A total-length field that
/// falls outside `[header length, buffer length]` makes the transport
/// absent (`Other`) rather than an out-of-bounds read.
pub open spec fn spec_parse_ip(b: Seq<u8>) -> Option<NetLayerModel> {
    if b.len() < 20 || b[0] / 16 != 4 {
        None
    } else {
        let hlen = (b[0] % 16) as int * 4;
        if hlen < 20 || hlen > b.len() {
            None
        } else {
            let tlen = be16(b[2], b[3]) as int;
            let transport = if hlen <= tlen && tlen <= b.len() {
                spec_parse_transport(b[9], b.subrange(hlen, tlen))
            } else {
                TransportModel::Other
            };
            Some(
                NetLayerModel {
                    src: be32(b[12], b[13], b[14], b[15]),
                    dst: be32(b[16], b[17], b[18], b[19]),
                    transport,
                },
            )
        }
    }
}

/// What a raw layer-2 frame parses to: a 14-byte Ethernet header whose
/// ether-type is 0x0800 (IPv4) followed by an IPv4 packet; anything else
/// has no network layer.
pub open spec fn spec_parse_frame(raw: Seq<u8>) -> PacketModel {
    if raw.len() >= 14 && raw[12] == 0x08 && raw[13] == 0x00 {
        PacketModel { net: spec_parse_ip(raw.skip(14)) }
    } else {
        PacketModel { net: None }
    }
}

/// Parses the transport layer out of the payload bytes of an IPv4 packet.
fn parse_transport(proto: u8, p: &[u8]) -> (r: Transport)
    ensures
        r@ == spec_parse_transport(proto, p@),
{
    if proto == 6 {
        if p.len() >= 20 {
            let doff = (p[12] / 16) as usize * 4;
            if doff >= 20 && doff <= p.len() {
                let payload = slice_to_vec(slice_subrange(p, doff, p.len()));
                assert(payload@ =~= p@.skip(doff as int));
                Transport::Tcp {
                    sport: be16_exec(p[0], p[1]),
                    dport: be16_exec(p[2], p[3]),
                    payload,
                }
            } else {
                Transport::Other
            }
        } else {
            Transport::Other
        }
    } else if proto == 17 {
        if p.len() >= 8 {
            let payload = slice_to_vec(slice_subrange(p, 8, p.len()));
            assert(payload@ =~= p@.skip(8));
            Transport::Udp { sport: be16_exec(p[0], p[1]), dport: be16_exec(p[2], p[3]), payload }
        } else {
            Transport::Other
        }
    } else {
        Transport::Other
    }
}

/// The 16-bit big-endian value of two bytes.
pub fn be16_exec(b0: u8, b1: u8) -> (r: u16)
    ensures
        r == be16(b0, b1),
{
    (b0 as u16) * 0x100 + (b1 as u16)
}

/// The 32-bit big-endian value of four bytes.
pub fn be32_exec(b0: u8, b1: u8, b2: u8, b3: u8) -> (r: u32)
    ensures
        r == be32(b0, b1, b2, b3),
{
    (b0 as u32) * 0x1000000 + (b1 as u32) * 0x10000 + (b2 as u32) * 0x100 + (b3 as u32)
}

/// Parses the bytes of an IPv4 packet (network layer first, no link-layer
/// header), as delivered by an inline queue transport. Total: malformed
/// input yields an absent layer, never an error.
pub fn parse_ip_packet(b: &[u8]) -> (r: ParsedPacket)
    ensures
        r@ == (PacketModel { net: spec_parse_ip(b@) }),
{
    ParsedPacket { net: parse_ip_layer(b) }
}

fn parse_ip_layer(b: &[u8]) -> (r: Option<NetLayer>)
    ensures
        match r {
            Some(n) => spec_parse_ip(b@) == Some(n@),
            None => spec_parse_ip(b@) is None,
        },
{
    if b.len() < 20 || b[0] / 16 != 4 {
        None
    } else {
        let hlen = (b[0] % 16) as usize * 4;
        if hlen < 20 || hlen > b.len() {
            None
        } else {
            let tlen = be16_exec(b[2], b[3]) as usize;
            let transport = if hlen <= tlen && tlen <= b.len() {
                parse_transport(b[9], slice_subrange(b, hlen, tlen))
            } else {
                Transport::Other
            };
            Some(
                NetLayer {
                    src: be32_exec(b[12], b[13], b[14], b[15]),
                    dst: be32_exec(b[16], b[17], b[18], b[19]),
                    transport,
                },
            )
        }
    }
}

/// Parses a raw layer-2 frame, as delivered by a capture transport:
/// Ethernet, then IPv4, then TCP/UDP. Total: any structural inconsistency
/// yields an absent layer, never an error and never an out-of-bounds read.
pub fn parse_frame(raw: &[u8]) -> (r: ParsedPacket)
    ensures
        r@ == spec_parse_frame(raw@),
{
    if raw.len() >= 14 && raw[12] == 0x08 && raw[13] == 0x00 {
        let ip = slice_subrange(raw, 14, raw.len());
        assert(ip@ =~= raw@.skip(14));
        ParsedPacket { net: parse_ip_layer(ip) }
    } else {
        ParsedPacket { net: None }
    }
}

} // verus!
