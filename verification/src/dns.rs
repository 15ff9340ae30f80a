//! DNS query-name extraction.
//!
//! The query name of a DNS message is read at the fixed 12-byte header
//! offset as standard length-prefixed labels: `(length byte, label bytes)`
//! pairs terminated by a zero-length label or buffer exhaustion, joined
//! with `.`. A length that would read past the buffer, or an absence of
//! labels, yields no name — never a partial or corrupt one.

use vstd::prelude::*;
use vstd::slice::slice_subrange;
use crate::text::{lossy_decode, lossy_of};

verus! {

/// The name encoded by length-prefixed labels at the front of `q`: empty
/// when `q` starts with a zero length byte or is exhausted, `None` when a
/// length byte points past the end of the buffer.
pub open spec fn spec_name_rec(q: Seq<u8>) -> Option<Seq<char>>
    decreases q.len(),
{
    if q.len() == 0 || q[0] == 0 {
        Some(seq![])
    } else if 1 + q[0] > q.len() {
        None
    } else {
        let label = lossy_of(q.subrange(1, 1 + q[0]));
        let rest = q.skip(1 + q[0]);
        match spec_name_rec(rest) {
            None => None,
            Some(rest_name) => {
                if rest.len() == 0 || rest[0] == 0 {
                    Some(label)
                } else {
                    Some(label + seq!['.'] + rest_name)
                }
            },
        }
    }
}

/// The DNS query name carried by a UDP payload: the labels start after the
/// 12-byte message header. `None` when the payload has no room for labels,
/// when no label is present, or when a label length runs past the buffer.
pub open spec fn spec_dns_name(payload: Seq<u8>) -> Option<Seq<char>> {
    if payload.len() <= 12 {
        None
    } else {
        let q = payload.skip(12);
        if q[0] == 0 {
            None
        } else {
            spec_name_rec(q)
        }
    }
}

fn name_rec(q: &[u8]) -> (r: Option<String>)
    ensures
        match (r, spec_name_rec(q@)) {
            (Some(s), Some(n)) => s@ == n,
            (None, None) => true,
            _ => false,
        },
    decreases q.len(),
{
    if q.len() == 0 || q[0] == 0 {
        Some(String::new())
    } else {
        let len = q[0] as usize;
        if len > q.len() - 1 {
            None
        } else {
            let label_bytes = slice_subrange(q, 1, 1 + len);
            assert(label_bytes@ =~= q@.subrange(1, 1 + q@[0]));
            let label = lossy_decode(label_bytes);
            let rest = slice_subrange(q, 1 + len, q.len());
            assert(rest@ =~= q@.skip(1 + q@[0]));
            match name_rec(rest) {
                None => None,
                Some(rest_name) => {
                    if rest.len() == 0 || rest[0] == 0 {
                        Some(label)
                    } else {
                        let mut name = label;
                        name.append(".");
                        name.append(rest_name.as_str());
                        proof {
                            reveal_strlit(".");
                            assert("."@ =~= seq!['.']);
                        }
                        Some(name)
                    }
                },
            }
        }
    }
}

/// Extracts the DNS query name from a UDP payload, best-effort and total:
/// a malformed or empty query field yields `None`, never an error.
pub fn extract_dns(payload: &[u8]) -> (r: Option<String>)
    ensures
        match (r, spec_dns_name(payload@)) {
            (Some(s), Some(n)) => s@ == n,
            (None, None) => true,
            _ => false,
        },
{
    if payload.len() <= 12 {
        None
    } else {
        let q = slice_subrange(payload, 12, payload.len());
        assert(q@ =~= payload@.skip(12));
        if q[0] == 0 {
            None
        } else {
            name_rec(q)
        }
    }
}

/// The standard label encoding of a name given as its labels: each label's
/// length byte, then its bytes, with a terminating zero-length label.
pub open spec fn spec_encode_labels(labels: Seq<Seq<u8>>) -> Seq<u8>
    decreases labels.len(),
{
    if labels.len() == 0 {
        seq![0u8]
    } else {
        seq![labels[0].len() as u8] + labels[0] + spec_encode_labels(labels.drop_first())
    }
}

/// The decoded labels joined with `.` separators.
pub open spec fn spec_join_name(labels: Seq<Seq<u8>>) -> Seq<char>
    decreases labels.len(),
{
    if labels.len() == 0 {
        seq![]
    } else if labels.len() == 1 {
        lossy_of(labels[0])
    } else {
        lossy_of(labels[0]) + seq!['.'] + spec_join_name(labels.drop_first())
    }
}

proof fn lemma_name_rec_encode(labels: Seq<Seq<u8>>)
    requires
        labels.len() > 0,
        forall|i: int| 0 <= i < labels.len() ==> 1 <= #[trigger] labels[i].len() <= 255,
    ensures
        spec_name_rec(spec_encode_labels(labels)) == Some(spec_join_name(labels)),
    decreases labels.len(),
{
    let q = spec_encode_labels(labels);
    let l0 = labels[0];
    let tail = spec_encode_labels(labels.drop_first());
    assert(q == seq![l0.len() as u8] + l0 + tail);
    assert(q[0] == l0.len() as u8);
    assert(1 <= l0.len() <= 255);
    assert(q[0] != 0);
    assert(tail.len() >= 1);
    assert(1 + q[0] <= q.len());
    assert(q.subrange(1, 1 + q[0]) =~= l0);
    let rest = q.skip(1 + q[0]);
    assert(rest =~= tail);
    if labels.len() == 1 {
        assert(labels.drop_first().len() == 0);
        assert(tail == seq![0u8]);
        assert(rest[0] == 0);
        assert(spec_name_rec(rest) == Some(Seq::<char>::empty()));
        assert(spec_name_rec(q) == Some(lossy_of(l0)));
        assert(spec_join_name(labels) == lossy_of(l0));
    } else {
        let dropped = labels.drop_first();
        assert(dropped.len() > 0);
        assert(forall|i: int|
            0 <= i < dropped.len() ==> 1 <= #[trigger] dropped[i].len() <= 255) by {
            assert(forall|i: int|
                0 <= i < dropped.len() ==> dropped[i] == labels[i + 1]);
        }
        lemma_name_rec_encode(dropped);
        assert(tail[0] == dropped[0].len() as u8);
        assert(rest[0] != 0);
        assert(rest.len() > 0);
        assert(spec_name_rec(rest) == Some(spec_join_name(dropped)));
        assert(spec_name_rec(q) == Some(lossy_of(l0) + seq!['.'] + spec_join_name(dropped)));
    }
}

/// Law: DNS extraction inverts the standard label encoding. For any
/// 12-byte message header and any sequence of labels (each 1 to 255 bytes
/// long), extracting the query name from the encoded message yields
/// exactly the labels' decoded text joined with `.` separators.
pub proof fn lemma_dns_round_trip(header: Seq<u8>, labels: Seq<Seq<u8>>)
    requires
        header.len() == 12,
        labels.len() > 0,
        forall|i: int| 0 <= i < labels.len() ==> 1 <= #[trigger] labels[i].len() <= 255,
    ensures
        spec_dns_name(header + spec_encode_labels(labels)) == Some(spec_join_name(labels)),
{
    let enc = spec_encode_labels(labels);
    let payload = header + enc;
    assert(enc.len() >= 2);
    assert(payload.len() > 12);
    let q = payload.skip(12);
    assert(q =~= enc);
    assert(q[0] == labels[0].len() as u8);
    assert(q[0] != 0);
    lemma_name_rec_encode(labels);
    assert(spec_name_rec(q) == Some(spec_join_name(labels)));
}

} // verus!
