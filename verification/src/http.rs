//! HTTP header-line extraction.
//!
//! A TCP payload on the HTTP port is treated as line-oriented text: the
//! first 10 lines are scanned, and every line whose ASCII-lowercase form
//! starts with `host` or `user-agent` is reported in original order and
//! original casing, capped at a per-mode number of matches. Extraction is
//! best-effort and total: bytes that are not valid UTF-8 decode with
//! replacement characters, and an absence of matches is simply no signal.

use vstd::prelude::*;
use vstd::slice::{slice_index_get, slice_subrange, slice_to_vec};
use crate::text::{is_hit, lossy_decode, lossy_of};

verus! {

/// How many lines of a payload are scanned for header matches.
pub open spec fn scan_line_limit() -> nat {
    10
}

/// The index of the first line-feed byte in `p`, or `p.len()` if there is
/// none.
pub open spec fn first_nl(p: Seq<u8>) -> nat
    decreases p.len(),
{
    if p.len() == 0 {
        0
    } else if p[0] == 10 {
        0
    } else {
        1 + first_nl(p.drop_first())
    }
}

proof fn lemma_first_nl(p: Seq<u8>, j: int)
    requires
        0 <= j <= p.len(),
        forall|k: int| 0 <= k < j ==> p[k] != 10,
        j < p.len() ==> p[j] == 10,
    ensures
        first_nl(p) == j,
    decreases j,
{
    if j == 0 {
    } else {
        assert(p[0] != 10);
        let d = p.drop_first();
        assert(forall|k: int| 0 <= k < j - 1 ==> d[k] == p[k + 1] && p[k + 1] != 10);
        assert(j - 1 < d.len() ==> d[j - 1] == p[j]);
        lemma_first_nl(d, j - 1);
    }
}

/// A line with a trailing carriage return removed.
pub open spec fn strip_cr(l: Seq<u8>) -> Seq<u8> {
    if l.len() > 0 && l[l.len() - 1] == 13 {
        l.drop_last()
    } else {
        l
    }
}

/// The lines of a byte buffer: split at line feeds, each line stripped of
/// a trailing carriage return, with no final empty line after a trailing
/// line feed.
pub open spec fn split_lines(p: Seq<u8>) -> Seq<Seq<u8>>
    decreases p.len(),
{
    if p.len() == 0 {
        seq![]
    } else {
        let i = first_nl(p) as int;
        if i >= p.len() {
            seq![strip_cr(p)]
        } else {
            seq![strip_cr(p.take(i))] + split_lines(p.skip(i + 1))
        }
    }
}

/// The first `n` elements of `s`, or all of `s` if it is shorter.
pub open spec fn take_upto<A>(s: Seq<A>, n: nat) -> Seq<A> {
    if s.len() <= n {
        s
    } else {
        s.take(n as int)
    }
}

/// The lines among `lines` that match a monitored header name, in order.
pub open spec fn hits(lines: Seq<Seq<u8>>) -> Seq<Seq<u8>>
    decreases lines.len(),
{
    if lines.len() == 0 {
        seq![]
    } else if is_hit(lines[0]) {
        seq![lines[0]] + hits(lines.drop_first())
    } else {
        hits(lines.drop_first())
    }
}

/// The header lines a payload yields: matches among the first scanned
/// lines, in original order, decoded best-effort, capped at `cap`.
pub open spec fn spec_http_hits(p: Seq<u8>, cap: nat) -> Seq<Seq<char>> {
    take_upto(hits(take_upto(split_lines(p), scan_line_limit())), cap).map_values(
        |l: Seq<u8>| lossy_of(l),
    )
}

/// Collects the first `max` lines of `p`.
fn collect_lines(p: &[u8], max: usize) -> (r: Vec<Vec<u8>>)
    ensures
        r.deep_view() == take_upto(split_lines(p@), max as nat),
    decreases p.len(),
{
    if max == 0 || p.len() == 0 {
        let r = Vec::<Vec<u8>>::new();
        assert(r.deep_view() =~= take_upto(split_lines(p@), max as nat));
        r
    } else {
        let mut j: usize = 0;
        while j < p.len() && p[j] != 10
            invariant
                0 <= j <= p.len(),
                forall|k: int| 0 <= k < j ==> p@[k] != 10,
            decreases p.len() - j,
        {
            j = j + 1;
        }
        proof {
            lemma_first_nl(p@, j as int);
        }
        let end = if j > 0 && p[j - 1] == 13 {
            j - 1
        } else {
            j
        };
        let line = slice_to_vec(slice_subrange(p, 0, end));
        assert(line@ =~= strip_cr(p@.take(j as int))) by {
            assert(p@.take(j as int).len() == j);
            if j > 0 && p@[j - 1] == 13 {
                assert(p@.take(j as int).drop_last() =~= p@.subrange(0, j - 1));
            }
        }
        if j == p.len() {
            let mut r = Vec::<Vec<u8>>::new();
            r.push(line);
            assert(p@.take(j as int) =~= p@);
            assert(line.deep_view() =~= line@);
            assert(split_lines(p@) == seq![strip_cr(p@)]);
            assert(r.deep_view() =~= take_upto(split_lines(p@), max as nat));
            r
        } else {
            let rest = slice_subrange(p, j + 1, p.len());
            assert(rest@ =~= p@.skip(j + 1));
            let mut tail = collect_lines(rest, max - 1);
            let mut r = Vec::<Vec<u8>>::new();
            r.push(line);
            r.append(&mut tail);
            proof {
                let full = split_lines(p@);
                let lines1 = split_lines(p@.skip(j + 1));
                let want = take_upto(full, max as nat);
                let tdv = take_upto(lines1, (max - 1) as nat);
                assert(full == seq![strip_cr(p@.take(j as int))] + lines1);
                assert(line.deep_view() =~= line@);
                assert(want.len() == 1 + tdv.len());
                assert(r.deep_view().len() == 1 + tdv.len());
                assert(want[0] == full[0]);
                assert(r.deep_view()[0] == line.deep_view());
                assert(forall|k: int| 1 <= k < want.len() ==> want[k] == lines1[k - 1]);
                assert(forall|k: int| 1 <= k < want.len() ==> #[trigger] r.deep_view()[k] == tdv[k - 1]);
                assert(r.deep_view() =~= want);
            }
            r
        }
    }
}

/// Collects the matching lines among `lines`, decoded, capped at `cap`.
fn collect_hits(lines: &[Vec<u8>], cap: usize) -> (r: Vec<String>)
    ensures
        r.deep_view() == take_upto(hits(lines.deep_view()), cap as nat).map_values(
            |l: Seq<u8>| lossy_of(l),
        ),
    decreases lines.len(),
{
    let ghost goal = take_upto(hits(lines.deep_view()), cap as nat).map_values(
        |l: Seq<u8>| lossy_of(l),
    );
    if lines.len() == 0 || cap == 0 {
        let r = Vec::<String>::new();
        assert(r.deep_view() =~= goal);
        r
    } else {
        let first = slice_index_get(lines, 0);
        let rest = slice_subrange(lines, 1, lines.len());
        assert(rest.deep_view() =~= lines.deep_view().drop_first());
        assert(first.deep_view() =~= first@);
        assert(lines.deep_view()[0] == first.deep_view());
        if crate::text::is_hit_exec(first.as_slice()) {
            let decoded = lossy_decode(first.as_slice());
            let mut tail = collect_hits(rest, cap - 1);
            let mut r = Vec::<String>::new();
            r.push(decoded);
            r.append(&mut tail);
            proof {
                let ldv = lines.deep_view();
                let h = hits(ldv);
                let h1 = hits(ldv.drop_first());
                let t1 = take_upto(h1, (cap - 1) as nat).map_values(|l: Seq<u8>| lossy_of(l));
                assert(h == seq![ldv[0]] + h1);
                assert(decoded@ == lossy_of(ldv[0]));
                assert(goal.len() == 1 + t1.len());
                assert(r.deep_view().len() == 1 + t1.len());
                assert(take_upto(h, cap as nat)[0] == h[0]);
                assert(goal[0] == lossy_of(ldv[0]));
                assert(r.deep_view()[0] == decoded@);
                assert(forall|k: int|
                    1 <= k < goal.len() ==> #[trigger] goal[k] == lossy_of(
                        take_upto(h, cap as nat)[k],
                    ) && take_upto(h, cap as nat)[k] == h[k] && h[k] == h1[k - 1]);
                assert(forall|k: int|
                    1 <= k < goal.len() ==> #[trigger] t1[k - 1] == lossy_of(
                        take_upto(h1, (cap - 1) as nat)[k - 1],
                    ) && take_upto(h1, (cap - 1) as nat)[k - 1] == h1[k - 1]);
                assert(forall|k: int|
                    1 <= k < goal.len() ==> #[trigger] r.deep_view()[k] == t1[k - 1]);
                assert(r.deep_view() =~= goal);
            }
            r
        } else {
            let r = collect_hits(rest, cap);
            assert(r.deep_view() =~= goal);
            r
        }
    }
}

/// Extracts the monitored HTTP header lines from a TCP payload: scans the
/// first 10 lines, reports every line starting (case-insensitively) with
/// `host` or `user-agent`, in original order and casing, at most `cap`
/// of them. Total: undecodable or matchless payloads yield an empty list.
pub fn extract_http(payload: &[u8], cap: usize) -> (r: Vec<String>)
    ensures
        r.deep_view() == spec_http_hits(payload@, cap as nat),
{
    let lines = collect_lines(payload, 10);
    collect_hits(lines.as_slice(), cap)
}

} // verus!
