//! Per-run configuration: operating mode, monitored interfaces, filter
//! rules and the optional in-kernel queue settings.
//!
//! Configuration is loaded and validated before any inspection begins and
//! is never mutated during a run.

use vstd::prelude::*;
use vstd::string::StrSliceExecFns;
use vstd::string::StringExecFns;

verus! {

/// The filter rules: blocklisted destination addresses as dotted-quad
/// strings, a hostname list reserved for a future rule (no evaluation path
/// reads it yet), and the two logging toggles.
pub struct FilterConfig {
    pub drop_if_ip_matches: Vec<String>,
    pub drop_if_hostname_matches: Vec<String>,
    pub log_dangerous_http: bool,
    pub log_dns_queries: bool,
}

/// The in-kernel queue settings for guard mode.
pub struct NFQueueConfig {
    pub enabled: bool,
    pub queue_num: u16,
    pub fail_open: bool,
}

/// The whole per-run configuration.
pub struct PacketGuardConfig {
    pub mode: String,
    pub interfaces: Option<Vec<String>>,
    pub filter: FilterConfig,
    pub nfqueue: Option<NFQueueConfig>,
}

/// The code of a character with an ASCII uppercase letter folded to its
/// lowercase form.
pub open spec fn lower_code(c: char) -> int {
    if 65 <= c as int <= 90 {
        c as int + 32
    } else {
        c as int
    }
}

/// Whether two strings are equal up to ASCII case.
pub open spec fn eq_ignore_case(a: Seq<char>, b: Seq<char>) -> bool {
    a.len() == b.len() && (forall|i: int| 0 <= i < a.len() ==> lower_code(a[i]) == lower_code(b[i]))
}

/// Whether two strings are equal up to ASCII case.
pub fn eq_ignore_case_exec(a: &str, b: &str) -> (r: bool)
    ensures
        r == eq_ignore_case(a@, b@),
{
    let an = a.unicode_len();
    let bn = b.unicode_len();
    if an != bn {
        return false;
    }
    let mut i: usize = 0;
    while i < an
        invariant
            0 <= i <= an,
            an == a@.len() && an == b@.len(),
            forall|j: int| 0 <= j < i ==> lower_code(a@[j]) == lower_code(b@[j]),
        decreases an - i,
    {
        let ca = a.get_char(i) as u32;
        let cb = b.get_char(i) as u32;
        let la = if 65 <= ca && ca <= 90 {
            ca + 32
        } else {
            ca
        };
        let lb = if 65 <= cb && cb <= 90 {
            cb + 32
        } else {
            cb
        };
        if la != lb {
            return false;
        }
        i = i + 1;
    }
    true
}

impl PacketGuardConfig {
    /// Whether the configured mode selects passive capture, compared
    /// ASCII-case-insensitively.
    pub fn is_sniff_mode(&self) -> (r: bool)
        ensures
            r == eq_ignore_case(self.mode@, "sniff"@),
    {
        eq_ignore_case_exec(self.mode.as_str(), "sniff")
    }

    /// Whether the configured mode selects inline filtering, compared
    /// ASCII-case-insensitively.
    pub fn is_guard_mode(&self) -> (r: bool)
        ensures
            r == eq_ignore_case(self.mode@, "guard"@),
    {
        eq_ignore_case_exec(self.mode.as_str(), "guard")
    }

    /// Whether an in-kernel queue is configured and enabled.
    pub fn nfqueue_enabled(&self) -> (r: bool)
        ensures
            r == match self.nfqueue {
                Some(q) => q.enabled,
                None => false,
            },
    {
        match &self.nfqueue {
            Some(q) => q.enabled,
            None => false,
        }
    }
}

/// Whether `s` starts with `prefix`.
pub open spec fn has_prefix(s: Seq<char>, prefix: Seq<char>) -> bool {
    prefix.len() <= s.len() && s.take(prefix.len() as int) == prefix
}

/// Whether `s` starts with `prefix`.
pub fn has_prefix_exec(s: &str, prefix: &str) -> (r: bool)
    ensures
        r == has_prefix(s@, prefix@),
{
    let pn = prefix.unicode_len();
    let sn = s.unicode_len();
    if pn > sn {
        return false;
    }
    let mut i: usize = 0;
    while i < pn
        invariant
            0 <= i <= pn,
            pn <= sn,
            pn == prefix@.len() && sn == s@.len(),
            forall|j: int| 0 <= j < i ==> s@[j] == prefix@[j],
        decreases pn - i,
    {
        if s.get_char(i) != prefix.get_char(i) {
            assert(s@.take(pn as int)[i as int] != prefix@[i as int]);
            return false;
        }
        i = i + 1;
    }
    assert(s@.take(pn as int) =~= prefix@);
    true
}

/// The names selected for monitoring among the discovered interfaces, in
/// order of discovery.
pub open spec fn spec_monitored(names: Seq<Seq<char>>, prefix: Seq<char>) -> Seq<Seq<char>>
    decreases names.len(),
{
    if names.len() == 0 {
        seq![]
    } else if has_prefix(names[0], prefix) {
        seq![names[0]] + spec_monitored(names.drop_first(), prefix)
    } else {
        spec_monitored(names.drop_first(), prefix)
    }
}

fn select_rec(names: &[String], prefix: &str) -> (r: Vec<String>)
    ensures
        r.deep_view() == spec_monitored(names.deep_view(), prefix@),
    decreases names.len(),
{
    if names.len() == 0 {
        let r = Vec::<String>::new();
        assert(r.deep_view() =~= spec_monitored(names.deep_view(), prefix@));
        r
    } else {
        let first = vstd::slice::slice_index_get(names, 0);
        let rest = vstd::slice::slice_subrange(names, 1, names.len());
        assert(rest.deep_view() =~= names.deep_view().drop_first());
        assert(names.deep_view()[0] == first@);
        if has_prefix_exec(first.as_str(), prefix) {
            let mut tail = select_rec(rest, prefix);
            let mut r = Vec::<String>::new();
            r.push(String::from_str(first.as_str()));
            r.append(&mut tail);
            proof {
                let goal = spec_monitored(names.deep_view(), prefix@);
                assert(goal == seq![names.deep_view()[0]] + spec_monitored(
                    names.deep_view().drop_first(),
                    prefix@,
                ));
                assert(r.deep_view() =~= goal);
            }
            r
        } else {
            let r = select_rec(rest, prefix);
            assert(r.deep_view() =~= spec_monitored(names.deep_view(), prefix@));
            r
        }
    }
}

/// Selects, from a list of discovered interface names, those that belong
/// to the monitored bridge family (names starting with `kewnet-`),
/// preserving discovery order.
pub fn select_monitored_interfaces(names: &Vec<String>) -> (r: Vec<String>)
    ensures
        r.deep_view() == spec_monitored(names.deep_view(), "kewnet-"@),
{
    select_rec(names.as_slice(), "kewnet-")
}

} // verus!
