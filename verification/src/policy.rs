//! The immutable per-run policy and its construction from configuration.
//!
//! Blocklisted destinations are parsed once, at load time, from dotted-quad
//! strings into 32-bit IPv4 values; a malformed entry is a configuration
//! error surfaced before any packet is inspected, never a runtime
//! condition of the engine.

use vstd::prelude::*;
use vstd::string::StrSliceExecFns;
use vstd::string::StringExecFns;
use crate::config::FilterConfig;

verus! {

/// The immutable filtering policy shared read-only by every inspection:
/// blocklisted destination addresses as parsed 32-bit IPv4 values, the two
/// logging toggles, and (meaningful in guard mode only) the fail-open
/// choice for transport failure.
pub struct Policy {
    pub blocklisted_ips: Vec<u32>,
    pub log_dangerous_http: bool,
    pub log_dns_queries: bool,
    pub fail_open: bool,
}

/// Mathematical model of `Policy`.
pub struct PolicyModel {
    pub blocklisted_ips: Seq<u32>,
    pub log_dangerous_http: bool,
    pub log_dns_queries: bool,
    pub fail_open: bool,
}

impl View for Policy {
    type V = PolicyModel;

    open spec fn view(&self) -> PolicyModel {
        PolicyModel {
            blocklisted_ips: self.blocklisted_ips@,
            log_dangerous_http: self.log_dangerous_http,
            log_dns_queries: self.log_dns_queries,
            fail_open: self.fail_open,
        }
    }
}

/// A configuration error: a blocklist entry that is not a dotted-quad
/// IPv4 address, identified by its position and text.
#[derive(PartialEq, Eq, Debug)]
pub enum PolicyError {
    InvalidIp { index: usize, entry: String },
}

/// Whether `c` is a decimal digit.
pub open spec fn is_digit(c: char) -> bool {
    48 <= c as int <= 57
}

/// The numeric value of a string of decimal digits, most significant
/// first.
pub open spec fn decimal_val(s: Seq<char>) -> int
    decreases s.len(),
{
    if s.len() == 0 {
        0
    } else {
        decimal_val(s.drop_last()) * 10 + (s.last() as int - 48)
    }
}

/// Whether a string is a valid dotted-quad octet: one to three decimal
/// digits, value at most 255, with no leading zero.
pub open spec fn valid_octet(s: Seq<char>) -> bool {
    &&& 1 <= s.len() <= 3
    &&& (forall|i: int| 0 <= i < s.len() ==> is_digit(#[trigger] s[i]))
    &&& decimal_val(s) <= 255
    &&& (s.len() > 1 ==> s[0] != '0')
}

/// The index of the first `.` in `s`, or `s.len()` if there is none.
pub open spec fn first_dot(s: Seq<char>) -> nat
    decreases s.len(),
{
    if s.len() == 0 {
        0
    } else if s[0] == '.' {
        0
    } else {
        1 + first_dot(s.drop_first())
    }
}

/// The parts of `s` between `.` separators. An empty string is one empty
/// part; a trailing `.` yields a trailing empty part.
pub open spec fn split_dots(s: Seq<char>) -> Seq<Seq<char>>
    decreases s.len(),
{
    let i = first_dot(s) as int;
    if i >= s.len() {
        seq![s]
    } else {
        seq![s.take(i)] + split_dots(s.skip(i + 1))
    }
}

/// The 32-bit IPv4 value written by a dotted-quad string, or `None` when
/// the string is not four valid octets separated by `.`.
pub open spec fn spec_ipv4(s: Seq<char>) -> Option<u32> {
    let parts = split_dots(s);
    if parts.len() == 4 && valid_octet(parts[0]) && valid_octet(parts[1]) && valid_octet(parts[2])
        && valid_octet(parts[3]) {
        Some(
            (decimal_val(parts[0]) * 0x1000000 + decimal_val(parts[1]) * 0x10000 + decimal_val(
                parts[2],
            ) * 0x100 + decimal_val(parts[3])) as u32,
        )
    } else {
        None
    }
}

proof fn lemma_first_dot(s: Seq<char>, j: int)
    requires
        0 <= j <= s.len(),
        forall|k: int| 0 <= k < j ==> s[k] != '.',
        j < s.len() ==> s[j] == '.',
    ensures
        first_dot(s) == j,
    decreases j,
{
    if j == 0 {
    } else {
        assert(s[0] != '.');
        let d = s.drop_first();
        assert(forall|k: int| 0 <= k < j - 1 ==> d[k] == s[k + 1] && s[k + 1] != '.');
        assert(j - 1 < d.len() ==> d[j - 1] == s[j]);
        lemma_first_dot(d, j - 1);
    }
}

fn split_dots_exec(s: &str) -> (r: Vec<String>)
    ensures
        r.deep_view() == split_dots(s@),
    decreases s@.len(),
{
    let n = s.unicode_len();
    let mut j: usize = 0;
    while j < n && s.get_char(j) != '.'
        invariant
            0 <= j <= n,
            n == s@.len(),
            forall|k: int| 0 <= k < j ==> s@[k] != '.',
        decreases n - j,
    {
        j = j + 1;
    }
    proof {
        lemma_first_dot(s@, j as int);
    }
    let head = s.substring_char(0, j);
    if j == n {
        let mut r = Vec::<String>::new();
        r.push(String::from_str(head));
        assert(s@.take(j as int) =~= s@);
        assert(r.deep_view() =~= split_dots(s@));
        r
    } else {
        let rest = s.substring_char(j + 1, n);
        let mut tail = split_dots_exec(rest);
        let mut r = Vec::<String>::new();
        r.push(String::from_str(head));
        r.append(&mut tail);
        proof {
            assert(rest@ =~= s@.skip(j + 1));
            let goal = split_dots(s@);
            assert(goal == seq![s@.take(j as int)] + split_dots(s@.skip(j + 1)));
            assert(r.deep_view() =~= goal);
        }
        r
    }
}

fn parse_octet(s: &str) -> (r: Option<u32>)
    ensures
        match r {
            Some(v) => valid_octet(s@) && v == decimal_val(s@),
            None => !valid_octet(s@),
        },
{
    let n = s.unicode_len();
    if n < 1 || n > 3 {
        return None;
    }
    if n > 1 && s.get_char(0) == '0' {
        return None;
    }
    let mut v: u32 = 0;
    let mut i: usize = 0;
    while i < n
        invariant
            0 <= i <= n,
            n == s@.len(),
            n <= 3,
            forall|k: int| 0 <= k < i ==> is_digit(#[trigger] s@[k]),
            v == decimal_val(s@.take(i as int)),
            i == 0 ==> v == 0,
            i == 1 ==> v <= 9,
            i == 2 ==> v <= 99,
            i == 3 ==> v <= 999,
        decreases n - i,
    {
        let c = s.get_char(i) as u32;
        if c < 48 || c > 57 {
            return None;
        }
        proof {
            assert(s@.take(i + 1).drop_last() =~= s@.take(i as int));
            assert(s@.take(i + 1).last() == s@[i as int]);
        }
        v = v * 10 + (c - 48);
        i = i + 1;
    }
    assert(s@.take(n as int) =~= s@);
    if v > 255 {
        None
    } else {
        Some(v)
    }
}

/// Parses a dotted-quad IPv4 address: exactly four octets of one to three
/// decimal digits each, no leading zeros, each at most 255.
pub fn parse_ipv4(s: &str) -> (r: Option<u32>)
    ensures
        r == spec_ipv4(s@),
{
    let parts = split_dots_exec(s);
    if parts.len() != 4 {
        return None;
    }
    assert(parts.deep_view()[0] == parts@[0]@);
    assert(parts.deep_view()[1] == parts@[1]@);
    assert(parts.deep_view()[2] == parts@[2]@);
    assert(parts.deep_view()[3] == parts@[3]@);
    let a = match parse_octet(parts[0].as_str()) {
        Some(v) => v,
        None => {
            return None;
        },
    };
    let b = match parse_octet(parts[1].as_str()) {
        Some(v) => v,
        None => {
            return None;
        },
    };
    let c = match parse_octet(parts[2].as_str()) {
        Some(v) => v,
        None => {
            return None;
        },
    };
    let d = match parse_octet(parts[3].as_str()) {
        Some(v) => v,
        None => {
            return None;
        },
    };
    Some(a * 0x1000000 + b * 0x10000 + c * 0x100 + d)
}

/// The ASCII digit bytes of a number up to 255, most significant first,
/// with no leading zeros.
pub open spec fn spec_octet_bytes(n: int) -> Seq<u8> {
    if n >= 100 {
        seq![(48 + n / 100) as u8, (48 + (n / 10) % 10) as u8, (48 + n % 10) as u8]
    } else if n >= 10 {
        seq![(48 + n / 10) as u8, (48 + n % 10) as u8]
    } else {
        seq![(48 + n) as u8]
    }
}

/// The dotted-quad text of a 32-bit IPv4 value, as ASCII bytes.
pub open spec fn spec_ipv4_bytes(ip: u32) -> Seq<u8> {
    spec_octet_bytes(ip as int / 0x1000000) + seq![46u8] + spec_octet_bytes(
        (ip as int / 0x10000) % 0x100,
    ) + seq![46u8] + spec_octet_bytes((ip as int / 0x100) % 0x100) + seq![46u8]
        + spec_octet_bytes(ip as int % 0x100)
}

/// The dotted-quad text of a 32-bit IPv4 value.
pub open spec fn spec_ipv4_text(ip: u32) -> Seq<char> {
    crate::text::ascii_chars_of(spec_ipv4_bytes(ip))
}

fn push_octet_bytes(out: &mut Vec<u8>, n: u8)
    ensures
        final(out)@ == old(out)@ + spec_octet_bytes(n as int),
{
    if n >= 100 {
        out.push(48 + n / 100);
        out.push(48 + (n / 10) % 10);
        out.push(48 + n % 10);
    } else if n >= 10 {
        out.push(48 + n / 10);
        out.push(48 + n % 10);
    } else {
        out.push(48 + n);
    }
}

/// Writes a 32-bit IPv4 value as its dotted-quad text, octet by octet with
/// no leading zeros.
pub fn format_ipv4(ip: u32) -> (r: String)
    ensures
        r@ == spec_ipv4_text(ip),
{
    let a = (ip / 0x1000000) as u8;
    let b = ((ip / 0x10000) % 0x100) as u8;
    let c = ((ip / 0x100) % 0x100) as u8;
    let d = (ip % 0x100) as u8;
    let mut bytes: Vec<u8> = Vec::new();
    push_octet_bytes(&mut bytes, a);
    bytes.push(46);
    push_octet_bytes(&mut bytes, b);
    bytes.push(46);
    push_octet_bytes(&mut bytes, c);
    bytes.push(46);
    push_octet_bytes(&mut bytes, d);
    assert(bytes@ =~= spec_ipv4_bytes(ip));
    assert(crate::text::all_ascii(bytes@));
    crate::text::lossy_decode(bytes.as_slice())
}

/// Whether `ip` is a member of the blocklist.
pub fn ip_blocked(list: &Vec<u32>, ip: u32) -> (r: bool)
    ensures
        r == list@.contains(ip),
{
    let mut i: usize = 0;
    while i < list.len()
        invariant
            0 <= i <= list@.len(),
            forall|j: int| 0 <= j < i ==> list@[j] != ip,
        decreases list@.len() - i,
    {
        if list[i] == ip {
            return true;
        }
        i = i + 1;
    }
    false
}

/// Builds the run policy from the filter configuration: every blocklist
/// entry is parsed as a dotted-quad IPv4 address. Succeeds exactly when
/// every entry parses; otherwise reports the first entry that does not.
pub fn build_policy(filter: &FilterConfig, fail_open: bool) -> (r: Result<Policy, PolicyError>)
    ensures
        match r {
            Ok(p) => {
                &&& forall|i: int|
                    0 <= i < filter.drop_if_ip_matches@.len() ==> spec_ipv4(
                        #[trigger] filter.drop_if_ip_matches@[i]@,
                    ) is Some
                &&& p.blocklisted_ips@.len() == filter.drop_if_ip_matches@.len()
                &&& forall|i: int|
                    0 <= i < p.blocklisted_ips@.len() ==> Some(#[trigger] p.blocklisted_ips@[i])
                        == spec_ipv4(filter.drop_if_ip_matches@[i]@)
                &&& p.log_dangerous_http == filter.log_dangerous_http
                &&& p.log_dns_queries == filter.log_dns_queries
                &&& p.fail_open == fail_open
            },
            Err(PolicyError::InvalidIp { index, entry }) => {
                &&& index < filter.drop_if_ip_matches@.len()
                &&& spec_ipv4(filter.drop_if_ip_matches@[index as int]@) is None
                &&& entry@ == filter.drop_if_ip_matches@[index as int]@
                &&& forall|j: int|
                    0 <= j < index ==> spec_ipv4(#[trigger] filter.drop_if_ip_matches@[j]@) is Some
            },
        },
{
    let mut ips: Vec<u32> = Vec::new();
    let mut i: usize = 0;
    let entries = &filter.drop_if_ip_matches;
    while i < entries.len()
        invariant
            0 <= i <= entries@.len(),
            entries@ == filter.drop_if_ip_matches@,
            ips@.len() == i,
            forall|j: int|
                0 <= j < i ==> Some(#[trigger] ips@[j]) == spec_ipv4(entries@[j]@),
            forall|j: int| 0 <= j < i ==> spec_ipv4(#[trigger] entries@[j]@) is Some,
        decreases entries@.len() - i,
    {
        match parse_ipv4(entries[i].as_str()) {
            Some(v) => {
                ips.push(v);
            },
            None => {
                return Err(
                    PolicyError::InvalidIp {
                        index: i,
                        entry: String::from_str(entries[i].as_str()),
                    },
                );
            },
        }
        i = i + 1;
    }
    Ok(
        Policy {
            blocklisted_ips: ips,
            log_dangerous_http: filter.log_dangerous_http,
            log_dns_queries: filter.log_dns_queries,
            fail_open,
        },
    )
}

} // verus!
