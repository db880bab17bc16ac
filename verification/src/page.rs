//! Extraction of the client address from the portal landing page. The
//! controller firmware embeds the address in a JavaScript-like variable
//! assignment whose marker token differs across firmware revisions; the
//! candidates are tried in a fixed order, and each captures the text between
//! the marker and the next terminator character, which must parse as an
//! IPv4 literal.

use vstd::prelude::*;
use crate::net::{Ipv4Addr, spec_parse_ipv4, parse_ipv4};

verus! {

/// The pattern occurs in `s` starting at position `p`.
pub open spec fn matches_at(s: Seq<char>, p: int, pat: Seq<char>) -> bool {
    0 <= p && p + pat.len() <= s.len() && s.subrange(p, p + pat.len()) == pat
}

/// The first position at or after `p` where the pattern occurs.
pub open spec fn first_match_from(s: Seq<char>, pat: Seq<char>, p: int) -> Option<int>
    decreases s.len() - p,
    when 0 <= p && 1 <= pat.len()
{
    if p + pat.len() > s.len() {
        None
    } else if matches_at(s, p, pat) {
        Some(p)
    } else {
        first_match_from(s, pat, p + 1)
    }
}

pub open spec fn first_match(s: Seq<char>, pat: Seq<char>) -> Option<int> {
    first_match_from(s, pat, 0)
}

/// The first position at or after `p` holding the character `c`.
pub open spec fn first_char_from(s: Seq<char>, c: char, p: int) -> Option<int>
    decreases s.len() - p,
    when 0 <= p
{
    if p >= s.len() {
        None
    } else if s[p] == c {
        Some(p)
    } else {
        first_char_from(s, c, p + 1)
    }
}

/// What one marker candidate captures: the text between the end of the
/// first marker occurrence and the next terminator character.
pub open spec fn capture_after(s: Seq<char>, marker: Seq<char>, term: char) -> Option<Seq<char>> {
    match first_match(s, marker) {
        Some(p) => match first_char_from(s, term, p + marker.len()) {
            Some(e) => Some(s.subrange(p + marker.len(), e)),
            None => None,
        },
        None => None,
    }
}

/// One candidate yields an address when its marker occurs, a terminator
/// follows, and the captured text is an IPv4 literal.
pub open spec fn candidate_extract(s: Seq<char>, marker: Seq<char>, term: char) -> Option<Ipv4Addr> {
    match capture_after(s, marker, term) {
        Some(cap) => spec_parse_ipv4(cap),
        None => None,
    }
}

/// The address the landing page carries: the first candidate marker that
/// yields one, in the fixed candidate order.
pub open spec fn extract_spec(s: Seq<char>) -> Option<Ipv4Addr> {
    match candidate_extract(s, "ss5=\""@, '"') {
        Some(ip) => Some(ip),
        None => candidate_extract(s, "v46ip='"@, '\''),
    }
}

fn match_at(s: &str, pat: &str, p: usize) -> (b: bool)
    requires
        p + pat@.len() <= s@.len(),
    ensures
        b == matches_at(s@, p as int, pat@),
{
    let n = s.unicode_len();
    let m = pat.unicode_len();
    let mut i: usize = 0;
    while i < m
        invariant
            n == s@.len(),
            m == pat@.len(),
            p + m <= s@.len(),
            i <= m,
            forall|j: int| 0 <= j < i ==> s@[p + j] == pat@[j],
        decreases m - i,
    {
        if s.get_char(p + i) != pat.get_char(i) {
            assert(!matches_at(s@, p as int, pat@)) by {
                if matches_at(s@, p as int, pat@) {
                    assert(s@.subrange(p as int, p + pat@.len())[i as int] == pat@[i as int]);
                }
            }
            return false;
        }
        i += 1;
    }
    proof {
        assert(s@.subrange(p as int, p + pat@.len()) =~= pat@);
    }
    true
}

fn find_sub(s: &str, pat: &str) -> (r: Option<usize>)
    requires
        pat@.len() >= 1,
    ensures
        match r {
            Some(p) => first_match(s@, pat@) == Some(p as int)
                && p + pat@.len() <= s@.len(),
            None => first_match(s@, pat@) is None,
        },
{
    let n = s.unicode_len();
    let m = pat.unicode_len();
    if m > n {
        return None;
    }
    let mut p: usize = 0;
    while p <= n - m
        invariant
            n == s@.len(),
            m == pat@.len(),
            1 <= m <= n,
            p <= n,
            first_match(s@, pat@) == first_match_from(s@, pat@, p as int),
        decreases n - p,
    {
        if match_at(s, pat, p) {
            return Some(p);
        }
        p += 1;
    }
    None
}

fn find_char_from(s: &str, c: char, start: usize) -> (r: Option<usize>)
    requires
        start <= s@.len(),
    ensures
        match r {
            Some(e) => first_char_from(s@, c, start as int) == Some(e as int)
                && start <= e < s@.len(),
            None => first_char_from(s@, c, start as int) is None,
        },
{
    let n = s.unicode_len();
    let mut p: usize = start;
    while p < n
        invariant
            n == s@.len(),
            start <= p <= n,
            first_char_from(s@, c, start as int) == first_char_from(s@, c, p as int),
        decreases n - p,
    {
        if s.get_char(p) == c {
            return Some(p);
        }
        p += 1;
    }
    None
}

fn try_candidate(s: &str, marker: &str, term: char) -> (r: Option<Ipv4Addr>)
    requires
        marker@.len() >= 1,
    ensures
        r == candidate_extract(s@, marker@, term),
{
    let n = s.unicode_len();
    let p = match find_sub(s, marker) {
        Some(p) => p,
        None => { return None; },
    };
    let m = marker.unicode_len();
    let start = p + m;
    let e = match find_char_from(s, term, start) {
        Some(e) => e,
        None => { return None; },
    };
    let cap = s.substring_char(start, e);
    parse_ipv4(cap)
}

/// Extracts the client address from the landing page text, trying the two
/// known marker tokens in order; `None` when neither yields an address.
pub fn extract_address(text: &str) -> (r: Option<Ipv4Addr>)
    ensures
        r == extract_spec(text@),
{
    proof {
        reveal_strlit("ss5=\"");
        reveal_strlit("v46ip='");
    }
    match try_candidate(text, "ss5=\"", '"') {
        Some(ip) => Some(ip),
        None => try_candidate(text, "v46ip='", '\''),
    }
}

} // verus!
