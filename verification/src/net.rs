//! The client address as plain values: an IPv4 address held as four octets,
//! with a verified parser and formatter for the dotted-quad literal form the
//! portal pages and URLs use. The accepted strings are exactly the canonical
//! ones: one to three decimal digits per octet, no leading zeros, value at
//! most 255.

use vstd::prelude::*;

verus! {

/// An IPv4 address of the probing client, as four plain octets.
#[derive(Clone, Copy, PartialEq, Eq, Structural, Debug)]
pub struct Ipv4Addr {
    pub a: u8,
    pub b: u8,
    pub c: u8,
    pub d: u8,
}

/// The decimal value of a digit character, or -1 for any other character.
pub open spec fn digit_val(c: char) -> int {
    if c == '0' { 0 }
    else if c == '1' { 1 }
    else if c == '2' { 2 }
    else if c == '3' { 3 }
    else if c == '4' { 4 }
    else if c == '5' { 5 }
    else if c == '6' { 6 }
    else if c == '7' { 7 }
    else if c == '8' { 8 }
    else if c == '9' { 9 }
    else { -1 }
}

pub open spec fn is_digit(c: char) -> bool {
    digit_val(c) >= 0
}

/// The digit character for a value between 0 and 9.
pub open spec fn digit_char(d: int) -> char {
    if d == 0 { '0' }
    else if d == 1 { '1' }
    else if d == 2 { '2' }
    else if d == 3 { '3' }
    else if d == 4 { '4' }
    else if d == 5 { '5' }
    else if d == 6 { '6' }
    else if d == 7 { '7' }
    else if d == 8 { '8' }
    else { '9' }
}

/// Canonical decimal rendering of an octet value: no leading zeros.
pub open spec fn dec_chars(v: int) -> Seq<char> {
    if v >= 100 {
        seq![digit_char(v / 100), digit_char((v / 10) % 10), digit_char(v % 10)]
    } else if v >= 10 {
        seq![digit_char(v / 10), digit_char(v % 10)]
    } else {
        seq![digit_char(v)]
    }
}

/// Canonical dotted-quad rendering of an address.
pub open spec fn ipv4_chars(ip: Ipv4Addr) -> Seq<char> {
    dec_chars(ip.a as int) + seq!['.'] + dec_chars(ip.b as int) + seq!['.']
        + dec_chars(ip.c as int) + seq!['.'] + dec_chars(ip.d as int)
}

/// One octet read at position `p`: up to three digits, greedily, with the
/// canonical-form restrictions (a leading `0` ends the octet at once; a
/// three-digit group must not exceed 255). Yields the value and the position
/// after the last digit consumed.
pub open spec fn octet_at(s: Seq<char>, p: int) -> Option<(int, int)> {
    if 0 <= p < s.len() && is_digit(s[p]) {
        if s[p] == '0' {
            Some((0int, p + 1))
        } else if p + 1 < s.len() && is_digit(s[p + 1]) {
            if p + 2 < s.len() && is_digit(s[p + 2]) {
                let v = 100 * digit_val(s[p]) + 10 * digit_val(s[p + 1]) + digit_val(s[p + 2]);
                if v <= 255 {
                    Some((v, p + 3))
                } else {
                    None
                }
            } else {
                Some((10 * digit_val(s[p]) + digit_val(s[p + 1]), p + 2))
            }
        } else {
            Some((digit_val(s[p]), p + 1))
        }
    } else {
        None
    }
}

pub open spec fn dot_at(s: Seq<char>, p: int) -> bool {
    0 <= p < s.len() && s[p] == '.'
}

/// The dotted-quad grammar: four octets separated by dots, consuming the
/// whole string.
pub open spec fn spec_parse_ipv4(s: Seq<char>) -> Option<Ipv4Addr> {
    match octet_at(s, 0) {
        Some((a, p1)) => if dot_at(s, p1) {
            match octet_at(s, p1 + 1) {
                Some((b, p2)) => if dot_at(s, p2) {
                    match octet_at(s, p2 + 1) {
                        Some((c, p3)) => if dot_at(s, p3) {
                            match octet_at(s, p3 + 1) {
                                Some((d, p4)) => if p4 == s.len() {
                                    Some(Ipv4Addr { a: a as u8, b: b as u8, c: c as u8, d: d as u8 })
                                } else {
                                    None
                                },
                                None => None,
                            }
                        } else {
                            None
                        },
                        None => None,
                    }
                } else {
                    None
                },
                None => None,
            }
        } else {
            None
        },
        None => None,
    }
}

/// The decimal value of a digit character, executable form.
fn digit_of(c: char) -> (r: Option<u8>)
    ensures
        match r {
            Some(d) => is_digit(c) && d as int == digit_val(c),
            None => !is_digit(c),
        },
{
    match c {
        '0' => Some(0),
        '1' => Some(1),
        '2' => Some(2),
        '3' => Some(3),
        '4' => Some(4),
        '5' => Some(5),
        '6' => Some(6),
        '7' => Some(7),
        '8' => Some(8),
        '9' => Some(9),
        _ => None,
    }
}

fn parse_octet(s: &str, p: usize) -> (r: Option<(u8, usize)>)
    ensures
        match r {
            Some((v, q)) => octet_at(s@, p as int) == Some((v as int, q as int))
                && p < q <= s@.len(),
            None => octet_at(s@, p as int) is None,
        },
{
    let n = s.unicode_len();
    if p >= n {
        return None;
    }
    let c0 = s.get_char(p);
    let d0 = match digit_of(c0) {
        Some(d) => d,
        None => { return None; },
    };
    if d0 == 0 {
        return Some((0, p + 1));
    }
    if p + 1 >= n {
        return Some((d0, p + 1));
    }
    let c1 = s.get_char(p + 1);
    let d1 = match digit_of(c1) {
        Some(d) => d,
        None => { return Some((d0, p + 1)); },
    };
    if p + 2 >= n {
        return Some((10 * d0 + d1, p + 2));
    }
    let c2 = s.get_char(p + 2);
    let d2 = match digit_of(c2) {
        Some(d) => d,
        None => { return Some((10 * d0 + d1, p + 2)); },
    };
    let v: u16 = 100 * (d0 as u16) + 10 * (d1 as u16) + (d2 as u16);
    if v <= 255 {
        Some(((v as u8), p + 3))
    } else {
        None
    }
}

/// Parses a dotted-quad IPv4 literal; accepts exactly the canonical forms
/// of `spec_parse_ipv4`.
pub fn parse_ipv4(s: &str) -> (r: Option<Ipv4Addr>)
    ensures
        r == spec_parse_ipv4(s@),
{
    let n = s.unicode_len();
    let (a, p1) = match parse_octet(s, 0) {
        Some(x) => x,
        None => { return None; },
    };
    if !(p1 < n && s.get_char(p1) == '.') {
        return None;
    }
    let (b, p2) = match parse_octet(s, p1 + 1) {
        Some(x) => x,
        None => { return None; },
    };
    if !(p2 < n && s.get_char(p2) == '.') {
        return None;
    }
    let (c, p3) = match parse_octet(s, p2 + 1) {
        Some(x) => x,
        None => { return None; },
    };
    if !(p3 < n && s.get_char(p3) == '.') {
        return None;
    }
    let (d, p4) = match parse_octet(s, p3 + 1) {
        Some(x) => x,
        None => { return None; },
    };
    if p4 == n {
        Some(Ipv4Addr { a, b, c, d })
    } else {
        None
    }
}

/// Reading an octet at the start of its canonical rendering yields the
/// octet back and stops right after it, provided the following character,
/// if any, is not a digit.
proof fn lemma_octet_at_canonical(s: Seq<char>, p: int, v: u8)
    requires
        0 <= p,
        p + dec_chars(v as int).len() <= s.len(),
        s.subrange(p, p + dec_chars(v as int).len()) == dec_chars(v as int),
        p + dec_chars(v as int).len() < s.len() ==> !is_digit(s[p + dec_chars(v as int).len()]),
    ensures
        octet_at(s, p) == Some((v as int, p + dec_chars(v as int).len())),
{
    let d = dec_chars(v as int);
    let sub = s.subrange(p, p + d.len());
    if v >= 100 {
        assert(s[p] == sub[0] && s[p + 1] == sub[1] && s[p + 2] == sub[2]);
        assert(100 * digit_val(s[p]) + 10 * digit_val(s[p + 1]) + digit_val(s[p + 2]) == v);
    } else if v >= 10 {
        assert(s[p] == sub[0] && s[p + 1] == sub[1]);
        assert(10 * digit_val(s[p]) + digit_val(s[p + 1]) == v);
    } else {
        assert(s[p] == sub[0]);
        assert(digit_val(s[p]) == v);
    }
}

/// Parsing the canonical rendering of an address yields the address back:
/// the formatter and the parser agree.
pub proof fn lemma_parse_of_canonical(ip: Ipv4Addr)
    ensures
        spec_parse_ipv4(ipv4_chars(ip)) == Some(ip),
{
    let s = ipv4_chars(ip);
    let da = dec_chars(ip.a as int);
    let db = dec_chars(ip.b as int);
    let dc = dec_chars(ip.c as int);
    let dd = dec_chars(ip.d as int);
    let la = da.len();
    let lb = db.len();
    let lc = dc.len();
    let ld = dd.len();
    assert(s.len() == la + lb + lc + ld + 3);
    assert(s.subrange(0, la as int) =~= da);
    assert(s[la as int] == '.');
    lemma_octet_at_canonical(s, 0, ip.a);
    let p1 = la as int;
    assert(s.subrange(p1 + 1, p1 + 1 + lb as int) =~= db);
    assert(s[p1 + 1 + lb as int] == '.');
    lemma_octet_at_canonical(s, p1 + 1, ip.b);
    let p2 = p1 + 1 + lb as int;
    assert(s.subrange(p2 + 1, p2 + 1 + lc as int) =~= dc);
    assert(s[p2 + 1 + lc as int] == '.');
    lemma_octet_at_canonical(s, p2 + 1, ip.c);
    let p3 = p2 + 1 + lc as int;
    assert(s.subrange(p3 + 1, p3 + 1 + ld as int) =~= dd);
    lemma_octet_at_canonical(s, p3 + 1, ip.d);
    assert(p3 + 1 + ld as int == s.len());
}

fn digit_str(d: u8) -> (r: &'static str)
    requires
        d < 10,
    ensures
        r@ == seq![digit_char(d as int)],
{
    let r: &'static str = match d {
        0 => "0",
        1 => "1",
        2 => "2",
        3 => "3",
        4 => "4",
        5 => "5",
        6 => "6",
        7 => "7",
        8 => "8",
        _ => "9",
    };
    proof {
        reveal_strlit("0");
        reveal_strlit("1");
        reveal_strlit("2");
        reveal_strlit("3");
        reveal_strlit("4");
        reveal_strlit("5");
        reveal_strlit("6");
        reveal_strlit("7");
        reveal_strlit("8");
        reveal_strlit("9");
        assert(r@ =~= seq![digit_char(d as int)]);
    }
    r
}

fn dec_string(v: u8) -> (r: String)
    ensures
        r@ == dec_chars(v as int),
{
    let mut s = String::new();
    if v >= 100 {
        s.append(digit_str(v / 100));
        s.append(digit_str((v / 10) % 10));
        s.append(digit_str(v % 10));
        proof {
            assert(s@ =~= dec_chars(v as int));
        }
    } else if v >= 10 {
        s.append(digit_str(v / 10));
        s.append(digit_str(v % 10));
        proof {
            assert(s@ =~= dec_chars(v as int));
        }
    } else {
        s.append(digit_str(v));
        proof {
            assert(s@ =~= dec_chars(v as int));
        }
    }
    s
}

/// Renders an address in its canonical dotted-quad form.
pub fn ipv4_string(ip: &Ipv4Addr) -> (r: String)
    ensures
        r@ == ipv4_chars(*ip),
{
    proof {
        reveal_strlit(".");
    }
    let mut s = dec_string(ip.a);
    s.append(".");
    let sb = dec_string(ip.b);
    s.append(sb.as_str());
    s.append(".");
    let sc = dec_string(ip.c);
    s.append(sc.as_str());
    s.append(".");
    let sd = dec_string(ip.d);
    s.append(sd.as_str());
    proof {
        assert(s@ =~= ipv4_chars(*ip));
    }
    s
}

} // verus!
