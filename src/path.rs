//! Building request paths from untrusted segment values.

use vstd::prelude::*;
use vstd::string::StringSliceAdditionalSpecFns;

verus! {

/// Bytes that pass through segment encoding unchanged.
pub open spec fn is_unreserved(b: u8) -> bool {
    (48 <= b <= 57) || (65 <= b <= 90) || (97 <= b <= 122) || b == 45 || b == 95 || b == 126
}

/// Upper-case hexadecimal digit for a value below 16.
pub open spec fn hex_digit_upper(n: u8) -> u8 {
    if n < 10 { (48 + n) as u8 } else { (55 + n) as u8 }
}

/// `%` followed by the two upper-case hex digits of `b`.
pub open spec fn pct_triple(b: u8) -> Seq<u8> {
    seq![37u8, hex_digit_upper(b / 16), hex_digit_upper(b % 16)]
}

/// What segment encoding makes of one byte.
pub open spec fn encoded_byte(b: u8) -> Seq<u8> {
    if is_unreserved(b) { seq![b] } else { pct_triple(b) }
}

/// Segment encoding of a byte string.
pub open spec fn encode_bytes(s: Seq<u8>) -> Seq<u8>
    decreases s.len(),
{
    if s.len() == 0 {
        Seq::empty()
    } else {
        encoded_byte(s[0]) + encode_bytes(s.drop_first())
    }
}

/// Value of an ASCII hex digit of either case.
pub open spec fn hex_value(b: u8) -> Option<u8> {
    if 48 <= b <= 57 {
        Some((b - 48) as u8)
    } else if 65 <= b <= 70 {
        Some((b - 55) as u8)
    } else if 97 <= b <= 102 {
        Some((b - 87) as u8)
    } else {
        None
    }
}

/// One pass of percent-decoding: `%` and two hex digits of either case stand
/// for one byte; any other byte, a lone `%` included, stands for itself.
pub open spec fn pct_decode(s: Seq<u8>) -> Seq<u8>
    decreases s.len(),
{
    if s.len() == 0 {
        Seq::empty()
    } else if s[0] == 37 && s.len() >= 3 && hex_value(s[1]) is Some && hex_value(s[2]) is Some {
        seq![(hex_value(s[1])->0 * 16 + hex_value(s[2])->0) as u8] + pct_decode(
            s.subrange(3, s.len() as int),
        )
    } else {
        seq![s[0]] + pct_decode(s.drop_first())
    }
}

/// A segment is refused when, decoded once, it is `.` or `..` or holds a
/// forward or backward slash.
pub open spec fn segment_rejected(seg: Seq<u8>) -> bool {
    let d = pct_decode(seg);
    d == seq![46u8] || d == seq![46u8, 46u8] || d.contains(47u8) || d.contains(92u8)
}

/// Scans `p` from `i`, where the current segment began at `seg_start`, and holds
/// when no segment met from there on is refused. Segments are separated by `/`.
pub open spec fn segments_ok_from(p: Seq<u8>, seg_start: int, i: int) -> bool
    decreases p.len() - i,
{
    if i >= p.len() {
        !segment_rejected(p.subrange(seg_start, p.len() as int))
    } else if p[i] == 47 {
        !segment_rejected(p.subrange(seg_start, i)) && segments_ok_from(p, i + 1, i + 1)
    } else {
        segments_ok_from(p, seg_start, i + 1)
    }
}

/// `p[a..b]` is one whole segment of `p`.
pub open spec fn is_segment(p: Seq<u8>, a: int, b: int) -> bool {
    &&& 0 <= a <= b <= p.len()
    &&& (a == 0 || p[a - 1] == 47)
    &&& (b == p.len() || p[b] == 47)
    &&& forall|k: int| a <= k < b ==> p[k] != 47
}

/// `p` holds the scheme separator `://` at position `i`.
pub open spec fn scheme_separator_at(p: Seq<u8>, i: int) -> bool {
    0 <= i && i + 3 <= p.len() && p[i] == 58 && p[i + 1] == 47 && p[i + 2] == 47
}

/// `p` holds the scheme separator `://`.
pub open spec fn has_scheme_separator(p: Seq<u8>) -> bool {
    exists|i: int| scheme_separator_at(p, i)
}

/// `p` without one leading separator, if it has one.
pub open spec fn strip_leading_separator(p: Seq<u8>) -> Seq<u8> {
    if p.len() > 0 && p[0] == 47 {
        p.drop_first()
    } else {
        p
    }
}

/// A relative path that may be joined onto the base URL: after one leading
/// separator is stripped it holds no `://`, does not start with a second
/// separator, and none of its segments is refused.
pub open spec fn relative_path_ok(p: Seq<u8>) -> bool {
    let r = strip_leading_separator(p);
    &&& !has_scheme_separator(r)
    &&& !(r.len() > 0 && r[0] == 47)
    &&& segments_ok_from(r, 0, 0)
}

/// The text of a path without one leading separator, if it has one.
pub open spec fn strip_leading_separator_text(p: Seq<char>) -> Seq<char> {
    if p.len() > 0 && p[0] == '/' {
        p.drop_first()
    } else {
        p
    }
}

/// The characters of an ASCII byte string.
pub open spec fn ascii_chars(s: Seq<u8>) -> Seq<char> {
    s.map_values(|b: u8| b as char)
}

/// Relies on percent_encoding::percent_encode_byte: `%` and the two upper-case
/// hex digits of the byte.
#[verifier::external_body]
pub(crate) fn percent_encode_byte(b: u8) -> (r: &'static str)
    ensures
        r@ == ascii_chars(pct_triple(b)),
{
    percent_encoding::percent_encode_byte(b)
}

pub(crate) proof fn lemma_encode_bytes_push(s: Seq<u8>, b: u8)
    ensures
        encode_bytes(s.push(b)) == encode_bytes(s) + encoded_byte(b),
    decreases s.len(),
{
    if s.len() == 0 {
        assert(s.push(b).drop_first() =~= Seq::<u8>::empty());
        assert(encode_bytes(Seq::<u8>::empty()) =~= Seq::<u8>::empty());
        assert(encode_bytes(s.push(b)) =~= encoded_byte(b));
    } else {
        assert(s.push(b).drop_first() =~= s.drop_first().push(b));
        lemma_encode_bytes_push(s.drop_first(), b);
        assert(encode_bytes(s.push(b)) =~= encode_bytes(s) + encoded_byte(b));
    }
}

/// Relies on percent_encoding::percent_decode: `%` followed by two hex digits
/// (either case) becomes that byte, every other byte is kept.
#[verifier::external_body]
fn percent_decode_bytes(input: &[u8]) -> (r: Vec<u8>)
    ensures
        r@ == pct_decode(input@),
{
    percent_encoding::percent_decode(input).collect()
}

/// Relies on str::strip_prefix: the text after a leading `/`, if there is one.
#[verifier::external_body]
fn strip_separator(s: &str) -> (r: Option<&str>)
    ensures
        r is Some <==> (s.spec_bytes().len() > 0 && s.spec_bytes()[0] == 47),
        r is Some <==> (s@.len() > 0 && s@[0] == '/'),
        r is Some ==> r->0.spec_bytes() == s.spec_bytes().drop_first(),
        r is Some ==> r->0@ == s@.drop_first(),
{
    s.strip_prefix('/')
}

fn contains_byte(s: &Vec<u8>, b: u8) -> (r: bool)
    ensures
        r == s@.contains(b),
{
    let mut i: usize = 0;
    while i < s.len()
        invariant
            i <= s@.len(),
            forall|k: int| 0 <= k < i ==> s@[k] != b,
        decreases s@.len() - i,
    {
        if s[i] == b {
            return true;
        }
        i = i + 1;
    }
    false
}

/// Whether one segment is refused (see `segment_rejected`).
pub fn is_segment_rejected(seg: &[u8]) -> (r: bool)
    ensures
        r == segment_rejected(seg@),
{
    let d = percent_decode_bytes(seg);
    let dots = (d.len() == 1 && d[0] == 46) || (d.len() == 2 && d[0] == 46 && d[1] == 46);
    assert(dots <==> (d@ == seq![46u8] || d@ == seq![46u8, 46u8])) by {
        if d@.len() == 1 && d@[0] == 46 {
            assert(d@ =~= seq![46u8]);
        }
        if d@.len() == 2 && d@[0] == 46 && d@[1] == 46 {
            assert(d@ =~= seq![46u8, 46u8]);
        }
    }
    dots || contains_byte(&d, 47) || contains_byte(&d, 92)
}

fn has_scheme_separator_bytes(p: &[u8]) -> (r: bool)
    ensures
        r == has_scheme_separator(p@),
{
    let mut i: usize = 0;
    while i < p.len() && p.len() - i >= 3
        invariant
            forall|k: int| 0 <= k < i ==> !scheme_separator_at(p@, k),
        decreases p@.len() - i,
    {
        if p[i] == 58 && p[i + 1] == 47 && p[i + 2] == 47 {
            assert(scheme_separator_at(p@, i as int));
            return true;
        }
        i = i + 1;
    }
    assert forall|k: int| !scheme_separator_at(p@, k) by {
        if 0 <= k < i {
        }
    }
    false
}

/// Whether every segment of `p` is acceptable.
fn segments_ok(p: &[u8]) -> (r: bool)
    ensures
        r == segments_ok_from(p@, 0, 0),
{
    let mut seg_start: usize = 0;
    let mut i: usize = 0;
    while i < p.len()
        invariant
            seg_start <= i <= p@.len(),
            segments_ok_from(p@, 0, 0) == segments_ok_from(p@, seg_start as int, i as int),
        decreases p@.len() - i,
    {
        if p[i] == 47 {
            if is_segment_rejected(&p[seg_start..i]) {
                return false;
            }
            seg_start = i + 1;
        }
        i = i + 1;
    }
    !is_segment_rejected(&p[seg_start..p.len()])
}

/// Checks a relative path and returns it without its leading separator, or
/// `None` where it is refused (see `relative_path_ok`).
pub fn validate_relative_path(path: &str) -> (r: Option<&str>)
    ensures
        r is Some <==> relative_path_ok(path.spec_bytes()),
        r is Some ==> r->0.spec_bytes() == strip_leading_separator(path.spec_bytes()),
        r is Some ==> r->0@ == strip_leading_separator_text(path@),
{
    let rest = match strip_separator(path) {
        Some(r) => r,
        None => path,
    };
    let bytes = rest.as_bytes();
    if has_scheme_separator_bytes(bytes) {
        return None;
    }
    if bytes.len() > 0 && bytes[0] == 47 {
        return None;
    }
    if !segments_ok(bytes) {
        return None;
    }
    Some(rest)
}

proof fn lemma_pct_triple_decodes(b: u8)
    ensures
        hex_value(pct_triple(b)[1]) is Some,
        hex_value(pct_triple(b)[2]) is Some,
        hex_value(pct_triple(b)[1])->0 * 16 + hex_value(pct_triple(b)[2])->0 == b,
{
}

/// Decoding once gives back exactly the bytes that were encoded.
pub proof fn lemma_decode_encode_round_trip(s: Seq<u8>)
    ensures
        pct_decode(encode_bytes(s)) == s,
    decreases s.len(),
{
    if s.len() > 0 {
        let rest = encode_bytes(s.drop_first());
        lemma_decode_encode_round_trip(s.drop_first());
        let e = encode_bytes(s);
        if is_unreserved(s[0]) {
            assert(e =~= seq![s[0]] + rest);
            assert(e.drop_first() =~= rest);
        } else {
            lemma_pct_triple_decodes(s[0]);
            assert(e =~= pct_triple(s[0]) + rest);
            assert(e.subrange(3, e.len() as int) =~= rest);
        }
        assert(pct_decode(e) =~= s);
    }
}

/// An encoded segment holds no `.`, `/` or `\`: undecoded it is never a
/// traversal token and never more than one segment.
pub proof fn lemma_encoded_has_no_dot_or_separator(s: Seq<u8>)
    ensures
        !encode_bytes(s).contains(46u8),
        !encode_bytes(s).contains(47u8),
        !encode_bytes(s).contains(92u8),
    decreases s.len(),
{
    if s.len() > 0 {
        lemma_encoded_has_no_dot_or_separator(s.drop_first());
        let e = encode_bytes(s);
        let head = encoded_byte(s[0]);
        let rest = encode_bytes(s.drop_first());
        assert(e == head + rest);
        assert forall|k: int| 0 <= k < e.len() implies e[k] != 46u8 && e[k] != 47u8 && e[k]
            != 92u8 by {
            if k >= head.len() {
                assert(e[k] == rest[k - head.len()]);
            }
        }
    }
}

/// An encoded segment is refused exactly when the raw value is `.` or `..` or
/// holds a forward or backward slash: decoded once it is the raw value again.
pub proof fn lemma_encoded_segment_refused_iff(s: Seq<u8>)
    ensures
        segment_rejected(encode_bytes(s)) <==> (s == seq![46u8] || s == seq![46u8, 46u8]
            || s.contains(47u8) || s.contains(92u8)),
{
    lemma_decode_encode_round_trip(s);
}

proof fn lemma_scan_covers_segment(p: Seq<u8>, s: int, i: int, a: int, b: int)
    requires
        segments_ok_from(p, s, i),
        0 <= s <= i <= p.len(),
        is_segment(p, a, b),
        (a == s && i <= b) || i < a,
    ensures
        !segment_rejected(p.subrange(a, b)),
    decreases p.len() - i,
{
    if i < p.len() {
        if p[i] == 47 {
            if a == s {
                assert(b == i);
            } else {
                lemma_scan_covers_segment(p, i + 1, i + 1, a, b);
            }
        } else {
            if a != s && a == i + 1 {
                assert(p[a - 1] == 47);
            }
            lemma_scan_covers_segment(p, s, i + 1, a, b);
        }
    }
}

/// A path with a segment that, decoded once (hex digits of either case), is
/// `.` or `..` or holds a forward or backward slash is refused.
pub proof fn lemma_refused_segment_refuses_path(p: Seq<u8>, a: int, b: int)
    requires
        is_segment(strip_leading_separator(p), a, b),
        segment_rejected(strip_leading_separator(p).subrange(a, b)),
    ensures
        !relative_path_ok(p),
{
    let r = strip_leading_separator(p);
    if segments_ok_from(r, 0, 0) {
        lemma_scan_covers_segment(r, 0, 0, a, b);
    }
}

} // verus!
