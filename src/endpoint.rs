//! The base URL: parsing, the checks made when a client is built, and joining
//! validated relative paths onto it.

use vstd::prelude::*;
use crate::error::Error;
use crate::text::{concat, owned, text_eq};

verus! {

#[verifier::external_type_specification]
#[verifier::external_body]
pub struct ExParseError(url::ParseError);

/// The host of a parsed URL.
#[derive(Debug)]
pub enum UrlHost {
    Domain(String),
    /// An IPv4 address as its 32-bit value.
    Ipv4(u32),
    /// An IPv6 address as its 128-bit value.
    Ipv6(u128),
}

/// What the client reads of a parsed URL.
#[derive(Debug)]
pub struct ParsedUrl {
    pub serialization: String,
    pub scheme: String,
    pub host: Option<UrlHost>,
    pub path: String,
    pub query: Option<String>,
    pub fragment: Option<String>,
}

/// What url::Url::parse makes of a string.
pub uninterp spec fn parsed_url(s: Seq<char>) -> Option<ParsedUrl>;

/// Relies on url::Url::parse, and reads the parsed URL's serialization, scheme,
/// host, path, query and fragment.
#[verifier::external_body]
pub(crate) fn parse_url(s: &str) -> (r: Result<ParsedUrl, url::ParseError>)
    ensures
        r is Ok <==> parsed_url(s@) is Some,
        r is Ok ==> parsed_url(s@) == Some(r->Ok_0),
{
    let u = url::Url::parse(s)?;
    let host = match u.host() {
        None => None,
        Some(url::Host::Domain(d)) => Some(UrlHost::Domain(d.to_string())),
        Some(url::Host::Ipv4(a)) => Some(UrlHost::Ipv4(u32::from(a))),
        Some(url::Host::Ipv6(a)) => Some(UrlHost::Ipv6(u128::from(a))),
    };
    let query = u.query().map(str::to_string);
    let fragment = u.fragment().map(str::to_string);
    let (serialization, scheme) = (u.as_str().to_string(), u.scheme().to_string());
    Ok(ParsedUrl { serialization, scheme, host, path: u.path().to_string(), query, fragment })
}

/// What url::Url::join makes of a relative reference against a base URL.
pub uninterp spec fn joined_url(base: Seq<char>, rel: Seq<char>) -> Option<Seq<char>>;

/// Relies on url::Url::join, applied to the base URL parsed back from its
/// serialization.
#[verifier::external_body]
pub(crate) fn join_url(base: &str, rel: &str) -> (r: Result<String, url::ParseError>)
    ensures
        r is Ok <==> joined_url(base@, rel@) is Some,
        r is Ok ==> joined_url(base@, rel@) == Some(r->Ok_0@),
{
    Ok(url::Url::parse(base)?.join(rel)?.into())
}

/// What url::Url::join followed by form-encoded query pairs, in order, makes of
/// a relative reference against a base URL.
pub uninterp spec fn joined_url_with_query(
    base: Seq<char>,
    rel: Seq<char>,
    query: Seq<(String, String)>,
) -> Option<Seq<char>>;

/// Relies on url::Url::join, applied to the base URL parsed back from its
/// serialization, and on the query serializer's extend_pairs, which appends
/// the pairs in order.
#[verifier::external_body]
pub(crate) fn join_url_with_query(base: &str, rel: &str, query: &Vec<(String, String)>) -> (r: Result<
    String,
    url::ParseError,
>)
    ensures
        r is Ok <==> joined_url_with_query(base@, rel@, query@) is Some,
        r is Ok ==> joined_url_with_query(base@, rel@, query@) == Some(r->Ok_0@),
{
    let mut u = url::Url::parse(base)?.join(rel)?;
    u.query_pairs_mut().extend_pairs(query.iter());
    Ok(u.into())
}

/// ASCII lower case of one character.
pub open spec fn ascii_lower(c: char) -> char {
    if 'A' <= c <= 'Z' {
        ((c as u32) + 32) as char
    } else {
        c
    }
}

/// `a` and `b` are equal when ASCII letters are compared without case.
pub open spec fn eq_ignore_ascii_case(a: Seq<char>, b: Seq<char>) -> bool {
    a.len() == b.len() && forall|i: int| 0 <= i < a.len() ==> ascii_lower(a[i]) == ascii_lower(b[i])
}

/// The host is `localhost` (any case) or a loopback address (127.0.0.0/8, ::1).
pub open spec fn host_is_loopback(h: Option<UrlHost>) -> bool {
    match h {
        Some(UrlHost::Domain(d)) => eq_ignore_ascii_case(d@, "localhost"@),
        Some(UrlHost::Ipv4(a)) => a / 0x100_0000 == 127,
        Some(UrlHost::Ipv6(a)) => a == 1,
        None => false,
    }
}

/// The host is absent or empty.
pub open spec fn host_missing(h: Option<UrlHost>) -> bool {
    match h {
        Some(UrlHost::Domain(d)) => d@.len() == 0,
        Some(_) => false,
        None => true,
    }
}

/// Why a parsed base URL is refused.
#[derive(Clone, Copy, Debug, PartialEq, Eq)]
pub enum BaseUrlProblem {
    QueryOrFragment,
    NoHost,
    Insecure,
}

/// The first check that a parsed base URL fails, if any: no query or fragment,
/// a host, and https (or http towards a loopback host).
pub open spec fn base_url_problem(p: ParsedUrl) -> Option<BaseUrlProblem> {
    if p.query is Some || p.fragment is Some {
        Some(BaseUrlProblem::QueryOrFragment)
    } else if host_missing(p.host) {
        Some(BaseUrlProblem::NoHost)
    } else if p.scheme@ == "https"@ || (p.scheme@ == "http"@ && host_is_loopback(p.host)) {
        None
    } else {
        Some(BaseUrlProblem::Insecure)
    }
}

/// The error for each problem.
pub open spec fn problem_error(p: ParsedUrl, problem: BaseUrlProblem, e: Error) -> bool {
    match problem {
        BaseUrlProblem::QueryOrFragment => e is InvalidPath,
        BaseUrlProblem::NoHost => e is InvalidPath,
        BaseUrlProblem::Insecure => e matches Error::InsecureBaseUrl(u) && u@ == p.serialization@,
    }
}

fn is_localhost(d: &str) -> (r: bool)
    ensures
        r == eq_ignore_ascii_case(d@, "localhost"@),
{
    let target = "localhost";
    proof {
        reveal_strlit("localhost");
    }
    let n = vstd::string::StrSliceExecFns::unicode_len(d);
    if n != 9 {
        return false;
    }
    let mut i: usize = 0;
    while i < 9
        invariant
            d@.len() == 9,
            target@ == "localhost"@,
            target@.len() == 9,
            i <= 9,
            forall|k: int| 0 <= k < i ==> ascii_lower(d@[k]) == ascii_lower(target@[k]),
        decreases 9 - i,
    {
        proof {
            reveal_strlit("localhost");
        }
        let c = vstd::string::StrSliceExecFns::get_char(d, i);
        let t = vstd::string::StrSliceExecFns::get_char(target, i);
        let lc = if 'A' <= c && c <= 'Z' { ((c as u32) + 32) as u8 as char } else { c };
        assert(lc == ascii_lower(c)) by {
            if 'A' <= c <= 'Z' {
                assert(((c as u32) + 32) as u8 as char == ((c as u32) + 32) as char);
            }
        }
        if lc != t {
            assert(ascii_lower(t) == t);
            return false;
        }
        assert(ascii_lower(t) == t);
        i = i + 1;
    }
    true
}

/// Whether the host is `localhost` or a loopback address.
pub fn is_loopback_host(h: &Option<UrlHost>) -> (r: bool)
    ensures
        r == host_is_loopback(*h),
{
    match h {
        Some(UrlHost::Domain(d)) => is_localhost(d.as_str()),
        Some(UrlHost::Ipv4(a)) => *a / 0x100_0000 == 127,
        Some(UrlHost::Ipv6(a)) => *a == 1,
        None => false,
    }
}

/// Checks a parsed base URL before a client is built on it.
pub fn validate_base_url(p: &ParsedUrl) -> (r: Result<(), Error>)
    ensures
        r is Ok <==> base_url_problem(*p) is None,
        r is Err ==> problem_error(*p, base_url_problem(*p)->0, r->Err_0),
{
    if p.query.is_some() || p.fragment.is_some() {
        return Err(Error::InvalidPath(owned("base_url must not include query or fragment")));
    }
    let no_host = match &p.host {
        Some(UrlHost::Domain(d)) => vstd::string::StrSliceExecFns::unicode_len(d.as_str()) == 0,
        Some(_) => false,
        None => true,
    };
    if no_host {
        return Err(Error::InvalidPath(owned("base_url must include host")));
    }
    if text_eq(p.scheme.as_str(), "https") {
        return Ok(());
    }
    if text_eq(p.scheme.as_str(), "http") && is_loopback_host(&p.host) {
        return Ok(());
    }
    Err(Error::InsecureBaseUrl(p.serialization.clone()))
}

/// The base URL's serialization, with a separator added where it does not
/// already end in one, so that a configured path prefix is kept by joins. (A
/// base URL without query or fragment ends with its path.)
pub open spec fn normalized_base(p: ParsedUrl) -> Seq<char> {
    if p.serialization@.len() > 0 && p.serialization@.last() == '/' {
        p.serialization@
    } else {
        p.serialization@.push('/')
    }
}

/// Normalizes a base URL so that it ends in a separator.
pub fn normalize_base_url(p: &ParsedUrl) -> (r: String)
    ensures
        r@ == normalized_base(*p),
        r@.len() > 0 && r@.last() == '/',
{
    let n = vstd::string::StrSliceExecFns::unicode_len(p.serialization.as_str());
    if n > 0 && vstd::string::StrSliceExecFns::get_char(p.serialization.as_str(), n - 1) == '/' {
        p.serialization.clone()
    } else {
        let r = concat(p.serialization.as_str(), "/");
        proof {
            reveal_strlit("/");
        }
        assert(r@ =~= p.serialization@.push('/'));
        r
    }
}

} // verus!
