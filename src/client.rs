//! The client: its base URL, the paths and URLs it builds, and the
//! classification of failed responses.

use vstd::prelude::*;
use vstd::string::StringSliceAdditionalSpecFns;
use crate::endpoint::{
    base_url_problem, joined_url, joined_url_with_query, normalize_base_url, normalized_base,
    parse_url, problem_error, parsed_url, validate_base_url, join_url, join_url_with_query,
};
use crate::error::{problem_accepts, problem_decoded_from, Error, ErrorModel};
use crate::json::JsonValue;
use crate::metrics::{MetricsBody, PanelData};
use crate::path::{
    ascii_chars, encode_bytes, lemma_encode_bytes_push, pct_triple, percent_encode_byte,
    relative_path_ok, strip_leading_separator_text, validate_relative_path,
};
use crate::text::{owned, push_char, push_str};

verus! {

/// A client bound to one validated base URL, whose path ends in a separator.
#[derive(Debug)]
pub struct Client {
    base_url: String,
}

/// The segment encoding of `s`, as text.
pub open spec fn encoded(s: &str) -> Seq<char> {
    ascii_chars(encode_bytes(s.spec_bytes()))
}

/// The v2 metrics path for the given (untrusted) segments.
pub open spec fn metrics_path_v2(plant_id: &str, source: &str, unit: &str, interval: &str) -> Seq<
    char,
> {
    "api/v2/metrics/plants/"@ + encoded(plant_id) + "/"@ + encoded(source) + "/"@ + encoded(unit)
        + "-"@ + encoded(interval)
}

/// The v3 metrics path for the given (untrusted) segments.
pub open spec fn metrics_path_v3(plant_id: &str, source: &str, unit: &str, interval: &str) -> Seq<
    char,
> {
    "api/v3/plants/"@ + encoded(plant_id) + "/metrics/"@ + encoded(source) + "/"@ + encoded(unit)
        + "-"@ + encoded(interval)
}

/// The values joined with commas.
pub open spec fn csv(values: Seq<String>) -> Seq<char>
    decreases values.len(),
{
    if values.len() == 0 {
        Seq::empty()
    } else if values.len() == 1 {
        values[0]@
    } else {
        csv(values.drop_last()) + ","@ + values.last()@
    }
}

/// The title of a problem document, or the generic label where it has none.
pub open spec fn problem_title(m: ErrorModel) -> Seq<char> {
    match m.title {
        Some(t) => t@,
        None => "API Error"@,
    }
}

/// The error for a non-success `status` whose body parsed as `body` (`None`
/// where it is not JSON): a problem document gives `ApiProblem` with its title
/// (or the generic label) and detail; anything else gives `Api`, which carries
/// the status and a fixed message, never the body.
pub open spec fn classified(status: u16, body: Option<JsonValue>, e: Error) -> bool {
    if body is Some && problem_accepts(body->0) {
        e matches Error::ApiProblem { status: s, title, detail, error } && s == status
            && problem_decoded_from(*error, body->0) && title@ == problem_title(*error) && detail
            == error.detail
    } else {
        e matches Error::Api { status: s, message } && s == status && message@
            == "upstream error body omitted"@
    }
}

/// The samples, plant and date of a panel intraday series that has its data.
#[derive(Debug)]
pub struct PanelIntradayMetrics {
    pub data: Vec<PanelData>,
    pub plant_id: String,
    pub date: String,
}

impl Client {
    /// The normalized base URL.
    pub closed spec fn base(&self) -> Seq<char> {
        self.base_url@
    }

    /// The base URL ends in a separator, so joins keep its path prefix.
    pub open spec fn wf(&self) -> bool {
        self.base().len() > 0 && self.base().last() == '/'
    }

    /// Builds a client on a base URL. The URL must parse, carry no query or
    /// fragment, have a host, and use https (http only towards `localhost` or a
    /// loopback address); its path is made to end in a separator.
    pub fn new(base_url: &str) -> (r: Result<Client, Error>)
        ensures
            parsed_url(base_url@) is None ==> r matches Err(Error::Url(_)),
            parsed_url(base_url@) is Some ==> {
                let p = parsed_url(base_url@)->0;
                &&& r is Ok <==> base_url_problem(p) is None
                &&& r is Ok ==> r->Ok_0.base() == normalized_base(p) && r->Ok_0.wf()
                &&& r is Err ==> problem_error(p, base_url_problem(p)->0, r->Err_0)
            },
    {
        let parts = match parse_url(base_url) {
            Ok(p) => p,
            Err(e) => {
                return Err(Error::Url(e));
            },
        };
        validate_base_url(&parts)?;
        Ok(Client { base_url: normalize_base_url(&parts) })
    }

    /// The URL of a relative path under the base URL. The path is refused with
    /// `InvalidPath`, naming it, when it fails `relative_path_ok` or cannot be
    /// joined; otherwise it is joined, without its leading separator, onto the
    /// base URL.
    pub fn url(&self, path: &str) -> (r: Result<String, Error>)
        ensures
            !relative_path_ok(path.spec_bytes()) ==> (r matches Err(Error::InvalidPath(p)) && p@
                == path@),
            relative_path_ok(path.spec_bytes()) ==> {
                let rel = strip_leading_separator_text(path@);
                &&& r is Ok <==> joined_url(self.base(), rel) is Some
                &&& r is Ok ==> joined_url(self.base(), rel) == Some(r->Ok_0@)
                &&& r is Err ==> (r matches Err(Error::InvalidPath(p)) && p@ == path@)
            },
    {
        match validate_relative_path(path) {
            None => Err(Error::InvalidPath(owned(path))),
            Some(rel) => match join_url(self.base_url.as_str(), rel) {
                Ok(u) => Ok(u),
                Err(_) => Err(Error::InvalidPath(owned(path))),
            },
        }
    }

    /// As `url`, with the query pairs appended in order.
    pub fn url_with_query(&self, path: &str, query: &Vec<(String, String)>) -> (r: Result<
        String,
        Error,
    >)
        ensures
            !relative_path_ok(path.spec_bytes()) ==> (r matches Err(Error::InvalidPath(p)) && p@
                == path@),
            relative_path_ok(path.spec_bytes()) ==> {
                let rel = strip_leading_separator_text(path@);
                &&& r is Ok <==> joined_url_with_query(self.base(), rel, query@) is Some
                &&& r is Ok ==> joined_url_with_query(self.base(), rel, query@) == Some(r->Ok_0@)
                &&& r is Err ==> (r matches Err(Error::InvalidPath(p)) && p@ == path@)
            },
    {
        match validate_relative_path(path) {
            None => Err(Error::InvalidPath(owned(path))),
            Some(rel) => match join_url_with_query(self.base_url.as_str(), rel, query) {
                Ok(u) => Ok(u),
                Err(_) => Err(Error::InvalidPath(owned(path))),
            },
        }
    }

    /// Percent-encodes every byte of `segment` that is not an ASCII letter, digit,
    /// `-`, `_` or `~`, so the result can stand as one path segment: it holds no
    /// separator and no `.`.
    pub fn encode_path_segment(segment: &str) -> (r: String)
        ensures
            r@ == encoded(segment),
    {
        let bytes = segment.as_bytes();
        let mut out = String::new();
        let mut i: usize = 0;
        while i < bytes.len()
            invariant
                bytes@ == segment.spec_bytes(),
                i <= bytes@.len(),
                out@ == ascii_chars(encode_bytes(bytes@.take(i as int))),
            decreases bytes@.len() - i,
        {
            let b = bytes[i];
            proof {
                assert(bytes@.take(i + 1) =~= bytes@.take(i as int).push(b));
                lemma_encode_bytes_push(bytes@.take(i as int), b);
            }
            if (48 <= b && b <= 57) || (65 <= b && b <= 90) || (97 <= b && b <= 122) || b == 45
                || b == 95 || b == 126 {
                push_char(&mut out, b as char);
                assert(ascii_chars(encode_bytes(bytes@.take(i + 1))) =~= ascii_chars(
                    encode_bytes(bytes@.take(i as int)),
                ).push(b as char));
            } else {
                let t = percent_encode_byte(b);
                push_str(&mut out, t);
                assert(ascii_chars(encode_bytes(bytes@.take(i + 1))) =~= ascii_chars(
                    encode_bytes(bytes@.take(i as int)),
                ) + ascii_chars(pct_triple(b)));
            }
            i = i + 1;
        }
        assert(bytes@.take(bytes@.len() as int) =~= bytes@);
        out
    }

    /// The v2 metrics path; every segment is encoded first.
    pub fn build_metrics_path_v2(plant_id: &str, source: &str, unit: &str, interval: &str) -> (r:
        String)
        ensures
            r@ == metrics_path_v2(plant_id, source, unit, interval),
    {
        let mut r = owned("api/v2/metrics/plants/");
        push_str(&mut r, Self::encode_path_segment(plant_id).as_str());
        push_str(&mut r, "/");
        push_str(&mut r, Self::encode_path_segment(source).as_str());
        push_str(&mut r, "/");
        push_str(&mut r, Self::encode_path_segment(unit).as_str());
        push_str(&mut r, "-");
        push_str(&mut r, Self::encode_path_segment(interval).as_str());
        r
    }

    /// The v3 metrics path; every segment is encoded first.
    pub fn build_metrics_path_v3(plant_id: &str, source: &str, unit: &str, interval: &str) -> (r:
        String)
        ensures
            r@ == metrics_path_v3(plant_id, source, unit, interval),
    {
        let mut r = owned("api/v3/plants/");
        push_str(&mut r, Self::encode_path_segment(plant_id).as_str());
        push_str(&mut r, "/metrics/");
        push_str(&mut r, Self::encode_path_segment(source).as_str());
        push_str(&mut r, "/");
        push_str(&mut r, Self::encode_path_segment(unit).as_str());
        push_str(&mut r, "-");
        push_str(&mut r, Self::encode_path_segment(interval).as_str());
        r
    }

    /// Appends `fields=a,b,...` to the query when a non-empty field list is given.
    pub fn push_fields_csv_query(q: &mut Vec<(String, String)>, fields: Option<&[String]>)
        ensures
            match fields {
                Some(fs) if fs@.len() > 0 => final(q)@.len() == old(q)@.len() + 1
                    && final(q)@.take(old(q)@.len() as int) == old(q)@
                    && final(q)@.last().0@ == "fields"@ && final(q)@.last().1@ == csv(fs@),
                _ => final(q)@ == old(q)@,
            },
    {
        if let Some(fs) = fields {
            if fs.len() > 0 {
                let mut joined = fs[0].clone();
                let mut i: usize = 1;
                while i < fs.len()
                    invariant
                        1 <= i <= fs@.len(),
                        joined@ == csv(fs@.take(i as int)),
                    decreases fs@.len() - i,
                {
                    proof {
                        let t = fs@.take(i + 1);
                        assert(t.drop_last() =~= fs@.take(i as int));
                        assert(t.last() == fs@[i as int]);
                    }
                    push_str(&mut joined, ",");
                    push_str(&mut joined, fs[i].as_str());
                    i = i + 1;
                }
                proof {
                    assert(fs@.take(1).len() == 1);
                    assert(fs@.take(fs@.len() as int) =~= fs@);
                }
                q.push((owned("fields"), joined));
                assert(q@.take(old(q)@.len() as int) =~= old(q)@);
            }
        }
    }

    /// Classifies a non-success response (see `classified`).
    pub fn api_error(status: u16, body: Option<JsonValue>) -> (e: Error)
        ensures
            classified(status, body, e),
    {
        if let Some(v) = body {
            if let Ok(problem) = ErrorModel::decode(v) {
                let title = match &problem.title {
                    Some(t) => t.clone(),
                    None => owned("API Error"),
                };
                let detail = match &problem.detail {
                    Some(d) => Some(d.clone()),
                    None => None,
                };
                return Error::ApiProblem { status, title, detail, error: Box::new(problem) };
            }
        }
        Error::Api { status, message: owned("upstream error body omitted") }
    }

    /// The panel-metrics shortcut: the payload must be `PanelIntraday` and carry
    /// its `data`; otherwise the call fails with a status-500 `Api` error that
    /// says which.
    pub fn panel_metrics(body: MetricsBody) -> (r: Result<PanelIntradayMetrics, Error>)
        ensures
            match body {
                MetricsBody::PanelIntraday(b) => match b.data {
                    Some(d) => r matches Ok(m) && m.data == d && m.plant_id == b.plant_id
                        && m.date == b.date,
                    None => r matches Err(Error::Api { status, message }) && status == 500
                        && message@ == "missing metrics data in panel metrics response"@,
                },
                _ => r matches Err(Error::Api { status, message }) && status == 500 && message@
                    == "unexpected metrics body variant"@,
            },
    {
        match body {
            MetricsBody::PanelIntraday(b) => match b.data {
                Some(data) => Ok(PanelIntradayMetrics { data, plant_id: b.plant_id, date: b.date }),
                None => Err(
                    Error::Api {
                        status: 500,
                        message: owned("missing metrics data in panel metrics response"),
                    },
                ),
            },
            _ => Err(Error::Api { status: 500, message: owned("unexpected metrics body variant") }),
        }
    }
}

} // verus!
