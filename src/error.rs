//! The library's error type and the structured problem document.

use vstd::prelude::*;
use crate::json::{
    elements, field_of, optional_int, optional_ok, optional_text, take_field, DecodeError,
    FieldKind, JsonValue,
};
use crate::metrics::{opt_int_is, opt_text_is};

verus! {

/// The failures a call can end in.
#[derive(Debug)]
pub enum Error {
    /// The transport failed (connection, timeout); carries its description.
    Request(String),
    /// A body did not have the expected shape.
    Serialization(DecodeError),
    /// A non-success status whose body is not a problem document; the body is
    /// deliberately left out.
    Api { status: u16, message: String },
    /// A non-success status with a problem document.
    ApiProblem { status: u16, title: String, detail: Option<String>, error: Box<ErrorModel> },
    /// No usable session, or the refresh call answered 401 or 403.
    Unauthorized,
    /// The refresh call failed.
    RefreshFailed,
    /// The base URL could not be parsed.
    Url(url::ParseError),
    /// The path (or the base URL) is unsafe or malformed.
    InvalidPath(String),
    /// The base URL uses plain http towards a host that is not loopback.
    InsecureBaseUrl(String),
    /// The response body exceeds the configured maximum.
    ResponseTooLarge(usize),
}

/// One entry of a problem document's `errors` list.
#[derive(Debug)]
pub struct ErrorDetail {
    pub location: Option<String>,
    pub message: Option<String>,
    pub value: Option<JsonValue>,
}

/// A structured problem document.
#[derive(Debug)]
pub struct ErrorModel {
    pub title: Option<String>,
    pub status: Option<i64>,
    pub detail: Option<String>,
    pub errors: Option<Vec<ErrorDetail>>,
    pub instance: Option<String>,
    pub error_type: Option<String>,
}

/// An untyped optional member read into `o`: `None` for absent or `null`.
pub open spec fn opt_value_is(v: JsonValue, key: Seq<char>, o: Option<JsonValue>) -> bool {
    match field_of(v, key) {
        Some(JsonValue::Null) => o is None,
        f => o == f,
    }
}

/// `v` reads as an entry of the `errors` list.
pub open spec fn detail_accepts(v: JsonValue) -> bool {
    &&& v is Object
    &&& optional_ok(v, "location"@, FieldKind::Text)
    &&& optional_ok(v, "message"@, FieldKind::Text)
}

/// `d` holds the members of `v`.
pub open spec fn detail_decoded_from(d: ErrorDetail, v: JsonValue) -> bool {
    &&& opt_text_is(v, "location"@, d.location)
    &&& opt_text_is(v, "message"@, d.message)
    &&& opt_value_is(v, "value"@, d.value)
}

impl ErrorDetail {
    /// Reads one entry of the `errors` list.
    pub fn decode(v: JsonValue) -> (r: Result<ErrorDetail, DecodeError>)
        ensures
            r is Ok <==> detail_accepts(v),
            r is Ok ==> detail_decoded_from(r->Ok_0, v),
    {
        if !matches!(v, JsonValue::Object(_)) {
            return Err(DecodeError::NotAnObject);
        }
        let location = optional_text(&v, "location")?;
        let message = optional_text(&v, "message")?;
        let value = match take_field(v, "value") {
            Some(JsonValue::Null) => None,
            other => other,
        };
        Ok(ErrorDetail { location, message, value })
    }
}

/// The `errors` member is absent, `null`, or a list of acceptable entries.
pub open spec fn errors_ok(v: JsonValue) -> bool {
    let d = field_of(v, "errors"@);
    ||| d is None
    ||| d->0 is Null
    ||| (d->0 is Array && forall|i: int|
        0 <= i < elements(d->0).len() ==> detail_accepts(#[trigger] elements(d->0)[i]))
}

/// `o` holds the entries of the `errors` member.
pub open spec fn errors_is(v: JsonValue, o: Option<Vec<ErrorDetail>>) -> bool {
    let d = field_of(v, "errors"@);
    if d is Some && d->0 is Array {
        &&& o is Some
        &&& o->0@.len() == elements(d->0).len()
        &&& forall|i: int|
            0 <= i < elements(d->0).len() ==> detail_decoded_from(
                #[trigger] o->0@[i],
                elements(d->0)[i],
            )
    } else {
        o is None
    }
}

/// `v` reads as a problem document: an object whose known members, where
/// present and not `null`, have their types.
pub open spec fn problem_accepts(v: JsonValue) -> bool {
    &&& v is Object
    &&& optional_ok(v, "title"@, FieldKind::Text)
    &&& optional_ok(v, "status"@, FieldKind::Integer)
    &&& optional_ok(v, "detail"@, FieldKind::Text)
    &&& errors_ok(v)
    &&& optional_ok(v, "instance"@, FieldKind::Text)
    &&& optional_ok(v, "type"@, FieldKind::Text)
}

/// `m` holds the members of `v`.
pub open spec fn problem_decoded_from(m: ErrorModel, v: JsonValue) -> bool {
    &&& opt_text_is(v, "title"@, m.title)
    &&& opt_int_is(v, "status"@, m.status)
    &&& opt_text_is(v, "detail"@, m.detail)
    &&& errors_is(v, m.errors)
    &&& opt_text_is(v, "instance"@, m.instance)
    &&& opt_text_is(v, "type"@, m.error_type)
}

fn decode_details(items: Vec<JsonValue>) -> (r: Result<Vec<ErrorDetail>, DecodeError>)
    ensures
        r is Ok <==> forall|i: int| 0 <= i < items@.len() ==> detail_accepts(#[trigger] items@[i]),
        r is Ok ==> r->Ok_0@.len() == items@.len() && forall|i: int|
            0 <= i < items@.len() ==> detail_decoded_from(#[trigger] r->Ok_0@[i], items@[i]),
{
    let ghost orig = items@;
    assert(orig.skip(0) =~= orig);
    let mut rest = items;
    let mut out: Vec<ErrorDetail> = Vec::new();
    while rest.len() > 0
        invariant
            orig == items@,
            out@.len() + rest@.len() == orig.len(),
            rest@ == orig.skip(out@.len() as int),
            forall|j: int| 0 <= j < out@.len() ==> detail_accepts(#[trigger] orig[j]),
            forall|j: int| 0 <= j < out@.len() ==> detail_decoded_from(#[trigger] out@[j], orig[j]),
        decreases rest@.len(),
    {
        let ghost k = out@.len() as int;
        let item = rest.remove(0);
        assert(item == orig[k]);
        assert(rest@ =~= orig.skip(k + 1));
        match ErrorDetail::decode(item) {
            Ok(d) => out.push(d),
            Err(e) => {
                assert(!detail_accepts(orig[k]));
                return Err(e);
            },
        }
    }
    Ok(out)
}

impl ErrorModel {
    /// Reads a problem document.
    pub fn decode(v: JsonValue) -> (r: Result<ErrorModel, DecodeError>)
        ensures
            r is Ok <==> problem_accepts(v),
            r is Ok ==> problem_decoded_from(r->Ok_0, v),
    {
        if !matches!(v, JsonValue::Object(_)) {
            return Err(DecodeError::NotAnObject);
        }
        let title = optional_text(&v, "title")?;
        let status = optional_int(&v, "status")?;
        let detail = optional_text(&v, "detail")?;
        let instance = optional_text(&v, "instance")?;
        let error_type = optional_text(&v, "type")?;
        let errors = match take_field(v, "errors") {
            None => None,
            Some(JsonValue::Null) => None,
            Some(JsonValue::Array(items)) => {
                let ghost member = JsonValue::Array(items);
                assert(elements(member) == items@);
                match decode_details(items) {
                    Ok(d) => Some(d),
                    Err(e) => {
                        proof {
                            let i = choose|i: int|
                                0 <= i < elements(member).len() && !detail_accepts(
                                    #[trigger] elements(member)[i],
                                );
                            assert(!errors_ok(v));
                        }
                        return Err(e);
                    },
                }
            },
            Some(_) => {
                return Err(DecodeError::InvalidType(crate::text::owned("errors")));
            },
        };
        Ok(ErrorModel { title, status, detail, errors, instance, error_type })
    }
}

} // verus!
