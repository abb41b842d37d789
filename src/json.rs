//! A JSON document as the decoders read it, and typed access to object fields.

use vstd::prelude::*;
use crate::text::{concat, owned, push_str, text_eq};

verus! {

/// A JSON number: its text, and its value where it is an integer that fits `i64`.
#[derive(Debug)]
pub struct JsonNumber {
    pub text: String,
    pub int_value: Option<i64>,
}

/// A parsed JSON document. A lookup in an object takes the first member with
/// the key.
#[derive(Debug)]
pub enum JsonValue {
    Null,
    Bool(bool),
    Number(JsonNumber),
    Str(String),
    Array(Vec<JsonValue>),
    Object(Vec<(String, JsonValue)>),
}

/// Why a document did not have the shape a decoder asked for.
#[derive(Clone, Debug, PartialEq)]
pub enum DecodeError {
    /// A required field is absent (or the value is not an object).
    MissingField(String),
    /// A field is present with a value of the wrong type.
    InvalidType(String),
    /// The value is not a JSON object.
    NotAnObject,
    /// A field is given twice, under its name and under its alias.
    DuplicateField(String),
    /// The body is not a JSON document.
    NotJson,
}

/// The value of the first member named `key`.
pub open spec fn lookup(members: Seq<(String, JsonValue)>, key: Seq<char>) -> Option<JsonValue>
    decreases members.len(),
{
    if members.len() == 0 {
        None
    } else if members[0].0@ == key {
        Some(members[0].1)
    } else {
        lookup(members.drop_first(), key)
    }
}

/// The field `key` of an object; `None` for a missing field or a non-object.
pub open spec fn field_of(v: JsonValue, key: Seq<char>) -> Option<JsonValue> {
    match v {
        JsonValue::Object(m) => lookup(m@, key),
        _ => None,
    }
}

/// The elements of an array value.
pub open spec fn elements(v: JsonValue) -> Seq<JsonValue> {
    match v {
        JsonValue::Array(a) => a@,
        _ => Seq::empty(),
    }
}

/// The text a decode error reads as.
pub open spec fn decode_message(e: DecodeError) -> Seq<char> {
    match e {
        DecodeError::MissingField(f) => "missing field `"@ + f@ + "`"@,
        DecodeError::InvalidType(f) => "invalid type for field `"@ + f@ + "`"@,
        DecodeError::NotAnObject => "invalid type: expected a JSON object"@,
        DecodeError::DuplicateField(f) => "duplicate field `"@ + f@ + "`"@,
        DecodeError::NotJson => "invalid JSON"@,
    }
}

impl DecodeError {
    /// The error as text; it names the field at fault.
    pub fn message(&self) -> (r: String)
        ensures
            r@ == decode_message(*self),
    {
        match self {
            DecodeError::MissingField(f) => {
                let mut r = concat("missing field `", f.as_str());
                push_str(&mut r, "`");
                r
            },
            DecodeError::InvalidType(f) => {
                let mut r = concat("invalid type for field `", f.as_str());
                push_str(&mut r, "`");
                r
            },
            DecodeError::NotAnObject => owned("invalid type: expected a JSON object"),
            DecodeError::NotJson => owned("invalid JSON"),
            DecodeError::DuplicateField(f) => {
                let mut r = concat("duplicate field `", f.as_str());
                push_str(&mut r, "`");
                r
            },
        }
    }
}

/// Moves the field `key` out of `v`; `None` for a missing field or a non-object.
pub fn take_field(v: JsonValue, key: &str) -> (r: Option<JsonValue>)
    ensures
        r == field_of(v, key@),
{
    match v {
        JsonValue::Object(members) => {
            let mut members = members;
            let ghost orig = members@;
            let mut i: usize = 0;
            assert(orig.skip(0) =~= orig);
            while i < members.len()
                invariant
                    members@ == orig,
                    field_of(v, key@) == lookup(orig, key@),
                    i <= orig.len(),
                    lookup(orig, key@) == lookup(orig.skip(i as int), key@),
                decreases orig.len() - i,
            {
                assert(orig.skip(i as int).drop_first() =~= orig.skip(i + 1));
                assert(orig.skip(i as int)[0] == orig[i as int]);
                if text_eq(members[i].0.as_str(), key) {
                    let (_, val) = members.remove(i);
                    return Some(val);
                }
                i = i + 1;
            }
            assert(orig.skip(i as int) =~= Seq::<(String, JsonValue)>::empty());
            None
        },
        _ => None,
    }
}

/// The field `key` of `v`, if `v` is an object that has it.
pub fn get_field<'a>(v: &'a JsonValue, key: &str) -> (r: Option<&'a JsonValue>)
    ensures
        r is Some <==> field_of(*v, key@) is Some,
        r is Some ==> *r->0 == field_of(*v, key@)->0,
{
    match v {
        JsonValue::Object(members) => {
            let mut i: usize = 0;
            assert(members@.skip(0) =~= members@);
            while i < members.len()
                invariant
                    i <= members@.len(),
                    field_of(*v, key@) == lookup(members@, key@),
                    lookup(members@, key@) == lookup(members@.skip(i as int), key@),
                decreases members@.len() - i,
            {
                assert(members@.skip(i as int).drop_first() =~= members@.skip(i + 1));
                assert(members@.skip(i as int)[0] == members@[i as int]);
                if text_eq(members[i].0.as_str(), key) {
                    return Some(&members[i].1);
                }
                i = i + 1;
            }
            assert(members@.skip(i as int) =~= Seq::<(String, JsonValue)>::empty());
            None
        },
        _ => None,
    }
}

/// The type a decoder asks of a field.
#[derive(Clone, Copy, Debug, PartialEq, Eq)]
pub enum FieldKind {
    Text,
    Integer,
    Number,
}

/// `v` has the type `kind` asks for: a string; an integer that fits `i64`; any number.
pub open spec fn has_kind(v: JsonValue, kind: FieldKind) -> bool {
    match kind {
        FieldKind::Text => v is Str,
        FieldKind::Integer => v matches JsonValue::Number(n) && n.int_value is Some,
        FieldKind::Number => v is Number,
    }
}

/// A required field `key` of kind `kind` is acceptable in `v`.
pub open spec fn required_ok(v: JsonValue, key: Seq<char>, kind: FieldKind) -> bool {
    field_of(v, key) is Some && has_kind(field_of(v, key)->0, kind)
}

/// An optional field `key` of kind `kind` is acceptable in `v`: absent, `null`,
/// or of that kind.
pub open spec fn optional_ok(v: JsonValue, key: Seq<char>, kind: FieldKind) -> bool {
    field_of(v, key) is None || field_of(v, key)->0 is Null || has_kind(
        field_of(v, key)->0,
        kind,
    )
}

/// `e` names the field `key` and says rightly whether it is absent or of the
/// wrong type.
pub open spec fn reports_field(e: DecodeError, v: JsonValue, key: Seq<char>) -> bool {
    match e {
        DecodeError::MissingField(f) => f@ == key && field_of(v, key) is None,
        DecodeError::InvalidType(f) => f@ == key && field_of(v, key) is Some,
        DecodeError::NotAnObject => false,
        DecodeError::DuplicateField(_) => false,
        DecodeError::NotJson => false,
    }
}

/// The string held by a `Str` value.
pub open spec fn text_of(v: JsonValue) -> Seq<char> {
    match v {
        JsonValue::Str(s) => s@,
        _ => Seq::empty(),
    }
}

/// The integer held by an integer `Number` value.
pub open spec fn int_of(v: JsonValue) -> i64 {
    match v {
        JsonValue::Number(n) => match n.int_value {
            Some(i) => i,
            None => 0,
        },
        _ => 0,
    }
}

fn field_failure(v: &JsonValue, key: &str, found: bool) -> (e: DecodeError)
    requires
        found == (field_of(*v, key@) is Some),
    ensures
        reports_field(e, *v, key@),
{
    if found {
        DecodeError::InvalidType(owned(key))
    } else {
        DecodeError::MissingField(owned(key))
    }
}

/// Reads the required string field `key`.
pub fn required_text(v: &JsonValue, key: &str) -> (r: Result<String, DecodeError>)
    ensures
        r is Ok <==> required_ok(*v, key@, FieldKind::Text),
        r is Ok ==> r->Ok_0@ == text_of(field_of(*v, key@)->0),
        r is Err ==> reports_field(r->Err_0, *v, key@),
{
    match get_field(v, key) {
        Some(JsonValue::Str(s)) => Ok(s.clone()),
        Some(_) => Err(field_failure(v, key, true)),
        None => Err(field_failure(v, key, false)),
    }
}

/// Reads the required integer field `key`.
pub fn required_int(v: &JsonValue, key: &str) -> (r: Result<i64, DecodeError>)
    ensures
        r is Ok <==> required_ok(*v, key@, FieldKind::Integer),
        r is Ok ==> r->Ok_0 == int_of(field_of(*v, key@)->0),
        r is Err ==> reports_field(r->Err_0, *v, key@),
{
    match get_field(v, key) {
        Some(JsonValue::Number(n)) => match n.int_value {
            Some(i) => Ok(i),
            None => Err(field_failure(v, key, true)),
        },
        Some(_) => Err(field_failure(v, key, true)),
        None => Err(field_failure(v, key, false)),
    }
}

/// Reads the required numeric field `key`.
pub fn required_number(v: &JsonValue, key: &str) -> (r: Result<JsonNumber, DecodeError>)
    ensures
        r is Ok <==> required_ok(*v, key@, FieldKind::Number),
        r is Ok ==> field_of(*v, key@) == Some(JsonValue::Number(r->Ok_0)),
        r is Err ==> reports_field(r->Err_0, *v, key@),
{
    match get_field(v, key) {
        Some(JsonValue::Number(n)) => Ok(JsonNumber { text: n.text.clone(), int_value: n.int_value }),
        Some(_) => Err(field_failure(v, key, true)),
        None => Err(field_failure(v, key, false)),
    }
}

/// Reads the optional string field `key`: absent and `null` give `None`.
pub fn optional_text(v: &JsonValue, key: &str) -> (r: Result<Option<String>, DecodeError>)
    ensures
        r is Ok <==> optional_ok(*v, key@, FieldKind::Text),
        r matches Ok(Some(s)) ==> field_of(*v, key@) is Some && s@ == text_of(
            field_of(*v, key@)->0,
        ) && field_of(*v, key@)->0 is Str,
        r matches Ok(None) ==> field_of(*v, key@) is None || field_of(*v, key@)->0 is Null,
        r is Err ==> reports_field(r->Err_0, *v, key@),
{
    match get_field(v, key) {
        Some(JsonValue::Str(s)) => Ok(Some(s.clone())),
        Some(JsonValue::Null) => Ok(None),
        Some(_) => Err(field_failure(v, key, true)),
        None => Ok(None),
    }
}

/// Reads the optional integer field `key`: absent and `null` give `None`.
pub fn optional_int(v: &JsonValue, key: &str) -> (r: Result<Option<i64>, DecodeError>)
    ensures
        r is Ok <==> optional_ok(*v, key@, FieldKind::Integer),
        r matches Ok(Some(i)) ==> field_of(*v, key@) is Some && i == int_of(
            field_of(*v, key@)->0,
        ) && has_kind(field_of(*v, key@)->0, FieldKind::Integer),
        r matches Ok(None) ==> field_of(*v, key@) is None || field_of(*v, key@)->0 is Null,
        r is Err ==> reports_field(r->Err_0, *v, key@),
{
    match get_field(v, key) {
        Some(JsonValue::Number(n)) => match n.int_value {
            Some(i) => Ok(Some(i)),
            None => Err(field_failure(v, key, true)),
        },
        Some(JsonValue::Null) => Ok(None),
        Some(_) => Err(field_failure(v, key, true)),
        None => Ok(None),
    }
}

/// The member `key` is absent, `null`, or an array of strings.
pub open spec fn text_list_ok(v: JsonValue, key: Seq<char>) -> bool {
    let d = field_of(v, key);
    ||| d is None
    ||| d->0 is Null
    ||| (d->0 is Array && forall|i: int|
        0 <= i < elements(d->0).len() ==> (#[trigger] elements(d->0)[i]) is Str)
}

/// `o` holds the strings of the member `key`.
pub open spec fn text_list_is(v: JsonValue, key: Seq<char>, o: Option<Vec<String>>) -> bool {
    let d = field_of(v, key);
    if d is Some && d->0 is Array {
        &&& o is Some
        &&& o->0@.len() == elements(d->0).len()
        &&& forall|i: int|
            0 <= i < elements(d->0).len() ==> (#[trigger] o->0@[i])@ == text_of(elements(d->0)[i])
    } else {
        o is None
    }
}

/// Reads the optional member `key` as a list of strings: absent and `null`
/// give `None`.
pub fn optional_text_list(v: &JsonValue, key: &str) -> (r: Result<Option<Vec<String>>, DecodeError>)
    ensures
        r is Ok <==> text_list_ok(*v, key@),
        r is Ok ==> text_list_is(*v, key@, r->Ok_0),
        r is Err ==> reports_field(r->Err_0, *v, key@),
{
    match get_field(v, key) {
        None => Ok(None),
        Some(JsonValue::Null) => Ok(None),
        Some(JsonValue::Array(a)) => {
            let mut out: Vec<String> = Vec::new();
            let mut i: usize = 0;
            while i < a.len()
                invariant
                    field_of(*v, key@) == Some(JsonValue::Array(*a)),
                    elements(JsonValue::Array(*a)) == a@,
                    i <= a@.len(),
                    out@.len() == i,
                    forall|j: int| 0 <= j < i ==> (#[trigger] a@[j]) is Str,
                    forall|j: int| 0 <= j < i ==> (#[trigger] out@[j])@ == text_of(a@[j]),
                decreases a@.len() - i,
            {
                match &a[i] {
                    JsonValue::Str(t) => out.push(t.clone()),
                    _ => {
                        return Err(DecodeError::InvalidType(owned(key)));
                    },
                }
                i = i + 1;
            }
            Ok(Some(out))
        },
        Some(_) => Err(DecodeError::InvalidType(owned(key))),
    }
}

/// The text of a string value, if it is one.
pub open spec fn as_text(v: Option<JsonValue>) -> Option<Seq<char>> {
    match v {
        Some(JsonValue::Str(s)) => Some(s@),
        _ => None,
    }
}

/// Reads a string field without assuming anything else of the document:
/// `None` where it is absent or not a string.
pub fn text_field<'a>(v: &'a JsonValue, key: &str) -> (r: Option<&'a str>)
    ensures
        r is Some <==> as_text(field_of(*v, key@)) is Some,
        r is Some ==> r->0@ == as_text(field_of(*v, key@))->0,
{
    match get_field(v, key) {
        Some(JsonValue::Str(s)) => Some(s.as_str()),
        _ => None,
    }
}

} // verus!
