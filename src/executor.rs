//! The decisions of one logical call: which credentials to attach, whether a
//! 401 triggers the single refresh-and-retry, how the refresh ends, how much
//! of a body may be buffered, and what a text response reads as.

use vstd::prelude::*;
use crate::client::{classified, Client};
use crate::error::Error;
use crate::json::{field_of, text_of, JsonValue};
use crate::session::{auth_body_accepts, AuthBody, AuthState};

verus! {

/// What a call may do: attach the session, and answer a 401 with a refresh.
#[derive(Clone, Copy, Debug, PartialEq, Eq)]
pub struct CallPolicy {
    pub include_auth: bool,
    pub allow_refresh_on_401: bool,
}

/// The state of one logical call between sends.
#[derive(Clone, Copy, Debug, PartialEq, Eq)]
pub struct CallState {
    pub policy: CallPolicy,
    /// Refreshes still allowed: one at the start, none after it is used.
    pub retries: u8,
    /// A token was attached to the last send.
    pub authed: bool,
}

/// What follows a response status.
#[derive(Clone, Copy, Debug, PartialEq, Eq)]
pub enum Step {
    /// Refresh the session, then send once more.
    RefreshAndRetry,
    /// Read the body, then decode it or classify the failure.
    ReadBody,
}

/// The step a status leads to, and the state after it: a 401 to a send that
/// carried a token, where the call may refresh and has its retry left, uses the
/// retry; anything else reads the body.
pub open spec fn next_step(s: CallState, status: u16) -> (CallState, Step) {
    if status == 401 && s.retries > 0 && s.authed && s.policy.allow_refresh_on_401 {
        (CallState { retries: (s.retries - 1) as u8, ..s }, Step::RefreshAndRetry)
    } else {
        (s, Step::ReadBody)
    }
}

/// The credentials a send carries.
pub open spec fn attached(policy: CallPolicy, session: Option<AuthState>) -> Option<AuthState> {
    if policy.include_auth {
        session
    } else {
        None
    }
}

impl CallState {
    /// A call before its first send, with its one retry.
    pub fn start(policy: CallPolicy) -> (r: CallState)
        ensures
            r.policy == policy,
            r.retries == 1,
            !r.authed,
    {
        CallState { policy, retries: 1, authed: false }
    }

    /// The Authenticate step: the session to attach to the next send. A call
    /// that does not include auth (a login) never attaches one, whatever the
    /// store holds. Whether a token went out is recorded for `inspect`.
    pub fn authenticate(&mut self, session: Option<AuthState>) -> (r: Option<AuthState>)
        ensures
            r == attached(old(self).policy, session),
            final(self).authed == (r is Some),
            final(self).policy == old(self).policy,
            final(self).retries == old(self).retries,
    {
        let r = if self.policy.include_auth {
            session
        } else {
            None
        };
        self.authed = r.is_some();
        r
    }

    /// The Inspect step (see `next_step`).
    pub fn inspect(&mut self, status: u16) -> (r: Step)
        ensures
            (*final(self), r) == next_step(*old(self), status),
    {
        if status == 401 && self.retries > 0 && self.authed && self.policy.allow_refresh_on_401 {
            self.retries = self.retries - 1;
            Step::RefreshAndRetry
        } else {
            Step::ReadBody
        }
    }
}

/// The refreshes made over the sends of one call. Each send is given by whether
/// a token went with it and the status that came back; a refresh is followed by
/// the next send, and reading a body ends the call.
pub open spec fn refresh_count(s: CallState, sends: Seq<(bool, u16)>) -> nat
    decreases sends.len(),
{
    if sends.len() == 0 {
        0
    } else {
        let sent = CallState { authed: sends[0].0, ..s };
        let (t, step) = next_step(sent, sends[0].1);
        match step {
            Step::RefreshAndRetry => 1 + refresh_count(t, sends.drop_first()),
            Step::ReadBody => 0,
        }
    }
}

/// The sends one call makes over a run: each status answers one send, and the
/// call goes on only after a refresh.
pub open spec fn sends_made(s: CallState, sends: Seq<(bool, u16)>) -> nat
    decreases sends.len(),
{
    if sends.len() == 0 {
        0
    } else {
        let sent = CallState { authed: sends[0].0, ..s };
        let (t, step) = next_step(sent, sends[0].1);
        match step {
            Step::RefreshAndRetry => 1 + sends_made(t, sends.drop_first()),
            Step::ReadBody => 1,
        }
    }
}

proof fn lemma_refresh_count_bounded(s: CallState, sends: Seq<(bool, u16)>)
    ensures
        refresh_count(s, sends) <= s.retries,
        sends_made(s, sends) <= s.retries + 1,
    decreases sends.len(),
{
    if sends.len() > 0 {
        let sent = CallState { authed: sends[0].0, ..s };
        let (t, step) = next_step(sent, sends[0].1);
        if step == Step::RefreshAndRetry {
            lemma_refresh_count_bounded(t, sends.drop_first());
        }
    }
}

/// A 401 to a send that carried a token, on a call that may refresh, triggers
/// one refresh followed by one more send; a second 401 after it reads the body
/// and ends the call; and over any run a call refreshes at most once and sends
/// at most twice.
pub proof fn lemma_single_refresh(policy: CallPolicy, sends: Seq<(bool, u16)>)
    requires
        policy.allow_refresh_on_401,
    ensures
        ({
            let first = CallState { authed: true, ..CallState { policy, retries: 1, authed: false } };
            let (after, step) = next_step(first, 401);
            &&& step == Step::RefreshAndRetry
            &&& after.retries == 0
            &&& next_step(CallState { authed: true, ..after }, 401).1 == Step::ReadBody
        }),
        refresh_count(CallState { policy, retries: 1, authed: false }, sends) <= 1,
        sends_made(CallState { policy, retries: 1, authed: false }, sends) <= 2,
{
    lemma_refresh_count_bounded(CallState { policy, retries: 1, authed: false }, sends);
}

/// A status in the success range.
pub open spec fn success(status: u16) -> bool {
    200 <= status <= 299
}

/// Whether a status is in the success range.
pub fn is_success(status: u16) -> (r: bool)
    ensures
        r == success(status),
{
    200 <= status && status <= 299
}

/// How a refresh call ends, given its status and (where the body was read) the
/// parsed body: a success yields the new token, or a decode error; 401 and 403
/// give `Unauthorized`; any other status gives the classified error, so that a
/// failing refresh endpoint is told apart from stale credentials.
pub open spec fn refresh_outcome(status: u16, body: Option<JsonValue>, r: Result<String, Error>) -> bool {
    if success(status) {
        if body is Some && auth_body_accepts(body->0) {
            r is Ok && r->Ok_0@ == text_of(field_of(body->0, "token"@)->0)
        } else {
            r matches Err(Error::Serialization(_))
        }
    } else if status == 401 || status == 403 {
        r matches Err(Error::Unauthorized)
    } else {
        r is Err && classified(status, body, r->Err_0)
    }
}

/// Whether the body of a refresh response is read: for a success, and for a
/// failure other than 401 and 403.
pub fn refresh_reads_body(status: u16) -> (r: bool)
    ensures
        r == !(status == 401 || status == 403),
{
    !(status == 401 || status == 403)
}

/// The end of a refresh call (see `refresh_outcome`).
pub fn refresh_result(status: u16, body: Option<JsonValue>) -> (r: Result<String, Error>)
    ensures
        refresh_outcome(status, body, r),
{
    if is_success(status) {
        match body {
            Some(v) => match AuthBody::decode(&v) {
                Ok(a) => Ok(a.token),
                Err(e) => Err(Error::Serialization(e)),
            },
            None => Err(Error::Serialization(crate::json::DecodeError::NotJson)),
        }
    } else if status == 401 || status == 403 {
        Err(Error::Unauthorized)
    } else {
        Err(Client::api_error(status, body))
    }
}

/// A refresh answered with a server error surfaces that error with its status
/// and title kept, never a bare `Unauthorized`; one answered 401 or 403
/// surfaces `Unauthorized`.
pub proof fn lemma_refresh_failure_kept(status: u16, body: Option<JsonValue>, r: Result<String, Error>)
    requires
        refresh_outcome(status, body, r),
        500 <= status <= 599 || status == 401 || status == 403,
    ensures
        500 <= status <= 599 ==> r is Err && !(r->Err_0 is Unauthorized) && classified(
            status,
            body,
            r->Err_0,
        ),
        (status == 401 || status == 403) ==> r matches Err(Error::Unauthorized),
{
}

/// Adds a received chunk to a body under construction, failing closed, and
/// leaving the buffer as it was, once the body would exceed `max` bytes.
pub fn push_chunk(body: &mut Vec<u8>, chunk: &[u8], max: usize) -> (r: Result<(), Error>)
    requires
        old(body)@.len() <= max,
    ensures
        old(body)@.len() + chunk@.len() > max ==> (r matches Err(Error::ResponseTooLarge(m)) && m
            == max) && final(body)@ == old(body)@,
        old(body)@.len() + chunk@.len() <= max ==> r is Ok && final(body)@ == old(body)@ + chunk@,
{
    if chunk.len() > max - body.len() {
        return Err(Error::ResponseTooLarge(max));
    }
    let mut i: usize = 0;
    let ghost start = body@;
    while i < chunk.len()
        invariant
            i <= chunk@.len(),
            body@ == start + chunk@.take(i as int),
        decreases chunk@.len() - i,
    {
        body.push(chunk[i]);
        assert(chunk@.take(i + 1) =~= chunk@.take(i as int).push(chunk@[i as int]));
        i = i + 1;
    }
    assert(chunk@.take(chunk@.len() as int) =~= chunk@);
    Ok(())
}

/// The body read from a sequence of chunks by `push_chunk` starting from
/// `body`, or `None` where a chunk would take it over `max`.
pub open spec fn read_limited(body: Seq<u8>, chunks: Seq<Seq<u8>>, max: nat) -> Option<Seq<u8>>
    decreases chunks.len(),
{
    if chunks.len() == 0 {
        Some(body)
    } else if body.len() + chunks[0].len() > max {
        None
    } else {
        read_limited(body + chunks[0], chunks.drop_first(), max)
    }
}

/// All the chunks, in order.
pub open spec fn concat_chunks(chunks: Seq<Seq<u8>>) -> Seq<u8>
    decreases chunks.len(),
{
    if chunks.len() == 0 {
        Seq::empty()
    } else {
        chunks[0] + concat_chunks(chunks.drop_first())
    }
}

/// A body at or under `max` bytes is read whole; one over `max` fails, and no
/// more than `max` bytes are ever held while reading it.
pub proof fn lemma_body_limit(body: Seq<u8>, chunks: Seq<Seq<u8>>, max: nat)
    requires
        body.len() <= max,
    ensures
        read_limited(body, chunks, max) is Some <==> body.len() + concat_chunks(chunks).len()
            <= max,
        read_limited(body, chunks, max) is Some ==> read_limited(body, chunks, max)->0 == body
            + concat_chunks(chunks),
    decreases chunks.len(),
{
    if chunks.len() > 0 {
        if body.len() + chunks[0].len() <= max {
            lemma_body_limit(body + chunks[0], chunks.drop_first(), max);
            assert(body + chunks[0] + concat_chunks(chunks.drop_first()) =~= body + concat_chunks(
                chunks,
            ));
        }
    }
}

/// What String::from_utf8_lossy makes of a byte string.
pub uninterp spec fn utf8_lossy(bytes: Seq<u8>) -> Seq<char>;

/// Relies on String::from_utf8_lossy: the bytes as text, with invalid sequences
/// replaced.
#[verifier::external_body]
fn lossy_text(bytes: &[u8]) -> (r: String)
    ensures
        r@ == utf8_lossy(bytes@),
{
    String::from_utf8_lossy(bytes).into_owned()
}

/// What serde_json::from_slice::<String> makes of a byte string: the string
/// where the bytes are one JSON string literal.
pub uninterp spec fn json_string(bytes: Seq<u8>) -> Option<Seq<char>>;

/// Relies on serde_json::from_slice::<String>: the decoded string where the
/// body is a single JSON string.
#[verifier::external_body]
fn parse_json_string(bytes: &[u8]) -> (r: Option<String>)
    ensures
        r is Some <==> json_string(bytes@) is Some,
        r is Some ==> json_string(bytes@) == Some(r->0@),
{
    serde_json::from_slice::<String>(bytes).ok()
}

/// ASCII lower case of a text.
pub open spec fn lower(s: Seq<char>) -> Seq<char> {
    s.map_values(|c: char| crate::endpoint::ascii_lower(c))
}

/// `needle` occurs in `hay`.
pub open spec fn contains_text(hay: Seq<char>, needle: Seq<char>) -> bool {
    exists|i: int| 0 <= i && i + needle.len() <= hay.len() && #[trigger] hay.subrange(i, i + needle.len()) == needle
}

/// A content type that announces JSON.
pub open spec fn is_json_content_type(content_type: Seq<char>) -> bool {
    contains_text(lower(content_type), "application/json"@) || contains_text(
        lower(content_type),
        "+json"@,
    )
}

/// Relies on str::to_ascii_lowercase: ASCII letters lowered, the rest kept.
#[verifier::external_body]
fn to_ascii_lowercase(s: &str) -> (r: String)
    ensures
        r@ == lower(s@),
{
    s.to_ascii_lowercase()
}

/// Relies on str::contains with a string pattern: whether `needle` occurs in `hay`.
#[verifier::external_body]
fn str_contains(hay: &str, needle: &str) -> (r: bool)
    ensures
        r == contains_text(hay@, needle@),
{
    hay.contains(needle)
}

/// The text of a successful text response: where JSON strings are decoded, the
/// content type announces JSON and the body is one JSON string, that string;
/// otherwise the body read as text.
pub open spec fn text_payload_of(
    decode_json_string: bool,
    content_type: Seq<char>,
    json: Option<Seq<char>>,
    raw: Seq<char>,
) -> Seq<char> {
    if decode_json_string && is_json_content_type(content_type) && json is Some {
        json->0
    } else {
        raw
    }
}

/// Chooses the text of a successful text response from the body's two
/// readings: `json`, the body parsed as a JSON string, and `raw`, the body
/// read as text.
pub fn text_payload(decode_json_string: bool, content_type: &str, json: Option<String>, raw: String) -> (r: String)
    ensures
        r@ == text_payload_of(decode_json_string, content_type@, opt_string_view(json), raw@),
{
    if decode_json_string {
        let lowered = to_ascii_lowercase(content_type);
        if str_contains(lowered.as_str(), "application/json") || str_contains(
            lowered.as_str(),
            "+json",
        ) {
            if let Some(s) = json {
                return s;
            }
        }
    }
    raw
}

/// The views of an optional string.
pub open spec fn opt_string_view(o: Option<String>) -> Option<Seq<char>> {
    match o {
        Some(s) => Some(s@),
        None => None,
    }
}

/// The text of a successful text response with body `body` (see `text_payload`).
pub fn read_text_body(decode_json_string: bool, content_type: &str, body: &[u8]) -> (r: String)
    ensures
        r@ == text_payload_of(decode_json_string, content_type@, json_string(body@), utf8_lossy(body@)),
{
    let json = parse_json_string(body);
    let raw = lossy_text(body);
    text_payload(decode_json_string, content_type, json, raw)
}

} // verus!
