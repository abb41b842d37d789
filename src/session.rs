//! The session slot shared by the calls of one client, and the decisions that
//! log in, clear and refresh it.

use vstd::prelude::*;
use crate::error::{opt_value_is, Error};
use crate::json::{
    field_of, optional_ok, optional_text, required_ok, required_text, take_field, text_of,
    DecodeError, FieldKind, JsonValue,
};
use crate::metrics::{decode_list, list_is, list_ok, opt_text_is};
use crate::model::OrgInfo;
use crate::text::{concat, owned, push_str};

verus! {

/// A bearer token and the account type it was issued for.
pub struct AuthState {
    pub token: String,
    pub account_type: String,
}

impl AuthState {
    /// A copy of the session.
    pub fn copy(&self) -> (r: AuthState)
        ensures
            r.token@ == self.token@,
            r.account_type@ == self.account_type@,
    {
        AuthState { token: self.token.clone(), account_type: self.account_type.clone() }
    }
}

/// The session as token and account type.
pub open spec fn session_view(s: Option<AuthState>) -> Option<(Seq<char>, Seq<char>)> {
    match s {
        Some(a) => Some((a.token@, a.account_type@)),
        None => None,
    }
}

/// The slot holding zero or one session; token and account type are always set
/// together.
pub struct AuthStore {
    slot: Option<AuthState>,
}

impl View for AuthStore {
    type V = Option<(Seq<char>, Seq<char>)>;

    closed spec fn view(&self) -> Option<(Seq<char>, Seq<char>)> {
        session_view(self.slot)
    }
}

/// A failed login clears the session when the server answered 401 or 403, or
/// the call ended as `Unauthorized`.
pub open spec fn clears_session(e: Error) -> bool {
    match e {
        Error::Api { status, .. } => status == 401 || status == 403,
        Error::ApiProblem { status, .. } => status == 401 || status == 403,
        Error::Unauthorized => true,
        _ => false,
    }
}

/// The session after a login that failed with `e`.
pub open spec fn after_login_failure(
    s: Option<(Seq<char>, Seq<char>)>,
    e: Error,
) -> Option<(Seq<char>, Seq<char>)> {
    if clears_session(e) {
        None
    } else {
        s
    }
}

/// The session after a refresh that returned `token`: only the token changes.
pub open spec fn after_refresh(
    s: Option<(Seq<char>, Seq<char>)>,
    token: Seq<char>,
) -> Option<(Seq<char>, Seq<char>)> {
    match s {
        Some((_, account_type)) => Some((token, account_type)),
        None => None,
    }
}

impl AuthStore {
    /// An empty slot.
    pub fn new() -> (r: AuthStore)
        ensures
            r@ is None,
    {
        AuthStore { slot: None }
    }

    /// A copy of the current session, if any.
    pub fn read(&self) -> (r: Option<AuthState>)
        ensures
            session_view(r) == self@,
    {
        match &self.slot {
            Some(a) => Some(a.copy()),
            None => None,
        }
    }

    /// Replaces or clears the slot.
    pub fn write(&mut self, s: Option<AuthState>)
        ensures
            final(self)@ == session_view(s),
    {
        self.slot = s;
    }

    /// Stores the session that a successful login returned.
    pub fn login_succeeded(&mut self, token: &str, account_type: &str)
        ensures
            final(self)@ == Some((token@, account_type@)),
    {
        self.slot = Some(AuthState { token: owned(token), account_type: owned(account_type) });
    }

    /// Clears the session after a login that failed with a 401 or 403 (or
    /// `Unauthorized`); any other failure leaves it as it was.
    pub fn clear_auth_on_login_failure(&mut self, err: &Error)
        ensures
            final(self)@ == after_login_failure(old(self)@, *err),
    {
        let should_clear = match err {
            Error::Api { status, .. } => *status == 401 || *status == 403,
            Error::ApiProblem { status, .. } => *status == 401 || *status == 403,
            Error::Unauthorized => true,
            _ => false,
        };
        if should_clear {
            self.slot = None;
        }
    }

    /// The credentials a refresh call carries; fails with `Unauthorized`, and
    /// no call is made, when there is no session.
    pub fn refresh_credentials(&self) -> (r: Result<AuthState, Error>)
        ensures
            self@ is None ==> r matches Err(Error::Unauthorized),
            self@ is Some ==> r is Ok && session_view(Some(r->Ok_0)) == self@,
    {
        match self.read() {
            Some(a) => Ok(a),
            None => Err(Error::Unauthorized),
        }
    }

    /// Replaces the token after a successful refresh; the account type is kept.
    pub fn apply_refresh(&mut self, token: String)
        ensures
            final(self)@ == after_refresh(old(self)@, token@),
    {
        match &mut self.slot {
            Some(a) => {
                a.token = token;
            },
            None => {},
        }
    }
}

/// The session after a login that ended with `outcome`: the session it
/// returned, or what a failure leaves (see `after_login_failure`).
pub open spec fn after_login(
    before: Option<(Seq<char>, Seq<char>)>,
    outcome: Result<AuthState, Error>,
) -> Option<(Seq<char>, Seq<char>)> {
    match outcome {
        Ok(a) => Some((a.token@, a.account_type@)),
        Err(e) => after_login_failure(before, e),
    }
}

impl AuthStore {
    /// Records how a login ended: a returned session is stored, a failure with
    /// 401 or 403 clears the slot, any other failure leaves it. The failure, if
    /// any, is handed back.
    pub fn record_login(&mut self, outcome: Result<AuthState, Error>) -> (r: Result<(), Error>)
        ensures
            final(self)@ == after_login(old(self)@, outcome),
            outcome is Ok <==> r is Ok,
            outcome is Err ==> r == Err::<(), Error>(outcome->Err_0),
    {
        match outcome {
            Ok(a) => {
                self.slot = Some(a);
                Ok(())
            },
            Err(e) => {
                self.clear_auth_on_login_failure(&e);
                Err(e)
            },
        }
    }
}

/// A successful login stores the session it returned; a login that failed with
/// 401 or 403 leaves no session, whatever was stored before.
pub proof fn lemma_login_outcomes(
    before: Option<(Seq<char>, Seq<char>)>,
    outcome: Result<AuthState, Error>,
)
    requires
        outcome is Err ==> match outcome->Err_0 {
            Error::Api { status, .. } => status == 401 || status == 403,
            Error::ApiProblem { status, .. } => status == 401 || status == 403,
            _ => false,
        },
    ensures
        outcome is Ok ==> after_login(before, outcome) == Some(
            (outcome->Ok_0.token@, outcome->Ok_0.account_type@),
        ),
        outcome is Err ==> after_login(before, outcome) is None,
{
}

/// The body of the v3 password login.
pub struct AuthWithPasswordBody {
    pub account_type: String,
    pub password: String,
    pub email: Option<String>,
    pub username: Option<String>,
}

/// The body of the v2 viewer login.
pub struct AuthAccountBody {
    pub account: String,
    pub password: Option<String>,
}

/// The body of the v2 manager login.
pub struct AuthEmailBody {
    pub email: String,
    pub password: Option<String>,
}

/// A token as returned by the v2 logins and by refresh.
pub struct AuthBody {
    pub token: String,
    pub name: String,
}

fn has_at_sign(s: &str) -> (r: bool)
    ensures
        r == s@.contains('@'),
{
    let n = vstd::string::StrSliceExecFns::unicode_len(s);
    let mut i: usize = 0;
    while i < n
        invariant
            n == s@.len(),
            i <= n,
            forall|k: int| 0 <= k < i ==> s@[k] != '@',
        decreases n - i,
    {
        if vstd::string::StrSliceExecFns::get_char(s, i) == '@' {
            return true;
        }
        i = i + 1;
    }
    false
}

impl AuthWithPasswordBody {
    /// The login body for an account: an e-mail address (it holds `@`) logs in
    /// as a manager, any other name as a viewer.
    pub fn for_account(account: &str, password: &str) -> (r: AuthWithPasswordBody)
        ensures
            r.password@ == password@,
            account@.contains('@') ==> r.account_type@ == "manager"@ && r.email is Some
                && r.email->0@ == account@ && r.username is None,
            !account@.contains('@') ==> r.account_type@ == "viewer"@ && r.username is Some
                && r.username->0@ == account@ && r.email is None,
    {
        if has_at_sign(account) {
            AuthWithPasswordBody {
                account_type: owned("manager"),
                email: Some(owned(account)),
                username: None,
                password: owned(password),
            }
        } else {
            AuthWithPasswordBody {
                account_type: owned("viewer"),
                email: None,
                username: Some(owned(account)),
                password: owned(password),
            }
        }
    }
}

/// The two v2 login endpoints, each for one account type.
#[derive(Clone, Copy, Debug, PartialEq, Eq)]
pub enum V2Login {
    Manager,
    Viewer,
}

/// The account type a v2 login endpoint logs in as.
pub open spec fn v2_account_type(l: V2Login) -> Seq<char> {
    match l {
        V2Login::Manager => "manager"@,
        V2Login::Viewer => "viewer"@,
    }
}

impl AuthBody {
    /// The session a v2 login opened: its token, with the account type of the
    /// endpoint that issued it.
    pub fn v2_session(&self, login: V2Login) -> (r: AuthState)
        ensures
            r.token@ == self.token@,
            r.account_type@ == v2_account_type(login),
    {
        let account_type = match login {
            V2Login::Manager => owned("manager"),
            V2Login::Viewer => owned("viewer"),
        };
        AuthState { token: self.token.clone(), account_type }
    }
}

/// `v` reads as a token body.
pub open spec fn auth_body_accepts(v: JsonValue) -> bool {
    required_ok(v, "token"@, FieldKind::Text) && required_ok(v, "name"@, FieldKind::Text)
}

impl AuthBody {
    /// Reads a token body.
    pub fn decode(v: &JsonValue) -> (r: Result<AuthBody, DecodeError>)
        ensures
            r is Ok <==> auth_body_accepts(*v),
            r is Ok ==> r->Ok_0.token@ == text_of(field_of(*v, "token"@)->0) && r->Ok_0.name@
                == text_of(field_of(*v, "name"@)->0),
    {
        let token = required_text(v, "token")?;
        let name = required_text(v, "name")?;
        Ok(AuthBody { token, name })
    }
}

/// The answer to a v3 login: the session and the account it belongs to.
pub struct AuthOutputV3Body {
    pub token: String,
    pub account_type: String,
    pub name: String,
    pub email: Option<String>,
    pub username: Option<String>,
    pub organizations: Option<Vec<OrgInfo>>,
    pub metadata: Option<JsonValue>,
}

/// `v` reads as the answer to a v3 login.
pub open spec fn login_output_accepts(v: JsonValue) -> bool {
    &&& required_ok(v, "token"@, FieldKind::Text)
    &&& required_ok(v, "type"@, FieldKind::Text)
    &&& required_ok(v, "name"@, FieldKind::Text)
    &&& optional_ok(v, "email"@, FieldKind::Text)
    &&& optional_ok(v, "username"@, FieldKind::Text)
    &&& list_ok::<OrgInfo>(v, "organizations"@)
}

/// `o` holds the members of `v`.
pub open spec fn login_output_decoded_from(o: AuthOutputV3Body, v: JsonValue) -> bool {
    &&& o.token@ == text_of(field_of(v, "token"@)->0)
    &&& o.account_type@ == text_of(field_of(v, "type"@)->0)
    &&& o.name@ == text_of(field_of(v, "name"@)->0)
    &&& opt_text_is(v, "email"@, o.email)
    &&& opt_text_is(v, "username"@, o.username)
    &&& list_is(v, "organizations"@, o.organizations)
    &&& opt_value_is(v, "metadata"@, o.metadata)
}

impl AuthOutputV3Body {
    /// Reads the answer to a v3 login.
    pub fn decode(v: JsonValue) -> (r: Result<AuthOutputV3Body, DecodeError>)
        ensures
            r is Ok <==> login_output_accepts(v),
            r is Ok ==> login_output_decoded_from(r->Ok_0, v),
    {
        let token = required_text(&v, "token")?;
        let account_type = required_text(&v, "type")?;
        let name = required_text(&v, "name")?;
        let email = optional_text(&v, "email")?;
        let username = optional_text(&v, "username")?;
        let organizations = decode_list::<OrgInfo>(&v, "organizations")?;
        let metadata = match take_field(v, "metadata") {
            Some(JsonValue::Null) => None,
            other => other,
        };
        Ok(AuthOutputV3Body { token, account_type, name, email, username, organizations, metadata })
    }

    /// The session this login opened.
    pub fn session(&self) -> (r: AuthState)
        ensures
            r.token@ == self.token@,
            r.account_type@ == self.account_type@,
    {
        AuthState { token: self.token.clone(), account_type: self.account_type.clone() }
    }
}

/// An optional text as shown in a redacted description.
pub open spec fn shown(o: Option<String>) -> Seq<char> {
    match o {
        Some(s) => "Some("@ + s@ + ")"@,
        None => "None"@,
    }
}

fn push_shown(out: &mut String, o: &Option<String>)
    ensures
        final(out)@ == old(out)@ + shown(*o),
{
    match o {
        Some(s) => {
            push_str(out, "Some(");
            push_str(out, s.as_str());
            push_str(out, ")");
        },
        None => push_str(out, "None"),
    }
}

impl AuthWithPasswordBody {
    /// A description for logs; the password is never shown.
    pub fn redacted_debug(&self) -> (r: String)
        ensures
            r@ == "AuthWithPasswordBody { account_type: "@ + self.account_type@
                + ", password: <redacted>, email: "@ + shown(self.email) + ", username: "@ + shown(
                self.username,
            ) + " }"@,
    {
        let mut r = concat("AuthWithPasswordBody { account_type: ", self.account_type.as_str());
        push_str(&mut r, ", password: <redacted>, email: ");
        push_shown(&mut r, &self.email);
        push_str(&mut r, ", username: ");
        push_shown(&mut r, &self.username);
        push_str(&mut r, " }");
        r
    }
}

impl AuthAccountBody {
    /// A description for logs; the password is never shown.
    pub fn redacted_debug(&self) -> (r: String)
        ensures
            r@ == "AuthAccountBody { account: "@ + self.account@ + ", password: <redacted> }"@,
    {
        let mut r = concat("AuthAccountBody { account: ", self.account.as_str());
        push_str(&mut r, ", password: <redacted> }");
        r
    }
}

impl AuthEmailBody {
    /// A description for logs; the password is never shown.
    pub fn redacted_debug(&self) -> (r: String)
        ensures
            r@ == "AuthEmailBody { email: "@ + self.email@ + ", password: <redacted> }"@,
    {
        let mut r = concat("AuthEmailBody { email: ", self.email.as_str());
        push_str(&mut r, ", password: <redacted> }");
        r
    }
}

impl AuthBody {
    /// A description for logs; the token is never shown.
    pub fn redacted_debug(&self) -> (r: String)
        ensures
            r@ == "AuthBody { token: <redacted>, name: "@ + self.name@ + " }"@,
    {
        let mut r = concat("AuthBody { token: <redacted>, name: ", self.name.as_str());
        push_str(&mut r, " }");
        r
    }
}

impl AuthState {
    /// A description for logs; the token is never shown.
    pub fn redacted_debug(&self) -> (r: String)
        ensures
            r@ == "AuthState { token: <redacted>, account_type: "@ + self.account_type@ + " }"@,
    {
        let mut r = concat("AuthState { token: <redacted>, account_type: ", self.account_type.as_str());
        push_str(&mut r, " }");
        r
    }
}

} // verus!
