use vstd::prelude::*;

use crate::error::ServiceError;
use crate::model::{AuthRequest, CreateUserDTO, GoogleUser, User};

verus! {

/// Name of the cookie that carries the CSRF state.
pub open spec fn csrf_cookie_name() -> Seq<char> {
    "auth-csrf-state"@
}

/// Name of the cookie that carries the PKCE code verifier.
pub open spec fn verifier_cookie_name() -> Seq<char> {
    "auth-code-verifier"@
}

/// The provider name stored on users that signed in through Google.
pub open spec fn google_provider() -> Seq<char> {
    "google"@
}

/// Lifetime of the session cookies, in seconds.
pub const SESSION_COOKIE_MAX_AGE: i64 = 300;

/// A cookie of the short-lived session that spans the two legs of an OAuth2
/// login. It is HTTP-only, same-site `Lax`, scoped to `path`, and lives
/// `max_age` seconds.
#[derive(Debug)]
pub struct SessionCookie {
    pub name: String,
    pub value: String,
    pub http_only: bool,
    pub same_site_lax: bool,
    pub path: String,
    pub max_age: i64,
}

/// `c` is a session cookie named `name` that carries `value`.
pub open spec fn session_cookie(c: SessionCookie, name: Seq<char>, value: Seq<char>) -> bool {
    &&& c.name@ == name
    &&& c.value@ == value
    &&& c.http_only
    &&& c.same_site_lax
    &&& c.path@ == "/"@
    &&& c.max_age == SESSION_COOKIE_MAX_AGE
}

fn new_session_cookie(name: &str, value: String) -> (c: SessionCookie)
    ensures
        session_cookie(c, name@, value@),
{
    SessionCookie {
        name: String::from_str(name),
        value,
        http_only: true,
        same_site_lax: true,
        path: String::from_str("/"),
        max_age: SESSION_COOKIE_MAX_AGE,
    }
}

/// The two cookies handed to the client when a login starts: the CSRF state
/// and the PKCE code verifier.
pub fn session_cookies(csrf_state: String, code_verifier: String) -> (r: (SessionCookie, SessionCookie))
    ensures
        session_cookie(r.0, csrf_cookie_name(), csrf_state@),
        session_cookie(r.1, verifier_cookie_name(), code_verifier@),
{
    let csrf = new_session_cookie("auth-csrf-state", csrf_state);
    let verifier = new_session_cookie("auth-code-verifier", code_verifier);
    (csrf, verifier)
}

/// `c` tells the client to drop its session cookie named `name`: same scope,
/// no value, no lifetime left.
pub open spec fn discarding_cookie(c: SessionCookie, name: Seq<char>) -> bool {
    &&& c.name@ == name
    &&& c.value@.len() == 0
    &&& c.http_only
    &&& c.same_site_lax
    &&& c.path@ == "/"@
    &&& c.max_age == 0
}

/// The two cookies sent back with every callback response, whatever its
/// outcome: the CSRF state and the code verifier are single-use.
pub fn discard_session_cookies() -> (r: (SessionCookie, SessionCookie))
    ensures
        discarding_cookie(r.0, csrf_cookie_name()),
        discarding_cookie(r.1, verifier_cookie_name()),
{
    let mut csrf = new_session_cookie("auth-csrf-state", String::new());
    csrf.max_age = 0;
    let mut verifier = new_session_cookie("auth-code-verifier", String::new());
    verifier.max_age = 0;
    (csrf, verifier)
}

/// What the token exchange needs: the authorization code and the PKCE verifier.
#[derive(Debug)]
pub struct CodeExchange {
    pub code: String,
    pub code_verifier: String,
}

/// The callback may go on to the token exchange: both session cookies are
/// present and the returned state equals the stored one, exactly.
pub open spec fn callback_accepted(
    csrf_state: Option<String>,
    code_verifier: Option<String>,
    req: AuthRequest,
) -> bool {
    csrf_state is Some && code_verifier is Some && csrf_state->Some_0@ == req.state@
}

/// The error of a rejected callback.
pub open spec fn is_state_mismatch(e: ServiceError) -> bool {
    e is BadRequest && e->BadRequest_0@ == "400 Bad Request"@
}

/// Checks an OAuth2 callback against the session cookies read from the
/// request. Only an accepted callback yields what the token exchange needs,
/// so a rejected one never reaches the identity provider.
pub fn check_callback(
    csrf_state: Option<String>,
    code_verifier: Option<String>,
    req: AuthRequest,
) -> (r: Result<CodeExchange, ServiceError>)
    ensures
        r is Ok <==> callback_accepted(csrf_state, code_verifier, req),
        r matches Ok(x) ==> x.code == req.code && x.code_verifier == code_verifier->Some_0,
        r matches Err(e) ==> is_state_mismatch(e),
{
    match (csrf_state, code_verifier) {
        (Some(state), Some(verifier)) => {
            if state == req.state {
                Ok(CodeExchange { code: req.code, code_verifier: verifier })
            } else {
                Err(ServiceError::BadRequest(String::from_str("400 Bad Request")))
            }
        },
        _ => Err(ServiceError::BadRequest(String::from_str("400 Bad Request"))),
    }
}

/// The email of the external identity: the one key by which it is matched to
/// a local user. A profile without one, or with an empty one, cannot go further.
pub fn identity_email(user_info: &GoogleUser) -> (r: Result<String, ServiceError>)
    ensures
        r is Ok <==> user_info.email is Some && user_info.email->Some_0@.len() > 0,
        r matches Ok(e) ==> e@ == user_info.email->Some_0@,
        r matches Err(e) ==> e is InternalServerError,
{
    match &user_info.email {
        Some(e) => {
            if e.as_str().is_empty() {
                Err(ServiceError::InternalServerError)
            } else {
                Ok(e.clone())
            }
        },
        None => Err(ServiceError::InternalServerError),
    }
}

/// What storage has to do with a verified external identity.
#[derive(Debug)]
pub enum Reconciliation {
    /// The user is already linked to a provider: nothing changes.
    Keep(User),
    /// The user, now linked to the provider: to be updated in storage.
    Link(User),
    /// No user has the email: the record to create.
    Create(CreateUserDTO),
}

/// `v` is `u` linked to Google under subject `sub`, all else unchanged.
pub open spec fn linked(u: User, v: User, sub: String) -> bool {
    &&& v.auth_provider matches Some(p) && p@ == google_provider()
    &&& v.auth_provider_user_id == Some(sub)
    &&& v == (User { auth_provider: v.auth_provider, auth_provider_user_id: v.auth_provider_user_id, ..u })
}

/// `c` is a new user for the external identity: its name and email, an empty
/// password, linked to Google under its subject, no OTP secret.
pub open spec fn created_for(c: CreateUserDTO, user_info: GoogleUser, email: String) -> bool {
    &&& c.name == user_info.name
    &&& c.email == email
    &&& c.password@.len() == 0
    &&& c.auth_provider matches Some(p) && p@ == google_provider()
    &&& c.auth_provider_user_id == Some(user_info.sub)
    &&& c.secret is None
}

/// Maps a verified external identity onto the user that storage found for
/// its email: links a user with no provider yet, keeps one that has a
/// provider (the first link wins), or creates a new user.
pub fn reconcile(existing: Option<User>, user_info: GoogleUser, email: String) -> (r: Reconciliation)
    ensures
        existing is None ==> r is Create && created_for(r->Create_0, user_info, email),
        existing is Some && existing->Some_0.auth_provider is None ==> r is Link && linked(
            existing->Some_0,
            r->Link_0,
            user_info.sub,
        ),
        existing is Some && existing->Some_0.auth_provider is Some ==> r == Reconciliation::Keep(
            existing->Some_0,
        ),
{
    match existing {
        Some(mut x) => {
            if x.auth_provider.is_none() {
                x.auth_provider = Some(String::from_str("google"));
                x.auth_provider_user_id = Some(user_info.sub);
                Reconciliation::Link(x)
            } else {
                Reconciliation::Keep(x)
            }
        },
        None => Reconciliation::Create(
            CreateUserDTO {
                name: user_info.name,
                email,
                password: String::new(),
                auth_provider: Some(String::from_str("google")),
                auth_provider_user_id: Some(user_info.sub),
                secret: None,
            },
        ),
    }
}

} // verus!
