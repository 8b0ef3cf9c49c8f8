use vstd::prelude::*;

use crate::error::ServiceError;
use crate::model::{BaseResponse, CreateUserDTO, MFAResponse, User, UserDTO};
use crate::otp::{provisioning_url, Hotp, HMAC};
use crate::text::push_char;

verus! {

/// What bcrypt's `verify` reports for a password against a stored hash:
/// `Some(matches)`, or `None` where the hash cannot be read.
pub uninterp spec fn bcrypt_verdict(password: Seq<char>, hash: Seq<char>) -> Option<bool>;

/// Relies on bcrypt's `verify`: it re-hashes the password with the salt and
/// cost read from `hash` and reports whether the two agree; a malformed hash
/// is an error. The outcome depends on the two arguments alone.
#[verifier::external_body]
fn verify_password(password: &str, hash: &str) -> (r: Option<bool>)
    ensures
        r == bcrypt_verdict(password@, hash@),
{
    bcrypt::verify(password.as_bytes(), hash).ok()
}

/// Relies on bcrypt's `hash` with its default cost: the salt is drawn at
/// random, and the text holds cost, salt and digest, so that `verify` of the
/// same password against it recomputes the same digest.
#[verifier::external_body]
fn hash_password(password: &str) -> (r: Option<String>)
    ensures
        r matches Some(h) ==> bcrypt_verdict(password@, h@) == Some(true),
{
    bcrypt::hash(password.as_bytes(), bcrypt::DEFAULT_COST).ok()
}

/// Relies on uuid's `Uuid::new_v4` and its `Display`: a random identifier in
/// hyphenated form, 36 characters.
#[verifier::external_body]
fn new_token() -> (r: String)
    ensures
        r@.len() == 36,
{
    uuid::Uuid::new_v4().to_string()
}

/// Relies on uuid's `Uuid::new_v4` and its `simple` form: a random
/// identifier as 32 hexadecimal digits.
#[verifier::external_body]
fn random_hex() -> (r: String)
    ensures
        r@.len() == 32,
{
    uuid::Uuid::new_v4().simple().to_string()
}

/// A random string of `len` hexadecimal digits.
pub fn generate_random_string(len: usize) -> (r: String)
    ensures
        r@.len() == len,
{
    let mut out = String::new();
    let mut count: usize = 0;
    while count < len
        invariant
            count <= len,
            out@.len() == count,
        decreases len - count,
    {
        let digits = random_hex();
        let ghost before = count;
        let mut j: usize = 0;
        while j < 32 && count < len
            invariant
                digits@.len() == 32,
                j <= 32,
                count <= len,
                count == before + j,
                out@.len() == count,
            decreases 32 - j,
        {
            push_char(&mut out, digits.as_str().get_char(j));
            j = j + 1;
            count = count + 1;
        }
    }
    out
}

/// Length of a newly drawn OTP secret.
pub const OTP_SECRET_LEN: usize = 20;

/// The second factor that a user with an OTP secret has to pass.
pub open spec fn second_factor_text() -> Seq<char> {
    "TOTP"@
}

/// The issuer named in provisioning URLs.
pub open spec fn issuer_text() -> Seq<char> {
    "authservice"@
}

/// `d` is the public profile of `u`.
pub open spec fn profile_of(u: User, d: UserDTO) -> bool {
    d.id == u.id && d.name == u.name && d.email == u.email
}

/// `d` is the profile of `u` asking for the second factor, with no tokens.
pub open spec fn second_factor_required(u: User, d: UserDTO) -> bool {
    &&& profile_of(u, d)
    &&& d.token is None
    &&& d.refresh_token is None
    &&& d.mfa_type matches Some(m) && m@ == second_factor_text()
}

/// `d` is the profile of `u` with a session token and the refresh token.
pub open spec fn session_opened(u: User, d: UserDTO) -> bool {
    &&& profile_of(u, d)
    &&& d.token is Some
    &&& d.refresh_token is Some
    &&& d.mfa_type is None
}

/// The outcome of a local login of `u` when the password check gave `verdict`:
/// a user with an OTP secret is asked for the second factor, whatever the
/// verdict; otherwise a match opens a session, a mismatch is unauthorized and
/// a failed check is a password-hash error.
pub open spec fn login_outcome(u: User, verdict: Option<bool>, r: Result<UserDTO, ServiceError>) -> bool {
    if u.secret is Some {
        r is Ok && second_factor_required(u, r->Ok_0)
    } else {
        match verdict {
            Some(true) => r is Ok && session_opened(u, r->Ok_0),
            Some(false) => r is Err && r->Err_0 is Unauthorized,
            None => r is Err && r->Err_0 is PasswordHash,
        }
    }
}

/// `v` is `u` with the OTP secret set to `secret` and nothing else changed.
pub open spec fn with_secret(u: User, v: User, secret: String) -> bool {
    v == (User { secret: Some(secret), ..u })
}

/// User-facing operations of the service, on records that storage has read.
#[derive(Debug, Clone)]
pub struct UserService {}

impl UserService {
    /// The profile of `user` with a fresh session token and a fresh refresh token.
    pub fn issue_tokens(user: User) -> (r: UserDTO)
        ensures
            session_opened(user, r),
            r.token->Some_0@.len() == 36,
            r.refresh_token->Some_0@.len() == 36,
    {
        let token = new_token();
        let refresh_token = new_token();
        user.into_dto(Some(token), Some(refresh_token), None)
    }

    /// Local login once storage has been asked for the user and, where the user
    /// has no second factor, the password has been checked (`verdict`) and a
    /// session token and a refresh token drawn.
    pub fn decide_login(
        user: User,
        verdict: Option<bool>,
        token: String,
        refresh_token: String,
    ) -> (r: Result<
        UserDTO,
        ServiceError,
    >)
        ensures
            login_outcome(user, verdict, r),
            user.secret is None && verdict == Some(true) ==> r->Ok_0.token == Some(token)
                && r->Ok_0.refresh_token == Some(refresh_token),
    {
        if user.secret.is_some() {
            return Ok(user.into_dto(None, None, Some(String::from_str("TOTP"))));
        }
        match verdict {
            Some(true) => Ok(user.into_dto(Some(token), Some(refresh_token), None)),
            Some(false) => Err(ServiceError::Unauthorized),
            None => Err(ServiceError::PasswordHash),
        }
    }

    /// Local login of the user that storage found for the email (if any).
    /// A user with an OTP secret is asked for the second factor whatever the
    /// password; otherwise the password is checked with bcrypt.
    pub fn login(user: Option<User>, password: &str) -> (r: Result<UserDTO, ServiceError>)
        ensures
            user is None ==> r is Err && r->Err_0 is NotFound && r->Err_0->NotFound_0@
                == "couldn't find corresponding user"@,
            user is Some ==> login_outcome(
                user->Some_0,
                bcrypt_verdict(password@, user->Some_0.password@),
                r,
            ),
            r matches Ok(d) ==> (d.token matches Some(t) ==> t@.len() == 36),
            r matches Ok(d) ==> (d.refresh_token matches Some(t) ==> t@.len() == 36),
    {
        match user {
            None => Err(ServiceError::NotFound(String::from_str("couldn't find corresponding user"))),
            Some(u) => {
                if u.secret.is_some() {
                    return Self::decide_login(u, None, String::new(), String::new());
                }
                let verdict = verify_password(password, u.password.as_str());
                let token = new_token();
                let refresh_token = new_token();
                Self::decide_login(u, verdict, token, refresh_token)
            },
        }
    }

    /// The record to store for a local signup once the password has been
    /// hashed (`hash`, or `None` where hashing failed): the hash in place of
    /// the password, no provider linkage and no OTP secret.
    pub fn signup_record(req: &CreateUserDTO, hash: Option<String>) -> (r: Result<
        CreateUserDTO,
        ServiceError,
    >)
        ensures
            r is Ok <==> hash is Some,
            r matches Ok(c) ==> c.name@ == req.name@ && c.email@ == req.email@ && c.password
                == hash->Some_0 && c.auth_provider is None && c.auth_provider_user_id is None
                && c.secret is None,
            r matches Err(e) ==> e is PasswordHash,
    {
        match hash {
            Some(hash) => Ok(
                CreateUserDTO {
                    email: req.email.clone(),
                    name: req.name.clone(),
                    password: hash,
                    auth_provider: None,
                    auth_provider_user_id: None,
                    secret: None,
                },
            ),
            None => Err(ServiceError::PasswordHash),
        }
    }

    /// The record to store for a local signup: the password replaced by its
    /// bcrypt hash (salted at random), no provider linkage and no OTP secret.
    pub fn create_user(req: &CreateUserDTO) -> (r: Result<CreateUserDTO, ServiceError>)
        ensures
            r matches Ok(c) ==> c.name@ == req.name@ && c.email@ == req.email@
                && c.auth_provider is None && c.auth_provider_user_id is None && c.secret is None,
            r matches Ok(c) ==> bcrypt_verdict(req.password@, c.password@) == Some(true),
            r matches Err(e) ==> e is PasswordHash,
    {
        let hash = hash_password(req.password.as_str());
        Self::signup_record(req, hash)
    }

    /// Enables the second factor with `secret`: the user with it as OTP
    /// secret, to be stored, and the provisioning URL for a SHA-256,
    /// six-digit TOTP.
    pub fn mfa_with_secret(user: User, secret: String) -> (r: (User, BaseResponse<MFAResponse>))
        ensures
            with_secret(user, r.0, secret),
            r.1.response_code == 200,
            r.1.data.url@ == provisioning_url(
                issuer_text(),
                user.email@,
                vstd::utf8::encode_utf8(secret@),
                HMAC::HMACSHA256,
            ),
    {
        let hotp = Hotp::new(
            Some(HMAC::HMACSHA256),
            "authservice",
            user.email.as_str(),
            secret.as_str(),
            6,
        );
        let url = hotp.get_url();
        let user = User { secret: Some(secret), ..user };
        (user, BaseResponse::new(200, MFAResponse { url }))
    }

    /// Enables the second factor with a freshly drawn secret of
    /// `OTP_SECRET_LEN` characters.
    pub fn set_mfa(user: User) -> (r: (User, BaseResponse<MFAResponse>))
        ensures
            r.0.secret is Some,
            r.0.secret->Some_0@.len() == OTP_SECRET_LEN,
            with_secret(user, r.0, r.0.secret->Some_0),
            r.1.response_code == 200,
            r.1.data.url@ == provisioning_url(
                issuer_text(),
                user.email@,
                vstd::utf8::encode_utf8(r.0.secret->Some_0@),
                HMAC::HMACSHA256,
            ),
    {
        let secret = generate_random_string(OTP_SECRET_LEN);
        Self::mfa_with_secret(user, secret)
    }
}

} // verus!
