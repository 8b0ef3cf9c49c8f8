use vstd::prelude::*;

verus! {

/// A stored user. Timestamps are Unix times in nanoseconds.
#[derive(Debug)]
pub struct User {
    pub id: i64,
    pub created_at: i128,
    pub modified_at: Option<i128>,
    pub deleted_at: Option<i128>,
    pub name: String,
    pub email: String,
    pub auth_provider: Option<String>,
    pub auth_provider_user_id: Option<String>,
    pub secret: Option<String>,
    pub password: String,
}

/// A lookup of users by email.
#[derive(Debug)]
pub struct UserFilter {
    pub email: String,
}

/// The claims carried by a bearer token.
#[derive(Debug, Clone, Copy, PartialEq, Eq, Structural)]
pub struct CustomTokenClaims {
    pub sub: u64,
    pub iat: usize,
    pub exp: usize,
}

/// A user's public profile, with the tokens issued to them or the second
/// factor they still have to pass.
#[derive(Debug)]
pub struct UserDTO {
    pub id: i64,
    pub name: String,
    pub email: String,
    pub token: Option<String>,
    pub refresh_token: Option<String>,
    pub mfa_type: Option<String>,
}

/// The provisioning URL of a newly enabled second factor.
#[derive(Debug)]
pub struct MFAResponse {
    pub url: String,
}

/// The fields of a user to be created.
#[derive(Debug)]
pub struct CreateUserDTO {
    pub name: String,
    pub email: String,
    pub password: String,
    pub auth_provider: Option<String>,
    pub auth_provider_user_id: Option<String>,
    pub secret: Option<String>,
}

/// A local login attempt.
#[derive(Debug)]
pub struct LoginDTO {
    pub email: String,
    pub password: String,
}

/// The query of an OAuth2 callback.
#[derive(Debug)]
pub struct AuthRequest {
    pub code: String,
    pub state: String,
}

/// The profile that the identity provider returns.
#[derive(Debug)]
pub struct GoogleUser {
    pub sub: String,
    pub name: String,
    pub email: Option<String>,
    pub email_verified: Option<bool>,
    pub picture: String,
}

/// A response body with its response code.
#[derive(Debug)]
pub struct BaseResponse<T> {
    pub response_code: usize,
    pub data: T,
}

impl<T> BaseResponse<T> {
    pub fn new(response_code: usize, data: T) -> (r: Self)
        ensures
            r.response_code == response_code,
            r.data == data,
    {
        BaseResponse { response_code, data }
    }
}

/// An error body: each key with its messages. Keys are unique.
#[derive(Debug)]
pub struct ApiError {
    errors: Vec<(String, Vec<String>)>,
}

impl ApiError {
    /// No key appears twice.
    #[verifier::type_invariant]
    pub closed spec fn keys_unique(&self) -> bool {
        forall|i: int, j: int|
            0 <= i < j < self.errors@.len() ==> self.errors@[i].0@ != self.errors@[j].0@
    }

    /// The keys with their messages.
    pub closed spec fn entries(&self) -> Seq<(String, Vec<String>)> {
        self.errors@
    }

    /// The keys with their messages; no key appears twice.
    pub fn errors(&self) -> (r: &Vec<(String, Vec<String>)>)
        ensures
            r@ == self.entries(),
            forall|i: int, j: int| 0 <= i < j < r@.len() ==> r@[i].0@ != r@[j].0@,
    {
        proof {
            use_type_invariant(self);
        }
        &self.errors
    }

    /// The keys with their messages, taken out of the body.
    pub fn into_errors(self) -> (r: Vec<(String, Vec<String>)>)
        ensures
            r@ == self.entries(),
            forall|i: int, j: int| 0 <= i < j < r@.len() ==> r@[i].0@ != r@[j].0@,
    {
        proof {
            use_type_invariant(&self);
        }
        self.errors
    }

    /// The body of a single error: the key `message` with that one message.
    pub fn new(error: String) -> (r: Self)
        ensures
            r.entries().len() == 1,
            r.entries()[0].0@ == "message"@,
            r.entries()[0].1@.len() == 1,
            r.entries()[0].1@[0]@ == error@,
    {
        let mut messages: Vec<String> = Vec::new();
        messages.push(error);
        let mut errors: Vec<(String, Vec<String>)> = Vec::new();
        errors.push((String::from_str("message"), messages));
        ApiError { errors }
    }
}

impl From<User> for UserDTO {
    fn from(val: User) -> (r: UserDTO) {
        UserDTO {
            id: val.id,
            name: val.name,
            email: val.email,
            token: None,
            refresh_token: None,
            mfa_type: None,
        }
    }
}

impl vstd::std_specs::convert::FromSpecImpl<User> for UserDTO {
    open spec fn obeys_from_spec() -> bool {
        true
    }

    open spec fn from_spec(val: User) -> UserDTO {
        UserDTO {
            id: val.id,
            name: val.name,
            email: val.email,
            token: None,
            refresh_token: None,
            mfa_type: None,
        }
    }
}

impl User {
    /// The public profile of the user, with the given tokens and second factor.
    pub fn into_dto(
        self,
        token: Option<String>,
        refresh_token: Option<String>,
        mfa_type: Option<String>,
    ) -> (r: UserDTO)
        ensures
            r.id == self.id,
            r.name == self.name,
            r.email == self.email,
            r.token == token,
            r.refresh_token == refresh_token,
            r.mfa_type == mfa_type,
    {
        UserDTO { id: self.id, name: self.name, email: self.email, token, refresh_token, mfa_type }
    }
}

} // verus!
