use vstd::prelude::*;

verus! {

/// The failures that the service reports to its callers.
#[derive(Debug)]
pub enum ServiceError {
    Unauthorized,
    InvalidLoginAttmpt,
    Forbidden,
    ForbiddenWithMessage(String),
    NotFound(String),
    ApplicationStartup(String),
    BadRequest(String),
    InternalServerError,
    InternalServerErrorWithContext(String),
    ObjectConflict(String),
    UnprocessableEntity { errors: String },
    /// A failure of a collaborator (storage, identity provider), with its text.
    Upstream(String),
    /// A failure of the password-hash primitive.
    PasswordHash,
}

/// Whether `t` occurs in `s` at position `i`.
pub open spec fn occurs_at(s: Seq<char>, t: Seq<char>, i: int) -> bool {
    0 <= i && i + t.len() <= s.len() && s.subrange(i, i + t.len()) == t
}

/// Whether `t` occurs somewhere in `s`.
pub open spec fn text_contains(s: Seq<char>, t: Seq<char>) -> bool {
    exists|i: int| occurs_at(s, t, i)
}

/// The text by which storage reports a duplicate key.
pub open spec fn duplicate_key_marker() -> Seq<char> {
    "unique constraint"@
}

/// The human-readable text of an error.
pub open spec fn error_text(e: ServiceError) -> Seq<char> {
    match e {
        ServiceError::Unauthorized => "authentication is required to access this resource"@,
        ServiceError::InvalidLoginAttmpt => "username or password is incorrect"@,
        ServiceError::Forbidden => "user does not have privilege to access this resource"@,
        ServiceError::ForbiddenWithMessage(m) => "user does not have privilege to access this resource: "@
            + m@,
        ServiceError::NotFound(m) => m@,
        ServiceError::ApplicationStartup(m) => m@,
        ServiceError::BadRequest(m) => m@,
        ServiceError::InternalServerError => "unexpected error has occurred"@,
        ServiceError::InternalServerErrorWithContext(m) => m@,
        ServiceError::ObjectConflict(m) => m@,
        ServiceError::UnprocessableEntity { errors } => "unprocessable request has occurred"@,
        ServiceError::Upstream(m) => m@,
        ServiceError::PasswordHash => "password hashing failed"@,
    }
}

/// The HTTP status of an error: a duplicate key reported by storage is a bad
/// request, and a kind without a status of its own is an internal error.
pub open spec fn error_status(e: ServiceError) -> u16 {
    match e {
        ServiceError::InternalServerErrorWithContext(_) => 500,
        ServiceError::NotFound(_) => 404,
        ServiceError::ObjectConflict(_) => 409,
        ServiceError::InvalidLoginAttmpt => 400,
        ServiceError::Unauthorized => 401,
        ServiceError::Upstream(m) => if text_contains(m@, duplicate_key_marker()) {
            400
        } else {
            500
        },
        ServiceError::ForbiddenWithMessage(_) => 403,
        ServiceError::BadRequest(_) => 400,
        _ => 500,
    }
}

/// The message sent with an error: its text, prefixed for the kinds that
/// have no status of their own.
pub open spec fn error_message(e: ServiceError) -> Seq<char> {
    match e {
        ServiceError::InternalServerErrorWithContext(_) | ServiceError::NotFound(_)
        | ServiceError::ObjectConflict(_) | ServiceError::InvalidLoginAttmpt
        | ServiceError::Unauthorized | ServiceError::Upstream(_)
        | ServiceError::ForbiddenWithMessage(_) | ServiceError::BadRequest(_) => error_text(e),
        _ => "unexpected error: "@ + error_text(e),
    }
}

/// Whether `t` occurs in `s`.
pub fn contains_text(s: &str, t: &str) -> (r: bool)
    ensures
        r == text_contains(s@, t@),
{
    let n = s.unicode_len();
    let m = t.unicode_len();
    if m > n {
        return false;
    }
    let mut i: usize = 0;
    while i <= n - m
        invariant
            n == s@.len(),
            m == t@.len(),
            m <= n,
            i <= n - m + 1,
            forall|j: int| 0 <= j < i ==> !occurs_at(s@, t@, j),
        decreases n - m + 1 - i,
    {
        let mut k: usize = 0;
        let mut same = true;
        while k < m && same
            invariant
                n == s@.len(),
                m == t@.len(),
                i + m <= n,
                k <= m,
                same == forall|l: int| 0 <= l < k ==> s@[i + l] == t@[l],
            decreases m - k,
        {
            if s.get_char(i + k) != t.get_char(k) {
                same = false;
            }
            k = k + 1;
        }
        if same {
            assert(s@.subrange(i as int, i + m) =~= t@);
            assert(occurs_at(s@, t@, i as int));
            return true;
        }
        assert(!occurs_at(s@, t@, i as int)) by {
            let l = choose|l: int| 0 <= l < k && s@[i + l] != t@[l];
            if s@.subrange(i as int, i + m) == t@ {
                assert(s@.subrange(i as int, i + m)[l] == s@[i + l]);
            }
        }
        i = i + 1;
    }
    false
}

impl ServiceError {
    /// The error for a failure that storage reported with `text`: a
    /// duplicate key is an object conflict, anything else an upstream failure.
    pub fn from_storage(text: String) -> (r: ServiceError)
        ensures
            text_contains(text@, duplicate_key_marker()) ==> r is ObjectConflict
                && r->ObjectConflict_0@ == text@,
            !text_contains(text@, duplicate_key_marker()) ==> r is Upstream && r->Upstream_0@
                == text@,
    {
        if contains_text(text.as_str(), "unique constraint") {
            ServiceError::ObjectConflict(text)
        } else {
            ServiceError::Upstream(text)
        }
    }

    /// The human-readable text of the error.
    pub fn message(&self) -> (r: String)
        ensures
            r@ == error_text(*self),
    {
        match self {
            ServiceError::Unauthorized => String::from_str(
                "authentication is required to access this resource",
            ),
            ServiceError::InvalidLoginAttmpt => String::from_str("username or password is incorrect"),
            ServiceError::Forbidden => String::from_str(
                "user does not have privilege to access this resource",
            ),
            ServiceError::ForbiddenWithMessage(m) => {
                let mut r = String::from_str(
                    "user does not have privilege to access this resource: ",
                );
                r.append(m.as_str());
                r
            },
            ServiceError::NotFound(m) => m.clone(),
            ServiceError::ApplicationStartup(m) => m.clone(),
            ServiceError::BadRequest(m) => m.clone(),
            ServiceError::InternalServerError => String::from_str("unexpected error has occurred"),
            ServiceError::InternalServerErrorWithContext(m) => m.clone(),
            ServiceError::ObjectConflict(m) => m.clone(),
            ServiceError::UnprocessableEntity { errors } => String::from_str(
                "unprocessable request has occurred",
            ),
            ServiceError::Upstream(m) => m.clone(),
            ServiceError::PasswordHash => String::from_str("password hashing failed"),
        }
    }

    /// The HTTP status and message that report the error.
    pub fn status_and_message(&self) -> (r: (u16, String))
        ensures
            r.0 == error_status(*self),
            r.1@ == error_message(*self),
    {
        let text = self.message();
        match self {
            ServiceError::InternalServerErrorWithContext(_) => (500, text),
            ServiceError::NotFound(_) => (404, text),
            ServiceError::ObjectConflict(_) => (409, text),
            ServiceError::InvalidLoginAttmpt => (400, text),
            ServiceError::Unauthorized => (401, text),
            ServiceError::Upstream(m) => {
                if contains_text(m.as_str(), "unique constraint") {
                    (400, text)
                } else {
                    (500, text)
                }
            },
            ServiceError::ForbiddenWithMessage(_) => (403, text),
            ServiceError::BadRequest(_) => (400, text),
            _ => {
                let mut r = String::from_str("unexpected error: ");
                r.append(text.as_str());
                (500, r)
            },
        }
    }
}

} // verus!
