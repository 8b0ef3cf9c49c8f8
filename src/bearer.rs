use vstd::prelude::*;

use crate::text::push_char;

verus! {

/// The scheme that an `Authorization` header must start with.
pub open spec fn bearer_prefix() -> Seq<char> {
    "Bearer "@
}

/// The token of an `Authorization` header: what follows `Bearer `, or
/// nothing when the header does not start with it (case matters).
pub open spec fn bearer_token_of(header: Seq<char>) -> Option<Seq<char>> {
    if header.len() >= 7 && header.take(7) == bearer_prefix() {
        Some(header.skip(7))
    } else {
        None
    }
}

/// Reads the bearer token out of an `Authorization` header.
pub fn bearer_token(header: &str) -> (r: Option<String>)
    ensures
        r is Some <==> bearer_token_of(header@) is Some,
        r matches Some(t) ==> Some(t@) == bearer_token_of(header@),
{
    let n = header.unicode_len();
    let prefix = "Bearer ";
    proof {
        reveal_strlit("Bearer ");
    }
    if n < 7 {
        return None;
    }
    let mut k: usize = 0;
    while k < 7
        invariant
            n == header@.len(),
            n >= 7,
            prefix@ == bearer_prefix(),
            prefix@.len() == 7,
            k <= 7,
            forall|l: int| 0 <= l < k ==> header@[l] == prefix@[l],
        decreases 7 - k,
    {
        if header.get_char(k) != prefix.get_char(k) {
            proof {
                assert(header@.take(7)[k as int] != bearer_prefix()[k as int]);
            }
            return None;
        }
        k = k + 1;
    }
    assert(header@.take(7) =~= bearer_prefix());
    let mut token = String::new();
    let mut i: usize = 7;
    while i < n
        invariant
            n == header@.len(),
            7 <= i <= n,
            token@ == header@.subrange(7, i as int),
        decreases n - i,
    {
        push_char(&mut token, header.get_char(i));
        assert(header@.subrange(7, i + 1) =~= header@.subrange(7, i as int).push(header@[i as int]));
        i = i + 1;
    }
    assert(token@ =~= header@.skip(7));
    Some(token)
}

} // verus!
