use vstd::prelude::*;

verus! {

/// HMAC-SHA1 of `msg` under `key`, as hmac and sha1 compute it.
pub uninterp spec fn hmac_sha1_of(key: Seq<u8>, msg: Seq<u8>) -> Seq<u8>;

/// HMAC-SHA256 of `msg` under `key`, as hmac and sha2 compute it.
pub uninterp spec fn hmac_sha256_of(key: Seq<u8>, msg: Seq<u8>) -> Seq<u8>;

/// HMAC-SHA512 of `msg` under `key`, as hmac and sha2 compute it.
pub uninterp spec fn hmac_sha512_of(key: Seq<u8>, msg: Seq<u8>) -> Seq<u8>;

/// Relies on hmac's `Hmac<sha1::Sha1>`: `new_from_slice` takes a key of any
/// length (a long key is hashed first), and `finalize` yields the 20-byte tag.
#[verifier::external_body]
pub(crate) fn hmac_sha1(key: &[u8], msg: &[u8]) -> (r: Option<Vec<u8>>)
    ensures
        r is Some,
        r matches Some(d) ==> d@ == hmac_sha1_of(key@, msg@) && d@.len() == 20,
{
    let mut mac = <hmac::Hmac<sha1::Sha1> as hmac::Mac>::new_from_slice(key).ok()?;
    hmac::Mac::update(&mut mac, msg);
    Some(hmac::Mac::finalize(mac).into_bytes().to_vec())
}

/// Relies on hmac's `Hmac<sha2::Sha256>`: `new_from_slice` takes a key of any
/// length (a long key is hashed first), and `finalize` yields the 32-byte tag.
#[verifier::external_body]
pub(crate) fn hmac_sha256(key: &[u8], msg: &[u8]) -> (r: Option<Vec<u8>>)
    ensures
        r is Some,
        r matches Some(d) ==> d@ == hmac_sha256_of(key@, msg@) && d@.len() == 32,
{
    let mut mac = <hmac::Hmac<sha2::Sha256> as hmac::Mac>::new_from_slice(key).ok()?;
    hmac::Mac::update(&mut mac, msg);
    Some(hmac::Mac::finalize(mac).into_bytes().to_vec())
}

/// Relies on hmac's `Hmac<sha2::Sha512>`: `new_from_slice` takes a key of any
/// length (a long key is hashed first), and `finalize` yields the 64-byte tag.
#[verifier::external_body]
pub(crate) fn hmac_sha512(key: &[u8], msg: &[u8]) -> (r: Option<Vec<u8>>)
    ensures
        r is Some,
        r matches Some(d) ==> d@ == hmac_sha512_of(key@, msg@) && d@.len() == 64,
{
    let mut mac = <hmac::Hmac<sha2::Sha512> as hmac::Mac>::new_from_slice(key).ok()?;
    hmac::Mac::update(&mut mac, msg);
    Some(hmac::Mac::finalize(mac).into_bytes().to_vec())
}

} // verus!
