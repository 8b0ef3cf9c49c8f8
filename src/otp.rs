use vstd::prelude::*;

use crate::codec::{base32, encode_base32};
use crate::digest::{
    hmac_sha1, hmac_sha1_of, hmac_sha256, hmac_sha256_of, hmac_sha512, hmac_sha512_of,
};

verus! {

/// The hash strength behind an OTP's HMAC.
#[derive(Debug, Clone, Copy, PartialEq, Eq, Structural)]
pub enum HMAC {
    HMACSHA256,
    HMACSHA1,
    HMACSHA512,
}

/// The algorithm name that authenticator apps expect.
pub open spec fn algorithm_name(h: HMAC) -> Seq<char> {
    match h {
        HMAC::HMACSHA256 => "SHA256"@,
        HMAC::HMACSHA1 => "SHA1"@,
        HMAC::HMACSHA512 => "SHA512"@,
    }
}

/// The HMAC tag of `msg` under `key` with the given hash strength.
pub open spec fn hmac_of(h: HMAC, key: Seq<u8>, msg: Seq<u8>) -> Seq<u8> {
    match h {
        HMAC::HMACSHA256 => hmac_sha256_of(key, msg),
        HMAC::HMACSHA1 => hmac_sha1_of(key, msg),
        HMAC::HMACSHA512 => hmac_sha512_of(key, msg),
    }
}

impl HMAC {
    /// The algorithm name used in a provisioning URL.
    pub fn to_string(&self) -> (r: String)
        ensures
            r@ == algorithm_name(*self),
    {
        match self {
            HMAC::HMACSHA256 => String::from_str("SHA256"),
            HMAC::HMACSHA1 => String::from_str("SHA1"),
            HMAC::HMACSHA512 => String::from_str("SHA512"),
        }
    }
}

/// `base` raised to `exp`.
pub open spec fn power(base: nat, exp: nat) -> nat
    decreases exp,
{
    if exp == 0 {
        1
    } else {
        base * power(base, (exp - 1) as nat)
    }
}

/// Raising a base of at least one to a larger exponent gives no less.
pub proof fn lemma_power_monotonic(base: nat, a: nat, b: nat)
    requires
        base >= 1,
        a <= b,
    ensures
        power(base, a) <= power(base, b),
    decreases b,
{
    if a < b {
        lemma_power_monotonic(base, a, (b - 1) as nat);
        assert(power(base, (b - 1) as nat) <= base * power(base, (b - 1) as nat)) by (nonlinear_arith)
            requires
                base >= 1,
        ;
    }
}

/// The eight bytes of `c`, most significant first.
pub open spec fn be_bytes(c: u64) -> Seq<u8> {
    Seq::new(8, |k: int| ((c >> ((8 * (7 - k)) as u64)) & 0xffu64) as u8)
}

/// Distinct moving factors reach the HMAC as distinct messages: the whole
/// counter is fed to the digest, so nothing in the construction makes two
/// counters share a code; equal codes come only from the digests themselves.
pub proof fn lemma_moving_factor_distinct(c1: u64, c2: u64)
    requires
        c1 != c2,
    ensures
        be_bytes(c1) != be_bytes(c2),
{
    if be_bytes(c1) =~= be_bytes(c2) {
        let (a, b) = (be_bytes(c1), be_bytes(c2));
        assert(a[0] == b[0] && a[1] == b[1] && a[2] == b[2] && a[3] == b[3]);
        assert(a[4] == b[4] && a[5] == b[5] && a[6] == b[6] && a[7] == b[7]);
        assert(c1 == c2) by (bit_vector)
            requires
                ((c1 >> 56u64) & 0xffu64) as u8 == ((c2 >> 56u64) & 0xffu64) as u8,
                ((c1 >> 48u64) & 0xffu64) as u8 == ((c2 >> 48u64) & 0xffu64) as u8,
                ((c1 >> 40u64) & 0xffu64) as u8 == ((c2 >> 40u64) & 0xffu64) as u8,
                ((c1 >> 32u64) & 0xffu64) as u8 == ((c2 >> 32u64) & 0xffu64) as u8,
                ((c1 >> 24u64) & 0xffu64) as u8 == ((c2 >> 24u64) & 0xffu64) as u8,
                ((c1 >> 16u64) & 0xffu64) as u8 == ((c2 >> 16u64) & 0xffu64) as u8,
                ((c1 >> 8u64) & 0xffu64) as u8 == ((c2 >> 8u64) & 0xffu64) as u8,
                ((c1 >> 0u64) & 0xffu64) as u8 == ((c2 >> 0u64) & 0xffu64) as u8,
        ;
    }
}

/// The offset that dynamic truncation reads from: the low nibble of the last byte.
pub open spec fn truncation_offset(d: Seq<u8>) -> int {
    (d.last() % 16) as int
}

/// RFC 4226 dynamic truncation: four bytes from the offset, big-endian, the
/// top bit of the first cleared, giving a 31-bit value.
pub open spec fn truncated_value(d: Seq<u8>) -> nat {
    let o = truncation_offset(d);
    (d[o] % 128) as nat * 0x1000000 + d[o + 1] as nat * 0x10000 + d[o + 2] as nat * 0x100
        + d[o + 3] as nat
}

/// A digest long enough for dynamic truncation to read its four bytes.
pub open spec fn truncatable(d: Seq<u8>) -> bool {
    d.len() >= 1 && truncation_offset(d) + 4 <= d.len()
}

/// The OTP of a digest: its truncated value modulo `10^digits`.
pub open spec fn otp_of_digest(d: Seq<u8>, digits: nat) -> nat {
    truncated_value(d) % power(10, digits)
}

/// The HOTP value of `key` at moving factor `c`.
pub open spec fn hotp_value(h: HMAC, key: Seq<u8>, c: u64, digits: nat) -> nat {
    otp_of_digest(hmac_of(h, key, be_bytes(c)), digits)
}

/// The provisioning URL read by authenticator apps.
pub open spec fn provisioning_url(
    issuer: Seq<char>,
    email: Seq<char>,
    secret: Seq<u8>,
    h: HMAC,
) -> Seq<char> {
    "otpauth://totp/"@ + issuer + ":"@ + email + "?secret="@ + base32(secret, false) + "&issuer="@
        + issuer + "&algorithm="@ + algorithm_name(h) + "&digits=6&period=30"@
}

/// Length of a TOTP time step, in seconds.
pub const TIME_STEP: u64 = 30;

/// Failure to set up the HMAC.
#[derive(Debug, Clone, Copy, PartialEq, Eq, Structural)]
pub enum OtpError {
    CryptoSetup,
}

/// An HMAC-based one-time-password generator for one account.
#[derive(Debug)]
pub struct Hotp {
    pub hash_function: HMAC,
    pub issuer: String,
    pub target_email: String,
    pub secret: String,
    pub otp_code_len: u8,
}

impl Hotp {
    /// The HMAC key: the UTF-8 bytes of the secret.
    pub open spec fn key(&self) -> Seq<u8> {
        vstd::utf8::encode_utf8(self.secret@)
    }

    /// Builds a generator; the hash strength defaults to SHA-256.
    pub fn new(
        hash_function: Option<HMAC>,
        issuer: &str,
        target_email: &str,
        secret: &str,
        otp_code_len: u8,
    ) -> (r: Self)
        ensures
            r.hash_function == match hash_function {
                Some(h) => h,
                None => HMAC::HMACSHA256,
            },
            r.issuer@ == issuer@,
            r.target_email@ == target_email@,
            r.secret@ == secret@,
            r.otp_code_len == otp_code_len,
    {
        Hotp {
            hash_function: match hash_function {
                Some(h) => h,
                None => HMAC::HMACSHA256,
            },
            issuer: String::from_str(issuer),
            target_email: String::from_str(target_email),
            secret: String::from_str(secret),
            otp_code_len,
        }
    }

    /// The RFC 4226 HOTP value for `moving_factor`, as a number below
    /// `10^otp_code_len` (zero-padding it is up to the caller).
    pub fn hotp(&self, moving_factor: u64) -> (r: Result<u64, OtpError>)
        ensures
            r is Ok,
            r matches Ok(v) ==> v == hotp_value(
                self.hash_function,
                self.key(),
                moving_factor,
                self.otp_code_len as nat,
            ),
            r matches Ok(v) ==> v < power(10, self.otp_code_len as nat),
    {
        let msg = be_bytes_of(moving_factor);
        let key = self.secret.as_str().as_bytes();
        let digest = match self.hash_function {
            HMAC::HMACSHA256 => hmac_sha256(key, msg.as_slice()),
            HMAC::HMACSHA1 => hmac_sha1(key, msg.as_slice()),
            HMAC::HMACSHA512 => hmac_sha512(key, msg.as_slice()),
        };
        match digest {
            Some(d) => {
                let v = dynamic_truncation(d.as_slice(), Some(self.otp_code_len));
                Ok(v)
            },
            None => Err(OtpError::CryptoSetup),
        }
    }

    /// The RFC 6238 TOTP value at `unix_time`: the HOTP value of the number
    /// of whole 30-second steps since the Unix epoch.
    pub fn totp(&self, unix_time: u64) -> (r: Result<u64, OtpError>)
        ensures
            r is Ok,
            r matches Ok(v) ==> v == hotp_value(
                self.hash_function,
                self.key(),
                unix_time / TIME_STEP,
                self.otp_code_len as nat,
            ),
    {
        self.hotp(unix_time / TIME_STEP)
    }

    /// The `otpauth://` provisioning URL: base32 secret without padding,
    /// issuer, account, algorithm, six digits and a 30-second period.
    pub fn get_url(&self) -> (r: String)
        ensures
            r@ == provisioning_url(
                self.issuer@,
                self.target_email@,
                self.key(),
                self.hash_function,
            ),
    {
        let secret = encode_base32(self.secret.as_str().as_bytes(), false);
        let mut url = String::from_str("otpauth://totp/");
        url.append(self.issuer.as_str());
        url.append(":");
        url.append(self.target_email.as_str());
        url.append("?secret=");
        url.append(secret.as_str());
        url.append("&issuer=");
        url.append(self.issuer.as_str());
        url.append("&algorithm=");
        url.append(self.hash_function.to_string().as_str());
        url.append("&digits=6&period=30");
        url
    }
}

fn be_bytes_of(c: u64) -> (r: Vec<u8>)
    ensures
        r@ == be_bytes(c),
{
    let mut r: Vec<u8> = Vec::new();
    let mut k: u64 = 0;
    while k < 8
        invariant
            k <= 8,
            r@ == be_bytes(c).take(k as int),
        decreases 8 - k,
    {
        r.push(((c >> (8 * (7 - k))) & 0xffu64) as u8);
        assert(be_bytes(c).take(k as int + 1) =~= be_bytes(c).take(k as int).push(
            ((c >> (8 * (7 - k))) & 0xffu64) as u8,
        ));
        k = k + 1;
    }
    assert(r@ =~= be_bytes(c));
    r
}

/// Dynamic truncation of an HMAC digest, reduced modulo `10^digit`
/// (six digits when `digit` is absent).
pub fn dynamic_truncation(val: &[u8], digit: Option<u8>) -> (r: u64)
    requires
        truncatable(val@),
    ensures
        r == otp_of_digest(val@, digit.unwrap_or(6) as nat),
        r < power(10, digit.unwrap_or(6) as nat),
{
    let offset: usize = (val[val.len() - 1] % 16) as usize;
    let value: u64 = (val[offset] % 128) as u64 * 0x1000000 + val[offset + 1] as u64 * 0x10000
        + val[offset + 2] as u64 * 0x100 + val[offset + 3] as u64;
    assert(value == truncated_value(val@));
    assert(value < 0x80000000);
    let digits: u8 = match digit {
        Some(d) => d,
        None => 6,
    };
    proof {
        reveal_with_fuel(power, 11);
        assert(power(10, 10) == 10000000000);
        assert(power(10, 9) == 1000000000);
    }
    if digits >= 10 {
        proof {
            lemma_power_monotonic(10, 10, digits as nat);
            vstd::arithmetic::div_mod::lemma_small_mod(value as nat, power(10, digits as nat));
        }
        value
    } else {
        proof {
            lemma_power_monotonic(10, digits as nat, 9);
        }
        value % pow(10, digits as u64)
    }
}

/// `base` raised to `exp`; the caller keeps the result within `u64`.
fn pow(base: u64, exp: u64) -> (r: u64)
    requires
        power(base as nat, exp as nat) <= u64::MAX,
    ensures
        r == power(base as nat, exp as nat),
{
    let mut result: u64 = 1;
    let mut k: u64 = 0;
    while k < exp
        invariant
            k <= exp,
            power(base as nat, exp as nat) <= u64::MAX,
            result == power(base as nat, k as nat),
        decreases exp - k,
    {
        proof {
            if base >= 1 {
                lemma_power_monotonic(base as nat, (k + 1) as nat, exp as nat);
            }
            assert(power(base as nat, (k + 1) as nat) == base * power(base as nat, k as nat));
            assert(result * base == base * result) by (nonlinear_arith);
        }
        result = result * base;
        k = k + 1;
    }
    result
}

} // verus!
