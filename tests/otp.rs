use auth_service::codec::encode_base32;
use auth_service::otp::{dynamic_truncation, Hotp, HMAC};

fn rfc_hotp(counter: u64) -> u64 {
    let val = Hotp::new(
        Some(HMAC::HMACSHA1),
        "authservice",
        "test@mail.com",
        "12345678901234567890",
        6,
    );
    val.hotp(counter).unwrap()
}

#[test]
fn hotp_ok() {
    let val = Hotp::new(
        Some(HMAC::HMACSHA1),
        "authservice",
        "test@mail.com",
        "12345678901234567890",
        6,
    );

    let result = val.hotp(0).unwrap();

    assert_eq!(result, 755224);
}

#[test]
fn totp_ok() {
    let val = Hotp::new(
        None,
        "authservice",
        "test@mail.com",
        "12345678901234567890123456789012",
        8,
    );

    // 1970-01-01T00:00:59Z with a 30-second step
    let unix_time: i64 = 59 / 30;

    let otp = val.hotp(unix_time as u64).unwrap();

    assert_eq!(otp, 46119246);
}

#[test]
fn test_ok_encode_base32() {
    let val = encode_base32(b"Hello World!", true);

    assert_eq!(val, "JBSWY3DPEBLW64TMMQQQ====");
}

#[test]
fn hotp_rfc4226_counters() {
    let expected: [u64; 10] = [
        755224, 287082, 359152, 969429, 338314, 254676, 287922, 162583, 399871, 520489,
    ];
    for (c, want) in expected.iter().enumerate() {
        assert_eq!(rfc_hotp(c as u64), *want);
    }
}

#[test]
fn hotp_depends_on_counter() {
    assert_ne!(rfc_hotp(0), rfc_hotp(1));
    assert_ne!(rfc_hotp(1), rfc_hotp(2));
}

#[test]
fn hotp_stays_below_ten_to_the_digits() {
    for digits in [1u8, 4, 6, 8] {
        let val = Hotp::new(Some(HMAC::HMACSHA512), "i", "a@b.c", "some secret", digits);
        for c in 0..50u64 {
            assert!(val.hotp(c).unwrap() < 10u64.pow(digits as u32));
        }
    }
    for c in 0..50u64 {
        assert!(rfc_hotp(c) <= 999999);
    }
}

#[test]
fn hotp_sha256_and_sha512_rfc6238() {
    let sha256 = Hotp::new(
        Some(HMAC::HMACSHA256),
        "i",
        "a@b.c",
        "12345678901234567890123456789012",
        8,
    );
    assert_eq!(sha256.hotp(1).unwrap(), 46119246);
    let sha512 = Hotp::new(
        Some(HMAC::HMACSHA512),
        "i",
        "a@b.c",
        "1234567890123456789012345678901234567890123456789012345678901234",
        8,
    );
    assert_eq!(sha512.hotp(1).unwrap(), 90693936);
    let sha1 = Hotp::new(Some(HMAC::HMACSHA1), "i", "a@b.c", "12345678901234567890", 8);
    assert_eq!(sha1.hotp(1).unwrap(), 94287082);
}

#[test]
fn truncation_of_rfc4226_example_digest() {
    let digest: [u8; 20] = [
        0x1f, 0x86, 0x98, 0x69, 0x0e, 0x02, 0xca, 0x16, 0x61, 0x85, 0x50, 0xef, 0x7f, 0x19,
        0xda, 0x8e, 0x94, 0x5b, 0x55, 0x5a,
    ];
    assert_eq!(dynamic_truncation(&digest, Some(6)), 872921);
    assert_eq!(dynamic_truncation(&digest, None), 872921);
    assert_eq!(dynamic_truncation(&digest, Some(10)), 1357872921);
    assert_eq!(dynamic_truncation(&digest, Some(12)), 1357872921);
}

#[test]
fn truncation_clears_top_bit() {
    let mut digest = [0xffu8; 20];
    digest[19] = 0xf0;
    assert_eq!(dynamic_truncation(&digest, Some(10)), 0x7fffffff);
}

#[test]
fn base32_rfc4648_vectors() {
    let cases: [(&[u8], &str, &str); 7] = [
        (b"", "", ""),
        (b"f", "MY======", "MY"),
        (b"fo", "MZXQ====", "MZXQ"),
        (b"foo", "MZXW6===", "MZXW6"),
        (b"foob", "MZXW6YQ=", "MZXW6YQ"),
        (b"fooba", "MZXW6YTB", "MZXW6YTB"),
        (b"foobar", "MZXW6YTBOI======", "MZXW6YTBOI"),
    ];
    for (input, padded, bare) in cases {
        assert_eq!(encode_base32(input, true), padded);
        assert_eq!(encode_base32(input, false), bare);
    }
}

#[test]
fn base32_lengths() {
    let data: Vec<u8> = (0..=255u8).collect();
    for n in 0..40usize {
        let bare = encode_base32(&data[..n], false);
        assert_eq!(bare.len(), (n * 8 + 4) / 5);
        let padded = encode_base32(&data[..n], true);
        assert_eq!(padded.len() % 8, 0);
        assert_eq!(padded.len(), 8 * ((n + 4) / 5));
        assert!(padded.starts_with(&bare));
    }
}

#[test]
fn base32_high_bits() {
    assert_eq!(encode_base32(&[0xff, 0xff, 0xff, 0xff, 0xff], false), "77777777");
    assert_eq!(encode_base32(&[0x00], true), "AA======");
}

#[test]
fn provisioning_url() {
    let val = Hotp::new(Some(HMAC::HMACSHA1), "ACME", "john@example.com", "Hello World!", 6);
    assert_eq!(
        val.get_url(),
        "otpauth://totp/ACME:john@example.com?secret=JBSWY3DPEBLW64TMMQQQ&issuer=ACME&algorithm=SHA1&digits=6&period=30"
    );
}

#[test]
fn hash_names_and_default() {
    assert_eq!(HMAC::HMACSHA1.to_string(), "SHA1");
    assert_eq!(HMAC::HMACSHA256.to_string(), "SHA256");
    assert_eq!(HMAC::HMACSHA512.to_string(), "SHA512");
    let val = Hotp::new(None, "i", "e", "s", 6);
    assert_eq!(val.hash_function, HMAC::HMACSHA256);
    assert_eq!(val.otp_code_len, 6);
    assert_eq!(val.secret, "s");
}
