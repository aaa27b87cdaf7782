use xotp::totp::TOTP;
use xotp::util::{MacDigest, OtpError};

const SEED20: &str = "12345678901234567890";
const SEED32: &str = "12345678901234567890123456789012";
const SEED64: &str = "1234567890123456789012345678901234567890123456789012345678901234";

#[test]
fn rfc6238_appendix_b_sha1_vectors() {
    let cases: [(u64, u64); 6] = [
        (59, 94287082),
        (1111111109, 7081804),
        (1111111111, 14050471),
        (1234567890, 89005924),
        (2000000000, 69279037),
        (20000000000, 65353130),
    ];
    let totp = TOTP::new_from_utf8(SEED20, MacDigest::SHA1, 8, 30);
    for (time, want) in cases.iter() {
        assert_eq!(totp.get_otp(*time).as_u64(), *want);
    }
}

#[test]
fn rfc6238_appendix_b_sha256_vectors() {
    let cases: [(u64, u64); 6] = [
        (59, 46119246),
        (1111111109, 68084774),
        (1111111111, 67062674),
        (1234567890, 91819424),
        (2000000000, 90698825),
        (20000000000, 77737706),
    ];
    let totp = TOTP::new_from_utf8(SEED32, MacDigest::SHA256, 8, 30);
    for (time, want) in cases.iter() {
        assert_eq!(totp.get_otp(*time).as_u64(), *want);
    }
}

#[test]
fn rfc6238_appendix_b_sha512_vectors() {
    let cases: [(u64, u64); 6] = [
        (59, 90693936),
        (1111111109, 25091201),
        (1111111111, 99943326),
        (1234567890, 93441116),
        (2000000000, 38618901),
        (20000000000, 47863826),
    ];
    let totp = TOTP::new_from_utf8(SEED64, MacDigest::SHA512, 8, 30);
    for (time, want) in cases.iter() {
        assert_eq!(totp.get_otp(*time).as_u64(), *want);
    }
}

#[test]
fn same_period_bucket_yields_same_code() {
    let totp = TOTP::new_from_utf8(SEED20, MacDigest::SHA1, 6, 30);
    let at_start = totp.get_otp(0);
    let at_end = totp.get_otp(29);
    assert_eq!(at_start.as_u64(), at_end.as_u64());
    let next_bucket = totp.get_otp(30);
    assert_ne!(at_start.as_u64(), next_bucket.as_u64());
}

#[test]
fn custom_time_start_shifts_the_buckets() {
    let totp = TOTP::new_from_utf8(SEED20, MacDigest::SHA1, 8, 30);
    // With the start moved to 41, time 100 falls in bucket (100 - 41) / 30 = 1,
    // the same bucket as time 59 counted from zero.
    assert_eq!(
        totp.get_otp_with_custom_time_start(100, 41).as_u64(),
        totp.get_otp(59).as_u64()
    );
    assert_eq!(totp.get_otp_with_custom_time_start(100, 41).as_u64(), 94287082);
}

#[test]
fn time_until_refresh_at_boundary_is_full_period() {
    let totp = TOTP::default_from_utf8(SEED20);
    assert_eq!(totp.time_until_refresh(0), 30);
    assert_eq!(totp.time_until_refresh(30), 30);
    assert_eq!(totp.time_until_refresh(60), 30);
}

#[test]
fn time_until_refresh_counts_down_to_the_boundary() {
    let totp = TOTP::default_from_utf8(SEED20);
    assert_eq!(totp.time_until_refresh(15), 15);
    assert_eq!(totp.time_until_refresh(29), 1);
    assert_eq!(totp.time_until_refresh(31), 29);
}

#[test]
fn time_until_refresh_respects_custom_start() {
    let totp = TOTP::new_from_utf8(SEED20, MacDigest::SHA1, 6, 30);
    assert_eq!(totp.time_until_refresh_with_start(41, 41), 30);
    assert_eq!(totp.time_until_refresh_with_start(56, 41), 15);
}

#[test]
fn getters_report_configuration() {
    let totp = TOTP::new(b"secret", MacDigest::SHA256, 7, 60);
    assert_eq!(totp.get_digest(), MacDigest::SHA256);
    assert_eq!(totp.get_digits(), 7);
    assert_eq!(totp.get_period(), 60);
}

#[test]
fn default_constructors_use_sha1_six_digits_thirty_seconds() {
    let from_bytes = TOTP::default_from_secret(SEED20.as_bytes());
    assert_eq!(from_bytes.get_digest(), MacDigest::SHA1);
    assert_eq!(from_bytes.get_digits(), 6);
    assert_eq!(from_bytes.get_period(), 30);

    let with_digest = TOTP::default_from_secret_with_digest(SEED32.as_bytes(), MacDigest::SHA256);
    assert_eq!(with_digest.get_digest(), MacDigest::SHA256);
    assert_eq!(with_digest.get_digits(), 6);
    assert_eq!(with_digest.get_period(), 30);

    let from_text = TOTP::default_from_utf8(SEED20);
    assert_eq!(from_text.get_otp(59).as_u64(), from_bytes.get_otp(59).as_u64());

    let text_with_digest = TOTP::default_from_utf8_with_digest(SEED64, MacDigest::SHA512);
    assert_eq!(text_with_digest.get_digest(), MacDigest::SHA512);
}

#[test]
fn base32_constructors_decode_or_fail() {
    // Base32 form of the ASCII seed "12345678901234567890".
    let decoded = TOTP::new_from_base32("GEZDGNBVGY3TQOJQGEZDGNBVGY3TQOJQ", MacDigest::SHA1, 8, 30)
        .unwrap();
    assert_eq!(decoded.get_otp(59).as_u64(), 94287082);

    let defaulted = TOTP::default_from_base32("GEZDGNBVGY3TQOJQGEZDGNBVGY3TQOJQ").unwrap();
    assert_eq!(defaulted.get_digits(), 6);

    let with_digest =
        TOTP::default_from_base32_with_digest("GEZDGNBVGY3TQOJQ", MacDigest::SHA256).unwrap();
    assert_eq!(with_digest.get_digest(), MacDigest::SHA256);

    assert_eq!(
        TOTP::new_from_base32("ABC1", MacDigest::SHA1, 6, 30).unwrap_err(),
        OtpError::DecodeError
    );
    assert_eq!(
        TOTP::default_from_base32("not base32 at all!").unwrap_err(),
        OtpError::DecodeError
    );
    assert_eq!(
        TOTP::default_from_base32_with_digest("1", MacDigest::SHA512).unwrap_err(),
        OtpError::DecodeError
    );
}
