use xotp::hotp::HOTP;
use xotp::otp_result::OTPResult;
use xotp::totp::TOTP;
use xotp::util::MacDigest;

#[test]
fn rendering_pads_to_exactly_the_digit_count() {
    let result = OTPResult::new(6, 42);
    assert_eq!(result.as_string(), "000042");
    assert_eq!(result.as_string().len(), 6);
}

#[test]
fn rendering_keeps_full_width_values() {
    let result = OTPResult::new(6, 755224);
    assert_eq!(result.as_string(), "755224");
}

#[test]
fn rendering_of_zero_is_all_zeros() {
    let result = OTPResult::new(8, 0);
    assert_eq!(result.as_string(), "00000000");
}

#[test]
fn rendering_length_matches_for_every_digit_count() {
    let mut modulus: u64 = 1;
    for digits in 1..=10u32 {
        modulus *= 10;
        let result = OTPResult::new(digits, modulus - 1);
        let rendered = result.as_string();
        assert_eq!(rendered.len(), digits as usize);
    }
}

#[test]
fn digit_counts_beyond_the_truncation_entropy_still_render() {
    // The truncated value is below 2^31 < 10^10, so a wider digit count cuts
    // nothing and only adds left zero-padding.
    let wide = HOTP::new(b"wide", 12).get_otp(5);
    let ten = HOTP::new(b"wide", 10).get_otp(5);
    assert_eq!(wide.as_u64(), ten.as_u64());
    assert_eq!(wide.as_string().len(), 12);
    assert!(wide.as_string().starts_with("0"));
}

#[test]
fn accessors_return_the_pair() {
    let result = OTPResult::new(7, 123);
    assert_eq!(result.get_digits(), 7);
    assert_eq!(result.as_u64(), 123);
}

#[test]
fn generated_results_render_with_leading_zeros() {
    // RFC 6238, SHA-1, 8 digits: the code for time 1111111109 is 7081804,
    // which must render as "07081804".
    let totp = TOTP::new_from_utf8("12345678901234567890", MacDigest::SHA1, 8, 30);
    let result = totp.get_otp(1111111109);
    assert_eq!(result.as_u64(), 7081804);
    assert_eq!(result.as_string(), "07081804");

    let hotp = HOTP::new_from_utf8("12345678901234567890", 6);
    assert_eq!(hotp.get_otp(0).as_string(), "755224");
}
