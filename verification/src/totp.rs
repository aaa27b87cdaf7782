//! The TOTP generator of RFC 6238: a secret, a digest choice, a digit count
//! and a period, from which a code is derived for a timestamp by bucketing
//! the time into periods and delegating to the shared derivation routine.

use vstd::prelude::*;

verus! {

use crate::otp_result::OTPResult;
use crate::util::{
    MacDigest, OtpError, base32_bytes_of, base32_decode, base32_ok, derive_code, otp_code,
};
use vstd::slice::slice_to_vec;
use vstd::utf8::encode_utf8;

/// The number of whole periods between `time_start` and `time`: the counter
/// that RFC 6238 feeds to the HOTP derivation.
pub open spec fn spec_time_counter(time: u64, time_start: u64, period: u64) -> u64
    recommends
        period > 0,
        time >= time_start,
{
    (((time - time_start) as int) / (period as int)) as u64
}

/// The seconds left until the code for `time` expires: a full `period` right
/// at a period boundary, and the distance to the next boundary otherwise.
pub open spec fn spec_time_until_refresh(time: u64, time_start: u64, period: u64) -> int
    recommends
        period > 0,
        time >= time_start,
{
    let rem = ((time - time_start) as int) % (period as int);
    if rem == 0 {
        period as int
    } else {
        period - rem
    }
}

/// A TOTP generator.
///
/// Follows the specification listed in RFC 6238: it holds a secret, a digest
/// algorithm, a digit count and a period in seconds. [`TOTP::get_otp`] and
/// [`TOTP::get_otp_with_custom_time_start`] derive the code for a timestamp.
#[derive(Debug, Clone, Hash)]
pub struct TOTP {
    /// The secret key used in the HMAC process.
    secret: Vec<u8>,
    /// The digest to use in the HMAC process; SHA-1 in the defaulted
    /// constructors.
    mac_digest: MacDigest,
    /// The number of digits of the code generated; 6 in the defaulted
    /// constructors.
    digits: u32,
    /// The period in seconds between two generated codes; 30 in the
    /// defaulted constructors.
    period: u64,
}

impl TOTP {
    /// The secret key bytes used in the HMAC process.
    pub closed spec fn spec_secret(self) -> Seq<u8> {
        self.secret@
    }

    /// The digest variant used in the HMAC process.
    pub closed spec fn spec_digest(self) -> MacDigest {
        self.mac_digest
    }

    /// The number of digits of a generated code.
    pub closed spec fn spec_digits(self) -> u32 {
        self.digits
    }

    /// The period in seconds between two generated codes.
    pub closed spec fn spec_period(self) -> u64 {
        self.period
    }

    /// Generates a new TOTP instance from a byte representation of the
    /// secret, a digest algorithm, a digit count and a period in seconds.
    pub fn new(secret: &[u8], mac_digest: MacDigest, digits: u32, period: u64) -> (r: Self)
        ensures
            r.spec_secret() == secret@,
            r.spec_digest() == mac_digest,
            r.spec_digits() == digits,
            r.spec_period() == period,
    {
        TOTP { secret: slice_to_vec(secret), mac_digest, digits, period }
    }

    /// Generates a new TOTP instance from a UTF-8 string secret, a digest
    /// algorithm, a digit count and a period in seconds; the secret bytes
    /// are the string's UTF-8 encoding.
    pub fn new_from_utf8(secret: &str, mac_digest: MacDigest, digits: u32, period: u64) -> (r:
        Self)
        ensures
            r.spec_secret() == encode_utf8(secret@),
            r.spec_digest() == mac_digest,
            r.spec_digits() == digits,
            r.spec_period() == period,
    {
        TOTP::new(secret.as_bytes(), mac_digest, digits, period)
    }

    /// Generates a new TOTP instance from a Base32-encoded string secret, a
    /// digest algorithm, a digit count and a period in seconds.
    ///
    /// Fails with [`OtpError::DecodeError`] exactly when the string is not
    /// valid Base32.
    pub fn new_from_base32(secret: &str, mac_digest: MacDigest, digits: u32, period: u64) -> (r:
        Result<Self, OtpError>)
        ensures
            match r {
                Ok(t) => base32_ok(secret@) && t.spec_secret() == base32_bytes_of(secret@)
                    && t.spec_digest() == mac_digest && t.spec_digits() == digits
                    && t.spec_period() == period,
                Err(e) => !base32_ok(secret@) && e == OtpError::DecodeError,
            },
    {
        match base32_decode(secret) {
            Some(decoded) => Ok(TOTP::new(decoded.as_slice(), mac_digest, digits, period)),
            None => Err(OtpError::DecodeError),
        }
    }

    /// Creates a new TOTP instance from a byte representation of the secret,
    /// with SHA-1, 6 digits and a 30-second period.
    pub fn default_from_secret(secret: &[u8]) -> (r: Self)
        ensures
            r.spec_secret() == secret@,
            r.spec_digest() == MacDigest::SHA1,
            r.spec_digits() == 6,
            r.spec_period() == 30,
    {
        TOTP::default_from_secret_with_digest(secret, MacDigest::SHA1)
    }

    /// Creates a new TOTP instance from a byte representation of the secret
    /// and a digest algorithm, with 6 digits and a 30-second period.
    pub fn default_from_secret_with_digest(secret: &[u8], mac_digest: MacDigest) -> (r: Self)
        ensures
            r.spec_secret() == secret@,
            r.spec_digest() == mac_digest,
            r.spec_digits() == 6,
            r.spec_period() == 30,
    {
        TOTP::new(secret, mac_digest, 6, 30)
    }

    /// Creates a new TOTP instance from a UTF-8 string secret, with SHA-1,
    /// 6 digits and a 30-second period.
    pub fn default_from_utf8(secret: &str) -> (r: Self)
        ensures
            r.spec_secret() == encode_utf8(secret@),
            r.spec_digest() == MacDigest::SHA1,
            r.spec_digits() == 6,
            r.spec_period() == 30,
    {
        TOTP::default_from_utf8_with_digest(secret, MacDigest::SHA1)
    }

    /// Creates a new TOTP instance from a UTF-8 string secret and a digest
    /// algorithm, with 6 digits and a 30-second period.
    pub fn default_from_utf8_with_digest(secret: &str, mac_digest: MacDigest) -> (r: Self)
        ensures
            r.spec_secret() == encode_utf8(secret@),
            r.spec_digest() == mac_digest,
            r.spec_digits() == 6,
            r.spec_period() == 30,
    {
        TOTP::new_from_utf8(secret, mac_digest, 6, 30)
    }

    /// Creates a new TOTP instance from a Base32-encoded string secret, with
    /// SHA-1, 6 digits and a 30-second period.
    ///
    /// Fails with [`OtpError::DecodeError`] exactly when the string is not
    /// valid Base32.
    pub fn default_from_base32(secret: &str) -> (r: Result<Self, OtpError>)
        ensures
            match r {
                Ok(t) => base32_ok(secret@) && t.spec_secret() == base32_bytes_of(secret@)
                    && t.spec_digest() == MacDigest::SHA1 && t.spec_digits() == 6
                    && t.spec_period() == 30,
                Err(e) => !base32_ok(secret@) && e == OtpError::DecodeError,
            },
    {
        TOTP::default_from_base32_with_digest(secret, MacDigest::SHA1)
    }

    /// Creates a new TOTP instance from a Base32-encoded string secret and a
    /// digest algorithm, with 6 digits and a 30-second period.
    ///
    /// Fails with [`OtpError::DecodeError`] exactly when the string is not
    /// valid Base32.
    pub fn default_from_base32_with_digest(secret: &str, mac_digest: MacDigest) -> (r: Result<
        Self,
        OtpError,
    >)
        ensures
            match r {
                Ok(t) => base32_ok(secret@) && t.spec_secret() == base32_bytes_of(secret@)
                    && t.spec_digest() == mac_digest && t.spec_digits() == 6 && t.spec_period()
                    == 30,
                Err(e) => !base32_ok(secret@) && e == OtpError::DecodeError,
            },
    {
        TOTP::new_from_base32(secret, mac_digest, 6, 30)
    }

    /// Gets the algorithm used for code generation.
    pub fn get_digest(&self) -> (r: MacDigest)
        ensures
            r == self.spec_digest(),
    {
        self.mac_digest
    }

    /// Gets the number of digits of the code.
    pub fn get_digits(&self) -> (r: u32)
        ensures
            r == self.spec_digits(),
    {
        self.digits
    }

    /// Gets the period between code changes.
    pub fn get_period(&self) -> (r: u64)
        ensures
            r == self.spec_period(),
    {
        self.period
    }

    /// Returns the time in seconds until an OTP refresh is needed, for the
    /// given system time in seconds.
    pub fn time_until_refresh(&self, time: u64) -> (r: u64)
        requires
            self.spec_period() > 0,
        ensures
            r == spec_time_until_refresh(time, 0, self.spec_period()),
            1 <= r <= self.spec_period(),
    {
        self.time_until_refresh_with_start(time, 0)
    }

    /// Returns the time in seconds until an OTP refresh is needed, for the
    /// given system time and start time, both in seconds.
    ///
    /// Exactly at a period boundary a full period remains, since a fresh
    /// code was just issued.
    pub fn time_until_refresh_with_start(&self, time: u64, time_start: u64) -> (r: u64)
        requires
            self.spec_period() > 0,
            time >= time_start,
        ensures
            r == spec_time_until_refresh(time, time_start, self.spec_period()),
            1 <= r <= self.spec_period(),
    {
        let rem: u64 = (time - time_start) % self.period;
        if rem == 0 {
            self.period
        } else {
            self.period - rem
        }
    }

    /// Generates and returns the TOTP value for the specified time in
    /// seconds, counting periods from time zero.
    pub fn get_otp(&self, time: u64) -> (r: OTPResult)
        requires
            self.spec_period() > 0,
        ensures
            r.spec_digits() == self.spec_digits(),
            r.spec_code() as nat == otp_code(
                self.spec_digest(),
                self.spec_secret(),
                spec_time_counter(time, 0, self.spec_period()),
                self.spec_digits(),
            ),
            r.wf(),
    {
        self.get_otp_with_custom_time_start(time, 0)
    }

    /// Generates and returns the TOTP value for the specified time in
    /// seconds, counting periods from the given start time.
    ///
    /// The result is determined by the configuration and the period bucket
    /// `(time - time_start) / period` alone, and its code always lies below
    /// `10^digits`.
    pub fn get_otp_with_custom_time_start(&self, time: u64, time_start: u64) -> (r: OTPResult)
        requires
            self.spec_period() > 0,
            time >= time_start,
        ensures
            r.spec_digits() == self.spec_digits(),
            r.spec_code() as nat == otp_code(
                self.spec_digest(),
                self.spec_secret(),
                spec_time_counter(time, time_start, self.spec_period()),
                self.spec_digits(),
            ),
            r.wf(),
    {
        let time_count: u64 = (time - time_start) / self.period;
        derive_code(self.secret.as_slice(), time_count, self.digits, &self.mac_digest)
    }
}

} // verus!
