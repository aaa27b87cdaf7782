//! The HOTP generator of RFC 4226: a secret and a digit count, from which a
//! code is derived for an explicit 64-bit counter.

use vstd::prelude::*;

verus! {

use crate::otp_result::OTPResult;
use crate::util::{
    MacDigest, OtpError, base32_bytes_of, base32_decode, base32_ok, derive_code, otp_code,
};
use vstd::slice::slice_to_vec;
use vstd::utf8::encode_utf8;

/// A HOTP generator.
///
/// Follows the specification listed in RFC 4226: it holds a secret and a
/// digit count, and [`HOTP::get_otp`] derives the code for a counter. The
/// hash is fixed to SHA-1, the only variant RFC 4226 defines.
#[derive(Debug, Clone, Hash)]
pub struct HOTP {
    /// The secret key used in the HMAC process.
    secret: Vec<u8>,
    /// The number of digits of the code generated; 6 in the defaulted
    /// constructors.
    digits: u32,
}

impl HOTP {
    /// The secret key bytes used in the HMAC process.
    pub closed spec fn spec_secret(self) -> Seq<u8> {
        self.secret@
    }

    /// The number of digits of a generated code.
    pub closed spec fn spec_digits(self) -> u32 {
        self.digits
    }

    /// Creates a new HOTP instance from a byte representation of the secret
    /// and the digit count.
    pub fn new(secret: &[u8], digits: u32) -> (r: Self)
        ensures
            r.spec_secret() == secret@,
            r.spec_digits() == digits,
    {
        HOTP { secret: slice_to_vec(secret), digits }
    }

    /// Creates a new HOTP instance from a UTF-8 string secret and the digit
    /// count; the secret bytes are the string's UTF-8 encoding.
    pub fn new_from_utf8(secret: &str, digits: u32) -> (r: Self)
        ensures
            r.spec_secret() == encode_utf8(secret@),
            r.spec_digits() == digits,
    {
        HOTP::new(secret.as_bytes(), digits)
    }

    /// Creates a new HOTP instance from a Base32-encoded string secret and
    /// the digit count.
    ///
    /// Fails with [`OtpError::DecodeError`] exactly when the string is not
    /// valid Base32.
    pub fn new_from_base32(secret: &str, digits: u32) -> (r: Result<Self, OtpError>)
        ensures
            match r {
                Ok(h) => base32_ok(secret@) && h.spec_secret() == base32_bytes_of(secret@)
                    && h.spec_digits() == digits,
                Err(e) => !base32_ok(secret@) && e == OtpError::DecodeError,
            },
    {
        match base32_decode(secret) {
            Some(decoded) => Ok(HOTP::new(decoded.as_slice(), digits)),
            None => Err(OtpError::DecodeError),
        }
    }

    /// Creates a new HOTP instance from a byte representation of the secret
    /// and the default digit count of 6.
    pub fn default_from_secret(secret: &[u8]) -> (r: Self)
        ensures
            r.spec_secret() == secret@,
            r.spec_digits() == 6,
    {
        HOTP::new(secret, 6)
    }

    /// Creates a new HOTP instance from a UTF-8 string secret and the
    /// default digit count of 6.
    pub fn default_from_utf8(secret: &str) -> (r: Self)
        ensures
            r.spec_secret() == encode_utf8(secret@),
            r.spec_digits() == 6,
    {
        HOTP::new_from_utf8(secret, 6)
    }

    /// Creates a new HOTP instance from a Base32-encoded string secret and
    /// the default digit count of 6.
    ///
    /// Fails with [`OtpError::DecodeError`] exactly when the string is not
    /// valid Base32.
    pub fn default_from_base32(secret: &str) -> (r: Result<Self, OtpError>)
        ensures
            match r {
                Ok(h) => base32_ok(secret@) && h.spec_secret() == base32_bytes_of(secret@)
                    && h.spec_digits() == 6,
                Err(e) => !base32_ok(secret@) && e == OtpError::DecodeError,
            },
    {
        HOTP::new_from_base32(secret, 6)
    }

    /// Gets the number of digits of the code.
    pub fn get_digits(&self) -> (r: u32)
        ensures
            r == self.spec_digits(),
    {
        self.digits
    }

    /// Generates and returns the HOTP value for the given counter.
    ///
    /// The result is determined by the secret, the digit count and the
    /// counter alone, and its code always lies below `10^digits`.
    pub fn get_otp(&self, counter: u64) -> (r: OTPResult)
        ensures
            r.spec_digits() == self.spec_digits(),
            r.spec_code() as nat == otp_code(
                MacDigest::SHA1,
                self.spec_secret(),
                counter,
                self.spec_digits(),
            ),
            r.wf(),
    {
        derive_code(self.secret.as_slice(), counter, self.digits, &MacDigest::SHA1)
    }
}

} // verus!
