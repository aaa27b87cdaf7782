//! One-time passcode generation: HOTP (RFC 4226) and TOTP (RFC 6238).
//!
//! Both generators share one derivation pipeline: the counter is encoded as
//! eight big-endian bytes, an HMAC over those bytes is computed with the
//! secret, the RFC 4226 dynamic truncation extracts a 31-bit integer from the
//! digest, and that integer is reduced modulo `10^digits`.

pub mod hotp;
pub mod otp_result;
pub mod totp;
pub mod util;
