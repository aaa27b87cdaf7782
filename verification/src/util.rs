//! Shared pieces of the code-derivation pipeline: the HMAC dispatch, the
//! RFC 4226 dynamic truncation, the reduction modulo `10^digits`, and the
//! Base32 secret codec.

use vstd::prelude::*;
use hmac::Mac;

verus! {

use vstd::arithmetic::div_mod::lemma_small_mod;
use crate::otp_result::OTPResult;

/// The failures the generators surface.
#[derive(Debug, Clone, Copy, PartialEq, Eq, Structural, Hash)]
pub enum OtpError {
    /// A secret given as Base32 text held a character outside the alphabet.
    DecodeError,
}

/// The keyed-hash variants that RFC 6238 admits for the HMAC step.
///
/// RFC 4226 fixes HOTP to SHA-1; RFC 6238 additionally allows SHA-256 and
/// SHA-512 for TOTP.
#[derive(Debug, Clone, Copy, PartialEq, Eq, Structural, Hash)]
pub enum MacDigest {
    SHA1,
    SHA256,
    SHA512,
}

impl MacDigest {
    /// Number of bytes in a digest of this variant.
    pub open spec fn hash_len(self) -> nat {
        match self {
            MacDigest::SHA1 => 20,
            MacDigest::SHA256 => 32,
            MacDigest::SHA512 => 64,
        }
    }
}

/// `10^n`, the modulus that reduces a truncated hash value to `n` decimal
/// digits.
pub open spec fn pow10(n: nat) -> nat
    decreases n,
{
    if n == 0 {
        1
    } else {
        10 * pow10((n - 1) as nat)
    }
}

pub proof fn lemma_pow10_positive(n: nat)
    ensures
        pow10(n) >= 1,
    decreases n,
{
    if n > 0 {
        lemma_pow10_positive((n - 1) as nat);
    }
}

pub proof fn lemma_pow10_mono(a: nat, b: nat)
    requires
        a <= b,
    ensures
        pow10(a) <= pow10(b),
    decreases b,
{
    lemma_pow10_positive(a);
    if a < b {
        lemma_pow10_mono(a, (b - 1) as nat);
    }
}

pub uninterp spec fn hmac_sha1(key: Seq<u8>, msg: Seq<u8>) -> Seq<u8>;

pub uninterp spec fn hmac_sha256(key: Seq<u8>, msg: Seq<u8>) -> Seq<u8>;

pub uninterp spec fn hmac_sha512(key: Seq<u8>, msg: Seq<u8>) -> Seq<u8>;

/// The HMAC digest of `msg` under `key`, for the variant that `digest`
/// selects.
pub open spec fn hmac_of(digest: MacDigest, key: Seq<u8>, msg: Seq<u8>) -> Seq<u8> {
    match digest {
        MacDigest::SHA1 => hmac_sha1(key, msg),
        MacDigest::SHA256 => hmac_sha256(key, msg),
        MacDigest::SHA512 => hmac_sha512(key, msg),
    }
}

/// Relies on `hmac::Hmac<sha1::Sha1>`: the HMAC-SHA1 digest of the message
/// under the key, 20 bytes, determined by key and message alone; any key
/// length is accepted.
#[verifier::external_body]
fn hmac_sha1_bytes(key: &[u8], msg: &[u8]) -> (r: Vec<u8>)
    ensures
        r@ == hmac_sha1(key@, msg@),
        r@.len() == 20,
{
    let mut mac = hmac::Hmac::<sha1::Sha1>::new_from_slice(key).expect("HMAC accepts any key length");
    mac.update(msg);
    mac.finalize().into_bytes().to_vec()
}

/// Relies on `hmac::Hmac<sha2::Sha256>`: the HMAC-SHA256 digest of the
/// message under the key, 32 bytes, determined by key and message alone; any
/// key length is accepted.
#[verifier::external_body]
fn hmac_sha256_bytes(key: &[u8], msg: &[u8]) -> (r: Vec<u8>)
    ensures
        r@ == hmac_sha256(key@, msg@),
        r@.len() == 32,
{
    let mut mac = hmac::Hmac::<sha2::Sha256>::new_from_slice(key).expect("HMAC accepts any key length");
    mac.update(msg);
    mac.finalize().into_bytes().to_vec()
}

/// Relies on `hmac::Hmac<sha2::Sha512>`: the HMAC-SHA512 digest of the
/// message under the key, 64 bytes, determined by key and message alone; any
/// key length is accepted.
#[verifier::external_body]
fn hmac_sha512_bytes(key: &[u8], msg: &[u8]) -> (r: Vec<u8>)
    ensures
        r@ == hmac_sha512(key@, msg@),
        r@.len() == 64,
{
    let mut mac = hmac::Hmac::<sha2::Sha512>::new_from_slice(key).expect("HMAC accepts any key length");
    mac.update(msg);
    mac.finalize().into_bytes().to_vec()
}

/// Computes the HMAC of `msg` under `secret` with the digest that `digest`
/// selects.
pub fn hash_generic(msg: &[u8], secret: &[u8], digest: &MacDigest) -> (r: Vec<u8>)
    ensures
        r@ == hmac_of(*digest, secret@, msg@),
        r@.len() == digest.hash_len(),
{
    match digest {
        MacDigest::SHA1 => hmac_sha1_bytes(secret, msg),
        MacDigest::SHA256 => hmac_sha256_bytes(secret, msg),
        MacDigest::SHA512 => hmac_sha512_bytes(secret, msg),
    }
}

/// The eight bytes of `x`, most significant first: the HMAC message that
/// RFC 4226 prescribes for a 64-bit counter.
pub open spec fn be_bytes_of(x: u64) -> Seq<u8> {
    seq![
        (x >> 56) as u8,
        (x >> 48) as u8,
        (x >> 40) as u8,
        (x >> 32) as u8,
        (x >> 24) as u8,
        (x >> 16) as u8,
        (x >> 8) as u8,
        x as u8,
    ]
}

/// Encodes a counter as its eight big-endian bytes.
pub fn counter_to_be_bytes(x: u64) -> (r: [u8; 8])
    ensures
        r@ == be_bytes_of(x),
{
    let r: [u8; 8] = [
        (x >> 56) as u8,
        (x >> 48) as u8,
        (x >> 40) as u8,
        (x >> 32) as u8,
        (x >> 24) as u8,
        (x >> 16) as u8,
        (x >> 8) as u8,
        x as u8,
    ];
    proof {
        assert(r@ =~= be_bytes_of(x));
    }
    r
}

/// The 31-bit value that RFC 4226 dynamic truncation extracts from a digest:
/// the low nibble of the last byte picks a four-byte window, which is read
/// big-endian with its top bit cleared.
pub open spec fn truncated31(h: Seq<u8>) -> nat
    recommends
        h.len() >= 20,
{
    let off = (h[h.len() - 1] & 0x0f) as int;
    ((h[off] as nat) * 0x100_0000 + (h[off + 1] as nat) * 0x1_0000 + (h[off + 2] as nat) * 0x100
        + (h[off + 3] as nat)) % 0x8000_0000
}

/// The code that the whole derivation pipeline yields for the given inputs:
/// HMAC over the big-endian counter, dynamic truncation, then reduction
/// modulo `10^digits`.
pub open spec fn otp_code(digest: MacDigest, secret: Seq<u8>, counter: u64, digits: u32) -> nat {
    truncated31(hmac_of(digest, secret, be_bytes_of(counter))) % pow10(digits as nat)
}

/// Every code of the pipeline lies below `10^digits`.
pub proof fn lemma_otp_code_in_range(digest: MacDigest, secret: Seq<u8>, counter: u64, digits: u32)
    ensures
        otp_code(digest, secret, counter, digits) < pow10(digits as nat),
{
    lemma_pow10_positive(digits as nat);
}

/// The four-byte window value reduced to `digits` decimal digits, as
/// [`get_code`] computes it.
pub open spec fn window_code(b: Seq<u8>, digits: u32) -> nat
    recommends
        b.len() == 4,
{
    (((b[0] as nat) * 0x100_0000 + (b[1] as nat) * 0x1_0000 + (b[2] as nat) * 0x100
        + (b[3] as nat)) % 0x8000_0000) % pow10(digits as nat)
}

/// Reduces a four-byte truncation window to a `digits`-digit code: the bytes
/// are read as a big-endian 32-bit integer, the top bit is masked off, and
/// the rest is taken modulo `10^digits`.
///
/// Digit counts of ten or more exceed the 31 bits of entropy the truncation
/// yields, so there the masked value is already the code.
pub fn get_code(bytes: [u8; 4], digits: u32) -> (r: u64)
    ensures
        r == window_code(bytes@, digits),
        r < pow10(digits as nat),
{
    let b0: u8 = bytes[0];
    let b1: u8 = bytes[1];
    let b2: u8 = bytes[2];
    let b3: u8 = bytes[3];
    let value: u32 = (b0 as u32) * 0x100_0000 + (b1 as u32) * 0x1_0000 + (b2 as u32) * 0x100
        + (b3 as u32);
    let masked: u32 = value & 0x7fff_ffff;
    proof {
        assert(value & 0x7fff_ffff == value % 0x8000_0000) by (bit_vector);
    }
    if digits >= 10 {
        proof {
            assert(pow10(10) == 10_000_000_000) by {
                reveal_with_fuel(pow10, 11);
            }
            lemma_pow10_mono(10, digits as nat);
            lemma_small_mod(masked as nat, pow10(digits as nat));
        }
        masked as u64
    } else {
        let m = pow10_u64(digits);
        (masked as u64) % m
    }
}

/// `10^digits` as a machine integer, for the digit counts whose modulus fits.
fn pow10_u64(digits: u32) -> (r: u64)
    requires
        digits < 10,
    ensures
        r == pow10(digits as nat),
        r >= 1,
{
    let mut p: u64 = 1;
    let mut i: u32 = 0;
    while i < digits
        invariant
            i <= digits,
            digits < 10,
            p == pow10(i as nat),
        decreases digits - i,
    {
        proof {
            lemma_pow10_mono(i as nat, 8);
            assert(pow10(8) == 100_000_000) by {
                reveal_with_fuel(pow10, 9);
            }
        }
        p = p * 10;
        i = i + 1;
    }
    proof {
        lemma_pow10_positive(digits as nat);
    }
    p
}

/// The shared derivation routine of RFC 4226 §5.3, which both generators
/// call: encode the counter as eight big-endian bytes, compute the HMAC of
/// those bytes under `secret`, extract 31 bits by dynamic truncation, and
/// reduce modulo `10^digits`.
pub fn derive_code(secret: &[u8], counter: u64, digits: u32, digest: &MacDigest) -> (r: OTPResult)
    ensures
        r.spec_digits() == digits,
        r.spec_code() as nat == otp_code(*digest, secret@, counter, digits),
        r.wf(),
{
    let msg = counter_to_be_bytes(counter);
    let hash = hash_generic(msg.as_slice(), secret, digest);
    let last: u8 = hash[hash.len() - 1];
    let offset: usize = (last & 0xf) as usize;
    proof {
        assert(last & 0xf < 16) by (bit_vector);
    }
    let window: [u8; 4] = [hash[offset], hash[offset + 1], hash[offset + 2], hash[offset + 3]];
    let code = get_code(window, digits);
    proof {
        assert(window@ =~= seq![
            hash@[offset as int],
            hash@[offset + 1],
            hash@[offset + 2],
            hash@[offset + 3],
        ]);
        assert(window_code(window@, digits) == otp_code(*digest, secret@, counter, digits));
    }
    OTPResult::new(digits, code)
}

/// The characters that the RFC 4648 Base32 codec accepts: letters of either
/// case, the digits `2` through `7`, and the `=` pad.
pub open spec fn base32_char_ok(c: char) -> bool {
    ('A' <= c && c <= 'Z') || ('a' <= c && c <= 'z') || ('2' <= c && c <= '7') || c == '='
}

/// Whether every character of `s` lies in the Base32 alphabet; exactly then
/// does the codec accept `s`.
pub open spec fn base32_ok(s: Seq<char>) -> bool {
    forall|i: int| 0 <= i < s.len() ==> base32_char_ok(#[trigger] s[i])
}

/// A string holding even one character outside the Base32 alphabet — the
/// digit `1`, say — is never accepted by the codec.
pub proof fn lemma_base32_rejects_bad_char(s: Seq<char>, i: int)
    requires
        0 <= i < s.len(),
        !base32_char_ok(s[i]),
    ensures
        !base32_ok(s),
{
}

pub uninterp spec fn base32_bytes_of(s: Seq<char>) -> Seq<u8>;

/// Decodes a Base32 string with the RFC 4648 alphabet, without padding.
///
/// Relies on `base32::decode`: it returns `None` exactly when some character
/// falls outside the alphabet (letters of either case, digits `2`-`7`, and
/// `=`), and otherwise the decoded bytes, determined by the input alone.
#[verifier::external_body]
pub fn base32_decode(data: &str) -> (r: Option<Vec<u8>>)
    ensures
        r is Some <==> base32_ok(data@),
        r matches Some(v) ==> v@ == base32_bytes_of(data@),
{
    base32::decode(base32::Alphabet::RFC4648 { padding: false }, data)
}

} // verus!
