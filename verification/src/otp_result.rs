//! The value a derivation returns: a digit count paired with a numeric code,
//! rendered canonically as exactly `digits` decimal characters.

use vstd::prelude::*;

verus! {

use crate::util::{pow10, lemma_pow10_positive};
use vstd::arithmetic::div_mod::{lemma_div_basics, lemma_div_denominator};

/// The character for one decimal digit.
pub open spec fn dec_digit(d: nat) -> char
    recommends
        d < 10,
{
    if d == 0 {
        '0'
    } else if d == 1 {
        '1'
    } else if d == 2 {
        '2'
    } else if d == 3 {
        '3'
    } else if d == 4 {
        '4'
    } else if d == 5 {
        '5'
    } else if d == 6 {
        '6'
    } else if d == 7 {
        '7'
    } else if d == 8 {
        '8'
    } else {
        '9'
    }
}

/// The decimal rendering of `code` in exactly `width` characters, zero-padded
/// on the left; only the lowest `width` digits of `code` appear.
pub open spec fn dec_string(code: nat, width: nat) -> Seq<char>
    decreases width,
{
    if width == 0 {
        Seq::empty()
    } else {
        dec_string(code / 10, (width - 1) as nat) + seq![dec_digit(code % 10)]
    }
}

/// The rendering is always exactly `width` characters long, whatever the
/// magnitude of `code`.
pub proof fn lemma_dec_string_len(code: nat, width: nat)
    ensures
        dec_string(code, width).len() == width,
    decreases width,
{
    if width > 0 {
        lemma_dec_string_len(code / 10, (width - 1) as nat);
    }
}

/// Peeling the most significant of `i` rendered digits off the front.
proof fn lemma_dec_string_step(c: nat, i: nat)
    requires
        i >= 1,
    ensures
        dec_string(c, i) == seq![dec_digit((c / pow10((i - 1) as nat)) % 10)] + dec_string(
            c,
            (i - 1) as nat,
        ),
    decreases i,
{
    if i == 1 {
        assert(dec_string(c, 0) =~= Seq::<char>::empty());
        assert(dec_string(c / 10, 0) =~= Seq::<char>::empty());
        lemma_div_basics(c as int);
        assert(dec_string(c, 1) =~= seq![dec_digit((c / pow10(0)) % 10)] + dec_string(c, 0));
    } else {
        lemma_dec_string_step(c / 10, (i - 1) as nat);
        lemma_pow10_positive((i - 2) as nat);
        lemma_div_denominator(c as int, 10, pow10((i - 2) as nat) as int);
        assert(pow10((i - 1) as nat) == 10 * pow10((i - 2) as nat));
        assert((c / 10) / pow10((i - 2) as nat) == c / pow10((i - 1) as nat));
        assert(dec_string(c, i) =~= seq![dec_digit((c / pow10((i - 1) as nat)) % 10)]
            + dec_string(c, (i - 1) as nat));
    }
}

/// The ASCII character for one decimal digit.
fn digit_char(d: u64) -> (c: char)
    requires
        d < 10,
    ensures
        c == dec_digit(d as nat),
{
    if d == 0 {
        '0'
    } else if d == 1 {
        '1'
    } else if d == 2 {
        '2'
    } else if d == 3 {
        '3'
    } else if d == 4 {
        '4'
    } else if d == 5 {
        '5'
    } else if d == 6 {
        '6'
    } else if d == 7 {
        '7'
    } else if d == 8 {
        '8'
    } else {
        '9'
    }
}

/// Relies on `String`'s `FromIterator<char>`: collecting characters yields
/// the string of exactly those characters, in order.
#[verifier::external_body]
fn chars_to_string(chars: &Vec<char>) -> (r: String)
    ensures
        r@ == chars@,
{
    chars.iter().collect()
}

/// The outcome of one code derivation: an immutable pair of the digit count
/// and the numeric code, with `code < 10^digits`.
#[derive(Debug, Clone)]
pub struct OTPResult {
    /// The number of characters the rendered code has.
    digits: u32,
    /// The numeric code.
    code: u64,
}

impl OTPResult {
    /// The digit count the result renders with.
    pub closed spec fn spec_digits(self) -> u32 {
        self.digits
    }

    /// The numeric code.
    pub closed spec fn spec_code(self) -> u64 {
        self.code
    }

    /// The value invariant: the code lies below `10^digits`.
    pub open spec fn wf(self) -> bool {
        (self.spec_code() as nat) < pow10(self.spec_digits() as nat)
    }

    /// Creates a new result holding the given digit count and code.
    pub fn new(digits: u32, code: u64) -> (r: Self)
        requires
            (code as nat) < pow10(digits as nat),
        ensures
            r.spec_digits() == digits,
            r.spec_code() == code,
            r.wf(),
    {
        OTPResult { digits, code }
    }

    /// Gets the digit count the code renders with.
    pub fn get_digits(&self) -> (r: u32)
        ensures
            r == self.spec_digits(),
    {
        self.digits
    }

    /// Gets the code as its numeric value.
    pub fn as_u64(&self) -> (r: u64)
        ensures
            r == self.spec_code(),
    {
        self.code
    }

    /// Renders the code as exactly `digits` decimal characters, zero-padded
    /// on the left.
    pub fn as_string(&self) -> (r: String)
        requires
            self.wf(),
        ensures
            r@ == dec_string(self.spec_code() as nat, self.spec_digits() as nat),
            r@.len() == self.spec_digits(),
    {
        let digits: u32 = self.digits;
        let code: u64 = self.code;
        let mut chars: Vec<char> = Vec::new();
        let mut remaining: u64 = code;
        let mut i: u32 = 0;
        proof {
            assert(chars@ =~= dec_string(code as nat, 0));
            lemma_div_basics(code as int);
        }
        while i < digits
            invariant
                i <= digits,
                remaining as nat == (code as nat) / pow10(i as nat),
                chars@ == dec_string(code as nat, i as nat),
            decreases digits - i,
        {
            let d: u64 = remaining % 10;
            let ch = digit_char(d);
            let ghost old_chars = chars@;
            chars.insert(0, ch);
            proof {
                assert(chars@ =~= seq![ch] + old_chars);
                lemma_dec_string_step(code as nat, (i + 1) as nat);
                assert(chars@ =~= dec_string(code as nat, (i + 1) as nat));
                lemma_pow10_positive(i as nat);
                lemma_div_denominator(code as int, pow10(i as nat) as int, 10);
                assert(pow10((i + 1) as nat) == 10 * pow10(i as nat));
            }
            remaining = remaining / 10;
            i = i + 1;
        }
        proof {
            lemma_dec_string_len(code as nat, digits as nat);
        }
        chars_to_string(&chars)
    }
}

} // verus!
