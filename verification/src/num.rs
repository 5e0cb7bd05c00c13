//! Numeric tokens: decimal unsigned integers and plain decimal numbers
//! (an optional sign, integer digits, and an optional fraction).
//!
//! The chart format writes every number in plain decimal notation, so the
//! library models a fractional value exactly as its parts: sign, integer
//! digits and fraction digits.  See [`Decimal`].

use vstd::prelude::*;
use crate::text::split_char;
use crate::text::split_str;

verus! {

/// Whether `c` is a decimal digit.
pub open spec fn is_digit_char(c: char) -> bool {
    '0' <= c && c <= '9'
}

/// The numeric value of the digit `c`.
pub open spec fn digit_val(c: char) -> int {
    c as int - '0' as int
}

/// Whether every character of `s` is a decimal digit.
pub open spec fn all_digits(s: Seq<char>) -> bool {
    forall|i: int| 0 <= i < s.len() ==> is_digit_char(s[i])
}

/// The value of `s` read as decimal digits, most significant first.
pub open spec fn uint_val(s: Seq<char>) -> int
    decreases s.len(),
{
    if s.len() == 0 {
        0
    } else {
        uint_val(s.drop_last()) * 10 + digit_val(s.last())
    }
}

/// Whether `s` is a valid unsigned-integer token whose value fits `u64`.
pub open spec fn u64_token_ok(s: Seq<char>) -> bool {
    s.len() > 0 && all_digits(s) && uint_val(s) <= u64::MAX
}

/// Whether `s` is a valid unsigned-integer token whose value fits `usize`.
pub open spec fn uint_token_ok(s: Seq<char>) -> bool {
    s.len() > 0 && all_digits(s) && uint_val(s) <= usize::MAX
}

/// Reading one more digit extends the value by one decimal place.
pub proof fn lemma_uint_take_succ(s: Seq<char>, i: int)
    requires
        0 <= i < s.len(),
    ensures
        uint_val(s.take(i + 1)) == uint_val(s.take(i)) * 10 + digit_val(s[i]),
{
    assert(s.take(i + 1).drop_last() =~= s.take(i));
    assert(s.take(i + 1).last() == s[i]);
}

/// The value of a digit string is never negative.
pub proof fn lemma_uint_nonneg(s: Seq<char>)
    requires
        all_digits(s),
    ensures
        uint_val(s) >= 0,
    decreases s.len(),
{
    if s.len() > 0 {
        assert(all_digits(s.drop_last()));
        lemma_uint_nonneg(s.drop_last());
    }
}

/// A prefix of a digit string never has a larger value than the whole.
pub proof fn lemma_uint_prefix_le(s: Seq<char>, i: int)
    requires
        all_digits(s),
        0 <= i <= s.len(),
    ensures
        uint_val(s.take(i)) <= uint_val(s),
    decreases s.len() - i,
{
    if i == s.len() {
        assert(s.take(i) =~= s);
    } else {
        lemma_uint_take_succ(s, i);
        assert(all_digits(s.take(i)));
        lemma_uint_nonneg(s.take(i));
        lemma_uint_prefix_le(s, i + 1);
    }
}

/// Ten to the power `n` (one for any `n` below one).
pub open spec fn pow10(n: int) -> int
    decreases n,
{
    if n <= 0 {
        1
    } else {
        10 * pow10(n - 1)
    }
}

/// A digit string's value is below ten to its length.
pub proof fn lemma_uint_val_bound(s: Seq<char>)
    requires
        all_digits(s),
    ensures
        uint_val(s) < pow10(s.len() as int),
    decreases s.len(),
{
    if s.len() > 0 {
        assert(all_digits(s.drop_last()));
        lemma_uint_val_bound(s.drop_last());
        assert(digit_val(s.last()) <= 9);
    }
}

/// Parses `s` as a decimal unsigned integer that fits `u64`.
pub fn parse_u64(s: &str) -> (r: Option<u64>)
    ensures
        r is Some <==> u64_token_ok(s@),
        r matches Some(v) ==> v == uint_val(s@),
{
    let len = s.unicode_len();
    if len == 0 {
        return None;
    }
    let mut acc: u64 = 0;
    let mut i: usize = 0;
    proof {
        assert(s@.take(0) =~= Seq::<char>::empty());
    }
    while i < len
        invariant
            0 <= i <= len,
            len == s@.len(),
            forall|j: int| 0 <= j < i ==> is_digit_char(s@[j]),
            acc == uint_val(s@.take(i as int)),
        decreases len - i,
    {
        let c = s.get_char(i);
        if !(c >= '0' && c <= '9') {
            return None;
        }
        let d: u64 = (c as u32 - 48) as u64;
        if acc > (u64::MAX - d) / 10 {
            proof {
                lemma_uint_take_succ(s@, i as int);
                if all_digits(s@) {
                    lemma_uint_prefix_le(s@, i + 1);
                }
            }
            return None;
        }
        proof {
            lemma_uint_take_succ(s@, i as int);
        }
        acc = acc * 10 + d;
        i = i + 1;
    }
    proof {
        assert(s@.take(len as int) =~= s@);
    }
    Some(acc)
}

/// Parses `s` as a decimal unsigned integer that fits `usize`.
pub fn parse_uint(s: &str) -> (r: Option<usize>)
    ensures
        r is Some <==> uint_token_ok(s@),
        r matches Some(v) ==> v == uint_val(s@),
{
    match parse_u64(s) {
        None => {
            proof {
                if s@.len() > 0 && all_digits(s@) {
                    lemma_uint_nonneg(s@);
                }
            }
            None
        },
        Some(v) => {
            if v <= usize::MAX as u64 {
                Some(v as usize)
            } else {
                None
            }
        },
    }
}

/// A plain decimal number, kept exactly as written: a sign, the value of
/// the digits before the point, and the digits after the point as a value
/// and a digit count.  `1.50` is held as `units == 1`, `frac_num == 50`,
/// `frac_len == 2`.  The chart format writes all of its fractional fields
/// (BPM values, judge parameters, levels, speed multipliers and air
/// heights) in this notation.
#[derive(Clone, Copy, Debug, PartialEq, Eq, Structural)]
pub struct Decimal {
    /// Whether the token carried a leading minus sign.
    pub neg: bool,
    /// The value of the digits before the decimal point.
    pub units: u64,
    /// The value of the digits after the decimal point.
    pub frac_num: u64,
    /// How many digits follow the decimal point.
    pub frac_len: u64,
}

impl Decimal {
    /// Well-formed: the fraction's value fits its declared digit count.
    /// Every decoded decimal is well-formed, and only well-formed
    /// decimals can be written back out.
    pub open spec fn wf(self) -> bool {
        (self.frac_num as int) < pow10(self.frac_len as int)
    }
}

impl Default for Decimal {
    /// The number zero, written without sign, fraction or point.
    fn default() -> (r: Decimal)
        ensures
            r == (Decimal { neg: false, units: 0, frac_num: 0, frac_len: 0 }),
    {
        Decimal { neg: false, units: 0, frac_num: 0, frac_len: 0 }
    }
}

/// How many characters of `s` a leading sign takes: one or none.
pub open spec fn sign_len(s: Seq<char>) -> int {
    if s.len() > 0 && (s[0] == '+' || s[0] == '-') {
        1
    } else {
        0
    }
}

/// Whether `s` carries a leading minus sign.
pub open spec fn dec_neg(s: Seq<char>) -> bool {
    s.len() > 0 && s[0] == '-'
}

/// The parts of `s` after the sign, split on the decimal point.
pub open spec fn dec_parts(s: Seq<char>) -> Seq<Seq<char>> {
    split_char(s.skip(sign_len(s)), '.')
}

/// The digits after the decimal point, or nothing when there is no point.
pub open spec fn dec_frac_digits(s: Seq<char>) -> Seq<char> {
    if dec_parts(s).len() >= 2 {
        dec_parts(s)[1]
    } else {
        Seq::<char>::empty()
    }
}

/// Whether `s` has the shape of a decimal-number token: an optional sign,
/// then digits with at most one decimal point and at least one digit.
pub open spec fn dec_shape_ok(s: Seq<char>) -> bool {
    let p = dec_parts(s);
    if p.len() == 1 {
        p[0].len() > 0 && all_digits(p[0])
    } else if p.len() == 2 {
        all_digits(p[0]) && all_digits(p[1]) && p[0].len() + p[1].len() > 0
    } else {
        false
    }
}

/// Whether `s` is a decimal-number token whose parts fit [`Decimal`].
pub open spec fn dec_token_ok(s: Seq<char>) -> bool {
    dec_shape_ok(s) && uint_val(dec_parts(s)[0]) <= u64::MAX && uint_val(dec_frac_digits(s))
        <= u64::MAX
}

/// The [`Decimal`] value of the token `s`.
pub open spec fn dec_of(s: Seq<char>) -> Decimal {
    Decimal {
        neg: dec_neg(s),
        units: uint_val(dec_parts(s)[0]) as u64,
        frac_num: uint_val(dec_frac_digits(s)) as u64,
        frac_len: dec_frac_digits(s).len() as u64,
    }
}

/// Every decoded decimal token yields a well-formed [`Decimal`].
pub proof fn lemma_dec_of_wf(s: Seq<char>)
    requires
        dec_token_ok(s),
        s.len() <= u64::MAX,
    ensures
        dec_of(s).wf(),
{
    lemma_uint_val_bound(dec_frac_digits(s));
    lemma_uint_nonneg(dec_frac_digits(s));
    if dec_parts(s).len() >= 2 {
        crate::text::lemma_split_piece_len(s.skip(sign_len(s)), '.', 1);
    }
}

/// Parses `s` as a plain decimal number.
pub fn parse_decimal(s: &str) -> (r: Option<Decimal>)
    ensures
        r is Some <==> dec_token_ok(s@),
        r matches Some(d) ==> d == dec_of(s@),
{
    let len = s.unicode_len();
    let mut neg = false;
    let body: &str = if len > 0 && (s.get_char(0) == '+' || s.get_char(0) == '-') {
        neg = s.get_char(0) == '-';
        s.substring_char(1, len)
    } else {
        proof {
            assert(s@.subrange(0, len as int) =~= s@);
        }
        s.substring_char(0, len)
    };
    proof {
        assert(body@ =~= s@.skip(sign_len(s@)));
    }
    let parts = split_str(body, '.');
    if parts.len() == 1 {
        match parse_u64(parts[0].as_str()) {
            None => None,
            Some(u) => Some(Decimal { neg, units: u, frac_num: 0, frac_len: 0 }),
        }
    } else if parts.len() == 2 {
        let iplen = parts[0].as_str().unicode_len();
        let fplen = parts[1].as_str().unicode_len();
        if iplen == 0 && fplen == 0 {
            return None;
        }
        let units: u64 = if iplen == 0 {
            0
        } else {
            match parse_u64(parts[0].as_str()) {
                None => {
                    return None;
                },
                Some(u) => u,
            }
        };
        let frac_num: u64 = if fplen == 0 {
            0
        } else {
            match parse_u64(parts[1].as_str()) {
                None => {
                    return None;
                },
                Some(f) => f,
            }
        };
        Some(Decimal { neg, units, frac_num, frac_len: fplen as u64 })
    } else {
        None
    }
}

} // verus!
