//! Encoders for the numeric record types, with proved round trips: a
//! line written by an encoder decodes back to the record it came from.

use vstd::prelude::*;
use crate::num::all_digits;
use crate::num::dec_frac_digits;
use crate::num::dec_neg;
use crate::num::dec_of;
use crate::num::dec_parts;
use crate::num::dec_token_ok;
use crate::num::digit_val;
use crate::num::is_digit_char;
use crate::num::pow10;
use crate::num::sign_len;
use crate::num::uint_val;
use crate::num::Decimal;
use crate::text::is_space_char;
use crate::text::line_fields;
use crate::text::split_char;
use crate::text::trimmed;

verus! {

/// The digit character for the value `d`.
pub open spec fn digit_char(d: int) -> char {
    if d == 0 {
        '0'
    } else if d == 1 {
        '1'
    } else if d == 2 {
        '2'
    } else if d == 3 {
        '3'
    } else if d == 4 {
        '4'
    } else if d == 5 {
        '5'
    } else if d == 6 {
        '6'
    } else if d == 7 {
        '7'
    } else if d == 8 {
        '8'
    } else {
        '9'
    }
}

/// The decimal digit string of `n`, most significant digit first.
pub open spec fn spec_uint_str(n: int) -> Seq<char>
    decreases n,
{
    if n < 10 {
        seq![digit_char(n)]
    } else {
        spec_uint_str(n / 10).push(digit_char(n % 10))
    }
}

/// Digit characters read back as the value they were written from.
pub proof fn lemma_digit_char_val(d: int)
    requires
        0 <= d < 10,
    ensures
        is_digit_char(digit_char(d)),
        digit_val(digit_char(d)) == d,
{
}

/// The digit string of `n` holds digits only, is never empty, and reads
/// back as `n`.
pub proof fn lemma_uint_str_reads_back(n: int)
    requires
        n >= 0,
    ensures
        spec_uint_str(n).len() >= 1,
        all_digits(spec_uint_str(n)),
        uint_val(spec_uint_str(n)) == n,
    decreases n,
{
    if n < 10 {
        lemma_digit_char_val(n);
        assert(uint_val(Seq::<char>::empty()) == 0);
        assert(spec_uint_str(n).drop_last() =~= Seq::<char>::empty());
        assert(spec_uint_str(n).last() == digit_char(n));
    } else {
        lemma_uint_str_reads_back(n / 10);
        lemma_digit_char_val(n % 10);
        let s = spec_uint_str(n / 10);
        assert(s.push(digit_char(n % 10)).drop_last() =~= s);
    }
}

/// The string slice holding the digit `d`.
fn digit_str(d: u64) -> (r: &'static str)
    requires
        d < 10,
    ensures
        r@ =~= seq![digit_char(d as int)],
{
    proof {
        reveal_strlit("0");
        reveal_strlit("1");
        reveal_strlit("2");
        reveal_strlit("3");
        reveal_strlit("4");
        reveal_strlit("5");
        reveal_strlit("6");
        reveal_strlit("7");
        reveal_strlit("8");
        reveal_strlit("9");
    }
    if d == 0 {
        "0"
    } else if d == 1 {
        "1"
    } else if d == 2 {
        "2"
    } else if d == 3 {
        "3"
    } else if d == 4 {
        "4"
    } else if d == 5 {
        "5"
    } else if d == 6 {
        "6"
    } else if d == 7 {
        "7"
    } else if d == 8 {
        "8"
    } else {
        "9"
    }
}

/// Writes `n` as its decimal digit string.
pub fn u64_to_string(n: u64) -> (r: String)
    ensures
        r@ == spec_uint_str(n as int),
    decreases n,
{
    if n < 10 {
        digit_str(n).to_owned()
    } else {
        let mut s = u64_to_string(n / 10);
        s.append(digit_str(n % 10));
        proof {
            assert(spec_uint_str((n / 10) as int).push(digit_char((n % 10) as int))
                =~= spec_uint_str((n / 10) as int) + seq![digit_char((n % 10) as int)]);
        }
        s
    }
}

/// Writes `n` as its decimal digit string.
pub fn uint_to_string(n: usize) -> (r: String)
    ensures
        r@ == spec_uint_str(n as int),
{
    u64_to_string(n as u64)
}

/// `k` zero digits.
pub open spec fn zeros(k: int) -> Seq<char>
    decreases k,
{
    if k <= 0 {
        Seq::<char>::empty()
    } else {
        seq!['0'] + zeros(k - 1)
    }
}

/// Zero digits are digits, their count is `k`, and one more goes on
/// either end of the run.
pub proof fn lemma_zeros_props(k: int)
    requires
        k >= 0,
    ensures
        zeros(k).len() == k,
        all_digits(zeros(k)),
        zeros(k + 1) =~= zeros(k) + seq!['0'],
    decreases k,
{
    if k > 0 {
        lemma_zeros_props(k - 1);
        assert(zeros(k) =~= seq!['0'] + zeros(k - 1));
    } else {
        assert(zeros(1) =~= seq!['0'] + zeros(0));
    }
}

/// Leading zero digits do not change a digit string's value.
pub proof fn lemma_uint_val_zeros(s: Seq<char>, k: int)
    requires
        k >= 0,
    ensures
        uint_val(zeros(k) + s) == uint_val(s),
    decreases k, s.len(),
{
    if k == 0 {
        assert(zeros(0) + s =~= s);
    } else if s.len() == 0 {
        assert(zeros(k) + s =~= zeros(k));
        assert(zeros(k) =~= zeros(k - 1) + seq!['0']) by {
            lemma_zeros_props(k - 1);
        }
        assert((zeros(k - 1) + seq!['0']).drop_last() =~= zeros(k - 1));
        lemma_uint_val_zeros(Seq::<char>::empty(), k - 1);
        assert(zeros(k - 1) + Seq::<char>::empty() =~= zeros(k - 1));
    } else {
        assert((zeros(k) + s).drop_last() =~= zeros(k) + s.drop_last());
        lemma_uint_val_zeros(s.drop_last(), k);
        assert((zeros(k) + s).last() == s.last());
    }
}

/// The decimal digit string of `n` has at most `k` digits when `n` is
/// below ten to the `k`.
pub proof fn lemma_uint_str_len_le(n: int, k: int)
    requires
        0 <= n,
        1 <= k,
        n < pow10(k),
    ensures
        spec_uint_str(n).len() <= k,
    decreases n,
{
    if n >= 10 {
        assert(pow10(1) == 10 * pow10(0));
        assert(k >= 2);
        assert(n / 10 < pow10(k - 1));
        lemma_uint_str_len_le(n / 10, k - 1);
    }
}

/// The token a [`Decimal`] is written as: the sign, the integer digits,
/// and, when the fraction has digits, the point and the fraction's value
/// padded with leading zeros to its digit count.
pub open spec fn spec_dec_str(d: Decimal) -> Seq<char> {
    let sign = if d.neg {
        seq!['-']
    } else {
        Seq::<char>::empty()
    };
    let ip = spec_uint_str(d.units as int);
    if d.frac_len == 0 {
        sign + ip
    } else {
        let fp = spec_uint_str(d.frac_num as int);
        sign + ip + seq!['.'] + (zeros(d.frac_len - fp.len()) + fp)
    }
}

/// Writes `d` as a decimal-number token.
pub fn decimal_to_string(d: &Decimal) -> (r: String)
    ensures
        r@ == spec_dec_str(*d),
{
    proof {
        reveal_strlit("-");
        reveal_strlit("");
        reveal_strlit(".");
        reveal_strlit("0");
    }
    let mut s: String = if d.neg {
        "-".to_owned()
    } else {
        "".to_owned()
    };
    proof {
        assert("-"@ =~= seq!['-']);
        assert(""@ =~= Seq::<char>::empty());
    }
    let ip = u64_to_string(d.units);
    s.append(ip.as_str());
    if d.frac_len == 0 {
        proof {
            assert(s@ =~= spec_dec_str(*d));
        }
        s
    } else {
        s.append(".");
        let fp = u64_to_string(d.frac_num);
        let fplen = fp.as_str().unicode_len();
        let ghost base = s@;
        let mut added: u64 = 0;
        let target: u64 = if (fplen as u64) < d.frac_len {
            d.frac_len - fplen as u64
        } else {
            0
        };
        while added < target
            invariant
                0 <= added <= target,
                target == (if (d.frac_len as int - fplen as int) >= 0 {
                    d.frac_len as int - fplen as int
                } else {
                    0
                }),
                s@ == base + zeros(added as int),
                fplen == fp@.len(),
                fp@ == spec_uint_str(d.frac_num as int),
            decreases target - added,
        {
            s.append("0");
            proof {
                reveal_strlit("0");
                assert("0"@ =~= seq!['0']);
                lemma_zeros_props(added as int);
                assert(base + zeros(added as int) + seq!['0'] =~= base + zeros(added + 1));
            }
            added = added + 1;
        }
        s.append(fp.as_str());
        proof {
            let k = if (d.frac_len as int - fplen as int) >= 0 {
                d.frac_len as int - fplen as int
            } else {
                0
            };
            assert(added == k);
            assert(base + zeros(k) + fp@ =~= base + (zeros(k) + fp@));
            if d.frac_len as int - fplen as int >= 0 {
                assert(s@ =~= spec_dec_str(*d));
            } else {
                assert(zeros(d.frac_len - fp@.len()) =~= zeros(0));
                assert(s@ =~= spec_dec_str(*d));
            }
        }
        s
    }
}

/// A decimal-number token written back in reads back as the decimal it
/// was written from, for every well-formed decimal.
#[verifier::rlimit(100)]
pub proof fn lemma_dec_str_reads_back(d: Decimal)
    requires
        d.wf(),
    ensures
        dec_token_ok(spec_dec_str(d)),
        dec_of(spec_dec_str(d)) == d,
{
    let t = spec_dec_str(d);
    let ip = spec_uint_str(d.units as int);
    lemma_uint_str_reads_back(d.units as int);
    lemma_digit_facts();
    let body = t.skip(sign_len(t));
    if d.frac_len == 0 {
        assert(t[sign_len(t)] == ip[0]);
        assert(sign_len(t) == if d.neg {
            1int
        } else {
            0int
        });
        assert(body =~= ip);
        crate::text::lemma_split_no_sep(body, '.');
        assert(dec_parts(t) =~~= seq![ip]);
        assert(dec_neg(t) == d.neg);
        assert(uint_val(Seq::<char>::empty()) == 0);
    } else {
        let fp = spec_uint_str(d.frac_num as int);
        lemma_uint_str_reads_back(d.frac_num as int);
        lemma_uint_str_len_le(d.frac_num as int, d.frac_len as int);
        let k = d.frac_len - fp.len();
        lemma_zeros_props(k as int);
        let padded = zeros(k as int) + fp;
        lemma_uint_val_zeros(fp, k as int);
        assert(t =~= (if d.neg {
            seq!['-']
        } else {
            Seq::<char>::empty()
        }) + ip + seq!['.'] + padded);
        assert(sign_len(t) == if d.neg {
            1int
        } else {
            0int
        });
        assert(body =~= ip + seq!['.'] + padded);
        assert(forall|i: int| 0 <= i < ip.len() ==> body[i] == ip[i] && body[i] != '.');
        assert(body[ip.len() as int] == '.');
        crate::text::lemma_split_first_sep(body, '.', ip.len() as int);
        assert(body.take(ip.len() as int) =~= ip);
        assert(body.skip(ip.len() as int + 1) =~= padded);
        crate::text::lemma_split_no_sep(padded, '.');
        assert(dec_parts(t) =~~= seq![ip, padded]);
        assert(padded.len() == d.frac_len);
        assert(dec_frac_digits(t) == padded);
        assert(dec_neg(t) == d.neg);
    }
}

/// Digit characters are not whitespace, not a point, not a sign and not
/// a tab; the sign and point characters are not whitespace.
pub proof fn lemma_digit_facts()
    ensures
        forall|c: char| is_digit_char(c) ==> !is_space_char(c) && c != '.' && c != '-' && c != '+',
        !is_space_char('-'),
        !is_space_char('.'),
{
}

/// A token that survives a line round trip unchanged: not empty, and
/// free of whitespace characters (which covers the tab separator and the
/// line break).
pub open spec fn token_clean(t: Seq<char>) -> bool {
    t.len() > 0 && (forall|i: int| 0 <= i < t.len() ==> !is_space_char(t[i]))
}

/// The digit string of a non-negative number is a clean token.
pub proof fn lemma_uint_str_clean(n: int)
    requires
        n >= 0,
    ensures
        token_clean(spec_uint_str(n)),
        uint_val(spec_uint_str(n)) == n,
        all_digits(spec_uint_str(n)),
{
    lemma_uint_str_reads_back(n);
    lemma_digit_facts();
}

/// The token of any decimal is clean.
pub proof fn lemma_dec_str_clean(d: Decimal)
    ensures
        token_clean(spec_dec_str(d)),
{
    lemma_digit_facts();
    lemma_uint_str_reads_back(d.units as int);
    if d.frac_len != 0 {
        lemma_uint_str_reads_back(d.frac_num as int);
        lemma_zeros_props(if d.frac_len - spec_uint_str(d.frac_num as int).len() >= 0 {
            d.frac_len - spec_uint_str(d.frac_num as int).len()
        } else {
            0
        });
        assert(forall|i: int| 0 <= i < spec_dec_str(d).len() ==> !is_space_char(spec_dec_str(d)[i]))
            by {
            lemma_zeros_props(0);
        }
    }
}

/// One line from the given tokens, joined with the tab separator.
pub open spec fn spec_join(ts: Seq<Seq<char>>) -> Seq<char>
    decreases ts.len(),
{
    if ts.len() == 0 {
        Seq::<char>::empty()
    } else if ts.len() == 1 {
        ts[0]
    } else {
        ts[0] + seq!['\t'] + spec_join(ts.drop_first())
    }
}

/// Joining one more token appends a tab and the token.
pub proof fn lemma_join_snoc(ts: Seq<Seq<char>>, t: Seq<char>)
    requires
        ts.len() >= 1,
    ensures
        spec_join(ts.push(t)) =~= spec_join(ts) + seq!['\t'] + t,
    decreases ts.len(),
{
    if ts.len() == 1 {
        assert(ts.push(t)[0] == ts[0]);
        assert(ts.push(t).drop_first() =~~= seq![t]);
        assert(spec_join(seq![t]) == t);
        assert(spec_join(ts) == ts[0]);
        assert(spec_join(ts.push(t)) == ts.push(t)[0] + seq!['\t'] + spec_join(
            ts.push(t).drop_first(),
        ));
    } else {
        assert(ts.push(t)[0] == ts[0]);
        assert(ts.push(t).drop_first() =~~= ts.drop_first().push(t));
        lemma_join_snoc(ts.drop_first(), t);
        assert(spec_join(ts.push(t)) == ts.push(t)[0] + seq!['\t'] + spec_join(
            ts.push(t).drop_first(),
        ));
        assert(spec_join(ts) == ts[0] + seq!['\t'] + spec_join(ts.drop_first()));
    }
}

/// A joined line of clean tokens starts and ends with token characters
/// and splits on tabs back into the tokens.
proof fn lemma_join_split(ts: Seq<Seq<char>>)
    requires
        ts.len() >= 1,
        forall|i: int| 0 <= i < ts.len() ==> token_clean(#[trigger] ts[i]),
    ensures
        spec_join(ts).len() > 0,
        spec_join(ts)[0] == ts[0][0],
        spec_join(ts).last() == ts.last().last(),
        split_char(spec_join(ts), '\t') =~~= ts,
    decreases ts.len(),
{
    if ts.len() == 1 {
        crate::text::lemma_split_no_sep(ts[0], '\t');
    } else {
        let rest = spec_join(ts.drop_first());
        lemma_join_split(ts.drop_first());
        let j = spec_join(ts);
        assert(j =~= ts[0] + seq!['\t'] + rest);
        assert(forall|i: int| 0 <= i < ts[0].len() ==> j[i] == ts[0][i] && j[i] != '\t');
        assert(j[ts[0].len() as int] == '\t');
        crate::text::lemma_split_first_sep(j, '\t', ts[0].len() as int);
        assert(j.take(ts[0].len() as int) =~= ts[0]);
        assert(j.skip(ts[0].len() as int + 1) =~= rest);
        assert(j.last() == rest.last());
    }
}

/// A line joined from clean tokens yields those very tokens as its
/// fields.
pub proof fn lemma_join_fields(ts: Seq<Seq<char>>)
    requires
        ts.len() >= 1,
        forall|i: int| 0 <= i < ts.len() ==> token_clean(#[trigger] ts[i]),
    ensures
        line_fields(spec_join(ts)) =~~= ts,
{
    let j = spec_join(ts);
    lemma_join_split(ts);
    crate::text::lemma_trim_start_at(j, 0);
    crate::text::lemma_trim_end_at(j, j.len() as int);
    assert(j.skip(0) =~= j);
    assert(j.take(j.len() as int) =~= j);
    assert(trimmed(j) == j);
    assert forall|i: int| 0 <= i < ts.len() implies trimmed(ts[i]) == ts[i] by {
        crate::text::lemma_trim_start_at(ts[i], 0);
        crate::text::lemma_trim_end_at(ts[i], ts[i].len() as int);
        assert(ts[i].skip(0) =~= ts[i]);
        assert(ts[i].take(ts[i].len() as int) =~= ts[i]);
    }
}

/// Joins the tokens of one line with the tab separator.
pub fn join_tokens(tokens: &Vec<String>) -> (r: String)
    requires
        tokens.len() >= 1,
    ensures
        r@ == spec_join(tokens.deep_view()),
{
    proof {
        assert(tokens.deep_view()[0] == tokens@[0]@);
        assert(tokens.deep_view().take(1) =~~= seq![tokens.deep_view()[0]]);
    }
    let mut s = tokens[0].clone();
    let mut i: usize = 1;
    while i < tokens.len()
        invariant
            1 <= i <= tokens.len(),
            s@ == spec_join(tokens.deep_view().take(i as int)),
        decreases tokens.len() - i,
    {
        s.append("\t");
        s.append(tokens[i].as_str());
        proof {
            reveal_strlit("\t");
            assert("\t"@ =~= seq!['\t']);
            assert(tokens.deep_view()[i as int] == tokens@[i as int]@);
            lemma_join_snoc(tokens.deep_view().take(i as int), tokens.deep_view()[i as int]);
            assert(tokens.deep_view().take(i as int).push(tokens.deep_view()[i as int])
                =~~= tokens.deep_view().take(i as int + 1));
        }
        i = i + 1;
    }
    proof {
        assert(tokens.deep_view().take(tokens.len() as int) =~~= tokens.deep_view());
    }
    s
}

} // verus!
