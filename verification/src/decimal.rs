//! Decimal numerals as the editor's text fields hold them.
//!
//! The floor form shows its vertex indices as comma-separated decimal
//! numbers, so the crate needs to render an index to its numeral and to
//! read a numeral back. A numeral is an optional leading `'+'` followed
//! by one or more digits; rendering always produces the canonical form
//! without a sign and without leading zeros (except for `"0"` itself).

use vstd::prelude::*;

verus! {

/// The characters `'0'` through `'9'`.
pub open spec fn is_dec_digit(c: char) -> bool {
    '0' <= c && c <= '9'
}

/// Numeric value of a digit character.
pub open spec fn digit_val(c: char) -> nat
    recommends
        is_dec_digit(c),
{
    (c as int - '0' as int) as nat
}

/// The digit character for a value below ten.
pub open spec fn digit_char(d: nat) -> char
    recommends
        d < 10,
{
    if d == 0 {
        '0'
    } else if d == 1 {
        '1'
    } else if d == 2 {
        '2'
    } else if d == 3 {
        '3'
    } else if d == 4 {
        '4'
    } else if d == 5 {
        '5'
    } else if d == 6 {
        '6'
    } else if d == 7 {
        '7'
    } else if d == 8 {
        '8'
    } else {
        '9'
    }
}

/// Canonical decimal rendering of `n`: most significant digit first,
/// no sign, no leading zeros.
pub open spec fn dec_rep(n: nat) -> Seq<char>
    decreases n,
{
    if n < 10 {
        seq![digit_char(n)]
    } else {
        dec_rep(n / 10).push(digit_char(n % 10))
    }
}

/// Every character of `s` is a decimal digit.
pub open spec fn all_dec_digits(s: Seq<char>) -> bool {
    forall|i: int| 0 <= i < s.len() ==> is_dec_digit(#[trigger] s[i])
}

/// Value of a digit string read left to right.
pub open spec fn digits_val(s: Seq<char>) -> nat
    decreases s.len(),
{
    if s.len() == 0 {
        0
    } else {
        digits_val(s.drop_last()) * 10 + digit_val(s.last())
    }
}

/// A well-formed numeral: an optional leading `'+'`, then at least one
/// digit and nothing else.
pub open spec fn is_numeral(s: Seq<char>) -> bool {
    if s.len() == 0 {
        false
    } else if s[0] == '+' {
        s.len() >= 2 && all_dec_digits(s.skip(1))
    } else {
        all_dec_digits(s)
    }
}

/// The digit part of a numeral, with any leading `'+'` stripped.
pub open spec fn numeral_digits(s: Seq<char>) -> Seq<char> {
    if s.len() > 0 && s[0] == '+' {
        s.skip(1)
    } else {
        s
    }
}

/// What parsing an index field yields: the numeral's value when the text
/// is a well-formed numeral whose value fits in `usize`, nothing otherwise.
pub open spec fn parse_usize_spec(s: Seq<char>) -> Option<usize> {
    if is_numeral(s) && digits_val(numeral_digits(s)) <= usize::MAX {
        Some(digits_val(numeral_digits(s)) as usize)
    } else {
        None
    }
}

/// A one-character string slice holding the digit for `d`.
fn digit_str(d: usize) -> (r: &'static str)
    requires
        d < 10,
    ensures
        r@ =~= seq![digit_char(d as nat)],
{
    proof {
        reveal_strlit("0");
        reveal_strlit("1");
        reveal_strlit("2");
        reveal_strlit("3");
        reveal_strlit("4");
        reveal_strlit("5");
        reveal_strlit("6");
        reveal_strlit("7");
        reveal_strlit("8");
        reveal_strlit("9");
    }
    if d == 0 {
        "0"
    } else if d == 1 {
        "1"
    } else if d == 2 {
        "2"
    } else if d == 3 {
        "3"
    } else if d == 4 {
        "4"
    } else if d == 5 {
        "5"
    } else if d == 6 {
        "6"
    } else if d == 7 {
        "7"
    } else if d == 8 {
        "8"
    } else {
        "9"
    }
}

/// Render `n` as its canonical decimal numeral.
pub fn fmt_usize(n: usize) -> (r: String)
    ensures
        r@ == dec_rep(n as nat),
    decreases n,
{
    if n < 10 {
        digit_str(n).to_owned()
    } else {
        let mut prefix = fmt_usize(n / 10);
        prefix.append(digit_str(n % 10));
        proof {
            assert(prefix@ =~= dec_rep((n / 10) as nat).push(digit_char((n % 10) as nat)));
        }
        prefix
    }
}

/// Appending a digit multiplies the value by ten and adds the digit.
proof fn lemma_digits_val_push(s: Seq<char>, c: char)
    ensures
        digits_val(s.push(c)) == digits_val(s) * 10 + digit_val(c),
{
    assert(s.push(c).drop_last() =~= s);
    assert(s.push(c).last() == c);
}

/// `digit_char` and `digit_val` are inverse on values below ten.
proof fn lemma_digit_char_val(d: nat)
    requires
        d < 10,
    ensures
        is_dec_digit(digit_char(d)),
        digit_val(digit_char(d)) == d,
{
}

/// The canonical rendering consists of digits only and values back to `n`.
pub proof fn lemma_dec_rep(n: nat)
    ensures
        dec_rep(n).len() >= 1,
        all_dec_digits(dec_rep(n)),
        digits_val(dec_rep(n)) == n,
    decreases n,
{
    if n < 10 {
        lemma_digit_char_val(n);
        assert(seq![digit_char(n)].drop_last() =~= Seq::<char>::empty());
        assert(seq![digit_char(n)].last() == digit_char(n));
        assert(digits_val(seq![digit_char(n)]) == digits_val(Seq::<char>::empty()) * 10
            + digit_val(digit_char(n)));
    } else {
        lemma_dec_rep(n / 10);
        lemma_digit_char_val(n % 10);
        lemma_digits_val_push(dec_rep(n / 10), digit_char(n % 10));
        assert(digits_val(dec_rep(n)) == (n / 10) * 10 + n % 10);
        assert((n / 10) * 10 + n % 10 == n) by (nonlinear_arith);
        assert forall|i: int| 0 <= i < dec_rep(n).len() implies is_dec_digit(
            #[trigger] dec_rep(n)[i],
        ) by {
            if i < dec_rep(n / 10).len() {
                assert(dec_rep(n)[i] == dec_rep(n / 10)[i]);
            }
        }
    }
}

/// A canonical rendering parses back to the number it renders.
pub proof fn lemma_parse_dec_rep(n: usize)
    ensures
        parse_usize_spec(dec_rep(n as nat)) == Some(n),
{
    lemma_dec_rep(n as nat);
    let s = dec_rep(n as nat);
    assert(is_dec_digit(s[0]));
    assert(s[0] != '+');
    assert(numeral_digits(s) == s);
}

/// A digit string's value only grows as more digits follow.
proof fn lemma_digits_val_prefix_le(s: Seq<char>, k: int)
    requires
        0 <= k <= s.len(),
    ensures
        digits_val(s.take(k)) <= digits_val(s),
    decreases s.len() - k,
{
    if k < s.len() {
        lemma_digits_val_prefix_le(s, k + 1);
        lemma_digits_val_push(s.take(k), s[k]);
        assert(s.take(k + 1) =~= s.take(k).push(s[k]));
        assert(digits_val(s.take(k)) <= digits_val(s.take(k)) * 10 + digit_val(s[k]))
            by (nonlinear_arith);
    } else {
        assert(s.take(k) =~= s);
    }
}

/// Read a decimal numeral, as the floor form's vertex field does.
///
/// Returns the value exactly when the whole text is an optional `'+'`
/// followed by one or more digits and the value fits in `usize`.
pub fn parse_usize_str(s: &str) -> (r: Option<usize>)
    ensures
        r == parse_usize_spec(s@),
{
    let n = s.unicode_len();
    let start: usize = if n > 0 && s.get_char(0) == '+' {
        1
    } else {
        0
    };
    if n == start {
        // Empty text, or a sign with no digits after it.
        return None;
    }
    let mut value: usize = 0;
    let mut i: usize = start;
    while i < n
        invariant
            start <= 1,
            start <= i <= n,
            n == s@.len(),
            start == 1 ==> s@.len() > 0 && s@[0] == '+',
            start == 0 ==> (s@.len() == 0 || s@[0] != '+'),
            n > start,
            all_dec_digits(s@.skip(start as int).take(i - start)),
            value == digits_val(s@.skip(start as int).take(i - start)),
        decreases n - i,
    {
        let c = s.get_char(i);
        let code = c as u32;
        if code < 48 || code > 57 {
            proof {
                assert(!is_dec_digit(s@[i as int]));
                if start == 0 {
                    assert(s@.skip(0) =~= s@);
                } else {
                    assert(s@[0] == '+');
                }
                assert(numeral_digits(s@) =~= s@.skip(start as int));
                assert(numeral_digits(s@)[i - start] == s@[i as int]);
            }
            return None;
        }
        let d = (code - 48) as usize;
        proof {
            assert(is_dec_digit(s@[i as int]));
            assert(digit_val(s@[i as int]) == d);
        }
        if value > (usize::MAX - d) / 10 {
            // The digits seen so far already exceed what fits.
            proof {
                let seen = s@.skip(start as int).take(i - start).push(s@[i as int]);
                lemma_digits_val_push(s@.skip(start as int).take(i - start), s@[i as int]);
                assert(value * 10 + d > usize::MAX) by (nonlinear_arith)
                    requires
                        value > (usize::MAX - d as int) / 10,
                        d <= 9,
                ;
                assert(seen =~= s@.skip(start as int).take(i + 1 - start));
                lemma_digits_val_prefix_le(s@.skip(start as int), i + 1 - start);
                if start == 0 {
                    assert(s@.skip(0) =~= s@);
                } else {
                    assert(s@[0] == '+');
                }
                assert(numeral_digits(s@) =~= s@.skip(start as int));
                assert(digits_val(numeral_digits(s@)) >= digits_val(seen));
            }
            return None;
        }
        proof {
            assert(value * 10 + d <= usize::MAX) by (nonlinear_arith)
                requires
                    value <= (usize::MAX - d as int) / 10,
                    d <= 9,
            ;
            lemma_digits_val_push(s@.skip(start as int).take(i - start), s@[i as int]);
            assert(s@.skip(start as int).take(i - start).push(s@[i as int]) =~= s@.skip(
                start as int,
            ).take(i + 1 - start));
        }
        value = value * 10 + d;
        i = i + 1;
    }
    proof {
        assert(s@.skip(start as int).take(n - start) =~= s@.skip(start as int));
        if start == 0 {
            assert(s@.skip(0) =~= s@);
        } else {
            assert(s@[0] == '+');
        }
        assert(numeral_digits(s@) =~= s@.skip(start as int));
        assert(is_numeral(s@));
    }
    Some(value)
}

} // verus!
