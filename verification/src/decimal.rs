//! Decimal numerals over character sequences.
//!
//! The circuit payload carries its numbers as decimal strings. This module
//! gives those strings a mathematical value (`dec_value`), proves the facts
//! comparison needs (bounds, leading zeros, lexicographic order), and offers
//! executable digit checks and an executable numeric comparison.

use vstd::prelude::*;
use vstd::arithmetic::power::pow;
use vstd::arithmetic::power::lemma_pow_positive;
use vstd::arithmetic::power::lemma_pow_increases;
use vstd::arithmetic::mul::lemma_mul_inequality;
use vstd::arithmetic::mul::lemma_mul_is_associative;
use vstd::arithmetic::mul::lemma_mul_is_distributive_add_other_way;

verus! {

pub open spec fn is_dec_digit(c: char) -> bool {
    48 <= c as int && c as int <= 57
}

pub open spec fn all_dec_digits(s: Seq<char>) -> bool {
    forall|i: int| 0 <= i < s.len() ==> is_dec_digit(#[trigger] s[i])
}

pub open spec fn digit_val(c: char) -> nat {
    (c as int - 48) as nat
}

pub open spec fn pow10(n: nat) -> nat {
    pow(10, n) as nat
}

/// The numeric value of a decimal numeral, most significant digit first.
pub open spec fn dec_value(s: Seq<char>) -> nat
    decreases s.len(),
{
    if s.len() == 0 {
        0
    } else {
        digit_val(s[0]) * pow10((s.len() - 1) as nat) + dec_value(s.skip(1))
    }
}

pub proof fn lemma_pow10_pos(n: nat)
    ensures
        pow10(n) >= 1,
{
    lemma_pow_positive(10, n);
}

pub proof fn lemma_pow10_unfold(n: nat)
    requires
        n >= 1,
    ensures
        pow10(n) == 10 * pow10((n - 1) as nat),
{
    lemma_pow_positive(10, (n - 1) as nat);
    reveal(pow);
    assert(pow(10, n) == 10 * pow(10, (n - 1) as nat));
}

/// A numeral of n digits is below pow10(n).
pub proof fn lemma_dec_value_bound(s: Seq<char>)
    requires
        all_dec_digits(s),
    ensures
        dec_value(s) < pow10(s.len()),
    decreases s.len(),
{
    if s.len() == 0 {
        vstd::arithmetic::power::lemma_pow0(10);
    } else {
        let n1 = (s.len() - 1) as nat;
        let p = pow10(n1);
        lemma_pow10_pos(n1);
        lemma_dec_value_bound(s.skip(1));
        assert(all_dec_digits(s.skip(1))) by {
            assert(forall|i: int|
                0 <= i < s.skip(1).len() ==> s.skip(1)[i] == s[i + 1] && is_dec_digit(#[trigger] s.skip(1)[i]));
        }
        assert(digit_val(s[0]) <= 9);
        lemma_mul_inequality(digit_val(s[0]) as int, 9, p as int);
        lemma_pow10_unfold(s.len());
    }
}

/// A numeral whose leading digit is not zero is at least pow10(n - 1).
pub proof fn lemma_dec_value_lower(s: Seq<char>)
    requires
        s.len() > 0,
        digit_val(s[0]) >= 1,
    ensures
        dec_value(s) >= pow10((s.len() - 1) as nat),
{
    let p = pow10((s.len() - 1) as nat);
    lemma_mul_inequality(1, digit_val(s[0]) as int, p as int);
}

/// Appending a digit multiplies the value by ten and adds the digit.
pub proof fn lemma_dec_value_push(s: Seq<char>, c: char)
    ensures
        dec_value(s.push(c)) == dec_value(s) * 10 + digit_val(c),
    decreases s.len(),
{
    if s.len() == 0 {
        assert(s.push(c).skip(1) =~= Seq::<char>::empty());
        assert(s.push(c)[0] == c);
        vstd::arithmetic::power::lemma_pow0(10);
        assert(dec_value(Seq::<char>::empty()) == 0);
        assert(dec_value(s.push(c)) == digit_val(c) * 1 + 0);
    } else {
        lemma_dec_value_push(s.skip(1), c);
        assert(s.push(c).skip(1) =~= s.skip(1).push(c));
        let n1 = (s.len() - 1) as nat;
        let d0 = digit_val(s[0]);
        lemma_pow10_unfold(s.len());
        assert(d0 * (pow10(n1) * 10) == (d0 * pow10(n1)) * 10) by {
            lemma_mul_is_associative(d0 as int, pow10(n1) as int, 10);
        }
        assert(d0 * pow10(s.len()) == d0 * (pow10(n1) * 10));
    }
}

/// Leading zeros do not change a numeral's value.
pub proof fn lemma_strip_zeros(s: Seq<char>, k: nat)
    requires
        k <= s.len(),
        forall|j: int| 0 <= j < k ==> digit_val(#[trigger] s[j]) == 0,
    ensures
        dec_value(s.skip(k as int)) == dec_value(s),
    decreases k,
{
    if k > 0 {
        assert(dec_value(s) == dec_value(s.skip(1)));
        lemma_strip_zeros(s.skip(1), (k - 1) as nat);
        assert(s.skip(1).skip(k as int - 1) =~= s.skip(k as int));
    } else {
        assert(s.skip(0) =~= s);
    }
}

/// Numerals of equal length compare like their digit sequences: at the first
/// position where they differ, the smaller digit makes the smaller value.
pub proof fn lemma_dec_lt_lex(s: Seq<char>, t: Seq<char>, i: int)
    requires
        s.len() == t.len(),
        all_dec_digits(s),
        0 <= i < s.len(),
        forall|j: int| 0 <= j < i ==> s[j] == t[j],
        digit_val(s[i]) < digit_val(t[i]),
    ensures
        dec_value(s) < dec_value(t),
    decreases i,
{
    let n1 = (s.len() - 1) as nat;
    let p = pow10(n1);
    lemma_pow10_pos(n1);
    if i == 0 {
        let ds = digit_val(s[0]);
        let dt = digit_val(t[0]);
        assert(all_dec_digits(s.skip(1))) by {
            assert(forall|j: int|
                0 <= j < s.skip(1).len() ==> s.skip(1)[j] == s[j + 1] && is_dec_digit(#[trigger] s.skip(1)[j]));
        }
        lemma_dec_value_bound(s.skip(1));
        assert((ds + 1) * p == ds * p + 1 * p) by {
            lemma_mul_is_distributive_add_other_way(p as int, ds as int, 1);
        }
        lemma_mul_inequality((ds + 1) as int, dt as int, p as int);
        assert(dec_value(s) == ds * p + dec_value(s.skip(1)));
        assert(dec_value(s.skip(1)) < p);
        assert(dec_value(t) >= dt * p);
    } else {
        assert(all_dec_digits(s.skip(1))) by {
            assert(forall|j: int|
                0 <= j < s.skip(1).len() ==> s.skip(1)[j] == s[j + 1] && is_dec_digit(#[trigger] s.skip(1)[j]));
        }
        assert(forall|j: int| 0 <= j < i - 1 ==> s.skip(1)[j] == t.skip(1)[j]) by {
            assert(forall|j: int|
                0 <= j < i - 1 ==> #[trigger] s.skip(1)[j] == s[j + 1] && t.skip(1)[j] == t[j + 1]);
        }
        assert(s.skip(1)[i - 1] == s[i] && t.skip(1)[i - 1] == t[i]);
        lemma_dec_lt_lex(s.skip(1), t.skip(1), i - 1);
        assert(digit_val(s[0]) == digit_val(t[0]));
        assert(dec_value(s) == digit_val(s[0]) * p + dec_value(s.skip(1)));
        assert(dec_value(t) == digit_val(t[0]) * p + dec_value(t.skip(1)));
    }
}

/// Equal digit sequences have equal values; stated for the scan that finds
/// no differing position.
pub proof fn lemma_dec_eq(s: Seq<char>, t: Seq<char>)
    requires
        s.len() == t.len(),
        forall|j: int| 0 <= j < s.len() ==> s[j] == t[j],
    ensures
        dec_value(s) == dec_value(t),
{
    assert(s =~= t);
}

/// The digit value of a character, when it is one.
pub fn char_digit(c: char) -> (r: Option<u8>)
    ensures
        r is Some <==> is_dec_digit(c),
        r is Some ==> r->0 == digit_val(c) && r->0 <= 9,
{
    let v = c as u32;
    if 48 <= v && v <= 57 {
        Some((v - 48) as u8)
    } else {
        None
    }
}

/// Whether every character of the string is a decimal digit.
pub fn all_digits(s: &str) -> (r: bool)
    ensures
        r == all_dec_digits(s@),
{
    let n = s.unicode_len();
    let mut i: usize = 0;
    while i < n
        invariant
            i <= n,
            n == s@.len(),
            forall|j: int| 0 <= j < i ==> is_dec_digit(#[trigger] s@[j]),
        decreases n - i,
    {
        let c = s.get_char(i);
        if char_digit(c).is_none() {
            return false;
        }
        i += 1;
    }
    true
}

/// The number of leading zero digits of the numeral.
fn leading_zeros(s: &str) -> (z: usize)
    requires
        all_dec_digits(s@),
    ensures
        z <= s@.len(),
        forall|j: int| 0 <= j < z ==> digit_val(#[trigger] s@[j]) == 0,
        z < s@.len() ==> digit_val(s@[z as int]) != 0,
{
    let n = s.unicode_len();
    let mut i: usize = 0;
    while i < n
        invariant
            i <= n,
            n == s@.len(),
            all_dec_digits(s@),
            forall|j: int| 0 <= j < i ==> digit_val(#[trigger] s@[j]) == 0,
        decreases n - i,
    {
        let c = s.get_char(i);
        if (c as u32) != 48 {
            proof {
                assert(is_dec_digit(s@[i as int]));
            }
            return i;
        }
        i += 1;
    }
    n
}

/// Numeric strictly-less-than on decimal numerals, leading zeros allowed.
pub fn dec_lt(a: &str, b: &str) -> (r: bool)
    requires
        all_dec_digits(a@),
        all_dec_digits(b@),
    ensures
        r == (dec_value(a@) < dec_value(b@)),
{
    let na = a.unicode_len();
    let nb = b.unicode_len();
    let za = leading_zeros(a);
    let zb = leading_zeros(b);
    proof {
        lemma_strip_zeros(a@, za as nat);
        lemma_strip_zeros(b@, zb as nat);
        assert(all_dec_digits(a@.skip(za as int))) by {
            assert(forall|j: int|
                0 <= j < a@.skip(za as int).len()
                    ==> a@.skip(za as int)[j] == a@[j + za] && is_dec_digit(#[trigger] a@.skip(za as int)[j]));
        }
        assert(all_dec_digits(b@.skip(zb as int))) by {
            assert(forall|j: int|
                0 <= j < b@.skip(zb as int).len()
                    ==> b@.skip(zb as int)[j] == b@[j + zb] && is_dec_digit(#[trigger] b@.skip(zb as int)[j]));
        }
    }
    let ma = na - za;
    let mb = nb - zb;
    if ma < mb {
        proof {
            lemma_dec_value_bound(a@.skip(za as int));
            assert(b@.skip(zb as int)[0] == b@[zb as int]);
            assert(digit_val(b@[zb as int]) >= 1);
            lemma_dec_value_lower(b@.skip(zb as int));
            lemma_pow_increases(10, ma as nat, (mb - 1) as nat);
            lemma_pow_positive(10, ma as nat);
            lemma_pow_positive(10, (mb - 1) as nat);
            assert(dec_value(a@) < pow10(ma as nat));
            assert(pow10(ma as nat) <= pow10((mb - 1) as nat));
            assert(dec_value(b@) >= pow10((mb - 1) as nat));
        }
        return true;
    }
    if mb < ma {
        proof {
            lemma_dec_value_bound(b@.skip(zb as int));
            assert(a@.skip(za as int)[0] == a@[za as int]);
            assert(digit_val(a@[za as int]) >= 1);
            lemma_dec_value_lower(a@.skip(za as int));
            lemma_pow_increases(10, mb as nat, (ma - 1) as nat);
            lemma_pow_positive(10, mb as nat);
            lemma_pow_positive(10, (ma - 1) as nat);
            assert(dec_value(b@) < pow10(mb as nat));
            assert(pow10(mb as nat) <= pow10((ma - 1) as nat));
            assert(dec_value(a@) >= pow10((ma - 1) as nat));
        }
        return false;
    }
    let mut i: usize = 0;
    while i < ma
        invariant
            i <= ma,
            ma == mb,
            za + ma == na,
            zb + mb == nb,
            na == a@.len(),
            nb == b@.len(),
            za <= na,
            zb <= nb,
            all_dec_digits(a@),
            all_dec_digits(b@),
            all_dec_digits(a@.skip(za as int)),
            all_dec_digits(b@.skip(zb as int)),
            dec_value(a@.skip(za as int)) == dec_value(a@),
            dec_value(b@.skip(zb as int)) == dec_value(b@),
            forall|j: int| 0 <= j < i ==> a@.skip(za as int)[j] == b@.skip(zb as int)[j],
        decreases ma - i,
    {
        let ca = a.get_char(za + i);
        let cb = b.get_char(zb + i);
        proof {
            assert(a@.skip(za as int)[i as int] == a@[za + i]);
            assert(b@.skip(zb as int)[i as int] == b@[zb + i]);
        }
        if (ca as u32) < (cb as u32) {
            proof {
                lemma_dec_lt_lex(a@.skip(za as int), b@.skip(zb as int), i as int);
            }
            return true;
        }
        if (cb as u32) < (ca as u32) {
            proof {
                lemma_dec_lt_lex(b@.skip(zb as int), a@.skip(za as int), i as int);
            }
            return false;
        }
        proof {
            assert(ca == cb);
        }
        i += 1;
    }
    proof {
        lemma_dec_eq(a@.skip(za as int), b@.skip(zb as int));
    }
    false
}

} // verus!
