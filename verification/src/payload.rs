//! Decoding of the task's circuit payload.
//!
//! A task carries its circuit inputs as one text payload: the private
//! witness values as comma-separated decimal numerals, then a semicolon,
//! then the declared public input as one decimal numeral. Every private
//! value must fit in a machine word; the public input's size is judged
//! separately against the scalar-field modulus. A payload that does not
//! have this shape is malformed and is rejected before any cryptographic
//! work begins.

use vstd::prelude::*;
use crate::decimal::all_dec_digits;
use crate::decimal::all_digits;
use crate::decimal::dec_value;
use crate::decimal::digit_val;
use crate::decimal::is_dec_digit;
use crate::decimal::char_digit;
use crate::decimal::pow10;
use crate::decimal::lemma_dec_value_push;
use crate::decimal::lemma_pow10_pos;
use crate::decimal::lemma_pow10_unfold;
use vstd::arithmetic::mul::lemma_mul_inequality;
use vstd::arithmetic::mul::lemma_mul_is_associative;
use vstd::arithmetic::mul::lemma_mul_is_distributive_add_other_way;
use vstd::arithmetic::power::lemma_pow0;

verus! {

/// A numeral is a machine-word value when it is non-empty, all digits,
/// and its value fits in 64 bits.
pub open spec fn wf_u64_numeral(s: Seq<char>) -> bool {
    s.len() > 0 && all_dec_digits(s) && dec_value(s) <= u64::MAX
}

/// Splitting a numeral after any prefix: the whole value is the prefix's
/// value shifted by the suffix's width, plus the suffix's value.
pub proof fn lemma_dec_value_split(s: Seq<char>, j: int)
    requires
        0 <= j <= s.len(),
    ensures
        dec_value(s) == dec_value(s.take(j)) * pow10((s.len() - j) as nat) + dec_value(s.skip(j)),
    decreases s.len() - j,
{
    let n = s.len();
    if j == n {
        assert(s.take(j) =~= s);
        assert(s.skip(j) =~= Seq::<char>::empty());
        lemma_pow0(10);
        assert(pow10(0) == 1);
        assert(dec_value(Seq::<char>::empty()) == 0);
        assert(dec_value(s.take(j)) * 1 == dec_value(s.take(j)));
    } else {
        lemma_dec_value_split(s, j + 1);
        assert(s.take(j + 1) =~= s.take(j).push(s[j]));
        lemma_dec_value_push(s.take(j), s[j]);
        let a = dec_value(s.take(j));
        let d = digit_val(s[j]);
        let p = pow10((n - j - 1) as nat);
        assert(s.skip(j)[0] == s[j]);
        assert(s.skip(j).skip(1) =~= s.skip(j + 1));
        assert(dec_value(s.skip(j)) == d * p + dec_value(s.skip(j + 1)));
        assert((a * 10 + d) * p == (a * 10) * p + d * p) by {
            lemma_mul_is_distributive_add_other_way(p as int, (a * 10) as int, d as int);
        }
        assert((a * 10) * p == a * (10 * p)) by {
            lemma_mul_is_associative(a as int, 10, p as int);
        }
        lemma_pow10_unfold((n - j) as nat);
        assert(a * (10 * p) == a * pow10((n - j) as nat));
        assert(dec_value(s) == dec_value(s.take(j + 1)) * p + dec_value(s.skip(j + 1)));
        assert(dec_value(s.take(j + 1)) == a * 10 + d);
        assert(dec_value(s) == (a * 10 + d) * p + dec_value(s.skip(j + 1)));
        assert(dec_value(s) == a * pow10((n - j) as nat) + d * p + dec_value(s.skip(j + 1)));
    }
}

/// A numeral's value is at least the value of any of its prefixes.
pub proof fn lemma_dec_value_prefix(s: Seq<char>, j: int)
    requires
        0 <= j <= s.len(),
    ensures
        dec_value(s) >= dec_value(s.take(j)),
{
    lemma_dec_value_split(s, j);
    let p = pow10((s.len() - j) as nat);
    lemma_pow10_pos((s.len() - j) as nat);
    lemma_mul_inequality(1, p as int, dec_value(s.take(j)) as int);
    assert(dec_value(s.take(j)) * 1 == dec_value(s.take(j)));
}

/// Parse one decimal numeral into a machine word. Succeeds exactly on
/// the well-formed numerals whose value fits; the value returned is the
/// numeral's value.
pub fn parse_u64(s: &str) -> (r: Option<u64>)
    ensures
        r is Some <==> wf_u64_numeral(s@),
        r is Some ==> r->0 == dec_value(s@),
{
    let n = s.unicode_len();
    if n == 0 {
        return None;
    }
    let mut acc: u64 = 0;
    let mut i: usize = 0;
    while i < n
        invariant
            i <= n,
            n == s@.len(),
            n > 0,
            acc == dec_value(s@.take(i as int)),
            forall|j: int| 0 <= j < i ==> is_dec_digit(#[trigger] s@[j]),
        decreases n - i,
    {
        let c = s.get_char(i);
        let d = match char_digit(c) {
            Some(d) => d,
            None => {
                return None;
            },
        };
        proof {
            assert(s@.take(i + 1) =~= s@.take(i as int).push(s@[i as int]));
            lemma_dec_value_push(s@.take(i as int), s@[i as int]);
        }
        if acc > (u64::MAX - (d as u64)) / 10 {
            proof {
                lemma_dec_value_prefix(s@, i + 1);
            }
            return None;
        }
        acc = acc * 10 + (d as u64);
        i += 1;
    }
    proof {
        assert(s@.take(n as int) =~= s@);
    }
    Some(acc)
}

/// The characters that end a private value: the list separator and the
/// separator before the public input.
pub open spec fn is_sep(c: char) -> bool {
    c == ',' || c == ';'
}

/// The position of the first separator, if any.
pub open spec fn sep_index(s: Seq<char>) -> Option<nat>
    decreases s.len(),
{
    if s.len() == 0 {
        None
    } else if is_sep(s[0]) {
        Some(0nat)
    } else {
        match sep_index(s.skip(1)) {
            Some(i) => Some((i + 1) as nat),
            None => None,
        }
    }
}

/// A scan that passed no separator before position i, and stopped either
/// at a separator or at the end, has found `sep_index`.
pub proof fn lemma_sep_index_at(s: Seq<char>, i: int)
    requires
        0 <= i <= s.len(),
        forall|j: int| 0 <= j < i ==> !is_sep(#[trigger] s[j]),
        i < s.len() ==> is_sep(s[i]),
    ensures
        i < s.len() ==> sep_index(s) == Some(i as nat),
        i == s.len() ==> sep_index(s) is None,
    decreases s.len() - i, i,
{
    if i == 0 {
        if s.len() == 0 {
        } else if is_sep(s[0]) {
        } else {
            lemma_sep_index_at(s.skip(1), 0);
        }
    } else {
        assert(!is_sep(s[0]));
        assert(forall|j: int| 0 <= j < i - 1 ==> s.skip(1)[j] == s[j + 1] && !is_sep(#[trigger] s.skip(1)[j]));
        assert(i - 1 < s.skip(1).len() ==> s.skip(1)[i - 1] == s[i]);
        lemma_sep_index_at(s.skip(1), i - 1);
    }
}

/// The private part of a payload: the machine-word values before the
/// semicolon, and the remainder after it. `None` when the payload has no
/// semicolon, or a private value is missing, malformed or too large.
pub open spec fn parse_privates(s: Seq<char>) -> Option<(Seq<u64>, Seq<char>)>
    decreases s.len(),
{
    match sep_index(s) {
        None => None,
        Some(i) => {
            if i >= s.len() {
                None
            } else {
                let item = s.take(i as int);
                if !wf_u64_numeral(item) {
                    None
                } else if s[i as int] == ';' {
                    Some((seq![dec_value(item) as u64], s.skip(i as int + 1)))
                } else {
                    match parse_privates(s.skip(i as int + 1)) {
                        None => None,
                        Some(pr) => Some((seq![dec_value(item) as u64] + pr.0, pr.1)),
                    }
                }
            }
        },
    }
}

/// The decoded payload: the private witness values and the declared public
/// input numeral. `None` exactly on malformed payloads: no semicolon, a bad
/// private value, or a public part that is empty or not all digits. Whether
/// the public input reduces into the scalar field is judged separately.
pub open spec fn spec_decode(s: Seq<char>) -> Option<(Seq<u64>, Seq<char>)> {
    match parse_privates(s) {
        None => None,
        Some(pr) => if pr.1.len() > 0 && all_dec_digits(pr.1) {
            Some(pr)
        } else {
            None
        },
    }
}

/// The private values of a well-formed payload.
pub open spec fn decoded_privates(s: Seq<char>) -> Seq<u64> {
    (spec_decode(s)->0).0
}

/// The public input numeral of a well-formed payload.
pub open spec fn decoded_public(s: Seq<char>) -> Seq<char> {
    (spec_decode(s)->0).1
}

/// The first separator at or after `pos`, or the string's length when
/// none remains.
fn find_sep(s: &str, pos: usize) -> (k: usize)
    requires
        pos <= s@.len(),
    ensures
        pos <= k <= s@.len(),
        forall|j: int| pos <= j < k ==> !is_sep(#[trigger] s@[j]),
        k < s@.len() ==> is_sep(s@[k as int]),
{
    let n = s.unicode_len();
    let mut k: usize = pos;
    while k < n
        invariant
            pos <= k <= n,
            n == s@.len(),
            forall|j: int| pos <= j < k ==> !is_sep(#[trigger] s@[j]),
        decreases n - k,
    {
        let c = s.get_char(k);
        if c == ',' {
            return k;
        }
        if c == ';' {
            return k;
        }
        k += 1;
    }
    k
}

/// Decode a task's payload into its private witness values and the public
/// input numeral. Succeeds exactly on the well-formed payloads, returning
/// the decoded values.
pub fn decode_task_data(s: &str) -> (r: Option<(Vec<u64>, String)>)
    ensures
        r is Some <==> spec_decode(s@) is Some,
        r is Some ==> (r->0).0@ == decoded_privates(s@),
        r is Some ==> (r->0).1@ == decoded_public(s@),
{
    let n = s.unicode_len();
    let mut vals: Vec<u64> = Vec::new();
    let mut pos: usize = 0;
    proof {
        assert(s@.skip(0) =~= s@);
        if parse_privates(s@) is Some {
            assert(vals@ + (parse_privates(s@)->0).0 =~= (parse_privates(s@)->0).0);
        }
    }
    loop
        invariant
            pos <= n,
            n == s@.len(),
            parse_privates(s@) is Some <==> parse_privates(s@.skip(pos as int)) is Some,
            parse_privates(s@.skip(pos as int)) is Some ==> (parse_privates(s@)->0).0
                == vals@ + (parse_privates(s@.skip(pos as int))->0).0,
            parse_privates(s@.skip(pos as int)) is Some ==> (parse_privates(s@)->0).1
                == (parse_privates(s@.skip(pos as int))->0).1,
        decreases n - pos,
    {
        let ghost suf = s@.skip(pos as int);
        let k = find_sep(s, pos);
        proof {
            assert(forall|j: int| 0 <= j < k - pos ==> suf[j] == s@[j + pos] && !is_sep(#[trigger] suf[j]));
            if k < n {
                assert(suf[k - pos] == s@[k as int]);
            }
            lemma_sep_index_at(suf, k - pos);
        }
        if k == n {
            return None;
        }
        let item = s.substring_char(pos, k);
        proof {
            assert(item@ =~= suf.take(k - pos));
        }
        let v = match parse_u64(item) {
            Some(v) => v,
            None => {
                return None;
            },
        };
        let c = s.get_char(k);
        proof {
            assert(suf[k - pos] == s@[k as int]);
            assert(suf.skip(k - pos + 1) =~= s@.skip(k + 1));
        }
        let ghost vals_before = vals@;
        vals.push(v);
        if c == ';' {
            proof {
                assert(parse_privates(suf) == Some((seq![v], s@.skip(k + 1))));
            }
            let publ = s.substring_char(k + 1, n);
            proof {
                assert(publ@ =~= s@.skip(k + 1));
            }
            if publ.unicode_len() == 0 {
                return None;
            }
            if !all_digits(publ) {
                return None;
            }
            return Some((vals, String::from_str(publ)));
        }
        proof {
            assert(is_sep(s@[k as int]) && s@[k as int] != ';');
            if parse_privates(s@.skip(k + 1)) is Some {
                let pr = parse_privates(s@.skip(k + 1))->0;
                assert(parse_privates(suf) == Some((seq![v] + pr.0, pr.1)));
                assert(vals_before + (seq![v] + pr.0) =~= vals@ + pr.0);
            } else {
                assert(parse_privates(suf) is None);
            }
        }
        pos = k + 1;
    }
}

} // verus!
