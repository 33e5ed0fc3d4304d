//! The ISO 7064 MOD 97-10 checksum engine.
//!
//! The rearranged IBAN (BBAN, then country code, then check digits) is read
//! as a decimal digit string, each letter A-Z standing for its two-digit
//! value 10-35. That number can exceed any fixed-width integer for long
//! IBANs, so the residue is computed as a streaming remainder, one digit at
//! a time; `lemma_stream_rem_is_mod` proves that this equals the remainder
//! of the full integer.

use vstd::prelude::*;
use vstd::arithmetic::div_mod::lemma_add_mod_noop;
use vstd::arithmetic::div_mod::lemma_mod_bound;
use vstd::arithmetic::div_mod::lemma_small_mod;
use vstd::arithmetic::div_mod::lemma_mul_mod_noop_left;

verus! {

pub open spec fn is_digit_char(c: char) -> bool {
    ('0' as u32) <= (c as u32) && (c as u32) <= ('9' as u32)
}

pub open spec fn is_upper_alpha_char(c: char) -> bool {
    ('A' as u32) <= (c as u32) && (c as u32) <= ('Z' as u32)
}

/// The characters the checksum engine accepts: decimal digits and the
/// uppercase letters A-Z.
pub open spec fn is_iban_char(c: char) -> bool {
    is_digit_char(c) || is_upper_alpha_char(c)
}

pub open spec fn all_iban_chars(s: Seq<char>) -> bool {
    forall|i: int| 0 <= i < s.len() ==> is_iban_char(#[trigger] s[i])
}

/// The decimal digits a single character contributes: a digit stands for
/// itself, a letter A-Z for the two digits of its value 10-35.
pub open spec fn char_digits(c: char) -> Seq<int> {
    if is_digit_char(c) {
        seq![(c as u32 - '0' as u32) as int]
    } else if is_upper_alpha_char(c) {
        seq![(c as u32 - 'A' as u32 + 10) as int / 10, (c as u32 - 'A' as u32 + 10) as int % 10]
    } else {
        Seq::<int>::empty()
    }
}

/// The full decimal digit string of a rearranged IBAN.
pub open spec fn digits_of(s: Seq<char>) -> Seq<int>
    decreases s.len(),
{
    if s.len() == 0 {
        Seq::<int>::empty()
    } else {
        digits_of(s.drop_last()) + char_digits(s.last())
    }
}

/// The integer a decimal digit string denotes (most significant digit first).
pub open spec fn digits_value(ds: Seq<int>) -> int
    decreases ds.len(),
{
    if ds.len() == 0 {
        0
    } else {
        digits_value(ds.drop_last()) * 10 + ds.last()
    }
}

/// The streaming remainder: a running remainder, reduced modulo `m` after
/// every digit, never materializing the full integer.
pub open spec fn stream_rem(ds: Seq<int>, m: int) -> int
    decreases ds.len(),
{
    if ds.len() == 0 {
        0
    } else {
        (stream_rem(ds.drop_last(), m) * 10 + ds.last()) % m
    }
}

/// Every entry is a decimal digit.
pub open spec fn digit_seq(ds: Seq<int>) -> bool {
    forall|i: int| 0 <= i < ds.len() ==> 0 <= #[trigger] ds[i] <= 9
}

pub proof fn lemma_digits_of_digit_seq(s: Seq<char>)
    requires
        all_iban_chars(s),
    ensures
        digit_seq(digits_of(s)),
    decreases s.len(),
{
    if s.len() > 0 {
        assert(all_iban_chars(s.drop_last())) by {
            assert(forall|i: int| 0 <= i < s.len() - 1 ==> s.drop_last()[i] == #[trigger] s[i]);
        }
        lemma_digits_of_digit_seq(s.drop_last());
        assert(is_iban_char(s.last()));
        assert(digit_seq(char_digits(s.last())));
    }
}

pub proof fn lemma_digits_value_nonneg(ds: Seq<int>)
    requires
        digit_seq(ds),
    ensures
        digits_value(ds) >= 0,
    decreases ds.len(),
{
    if ds.len() > 0 {
        assert(digit_seq(ds.drop_last())) by {
            assert(forall|i: int| 0 <= i < ds.len() - 1 ==> ds.drop_last()[i] == #[trigger] ds[i]);
        }
        lemma_digits_value_nonneg(ds.drop_last());
    }
}

/// Appending digits at the low end never shrinks the denoted integer.
pub proof fn lemma_digits_value_append_ge(ds: Seq<int>, es: Seq<int>)
    requires
        digit_seq(ds),
        digit_seq(es),
    ensures
        digits_value(ds + es) >= digits_value(ds) >= 0,
    decreases es.len(),
{
    lemma_digits_value_nonneg(ds);
    if es.len() == 0 {
        assert(ds + es =~= ds);
    } else {
        assert(digit_seq(es.drop_last())) by {
            assert(forall|i: int| 0 <= i < es.len() - 1 ==> es.drop_last()[i] == #[trigger] es[i]);
        }
        lemma_digits_value_append_ge(ds, es.drop_last());
        assert((ds + es).drop_last() =~= ds + es.drop_last());
        assert((ds + es).last() == es.last());
        assert(digits_value(ds + es) == digits_value(ds + es.drop_last()) * 10 + es.last());
    }
}

/// Reading a concatenation digit-by-digit is reading each part in turn.
pub proof fn lemma_digits_of_append(a: Seq<char>, b: Seq<char>)
    ensures
        digits_of(a + b) == digits_of(a) + digits_of(b),
    decreases b.len(),
{
    if b.len() == 0 {
        assert(a + b =~= a);
        assert(digits_of(a) + digits_of(b) =~= digits_of(a));
    } else {
        lemma_digits_of_append(a, b.drop_last());
        assert((a + b).drop_last() =~= a + b.drop_last());
        assert((a + b).last() == b.last());
        assert(digits_of(a + b) == digits_of(a + b.drop_last()) + char_digits(b.last()));
        assert(digits_of(a) + digits_of(b) =~= (digits_of(a) + digits_of(b.drop_last()))
            + char_digits(b.last()));
    }
}

/// The streaming remainder equals the remainder of the full integer: the
/// incremental computation and the full-integer modulus agree on every
/// digit string and every positive modulus.
pub proof fn lemma_stream_rem_is_mod(ds: Seq<int>, m: int)
    requires
        m > 0,
    ensures
        stream_rem(ds, m) == digits_value(ds) % m,
    decreases ds.len(),
{
    if ds.len() == 0 {
        assert(0int % m == 0) by {
            lemma_mod_bound(0, m);
        }
    } else {
        let prefix = ds.drop_last();
        let d = ds.last();
        lemma_stream_rem_is_mod(prefix, m);
        let v = digits_value(prefix);
        lemma_mul_mod_noop_left(v, 10, m);
        lemma_add_mod_noop(v * 10, d, m);
        lemma_add_mod_noop((v % m) * 10, d, m);
        assert(((v % m) * 10) % m == (v * 10) % m);
        assert(((v % m) * 10 + d) % m == ((((v % m) * 10) % m) + d % m) % m);
        assert((v * 10 + d) % m == (((v * 10) % m) + d % m) % m);
    }
}

/// The rearranged IBAN together with the residue condition of ISO 7064
/// MOD 97-10: every character convertible, and the digit string's value
/// congruent to 1 modulo 97.
pub open spec fn spec_checksum_ok(cc: Seq<char>, cd: Seq<char>, bban: Seq<char>) -> bool {
    let re = bban + cc + cd;
    all_iban_chars(re) && digits_value(digits_of(re)) % 97 == 1
}

/// Flipping a single check digit breaks a passing checksum: two numeric
/// check-digit segments that differ in exactly one of their two positions
/// cannot both give residue 1 with the same country code and BBAN, because
/// they shift the rearranged integer by a nonzero multiple of 1 or 10,
/// which 97 never divides.
pub proof fn lemma_flip_check_digit(cc: Seq<char>, bban: Seq<char>, cd1: Seq<char>, cd2: Seq<char>)
    requires
        cd1.len() == 2,
        cd2.len() == 2,
        is_digit_char(cd1[0]),
        is_digit_char(cd1[1]),
        is_digit_char(cd2[0]),
        is_digit_char(cd2[1]),
        cd1 != cd2,
        cd1[0] == cd2[0] || cd1[1] == cd2[1],
    ensures
        !(spec_checksum_ok(cc, cd1, bban) && spec_checksum_ok(cc, cd2, bban)),
{
    if spec_checksum_ok(cc, cd1, bban) && spec_checksum_ok(cc, cd2, bban) {
        let x = bban + cc;
        assert(bban + cc + cd1 =~= x + cd1);
        assert(bban + cc + cd2 =~= x + cd2);
        lemma_digits_of_append(x, cd1);
        lemma_digits_of_append(x, cd2);
        let a1 = (cd1[0] as u32 - '0' as u32) as int;
        let b1 = (cd1[1] as u32 - '0' as u32) as int;
        let a2 = (cd2[0] as u32 - '0' as u32) as int;
        let b2 = (cd2[1] as u32 - '0' as u32) as int;
        lemma_two_digit_chars(cd1);
        lemma_two_digit_chars(cd2);
        let ds = digits_of(x);
        lemma_value_two_more(ds, a1, b1);
        lemma_value_two_more(ds, a2, b2);
        let w = digits_value(ds);
        let v1 = w * 100 + a1 * 10 + b1;
        let v2 = w * 100 + a2 * 10 + b2;
        assert(v1 % 97 == 1 && v2 % 97 == 1);
        assert(!(a1 == a2 && b1 == b2)) by {
            if a1 == a2 && b1 == b2 {
                assert(cd1[0] as u32 == cd2[0] as u32);
                assert(cd1[1] as u32 == cd2[1] as u32);
                lemma_char_cast_injective(cd1[0], cd2[0]);
                lemma_char_cast_injective(cd1[1], cd2[1]);
                assert(cd1 =~= cd2);
            }
        }
        let diff = if v1 >= v2 {
            v1 - v2
        } else {
            v2 - v1
        };
        assert(0 < diff <= 90);
        if v1 >= v2 {
            vstd::arithmetic::div_mod::lemma_sub_mod_noop(v1, v2, 97);
        } else {
            vstd::arithmetic::div_mod::lemma_sub_mod_noop(v2, v1, 97);
        }
        assert(diff % 97 == 0);
        lemma_small_mod(diff as nat, 97);
        assert(false);
    }
}

/// Two characters with the same Unicode scalar value are the same character.
proof fn lemma_char_cast_injective(c1: char, c2: char)
    requires
        c1 as u32 == c2 as u32,
    ensures
        c1 == c2,
{
}

/// The digit string of a two-digit-character segment is those two digits.
proof fn lemma_two_digit_chars(cd: Seq<char>)
    requires
        cd.len() == 2,
        is_digit_char(cd[0]),
        is_digit_char(cd[1]),
    ensures
        digits_of(cd) == seq![
            (cd[0] as u32 - '0' as u32) as int,
            (cd[1] as u32 - '0' as u32) as int,
        ],
{
    assert(cd.drop_last() =~= seq![cd[0]]);
    assert(seq![cd[0]].drop_last() =~= Seq::<char>::empty());
    assert(seq![cd[0]].last() == cd[0]);
    assert(digits_of(Seq::<char>::empty()) =~= Seq::<int>::empty());
    assert(char_digits(cd[0]) =~= seq![(cd[0] as u32 - '0' as u32) as int]);
    assert(digits_of(seq![cd[0]]) == digits_of(Seq::<char>::empty()) + char_digits(cd[0]));
    assert(digits_of(seq![cd[0]]) =~= seq![(cd[0] as u32 - '0' as u32) as int]);
    assert(digits_of(cd) =~= seq![
        (cd[0] as u32 - '0' as u32) as int,
        (cd[1] as u32 - '0' as u32) as int,
    ]);
}

/// Two more digits at the low end multiply the value by 100 and add them.
proof fn lemma_value_two_more(ds: Seq<int>, a: int, b: int)
    ensures
        digits_value(ds + seq![a, b]) == digits_value(ds) * 100 + a * 10 + b,
{
    let two = ds + seq![a, b];
    assert(two.drop_last() =~= ds + seq![a]);
    assert((ds + seq![a]).drop_last() =~= ds);
    assert((ds + seq![a]).last() == a);
    assert(two.last() == b);
    assert(digits_value(ds + seq![a]) == digits_value(ds) * 10 + a);
    assert(digits_value(two) == (digits_value(ds) * 10 + a) * 10 + b);
}

/// The numeric value of a checksum character: its own value for a digit,
/// 10 to 35 for the letters A to Z, nothing for any other character.
pub(crate) fn char_value(c: char) -> (r: Option<u32>)
    ensures
        r is Some <==> is_iban_char(c),
        is_digit_char(c) ==> r == Some::<u32>((c as u32 - '0' as u32) as u32),
        is_upper_alpha_char(c) ==> r == Some::<u32>((c as u32 - 'A' as u32 + 10) as u32),
{
    let u = c as u32;
    if 48 <= u && u <= 57 {
        Some(u - 48)
    } else if 65 <= u && u <= 90 {
        Some(u - 65 + 10)
    } else {
        None
    }
}

/// Moves the first four characters to the end: the rearrangement step of
/// ISO 7064 applied to an already segmented IBAN.
fn rearrange(bban: &str, country_code: &str, check_digits: &str) -> (r: String)
    ensures
        r@ == bban@ + country_code@ + check_digits@,
{
    let mut r = String::new();
    r.append(bban);
    r.append(country_code);
    r.append(check_digits);
    proof {
        assert(r@ =~= bban@ + country_code@ + check_digits@);
    }
    r
}

/// Converts a rearranged IBAN to numbers. Character A = 10, B = 11, and so
/// on; the result is the full integer, so the digit string must fit in a
/// `u128` and hold only convertible characters.
pub fn convert_to_numbers(rearranged_iban: &str) -> (r: u128)
    requires
        rearranged_iban@.len() >= 1,
        all_iban_chars(rearranged_iban@),
        digits_value(digits_of(rearranged_iban@)) <= u128::MAX,
    ensures
        r == digits_value(digits_of(rearranged_iban@)),
{
    let n = rearranged_iban.unicode_len();
    let mut acc: u128 = 0;
    let mut i: usize = 0;
    while i < n
        invariant
            n == rearranged_iban@.len(),
            i <= n,
            all_iban_chars(rearranged_iban@),
            digits_value(digits_of(rearranged_iban@)) <= u128::MAX,
            acc == digits_value(digits_of(rearranged_iban@.take(i as int))),
        decreases n - i,
    {
        let ghost s = rearranged_iban@;
        let ghost prefix = digits_of(s.take(i as int));
        let c = rearranged_iban.get_char(i);
        assert(is_iban_char(s[i as int]));
        let v = match char_value(c) {
            Some(v) => v,
            None => 0,
        };
        proof {
            assert(s.take(i + 1).drop_last() =~= s.take(i as int));
            assert(s.take(i + 1).last() == s[i as int]);
            assert(digits_of(s.take(i + 1)) == prefix + char_digits(c));
            lemma_take_value_bound(s, i + 1);
        }
        if v < 10 {
            proof {
                assert(char_digits(c) =~= seq![v as int]);
                assert((prefix + seq![v as int]).drop_last() =~= prefix);
                assert(digits_value(digits_of(s.take(i + 1))) == digits_value(prefix) * 10 + v);
            }
            acc = acc * 10 + (v as u128);
        } else {
            proof {
                vstd::arithmetic::div_mod::lemma_fundamental_div_mod(v as int, 10);
                assert(char_digits(c) =~= seq![v as int / 10, v as int % 10]);
                let two = prefix + char_digits(c);
                assert(two.drop_last() =~= prefix + seq![v as int / 10]);
                assert((prefix + seq![v as int / 10]).drop_last() =~= prefix);
                assert((prefix + seq![v as int / 10]).last() == v as int / 10);
                assert(two.last() == v as int % 10);
                assert(digits_value(prefix + seq![v as int / 10]) == digits_value(prefix) * 10 + v
                    as int / 10);
                assert(digits_value(two) == (digits_value(prefix) * 10 + v as int / 10) * 10 + v
                    as int % 10);
                assert(digits_value(two) == digits_value(prefix) * 100 + v) by (nonlinear_arith)
                    requires
                        digits_value(two) == (digits_value(prefix) * 10 + v as int / 10) * 10 + v
                            as int % 10,
                        v as int == 10 * (v as int / 10) + v as int % 10,
                ;
            }
            acc = acc * 100 + (v as u128);
        }
        i = i + 1;
    }
    proof {
        assert(rearranged_iban@.take(n as int) =~= rearranged_iban@);
    }
    acc
}

/// For any prefix of a convertible string, the denoted integer is at most
/// that of the whole string.
proof fn lemma_take_value_bound(s: Seq<char>, j: int)
    requires
        all_iban_chars(s),
        0 <= j <= s.len(),
    ensures
        0 <= digits_value(digits_of(s.take(j))) <= digits_value(digits_of(s)),
{
    let rest = s.subrange(j, s.len() as int);
    assert(s =~= s.take(j) + rest);
    lemma_digits_of_append(s.take(j), rest);
    assert(all_iban_chars(s.take(j))) by {
        assert(forall|i: int| 0 <= i < j ==> s.take(j)[i] == #[trigger] s[i]);
    }
    assert(all_iban_chars(rest)) by {
        assert(forall|i: int| 0 <= i < rest.len() ==> rest[i] == #[trigger] s[i + j]);
    }
    lemma_digits_of_digit_seq(s.take(j));
    lemma_digits_of_digit_seq(rest);
    lemma_digits_value_append_ge(digits_of(s.take(j)), digits_of(rest));
}

/// Checks whether the generated checksum is valid according to ISO 7064.
pub fn validate_checksum(checksum: u128) -> (r: bool)
    ensures
        r == (checksum % 97 == 1),
{
    checksum % 97 == 1
}

/// Runs the MOD 97-10 check on the segments of a sanitized IBAN, computing
/// the residue as a streaming remainder so that no fixed-width integer
/// bound limits the input length. Any character outside the convertible
/// alphabet makes the result false.
pub fn is_valid_checksum(country_code: &str, check_digits: &str, bban: &str) -> (r: bool)
    ensures
        r == spec_checksum_ok(country_code@, check_digits@, bban@),
{
    let rearranged = rearrange(bban, country_code, check_digits);
    let re = rearranged.as_str();
    let n = re.unicode_len();
    let mut rem: u32 = 0;
    let mut i: usize = 0;
    while i < n
        invariant
            re@ == bban@ + country_code@ + check_digits@,
            n == re@.len(),
            i <= n,
            all_iban_chars(re@.take(i as int)),
            rem == stream_rem(digits_of(re@.take(i as int)), 97),
            rem < 97,
        decreases n - i,
    {
        let ghost s = re@;
        let ghost prefix = digits_of(s.take(i as int));
        let c = re.get_char(i);
        let v = match char_value(c) {
            Some(v) => v,
            None => {
                assert(!is_iban_char((bban@ + country_code@ + check_digits@)[i as int]));
                return false;
            },
        };
        proof {
            assert(s.take(i + 1).drop_last() =~= s.take(i as int));
            assert(s.take(i + 1).last() == s[i as int]);
            assert(digits_of(s.take(i + 1)) == prefix + char_digits(c));
            assert(all_iban_chars(s.take(i + 1))) by {
                assert(forall|k: int|
                    0 <= k < i ==> s.take(i + 1)[k] == #[trigger] s.take(i as int)[k]);
                assert(s.take(i + 1)[i as int] == s[i as int]);
            }
        }
        if v < 10 {
            proof {
                assert(char_digits(c) =~= seq![v as int]);
                assert((prefix + seq![v as int]).drop_last() =~= prefix);
                assert((prefix + seq![v as int]).last() == v as int);
                assert(stream_rem(prefix + seq![v as int], 97) == (stream_rem(prefix, 97) * 10 + v)
                    % 97);
            }
            rem = (rem * 10 + v) % 97;
        } else {
            proof {
                assert(char_digits(c) =~= seq![v as int / 10, v as int % 10]);
                let two = prefix + char_digits(c);
                assert(two.drop_last() =~= prefix + seq![v as int / 10]);
                assert((prefix + seq![v as int / 10]).drop_last() =~= prefix);
                assert((prefix + seq![v as int / 10]).last() == v as int / 10);
                assert(two.last() == v as int % 10);
                assert(stream_rem(prefix + seq![v as int / 10], 97) == (stream_rem(prefix, 97) * 10
                    + v as int / 10) % 97);
                assert(stream_rem(two, 97) == (stream_rem(prefix + seq![v as int / 10], 97) * 10 + v
                    as int % 10) % 97);
            }
            rem = (rem * 10 + v / 10) % 97;
            rem = (rem * 10 + v % 10) % 97;
        }
        i = i + 1;
    }
    proof {
        assert(re@.take(n as int) =~= re@);
        lemma_stream_rem_is_mod(digits_of(re@), 97);
    }
    rem == 1
}

} // verus!
