//! Positional segmentation of a sanitized IBAN: characters [0, 2) are the
//! country code, [2, 4) the check digits, [4, end) the BBAN. Segmentation
//! never fails: on a string shorter than four characters the missing
//! segments come out empty or truncated, and later checks reject them.

use vstd::prelude::*;

verus! {

/// The country-code segment: the first two characters, or everything on a
/// shorter string.
pub open spec fn seg_country_code(s: Seq<char>) -> Seq<char> {
    if s.len() < 2 {
        s
    } else {
        s.take(2)
    }
}

/// The check-digit segment: characters [2, 4), truncated on a short string.
pub open spec fn seg_check_digits(s: Seq<char>) -> Seq<char> {
    if s.len() <= 2 {
        Seq::<char>::empty()
    } else if s.len() < 4 {
        s.subrange(2, s.len() as int)
    } else {
        s.subrange(2, 4)
    }
}

/// The BBAN segment: everything from character 4 on.
pub open spec fn seg_bban(s: Seq<char>) -> Seq<char> {
    if s.len() <= 4 {
        Seq::<char>::empty()
    } else {
        s.subrange(4, s.len() as int)
    }
}

/// The three-part positional decomposition of a sanitized IBAN.
pub struct Segments {
    pub country_code: String,
    pub check_digits: String,
    pub bban: String,
}

/// Splits a sanitized string into country code, check digits and BBAN by
/// fixed character offsets; never fails, whatever the length.
pub fn segment(s: &str) -> (r: Segments)
    ensures
        r.country_code@ == seg_country_code(s@),
        r.check_digits@ == seg_check_digits(s@),
        r.bban@ == seg_bban(s@),
{
    let n = s.unicode_len();
    let a = if n < 2 {
        n
    } else {
        2
    };
    let b = if n < 4 {
        n
    } else {
        4
    };
    let country_code = String::from_str(s.substring_char(0, a));
    let check_digits = String::from_str(s.substring_char(a, b));
    let bban = String::from_str(s.substring_char(b, n));
    proof {
        assert(country_code@ =~= seg_country_code(s@));
        assert(check_digits@ =~= seg_check_digits(s@));
        assert(bban@ =~= seg_bban(s@));
    }
    Segments { country_code, check_digits, bban }
}

/// Recombining the three segments gives back the segmented string exactly,
/// whatever its length: segmentation loses and reorders nothing.
pub proof fn lemma_segment_recombine(s: Seq<char>)
    ensures
        seg_country_code(s) + seg_check_digits(s) + seg_bban(s) == s,
{
    assert(seg_country_code(s) + seg_check_digits(s) + seg_bban(s) =~= s);
}

} // verus!
