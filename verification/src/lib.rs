//! IBAN (International Bank Account Number) validation per ISO 13616,
//! with the ISO 7064 MOD 97-10 checksum.
//!
//! The pipeline is: input sanitization (uppercase, strip whitespace) ->
//! positional segmentation (country code, check digits, BBAN) ->
//! per-country rule lookup -> checksum verification. Every failure is a
//! false or absent result, never a panic.

use vstd::prelude::*;

pub mod checksum;
pub mod country;
pub mod sanitize;
pub mod segment;

pub use crate::checksum::convert_to_numbers;
pub use crate::checksum::is_valid_checksum;
pub use crate::checksum::validate_checksum;
pub use crate::country::algorithm_to_mod;
pub use crate::country::get_rule_from_country_code;
pub use crate::country::is_country_code_valid;
pub use crate::country::CheckingAlgorithms;
pub use crate::country::CountryLookup;
pub use crate::country::CountryRules;
pub use crate::country::StaticRegistry;
pub use crate::sanitize::sanitise_iban;
pub use crate::sanitize::validate_length;
pub use crate::segment::segment;
pub use crate::segment::Segments;

use crate::checksum::is_digit_char;
use crate::checksum::spec_checksum_ok;
use crate::country::is_known_country;
use crate::country::spec_rule_max_length;
use crate::sanitize::spec_sanitise;
use crate::segment::seg_bban;
use crate::segment::seg_check_digits;
use crate::segment::seg_country_code;

verus! {

/// A parsed IBAN: every field is filled from the best-effort segmentation
/// even when the input is invalid, so a caller can inspect why validation
/// failed.
#[derive(Debug, PartialEq)]
pub struct Iban {
    /// IBAN as provided.
    pub raw_iban: String,
    /// Sanitised IBAN, without whitespace and all uppercased. Filled even
    /// if the IBAN is invalid.
    pub machine_iban: String,
    /// The country code of the IBAN, such as GB or NL.
    pub country_code: String,
    /// Check digits as provided: the two characters after the country code.
    pub check_digits: String,
    /// Same as check_digits, but as an int; `None` when the segment is not
    /// numeric (or empty), rather than a failed parse.
    pub check_digits_int: Option<i8>,
    /// BBAN: the country-specific characters after country code and check
    /// digits.
    pub bban: String,
    /// Whether this is a valid IBAN or not.
    pub is_valid: bool,
}

/// The numeric reading of a check-digit segment: its value when it is one
/// or two decimal digits, nothing otherwise.
pub open spec fn spec_check_digits_int(cd: Seq<char>) -> Option<i8> {
    if cd.len() == 1 && is_digit_char(cd[0]) {
        Some((cd[0] as u32 - '0' as u32) as i8)
    } else if cd.len() == 2 && is_digit_char(cd[0]) && is_digit_char(cd[1]) {
        Some(((cd[0] as u32 - '0' as u32) * 10 + (cd[1] as u32 - '0' as u32)) as i8)
    } else {
        None
    }
}

/// Validity of a sanitized form under the per-country rule table: it has a
/// rule for its country code, its length lies in [15, that rule's maximum],
/// and the MOD 97-10 residue is 1.
pub open spec fn spec_sanitised_valid(t: Seq<char>) -> bool {
    &&& t.len() >= 2
    &&& spec_rule_max_length(t[0], t[1]) is Some
    &&& 15 <= t.len() <= spec_rule_max_length(t[0], t[1])->Some_0
    &&& spec_checksum_ok(seg_country_code(t), seg_check_digits(t), seg_bban(t))
}

/// Validity of a sanitized form under the degraded country-code-existence
/// mode: the country code is registered, the length lies in the global
/// bounds [15, 34], and the MOD 97-10 residue is 1.
pub open spec fn spec_sanitised_valid_degraded(t: Seq<char>) -> bool {
    &&& spec_checksum_ok(seg_country_code(t), seg_check_digits(t), seg_bban(t))
    &&& t.len() >= 2 && is_known_country(t[0], t[1])
    &&& 15 <= t.len() <= 34
}

/// Validity of a raw string: its sanitized form passes the per-country
/// rule pipeline.
pub open spec fn spec_iban_valid(raw: Seq<char>) -> bool {
    spec_sanitised_valid(spec_sanitise(raw))
}

fn parse_check_digits(check_digits: &str) -> (r: Option<i8>)
    ensures
        r == spec_check_digits_int(check_digits@),
{
    let n = check_digits.unicode_len();
    if n == 1 {
        let u0 = check_digits.get_char(0) as u32;
        if 48 <= u0 && u0 <= 57 {
            Some((u0 - 48) as i8)
        } else {
            None
        }
    } else if n == 2 {
        let u0 = check_digits.get_char(0) as u32;
        let u1 = check_digits.get_char(1) as u32;
        if 48 <= u0 && u0 <= 57 && 48 <= u1 && u1 <= 57 {
            Some(((u0 - 48) * 10 + (u1 - 48)) as i8)
        } else {
            None
        }
    } else {
        None
    }
}

/// Parses a string into an `Iban` struct, containing a sanitised IBAN,
/// is_valid, country code, BBAN and check digits. The stored validity flag
/// is computed by the same pipeline as `is_valid_iban_string`, so the two
/// always agree.
pub fn parse_iban(iban_string: &str) -> (r: Iban)
    ensures
        r.raw_iban@ == iban_string@,
        r.machine_iban@ == spec_sanitise(iban_string@),
        r.country_code@ == seg_country_code(spec_sanitise(iban_string@)),
        r.check_digits@ == seg_check_digits(spec_sanitise(iban_string@)),
        r.bban@ == seg_bban(spec_sanitise(iban_string@)),
        r.check_digits_int == spec_check_digits_int(
            seg_check_digits(spec_sanitise(iban_string@)),
        ),
        r.is_valid == spec_iban_valid(iban_string@),
{
    let sanitised = sanitise_iban(iban_string);
    let segs = segment(sanitised.as_str());
    let is_valid = is_valid_iban_string(iban_string);
    let check_digits_int = parse_check_digits(segs.check_digits.as_str());
    Iban {
        raw_iban: String::from_str(iban_string),
        bban: segs.bban,
        machine_iban: sanitised,
        is_valid,
        country_code: segs.country_code,
        check_digits_int,
        check_digits: segs.check_digits,
    }
}

/// Validity of a sanitized form under an arbitrary rule lookup: the lookup
/// recognizes the country code, the length lies in [15, the granted
/// maximum], and every checking algorithm the lookup prescribes passes.
pub open spec fn spec_sanitised_valid_with<L: CountryLookup>(lookup: L, t: Seq<char>) -> bool {
    &&& t.len() >= 2
    &&& lookup.spec_rule_for(t[0], t[1]) is Some
    &&& 15 <= t.len() <= lookup.spec_rule_for(t[0], t[1])->Some_0
    &&& forall|k: int|
        0 <= k < lookup.spec_algorithms_for(t[0], t[1]).len()
            ==> country::spec_algorithm_passes(
            #[trigger] lookup.spec_algorithms_for(t[0], t[1])[k],
            seg_country_code(t),
            seg_check_digits(t),
            seg_bban(t),
        )
}

/// Validity of a raw string under an arbitrary rule lookup.
pub open spec fn spec_iban_valid_with<L: CountryLookup>(lookup: L, raw: Seq<char>) -> bool {
    spec_sanitised_valid_with(lookup, spec_sanitise(raw))
}

/// Validates an IBAN string against an injected country-rule lookup:
/// sanitize, segment, look up the rule (fail if absent), check the length
/// against [15, the rule's maximum], then run every listed algorithm.
pub fn is_valid_iban_with<L: CountryLookup>(lookup: &L, iban: &str) -> (r: bool)
    ensures
        r == spec_iban_valid_with(*lookup, iban@),
{
    let ghost t = spec_sanitise(iban@);
    let sanitised_iban = sanitise_iban(iban);
    let segs = segment(sanitised_iban.as_str());
    proof {
        if t.len() >= 2 {
            assert(seg_country_code(t).len() == 2);
            assert(seg_country_code(t)[0] == t[0]);
            assert(seg_country_code(t)[1] == t[1]);
        } else {
            assert(seg_country_code(t).len() < 2);
        }
    }
    let rule = match lookup.rule_for(segs.country_code.as_str()) {
        Some(rule) => rule,
        None => {
            return false;
        },
    };
    let n = sanitised_iban.as_str().unicode_len();
    if n < 15 || n > rule.max_length as usize {
        return false;
    }
    all_algorithms_pass(
        &rule.checking_algorithms,
        segs.country_code.as_str(),
        segs.check_digits.as_str(),
        segs.bban.as_str(),
    )
}

/// Validates an IBAN string.
///
/// Checks the per-country rule: the country code must be in the static rule
/// table, the sanitized length must lie in [15, the country's maximum], and
/// every checking algorithm the rule lists (MOD 97-10 throughout the table)
/// must pass.
pub fn is_valid_iban_string(iban: &str) -> (r: bool)
    ensures
        r == spec_iban_valid(iban@),
{
    let r = is_valid_iban_with(&country::StaticRegistry, iban);
    proof {
        let t = spec_sanitise(iban@);
        let registry = country::StaticRegistry;
        let algs = registry.spec_algorithms_for(t[0], t[1]);
        assert(algs == seq![CheckingAlgorithms::MOD97]);
        assert(algs[0] == CheckingAlgorithms::MOD97);
        assert(country::spec_algorithm_passes(
            algs[0],
            seg_country_code(t),
            seg_check_digits(t),
            seg_bban(t),
        ) == spec_checksum_ok(seg_country_code(t), seg_check_digits(t), seg_bban(t)));
    }
    r
}

/// Runs every listed checking algorithm on the segments; all must pass.
pub fn all_algorithms_pass(
    algorithms: &Vec<CheckingAlgorithms>,
    country_code: &str,
    check_digits: &str,
    bban: &str,
) -> (r: bool)
    ensures
        r == (forall|k: int|
            0 <= k < algorithms@.len() ==> country::spec_algorithm_passes(
                #[trigger] algorithms@[k],
                country_code@,
                check_digits@,
                bban@,
            )),
{
    let mut i: usize = 0;
    while i < algorithms.len()
        invariant
            i <= algorithms@.len(),
            forall|k: int|
                0 <= k < i ==> country::spec_algorithm_passes(
                    #[trigger] algorithms@[k],
                    country_code@,
                    check_digits@,
                    bban@,
                ),
        decreases algorithms@.len() - i,
    {
        let passes = match algorithms[i] {
            CheckingAlgorithms::MOD97 => is_valid_checksum(country_code, check_digits, bban),
        };
        if !passes {
            assert(!country::spec_algorithm_passes(
                algorithms@[i as int],
                country_code@,
                check_digits@,
                bban@,
            ));
            return false;
        }
        i = i + 1;
    }
    true
}

/// Flipping a single check digit of a sanitized form never preserves
/// validity: two forms that agree everywhere but in one of the two
/// check-digit positions cannot both be valid, in either validation mode,
/// whatever the rest of the string.
pub proof fn lemma_flip_check_digit_invalidates(t1: Seq<char>, t2: Seq<char>)
    requires
        t1.len() == t2.len(),
        t1.len() >= 4,
        is_digit_char(t1[2]),
        is_digit_char(t1[3]),
        is_digit_char(t2[2]),
        is_digit_char(t2[3]),
        t1 != t2,
        forall|i: int| 0 <= i < t1.len() && i != 2 && i != 3 ==> t1[i] == t2[i],
        t1[2] == t2[2] || t1[3] == t2[3],
    ensures
        !(spec_sanitised_valid(t1) && spec_sanitised_valid(t2)),
        !(spec_sanitised_valid_degraded(t1) && spec_sanitised_valid_degraded(t2)),
{
    let cc = seg_country_code(t1);
    let bban = seg_bban(t1);
    let cd1 = seg_check_digits(t1);
    let cd2 = seg_check_digits(t2);
    assert(seg_country_code(t2) =~= cc);
    assert(seg_bban(t2) =~= bban);
    assert(cd1.len() == 2 && cd2.len() == 2);
    assert(cd1[0] == t1[2] && cd1[1] == t1[3]);
    assert(cd2[0] == t2[2] && cd2[1] == t2[3]);
    assert(cd1 != cd2) by {
        if t1[2] == t2[2] && t1[3] == t2[3] {
            assert(t1 =~= t2);
        }
        if cd1 == cd2 {
            assert(cd1[0] == cd2[0] && cd1[1] == cd2[1]);
        }
    }
    checksum::lemma_flip_check_digit(cc, bban, cd1, cd2);
}

/// A sanitized form shorter than 15 or longer than 34 characters is
/// invalid in both validation modes, whatever its checksum: every
/// per-country maximum lies within the global bounds.
pub proof fn lemma_length_bounds(t: Seq<char>)
    requires
        t.len() < 15 || t.len() > 34,
    ensures
        !spec_sanitised_valid(t),
        !spec_sanitised_valid_degraded(t),
{
    if t.len() >= 2 {
        country::lemma_registry_matches_table(t[0], t[1]);
    }
}

/// The per-country rule pipeline is the stricter one: a sanitized form it
/// accepts also passes the degraded existence-plus-global-bounds mode.
pub proof fn lemma_valid_implies_degraded(t: Seq<char>)
    ensures
        spec_sanitised_valid(t) ==> spec_sanitised_valid_degraded(t),
{
    if spec_sanitised_valid(t) {
        country::lemma_registry_matches_table(t[0], t[1]);
    }
}

} // verus!
