//! The country rule registry: a static, in-memory table from country code
//! to maximum IBAN length and checksum algorithms, plus the degraded
//! existence-only lookup over the full set of registered country codes.
//! Unknown codes yield "no rule", never an error.

use vstd::prelude::*;

verus! {

/// A registered IBAN country code (ISO 13616 registry).
pub open spec fn is_known_country(c0: char, c1: char) -> bool {
    ||| (c0 == 'A' && c1 == 'D')
    ||| (c0 == 'A' && c1 == 'E')
    ||| (c0 == 'A' && c1 == 'L')
    ||| (c0 == 'A' && c1 == 'T')
    ||| (c0 == 'A' && c1 == 'Z')
    ||| (c0 == 'B' && c1 == 'A')
    ||| (c0 == 'B' && c1 == 'E')
    ||| (c0 == 'B' && c1 == 'G')
    ||| (c0 == 'B' && c1 == 'H')
    ||| (c0 == 'B' && c1 == 'I')
    ||| (c0 == 'B' && c1 == 'R')
    ||| (c0 == 'B' && c1 == 'Y')
    ||| (c0 == 'C' && c1 == 'H')
    ||| (c0 == 'C' && c1 == 'R')
    ||| (c0 == 'C' && c1 == 'Y')
    ||| (c0 == 'C' && c1 == 'Z')
    ||| (c0 == 'D' && c1 == 'E')
    ||| (c0 == 'D' && c1 == 'J')
    ||| (c0 == 'D' && c1 == 'K')
    ||| (c0 == 'D' && c1 == 'O')
    ||| (c0 == 'E' && c1 == 'E')
    ||| (c0 == 'E' && c1 == 'G')
    ||| (c0 == 'E' && c1 == 'S')
    ||| (c0 == 'F' && c1 == 'I')
    ||| (c0 == 'F' && c1 == 'K')
    ||| (c0 == 'F' && c1 == 'O')
    ||| (c0 == 'F' && c1 == 'R')
    ||| (c0 == 'G' && c1 == 'B')
    ||| (c0 == 'G' && c1 == 'E')
    ||| (c0 == 'G' && c1 == 'I')
    ||| (c0 == 'G' && c1 == 'L')
    ||| (c0 == 'G' && c1 == 'R')
    ||| (c0 == 'G' && c1 == 'T')
    ||| (c0 == 'H' && c1 == 'N')
    ||| (c0 == 'H' && c1 == 'R')
    ||| (c0 == 'H' && c1 == 'U')
    ||| (c0 == 'I' && c1 == 'E')
    ||| (c0 == 'I' && c1 == 'L')
    ||| (c0 == 'I' && c1 == 'Q')
    ||| (c0 == 'I' && c1 == 'S')
    ||| (c0 == 'I' && c1 == 'T')
    ||| (c0 == 'J' && c1 == 'O')
    ||| (c0 == 'K' && c1 == 'W')
    ||| (c0 == 'K' && c1 == 'Z')
    ||| (c0 == 'L' && c1 == 'B')
    ||| (c0 == 'L' && c1 == 'C')
    ||| (c0 == 'L' && c1 == 'I')
    ||| (c0 == 'L' && c1 == 'T')
    ||| (c0 == 'L' && c1 == 'U')
    ||| (c0 == 'L' && c1 == 'V')
    ||| (c0 == 'M' && c1 == 'C')
    ||| (c0 == 'M' && c1 == 'D')
    ||| (c0 == 'M' && c1 == 'E')
    ||| (c0 == 'M' && c1 == 'K')
    ||| (c0 == 'M' && c1 == 'N')
    ||| (c0 == 'M' && c1 == 'R')
    ||| (c0 == 'M' && c1 == 'T')
    ||| (c0 == 'M' && c1 == 'U')
    ||| (c0 == 'N' && c1 == 'I')
    ||| (c0 == 'N' && c1 == 'L')
    ||| (c0 == 'N' && c1 == 'O')
    ||| (c0 == 'O' && c1 == 'M')
    ||| (c0 == 'P' && c1 == 'K')
    ||| (c0 == 'P' && c1 == 'L')
    ||| (c0 == 'P' && c1 == 'S')
    ||| (c0 == 'P' && c1 == 'T')
    ||| (c0 == 'Q' && c1 == 'A')
    ||| (c0 == 'R' && c1 == 'O')
    ||| (c0 == 'R' && c1 == 'S')
    ||| (c0 == 'R' && c1 == 'U')
    ||| (c0 == 'S' && c1 == 'A')
    ||| (c0 == 'S' && c1 == 'C')
    ||| (c0 == 'S' && c1 == 'D')
    ||| (c0 == 'S' && c1 == 'E')
    ||| (c0 == 'S' && c1 == 'I')
    ||| (c0 == 'S' && c1 == 'K')
    ||| (c0 == 'S' && c1 == 'M')
    ||| (c0 == 'S' && c1 == 'O')
    ||| (c0 == 'S' && c1 == 'T')
    ||| (c0 == 'S' && c1 == 'V')
    ||| (c0 == 'T' && c1 == 'L')
    ||| (c0 == 'T' && c1 == 'N')
    ||| (c0 == 'T' && c1 == 'R')
    ||| (c0 == 'U' && c1 == 'A')
    ||| (c0 == 'V' && c1 == 'A')
    ||| (c0 == 'V' && c1 == 'G')
    ||| (c0 == 'X' && c1 == 'K')
    ||| (c0 == 'Y' && c1 == 'E')
}

/// The per-country upper bound on total IBAN length: the publicly
/// standardized national length of each registered country. Codes outside
/// the registry have no rule.
pub open spec fn spec_rule_max_length(c0: char, c1: char) -> Option<int> {
    if c0 == 'A' && c1 == 'D' {
        Some(24int)
    } else if c0 == 'A' && c1 == 'E' {
        Some(23int)
    } else if c0 == 'A' && c1 == 'L' {
        Some(28int)
    } else if c0 == 'A' && c1 == 'T' {
        Some(20int)
    } else if c0 == 'A' && c1 == 'Z' {
        Some(28int)
    } else if c0 == 'B' && c1 == 'A' {
        Some(20int)
    } else if c0 == 'B' && c1 == 'E' {
        Some(16int)
    } else if c0 == 'B' && c1 == 'G' {
        Some(22int)
    } else if c0 == 'B' && c1 == 'H' {
        Some(22int)
    } else if c0 == 'B' && c1 == 'I' {
        Some(27int)
    } else if c0 == 'B' && c1 == 'R' {
        Some(29int)
    } else if c0 == 'B' && c1 == 'Y' {
        Some(28int)
    } else if c0 == 'C' && c1 == 'H' {
        Some(21int)
    } else if c0 == 'C' && c1 == 'R' {
        Some(22int)
    } else if c0 == 'C' && c1 == 'Y' {
        Some(28int)
    } else if c0 == 'C' && c1 == 'Z' {
        Some(24int)
    } else if c0 == 'D' && c1 == 'E' {
        Some(22int)
    } else if c0 == 'D' && c1 == 'J' {
        Some(27int)
    } else if c0 == 'D' && c1 == 'K' {
        Some(18int)
    } else if c0 == 'D' && c1 == 'O' {
        Some(28int)
    } else if c0 == 'E' && c1 == 'E' {
        Some(20int)
    } else if c0 == 'E' && c1 == 'G' {
        Some(29int)
    } else if c0 == 'E' && c1 == 'S' {
        Some(24int)
    } else if c0 == 'F' && c1 == 'I' {
        Some(18int)
    } else if c0 == 'F' && c1 == 'K' {
        Some(18int)
    } else if c0 == 'F' && c1 == 'O' {
        Some(18int)
    } else if c0 == 'F' && c1 == 'R' {
        Some(27int)
    } else if c0 == 'G' && c1 == 'B' {
        Some(22int)
    } else if c0 == 'G' && c1 == 'E' {
        Some(22int)
    } else if c0 == 'G' && c1 == 'I' {
        Some(23int)
    } else if c0 == 'G' && c1 == 'L' {
        Some(18int)
    } else if c0 == 'G' && c1 == 'R' {
        Some(27int)
    } else if c0 == 'G' && c1 == 'T' {
        Some(28int)
    } else if c0 == 'H' && c1 == 'N' {
        Some(28int)
    } else if c0 == 'H' && c1 == 'R' {
        Some(21int)
    } else if c0 == 'H' && c1 == 'U' {
        Some(28int)
    } else if c0 == 'I' && c1 == 'E' {
        Some(22int)
    } else if c0 == 'I' && c1 == 'L' {
        Some(23int)
    } else if c0 == 'I' && c1 == 'Q' {
        Some(23int)
    } else if c0 == 'I' && c1 == 'S' {
        Some(26int)
    } else if c0 == 'I' && c1 == 'T' {
        Some(27int)
    } else if c0 == 'J' && c1 == 'O' {
        Some(30int)
    } else if c0 == 'K' && c1 == 'W' {
        Some(30int)
    } else if c0 == 'K' && c1 == 'Z' {
        Some(20int)
    } else if c0 == 'L' && c1 == 'B' {
        Some(28int)
    } else if c0 == 'L' && c1 == 'C' {
        Some(32int)
    } else if c0 == 'L' && c1 == 'I' {
        Some(21int)
    } else if c0 == 'L' && c1 == 'T' {
        Some(20int)
    } else if c0 == 'L' && c1 == 'U' {
        Some(20int)
    } else if c0 == 'L' && c1 == 'V' {
        Some(21int)
    } else if c0 == 'M' && c1 == 'C' {
        Some(27int)
    } else if c0 == 'M' && c1 == 'D' {
        Some(24int)
    } else if c0 == 'M' && c1 == 'E' {
        Some(22int)
    } else if c0 == 'M' && c1 == 'K' {
        Some(19int)
    } else if c0 == 'M' && c1 == 'N' {
        Some(20int)
    } else if c0 == 'M' && c1 == 'R' {
        Some(27int)
    } else if c0 == 'M' && c1 == 'T' {
        Some(31int)
    } else if c0 == 'M' && c1 == 'U' {
        Some(30int)
    } else if c0 == 'N' && c1 == 'I' {
        Some(28int)
    } else if c0 == 'N' && c1 == 'L' {
        Some(18int)
    } else if c0 == 'N' && c1 == 'O' {
        Some(15int)
    } else if c0 == 'O' && c1 == 'M' {
        Some(23int)
    } else if c0 == 'P' && c1 == 'K' {
        Some(24int)
    } else if c0 == 'P' && c1 == 'L' {
        Some(28int)
    } else if c0 == 'P' && c1 == 'S' {
        Some(29int)
    } else if c0 == 'P' && c1 == 'T' {
        Some(25int)
    } else if c0 == 'Q' && c1 == 'A' {
        Some(29int)
    } else if c0 == 'R' && c1 == 'O' {
        Some(24int)
    } else if c0 == 'R' && c1 == 'S' {
        Some(22int)
    } else if c0 == 'R' && c1 == 'U' {
        Some(33int)
    } else if c0 == 'S' && c1 == 'A' {
        Some(24int)
    } else if c0 == 'S' && c1 == 'C' {
        Some(31int)
    } else if c0 == 'S' && c1 == 'D' {
        Some(18int)
    } else if c0 == 'S' && c1 == 'E' {
        Some(24int)
    } else if c0 == 'S' && c1 == 'I' {
        Some(19int)
    } else if c0 == 'S' && c1 == 'K' {
        Some(24int)
    } else if c0 == 'S' && c1 == 'M' {
        Some(27int)
    } else if c0 == 'S' && c1 == 'O' {
        Some(23int)
    } else if c0 == 'S' && c1 == 'T' {
        Some(25int)
    } else if c0 == 'S' && c1 == 'V' {
        Some(28int)
    } else if c0 == 'T' && c1 == 'L' {
        Some(23int)
    } else if c0 == 'T' && c1 == 'N' {
        Some(24int)
    } else if c0 == 'T' && c1 == 'R' {
        Some(26int)
    } else if c0 == 'U' && c1 == 'A' {
        Some(29int)
    } else if c0 == 'V' && c1 == 'A' {
        Some(22int)
    } else if c0 == 'V' && c1 == 'G' {
        Some(24int)
    } else if c0 == 'X' && c1 == 'K' {
        Some(20int)
    } else if c0 == 'Y' && c1 == 'E' {
        Some(30int)
    } else {
        None
    }
}

/// The rule table covers exactly the registered country codes: the degraded
/// existence-only lookup and the rich rule table recognize the same
/// countries, and every granted maximum lies in the global bounds [14, 34].
pub proof fn lemma_registry_matches_table(c0: char, c1: char)
    ensures
        is_known_country(c0, c1) <==> spec_rule_max_length(c0, c1) is Some,
        spec_rule_max_length(c0, c1) is Some ==> 14 <= spec_rule_max_length(c0, c1)->Some_0 <= 34,
{
}

#[derive(Clone, Copy)]
pub enum CheckingAlgorithms {
    MOD97,
}

/// The modulus a checking algorithm reduces by.
pub open spec fn spec_algorithm_modulus(algorithm: CheckingAlgorithms) -> int {
    match algorithm {
        CheckingAlgorithms::MOD97 => 97,
    }
}

/// An algorithm passes on given segments; MOD 97-10 demands residue 1 of
/// the rearranged digit string.
pub open spec fn spec_algorithm_passes(
    algorithm: CheckingAlgorithms,
    cc: Seq<char>,
    cd: Seq<char>,
    bban: Seq<char>,
) -> bool {
    match algorithm {
        CheckingAlgorithms::MOD97 => crate::checksum::spec_checksum_ok(cc, cd, bban),
    }
}

pub struct CountryRules {
    pub country_code: String,
    pub max_length: u8,
    pub checking_algorithms: Vec<CheckingAlgorithms>,
}

impl CountryRules {
    /// A well-formed rule: the publicly standardized per-country maxima all
    /// lie between 14 and 34 characters.
    pub open spec fn wf(&self) -> bool {
        14 <= self.max_length <= 34
    }
}

pub fn algorithm_to_mod(algorithm: CheckingAlgorithms) -> (r: u128)
    ensures
        r == spec_algorithm_modulus(algorithm),
{
    match algorithm {
        CheckingAlgorithms::MOD97 => 97,
    }
}

/// The degraded country-code-existence lookup: true exactly for the two-
/// character codes of the ISO 13616 registry, with no length or algorithm
/// data attached.
pub fn is_country_code_valid(country_code: &str) -> (r: bool)
    ensures
        r == (country_code@.len() == 2 && is_known_country(country_code@[0], country_code@[1])),
{
    let n = country_code.unicode_len();
    if n != 2 {
        return false;
    }
    let c0 = country_code.get_char(0);
    let c1 = country_code.get_char(1);
    match (c0, c1) {
        ('A', 'D') | ('A', 'E') | ('A', 'L') | ('A', 'T') | ('A', 'Z') | ('B', 'A') |
        ('B', 'E') | ('B', 'G') | ('B', 'H') | ('B', 'I') | ('B', 'R') | ('B', 'Y') |
        ('C', 'H') | ('C', 'R') | ('C', 'Y') | ('C', 'Z') | ('D', 'E') | ('D', 'J') |
        ('D', 'K') | ('D', 'O') | ('E', 'E') | ('E', 'G') | ('E', 'S') | ('F', 'I') |
        ('F', 'K') | ('F', 'O') | ('F', 'R') | ('G', 'B') | ('G', 'E') | ('G', 'I') |
        ('G', 'L') | ('G', 'R') | ('G', 'T') | ('H', 'N') | ('H', 'R') | ('H', 'U') |
        ('I', 'E') | ('I', 'L') | ('I', 'Q') | ('I', 'S') | ('I', 'T') | ('J', 'O') |
        ('K', 'W') | ('K', 'Z') | ('L', 'B') | ('L', 'C') | ('L', 'I') | ('L', 'T') |
        ('L', 'U') | ('L', 'V') | ('M', 'C') | ('M', 'D') | ('M', 'E') | ('M', 'K') |
        ('M', 'N') | ('M', 'R') | ('M', 'T') | ('M', 'U') | ('N', 'I') | ('N', 'L') |
        ('N', 'O') | ('O', 'M') | ('P', 'K') | ('P', 'L') | ('P', 'S') | ('P', 'T') |
        ('Q', 'A') | ('R', 'O') | ('R', 'S') | ('R', 'U') | ('S', 'A') | ('S', 'C') |
        ('S', 'D') | ('S', 'E') | ('S', 'I') | ('S', 'K') | ('S', 'M') | ('S', 'O') |
        ('S', 'T') | ('S', 'V') | ('T', 'L') | ('T', 'N') | ('T', 'R') | ('U', 'A') |
        ('V', 'A') | ('V', 'G') | ('X', 'K') | ('Y', 'E') => true,
        _ => false,
    }
}

/// An injectable country-rule registry: callers can supply their own table
/// (or a richer dataset) without touching the validation pipeline. A lookup
/// answers, per country code, the maximum total length and the checking
/// algorithms to run; `None` means the country is not recognized.
pub trait CountryLookup {
    /// The maximum total IBAN length this lookup grants a country code, or
    /// nothing for an unrecognized code.
    spec fn spec_rule_for(&self, c0: char, c1: char) -> Option<int>;

    /// The checking algorithms this lookup prescribes for a country code.
    spec fn spec_algorithms_for(&self, c0: char, c1: char) -> Seq<CheckingAlgorithms>;

    fn rule_for(&self, country_code: &str) -> (r: Option<CountryRules>)
        ensures
            r is Some <==> (country_code@.len() == 2 && self.spec_rule_for(
                country_code@[0],
                country_code@[1],
            ) is Some),
            r is Some ==> {
                &&& r->Some_0.country_code@ == country_code@
                &&& Some(r->Some_0.max_length as int) == self.spec_rule_for(
                    country_code@[0],
                    country_code@[1],
                )
                &&& r->Some_0.checking_algorithms@ == self.spec_algorithms_for(
                    country_code@[0],
                    country_code@[1],
                )
            },
    ;
}

/// The process-wide static rule table, as a `CountryLookup` collaborator.
pub struct StaticRegistry;

impl CountryLookup for StaticRegistry {
    open spec fn spec_rule_for(&self, c0: char, c1: char) -> Option<int> {
        spec_rule_max_length(c0, c1)
    }

    open spec fn spec_algorithms_for(&self, c0: char, c1: char) -> Seq<CheckingAlgorithms> {
        seq![CheckingAlgorithms::MOD97]
    }

    fn rule_for(&self, country_code: &str) -> (r: Option<CountryRules>) {
        get_rule_from_country_code(country_code)
    }
}

/// Looks up the length bound and checking algorithms for a country code;
/// `None` means the country is not in the rule table.
pub fn get_rule_from_country_code(country_code: &str) -> (r: Option<CountryRules>)
    ensures
        r is Some <==> (country_code@.len() == 2 && spec_rule_max_length(
            country_code@[0],
            country_code@[1],
        ) is Some),
        r is Some ==> {
            &&& r->Some_0.country_code@ == country_code@
            &&& Some(r->Some_0.max_length as int) == spec_rule_max_length(
                country_code@[0],
                country_code@[1],
            )
            &&& r->Some_0.checking_algorithms@ == seq![CheckingAlgorithms::MOD97]
            &&& r->Some_0.wf()
        },
{
    let n = country_code.unicode_len();
    if n != 2 {
        return None;
    }
    let c0 = country_code.get_char(0);
    let c1 = country_code.get_char(1);
    let max_length: u8 = match (c0, c1) {
        ('A', 'D') => 24,
        ('A', 'E') => 23,
        ('A', 'L') => 28,
        ('A', 'T') => 20,
        ('A', 'Z') => 28,
        ('B', 'A') => 20,
        ('B', 'E') => 16,
        ('B', 'G') => 22,
        ('B', 'H') => 22,
        ('B', 'I') => 27,
        ('B', 'R') => 29,
        ('B', 'Y') => 28,
        ('C', 'H') => 21,
        ('C', 'R') => 22,
        ('C', 'Y') => 28,
        ('C', 'Z') => 24,
        ('D', 'E') => 22,
        ('D', 'J') => 27,
        ('D', 'K') => 18,
        ('D', 'O') => 28,
        ('E', 'E') => 20,
        ('E', 'G') => 29,
        ('E', 'S') => 24,
        ('F', 'I') => 18,
        ('F', 'K') => 18,
        ('F', 'O') => 18,
        ('F', 'R') => 27,
        ('G', 'B') => 22,
        ('G', 'E') => 22,
        ('G', 'I') => 23,
        ('G', 'L') => 18,
        ('G', 'R') => 27,
        ('G', 'T') => 28,
        ('H', 'N') => 28,
        ('H', 'R') => 21,
        ('H', 'U') => 28,
        ('I', 'E') => 22,
        ('I', 'L') => 23,
        ('I', 'Q') => 23,
        ('I', 'S') => 26,
        ('I', 'T') => 27,
        ('J', 'O') => 30,
        ('K', 'W') => 30,
        ('K', 'Z') => 20,
        ('L', 'B') => 28,
        ('L', 'C') => 32,
        ('L', 'I') => 21,
        ('L', 'T') => 20,
        ('L', 'U') => 20,
        ('L', 'V') => 21,
        ('M', 'C') => 27,
        ('M', 'D') => 24,
        ('M', 'E') => 22,
        ('M', 'K') => 19,
        ('M', 'N') => 20,
        ('M', 'R') => 27,
        ('M', 'T') => 31,
        ('M', 'U') => 30,
        ('N', 'I') => 28,
        ('N', 'L') => 18,
        ('N', 'O') => 15,
        ('O', 'M') => 23,
        ('P', 'K') => 24,
        ('P', 'L') => 28,
        ('P', 'S') => 29,
        ('P', 'T') => 25,
        ('Q', 'A') => 29,
        ('R', 'O') => 24,
        ('R', 'S') => 22,
        ('R', 'U') => 33,
        ('S', 'A') => 24,
        ('S', 'C') => 31,
        ('S', 'D') => 18,
        ('S', 'E') => 24,
        ('S', 'I') => 19,
        ('S', 'K') => 24,
        ('S', 'M') => 27,
        ('S', 'O') => 23,
        ('S', 'T') => 25,
        ('S', 'V') => 28,
        ('T', 'L') => 23,
        ('T', 'N') => 24,
        ('T', 'R') => 26,
        ('U', 'A') => 29,
        ('V', 'A') => 22,
        ('V', 'G') => 24,
        ('X', 'K') => 20,
        ('Y', 'E') => 30,
        _ => {
            return None;
        },
    };
    let mut checking_algorithms: Vec<CheckingAlgorithms> = Vec::new();
    checking_algorithms.push(CheckingAlgorithms::MOD97);
    proof {
        assert(checking_algorithms@ =~= seq![CheckingAlgorithms::MOD97]);
    }
    Some(
        CountryRules {
            country_code: String::from_str(country_code),
            max_length,
            checking_algorithms,
        },
    )
}

} // verus!
