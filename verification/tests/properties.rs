use iban_core::algorithm_to_mod;
use iban_core::convert_to_numbers;
use iban_core::get_rule_from_country_code;
use iban_core::is_country_code_valid;
use iban_core::is_valid_checksum;
use iban_core::is_valid_iban_string;
use iban_core::parse_iban;
use iban_core::sanitise_iban;
use iban_core::segment;
use iban_core::validate_checksum;
use iban_core::validate_length;

#[test]
fn sanitise_is_idempotent_and_clean() {
    let input = " \tgB82 wEsT 1234\u{00A0}5698\u{2003}7654 32\n";
    let once = sanitise_iban(input);
    let twice = sanitise_iban(&once);
    assert_eq!(once, "GB82WEST12345698765432");
    assert_eq!(once, twice);
    assert!(!once.chars().any(|c| c.is_whitespace()));
    assert!(!once.chars().any(|c| c.is_ascii_lowercase()));
}

#[test]
fn sanitise_uppercases_beyond_ascii() {
    // e-acute uppercases to its accented capital; sharp s expands to SS.
    assert_eq!(sanitise_iban("\u{00E9}"), "\u{00C9}");
    assert_eq!(sanitise_iban("stra\u{00DF}e 12"), "STRASSE12");
    let once = sanitise_iban("gb12 \u{00E9}\u{00DF}");
    assert!(!once.chars().any(|c| c.is_whitespace()));
    assert!(!once.chars().any(|c| c.is_lowercase()));
}

#[test]
fn segment_recombines_to_sanitised() {
    for raw in [
        "GB82 WEST 1234 5698 7654 32",
        "GB82 WEST 1234",
        "ABC",
        "A",
        "",
    ] {
        let t = sanitise_iban(raw);
        let segs = segment(&t);
        let recombined = format!(
            "{}{}{}",
            segs.country_code, segs.check_digits, segs.bban
        );
        assert_eq!(recombined, t);
    }
}

#[test]
fn segment_short_inputs_never_fail() {
    let empty = segment("");
    assert_eq!(empty.country_code, "");
    assert_eq!(empty.check_digits, "");
    assert_eq!(empty.bban, "");

    let three = segment("ABC");
    assert_eq!(three.country_code, "AB");
    assert_eq!(three.check_digits, "C");
    assert_eq!(three.bban, "");
}

#[test]
fn flipping_any_single_check_digit_invalidates() {
    let valid = "GB82WEST12345698765432";
    assert!(is_valid_iban_string(valid));
    let chars: Vec<char> = valid.chars().collect();
    for pos in [2usize, 3usize] {
        for d in '0'..='9' {
            if d == chars[pos] {
                continue;
            }
            let mut flipped = chars.clone();
            flipped[pos] = d;
            let flipped: String = flipped.into_iter().collect();
            assert!(!is_valid_iban_string(&flipped));
            assert!(!parse_iban(&flipped).is_valid);
        }
    }
}

#[test]
fn length_fourteen_and_thirty_five_always_invalid() {
    // Both strings have residue 1, so only the length can reject them.
    let fourteen = "GB320123456789";
    let thirty_five = "MT17ABCDEFGHIJ012345678901234567890";
    assert!(!validate_length(fourteen));
    assert!(!is_valid_iban_string(fourteen));
    assert!(!parse_iban(fourteen).is_valid);
    assert!(!validate_length(thirty_five));
    assert!(!is_valid_iban_string(thirty_five));
    assert!(!parse_iban(thirty_five).is_valid);
}

#[test]
fn length_fifteen_and_thirty_four_are_the_extremes() {
    let fifteen = "GB6101234567890";
    assert!(validate_length(fifteen));
    assert!(is_valid_iban_string(fifteen));
    assert!(parse_iban(fifteen).is_valid);

    // A residue-1, registered-country form of length 34: the degraded
    // global-bound mode (existence + [15, 34] + checksum) accepts it, while
    // the rule pipeline rejects it over Malta's national maximum of 31.
    let thirty_four = "MT08ABCDEFGHIJ01234567890123456789";
    assert!(validate_length(thirty_four));
    let segs = segment(thirty_four);
    assert!(is_country_code_valid(&segs.country_code));
    assert!(is_valid_checksum(
        &segs.country_code,
        &segs.check_digits,
        &segs.bban
    ));
    assert!(!is_valid_iban_string(thirty_four));
    assert!(!parse_iban(thirty_four).is_valid);
}

#[test]
fn streaming_remainder_matches_full_integer() {
    for (cc, cd, bban) in [
        ("GB", "82", "WEST12345698765432"),
        ("GB", "82", "WEST12345698765434"),
        ("DE", "91", "100000000123456789"),
        ("NO", "83", "30001234567"),
    ] {
        let rearranged = format!("{bban}{cc}{cd}");
        let full = convert_to_numbers(&rearranged);
        assert_eq!(validate_checksum(full), is_valid_checksum(cc, cd, bban));
    }
}

#[test]
fn convert_to_numbers_letter_values() {
    assert_eq!(convert_to_numbers("A"), 10);
    assert_eq!(convert_to_numbers("Z"), 35);
    assert_eq!(convert_to_numbers("00"), 0);
    assert_eq!(convert_to_numbers("A0B"), 10011);
}

#[test]
fn checksum_rejects_non_alphanumeric() {
    assert!(!is_valid_checksum("GB", "82", "WEST-234 5698765432"));
    assert!(!parse_iban("GB82 WEST_1234 5698 7654 32").is_valid);
}

#[test]
fn scenario_valid_gb_iban() {
    let input = "GB82 WEST 1234 5698 7654 32";
    assert!(is_valid_iban_string(input));
    let record = parse_iban(input);
    assert!(record.is_valid);
    assert_eq!(record.country_code, "GB");
    assert_eq!(record.check_digits, "82");
    assert_eq!(record.bban, "WEST12345698765432");
}

#[test]
fn scenario_checksum_failure() {
    let input = "GB82 WEST 1234 5698 7654 34";
    assert!(!is_valid_iban_string(input));
    assert!(!parse_iban(input).is_valid);
}

#[test]
fn scenario_unknown_country_code() {
    let input = "BB82 WEST 1234 5698 7654 32";
    assert!(!is_valid_iban_string(input));
    assert!(!parse_iban(input).is_valid);
}

#[test]
fn scenario_too_short_still_segments() {
    let record = parse_iban("GB82 WEST 1234");
    assert!(!record.is_valid);
    assert_eq!(record.machine_iban, "GB82WEST1234");
    assert_eq!(record.country_code, "GB");
    assert_eq!(record.check_digits, "82");
    assert_eq!(record.bban, "WEST1234");
    assert_eq!(record.check_digits_int, Some(82));
}

#[test]
fn scenario_valid_de_iban() {
    let input = "DE91100000000123456789";
    assert!(is_valid_iban_string(input));
    let record = parse_iban(input);
    assert!(record.is_valid);
    assert_eq!(record.country_code, "DE");
}

#[test]
fn non_numeric_check_digits_are_recoverable() {
    let record = parse_iban("GBXX WEST 1234 5698 7654 32");
    assert_eq!(record.check_digits, "XX");
    assert_eq!(record.check_digits_int, None);
    assert!(!record.is_valid);

    let empty = parse_iban("");
    assert_eq!(empty.machine_iban, "");
    assert_eq!(empty.country_code, "");
    assert_eq!(empty.check_digits, "");
    assert_eq!(empty.bban, "");
    assert_eq!(empty.check_digits_int, None);
    assert!(!empty.is_valid);

    let one_digit = parse_iban("GB8");
    assert_eq!(one_digit.check_digits, "8");
    assert_eq!(one_digit.check_digits_int, Some(8));
    assert!(!one_digit.is_valid);
}

#[test]
fn rule_table_lookup() {
    let rule = get_rule_from_country_code("DE").unwrap();
    assert_eq!(rule.country_code, "DE");
    assert_eq!(rule.max_length, 22);
    assert_eq!(rule.checking_algorithms.len(), 1);
    assert_eq!(algorithm_to_mod(rule.checking_algorithms[0]), 97);

    let norway = get_rule_from_country_code("NO").unwrap();
    assert_eq!(norway.max_length, 15);
    let malta = get_rule_from_country_code("MT").unwrap();
    assert_eq!(malta.max_length, 31);

    assert!(get_rule_from_country_code("BB").is_none());
    assert!(get_rule_from_country_code("ZZ").is_none());
    assert!(get_rule_from_country_code("D").is_none());
    assert!(get_rule_from_country_code("DEX").is_none());
}

#[test]
fn parse_flag_agrees_with_boolean_validator() {
    for input in [
        "GB82 WEST 1234 5698 7654 32",
        "GB82 WEST 1234 5698 7654 34",
        "BB82 WEST 1234 5698 7654 32",
        "CH5604835012345678009",
        "NO8330001234567",
        "MT08ABCDEFGHIJ01234567890123456789",
        "BE130961234567690000",
        "GB82 WEST 1234",
        "",
    ] {
        assert_eq!(parse_iban(input).is_valid, is_valid_iban_string(input));
    }
}

#[test]
fn country_length_rule_rejects_overlong_national_form() {
    // Residue-1 Belgian form of length 20: inside the global bounds but over
    // Belgium's national maximum of 16, so the rule pipeline rejects it.
    let overlong_be = "BE130961234567690000";
    assert!(validate_length(overlong_be));
    assert!(!is_valid_iban_string(overlong_be));
    assert!(!parse_iban(overlong_be).is_valid);
}

#[test]
fn injectable_registry_matches_default_pipeline() {
    let registry = iban_core::StaticRegistry;
    for input in [
        "GB82 WEST 1234 5698 7654 32",
        "GB82 WEST 1234 5698 7654 34",
        "BB82 WEST 1234 5698 7654 32",
        "DE91100000000123456789",
        "NO8330001234567",
        "",
    ] {
        assert_eq!(
            iban_core::is_valid_iban_with(&registry, input),
            is_valid_iban_string(input)
        );
    }
}

#[test]
fn country_code_existence_lookup() {
    assert!(is_country_code_valid("GB"));
    assert!(is_country_code_valid("NO"));
    assert!(!is_country_code_valid("BB"));
    assert!(!is_country_code_valid("gb"));
    assert!(!is_country_code_valid("G"));
    assert!(!is_country_code_valid("GBX"));
    assert!(!is_country_code_valid(""));
}
