use iban_core::convert_to_numbers;
use iban_core::is_valid_iban_string;
use iban_core::sanitise_iban;
use iban_core::validate_checksum;
use iban_core::validate_length;

#[test]
fn core_remove_spaces_works() {
    let input = "GB82 WEST 1234 5698 7654 32";
    let result = sanitise_iban(input);
    assert_eq!(result, "GB82WEST12345698765432");
}

#[test]
fn lib_remove_spaces_works() {
    let input = String::from("GB82 WEST 1234 5698 7654 32");
    let result = sanitise_iban(&input);
    assert_eq!(result, "GB82WEST12345698765432");
}

#[test]
fn core_validate_length_works() {
    let input = "GB82 WEST 1234 5698 7654 32";
    let too_long = "GB82 WEST 1234 5698 7654 32 2222 222";
    let too_short = "GB82 WEST 1234";
    let result = validate_length(input);
    let result_long = validate_length(too_long);
    let result_short = validate_length(too_short);
    assert!(result);
    assert!(!result_long);
    assert!(!result_short);
}

#[test]
fn lib_validate_length_works() {
    let input = String::from("GB82 WEST 1234 5698 7654 32");
    let too_long = String::from("GB82 WEST 1234 5698 7654 32 2222 222");
    let too_short = String::from("GB82 WEST 1234");
    let result = validate_length(&input);
    let result_long = validate_length(&too_long);
    let result_short = validate_length(&too_short);
    assert!(result);
    assert!(!result_long);
    assert!(!result_short);
}

#[test]
fn core_validate_checksum_works() {
    let good = validate_checksum(3214282912345698765432161182);
    let bad = validate_checksum(3214282912345698765432161181);

    assert!(good);
    assert!(!bad);
}

#[test]
fn lib_validate_checksum_works() {
    let good = validate_checksum(3214282912345698765432161182);
    let bad = validate_checksum(3214282912345698765432161181);

    assert!(good);
    assert!(!bad);
}

#[test]
fn core_convert_to_numbers_works() {
    let input = "WEST12345698765432GB82";

    let result = convert_to_numbers(input);

    assert_eq!(result, 3214282912345698765432161182)
}

#[test]
fn lib_convert_to_numbers_works() {
    let input = String::from("WEST12345698765432GB82");

    let result = convert_to_numbers(&input);

    assert_eq!(result, 3214282912345698765432161182)
}

#[test]
fn is_valid_iban_string_works() {
    let good = "GB82 WEST 1234 5698 7654 32";
    let bad = "GB82 WEST 1234 5698 7654 34";

    let good_result = is_valid_iban_string(good);
    let bad_result = is_valid_iban_string(bad);

    assert!(good_result);
    assert!(!bad_result);
}

#[test]
fn lib_is_valid_iban_string_works() {
    let good = String::from("GB82 WEST 1234 5698 7654 32");
    let bad = String::from("GB82 WEST 1234 5698 7654 34");

    let good_result = is_valid_iban_string(&good);
    let bad_result = is_valid_iban_string(&bad);

    assert!(good_result);
    assert!(!bad_result);
}

#[test]
fn lib_country_code_validation() {
    let good = "GB82 WEST 1234 5698 7654 32";
    let bad = "BB82 WEST 1234 5698 7654 32";

    let good_result = is_valid_iban_string(good);
    let bad_result = is_valid_iban_string(bad);

    assert!(good_result);
    assert!(!bad_result);
}
