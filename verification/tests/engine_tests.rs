use iban_engine::alphabet::{is_alphanumeric, is_blank, to_uppercase, value_of};
use iban_engine::bban::{decompose, DecomposeError};
use iban_engine::checksum::{remainder_of, verify_checksum, ChecksumError};
use iban_engine::engine::IbanValidationError;
use iban_engine::lexical::{validate_shape, LexicalError};
use iban_engine::normalize::{chars_of, normalize, text_of};
use iban_engine::registry::{BbanField, Charset, CountryFormat, Registry, Role};

fn field(length: usize, charset: Charset, role: Role) -> BbanField {
    BbanField { length, charset, role }
}

#[test]
fn normalize_strips_blanks_and_raises_letters() {
    assert_eq!(normalize("de44 5001 0517 5407 3249 31"), "DE44500105175407324931");
    assert_eq!(normalize(" gb82\twest\n1234 "), "GB82WEST1234");
    assert_eq!(normalize(""), "");
    assert_eq!(normalize("é-ß"), "é-ß");
}

#[test]
fn normalize_is_idempotent_on_samples() {
    for raw in ["de44 5001 0517", "  a  b  ", "DE44-00", "ǅ x", "\t\n"] {
        let once = normalize(raw);
        assert_eq!(normalize(&once), once);
    }
}

#[test]
fn characters_survive_the_round_trip() {
    let v = chars_of("aé0Z");
    assert_eq!(v, vec!['a', 'é', '0', 'Z']);
    assert_eq!(text_of(&v, 1, 3), "é0");
    assert_eq!(text_of(&v, 2, 2), "");
}

#[test]
fn alphabet_values() {
    assert_eq!(value_of('0'), 0);
    assert_eq!(value_of('9'), 9);
    assert_eq!(value_of('A'), 10);
    assert_eq!(value_of('Z'), 35);
    assert_eq!(to_uppercase('z'), 'Z');
    assert_eq!(to_uppercase('-'), '-');
    assert!(is_blank(' ') && !is_blank('_'));
    assert!(is_alphanumeric('Q') && !is_alphanumeric('q'));
}

#[test]
fn short_input_is_too_short_to_parse() {
    let registry = Registry::standard();
    assert_eq!(validate_shape("DE4", &registry).unwrap_err(), LexicalError::TooShortToParse);
    assert_eq!(validate_shape("", &registry).unwrap_err(), LexicalError::TooShortToParse);
    assert_eq!(
        registry.validate("D E 4").unwrap_err(),
        IbanValidationError::InvalidLength { expected: 4, actual: 3 }
    );
}

#[test]
fn length_five_is_an_invalid_length() {
    let registry = Registry::standard();
    assert_eq!(
        validate_shape("DE440", &registry).unwrap_err(),
        LexicalError::InvalidLength { expected: 22, actual: 5 }
    );
    assert_eq!(
        registry.validate("DE440").unwrap_err(),
        IbanValidationError::InvalidLength { expected: 22, actual: 5 }
    );
}

#[test]
fn more_than_the_maximum_is_an_invalid_length() {
    let registry = Registry::standard();
    let raw = "XX00ABCDEFGHIJKLMNOPQRSTUVWXYZ01234";
    assert_eq!(raw.len(), 35);
    assert_eq!(
        validate_shape(raw, &registry).unwrap_err(),
        LexicalError::InvalidLength { expected: 34, actual: 35 }
    );
}

#[test]
fn a_hyphen_is_an_invalid_character() {
    let registry = Registry::standard();
    assert_eq!(
        registry.validate("DE44-00105175407324931").unwrap_err(),
        IbanValidationError::InvalidCharacters { position: 4, character: '-' }
    );
    assert_eq!(
        validate_shape("D344500105175407324931", &registry).unwrap_err(),
        LexicalError::InvalidCharacters { position: 1, character: '3' }
    );
    assert_eq!(
        validate_shape("DEX4500105175407324931", &registry).unwrap_err(),
        LexicalError::InvalidCharacters { position: 2, character: 'X' }
    );
}

#[test]
fn accepted_text_is_the_normal_form() {
    let registry = Registry::standard();
    let text = validate_shape("de44 5001 0517 5407 3249 31", &registry).unwrap();
    let expected: Vec<char> = "DE44500105175407324931".chars().collect();
    assert_eq!(text.chars(), &expected);
}

#[test]
fn remainders_are_exact() {
    let registry = Registry::standard();
    let good = validate_shape("DE44500105175407324931", &registry).unwrap();
    assert_eq!(remainder_of(&good), 1);
    assert_eq!(verify_checksum(&good), Ok(()));
    let bad = validate_shape("XX44500105175407324931", &registry).unwrap();
    assert_eq!(remainder_of(&bad), 44);
    assert_eq!(
        verify_checksum(&bad),
        Err(ChecksumError::ChecksumMismatch { remainder: 44 })
    );
    let letters = validate_shape("ZZ00A", &registry).unwrap();
    assert_eq!(remainder_of(&letters), 11);
}

#[test]
fn checksum_is_repeatable() {
    let registry = Registry::standard();
    let a = validate_shape("GB82 WEST 1234 5698 7654 32", &registry).unwrap();
    let b = validate_shape("gb82west12345698765432", &registry).unwrap();
    assert_eq!(verify_checksum(&a), verify_checksum(&a));
    assert_eq!(verify_checksum(&a), verify_checksum(&b));
}

#[test]
fn german_number_has_its_parts() {
    let registry = Registry::standard();
    let info = registry.validate("DE44500105175407324931").unwrap();
    assert_eq!(info.iban, "DE44500105175407324931");
    assert_eq!(info.country_code, "DE");
    assert_eq!(info.check_digits, 44);
    assert_eq!(info.bban, "500105175407324931");
    assert_eq!(info.bank_identifier.as_deref(), Some("50010517"));
    assert_eq!(info.branch_identifier, None);
    assert_eq!(format!("{}{:02}{}", info.country_code, info.check_digits, info.bban), info.iban);
}

#[test]
fn mixed_case_input_succeeds_like_uppercase() {
    let registry = Registry::standard();
    let upper = registry.validate("GB82WEST12345698765432").unwrap();
    let mixed = registry.validate("gb82 West 1234 5698 7654 32").unwrap();
    assert_eq!(mixed.iban, upper.iban);
    assert_eq!(mixed.bank_identifier.as_deref(), Some("WEST"));
    assert_eq!(mixed.branch_identifier.as_deref(), Some("123456"));
    assert_eq!(mixed.bban, upper.bban);
}

#[test]
fn unknown_country_with_failing_checksum_is_a_mismatch() {
    let registry = Registry::standard();
    assert!(registry.lookup(('X', 'X')).is_none());
    assert_eq!(
        registry.validate("XX44500105175407324931").unwrap_err(),
        IbanValidationError::ChecksumMismatch { remainder: 44 }
    );
}

#[test]
fn unknown_country_with_good_checksum_passes_without_identifiers() {
    let registry = Registry::standard();
    let info = registry.validate("XX98500105175407324931").unwrap();
    assert_eq!(info.country_code, "XX");
    assert_eq!(info.check_digits, 98);
    assert_eq!(info.bban, "500105175407324931");
    assert_eq!(info.bank_identifier, None);
    assert_eq!(info.branch_identifier, None);
}

#[test]
fn one_changed_digit_is_a_mismatch() {
    let registry = Registry::standard();
    assert_eq!(
        registry.validate("DE44500105175407324932").unwrap_err(),
        IbanValidationError::ChecksumMismatch { remainder: 28 }
    );
    assert_eq!(
        registry.validate("DE45500105175407324931").unwrap_err(),
        IbanValidationError::ChecksumMismatch { remainder: 2 }
    );
}

#[test]
fn a_letter_in_a_digit_field_is_a_malformed_bban() {
    let mut registry = Registry::new();
    let format = CountryFormat::new(
        ('Q', 'Q'),
        vec![field(2, Charset::Digits, Role::BankIdentifier), field(2, Charset::Letters, Role::Other)],
    )
    .unwrap();
    assert_eq!(format.total_length, 8);
    assert!(registry.insert(format));
    // QQ..12A3: the checksum is made to fit, the last field holds a digit.
    let mut found = None;
    for cd in 2..99 {
        let raw = format!("QQ{:02}12A3", cd);
        match registry.validate(&raw) {
            Err(IbanValidationError::ChecksumMismatch { .. }) => {}
            other => found = Some(other),
        }
    }
    assert_eq!(found.unwrap().unwrap_err(), IbanValidationError::MalformedBban);
}

#[test]
fn decompose_walks_the_fields_in_order() {
    let format = CountryFormat::new(
        ('G', 'B'),
        vec![
            field(4, Charset::Letters, Role::BankIdentifier),
            field(6, Charset::Digits, Role::BranchIdentifier),
            field(8, Charset::Digits, Role::AccountNumber),
        ],
    )
    .unwrap();
    let parts = decompose("WEST12345698765432", &format).unwrap();
    assert_eq!(parts.bank_identifier.as_deref(), Some("WEST"));
    assert_eq!(parts.branch_identifier.as_deref(), Some("123456"));
    assert_eq!(decompose("WEST1234569876543", &format).unwrap_err(), DecomposeError::MalformedBban);
    assert_eq!(decompose("WEST123456987654321", &format).unwrap_err(), DecomposeError::MalformedBban);
    assert_eq!(decompose("W3ST12345698765432", &format).unwrap_err(), DecomposeError::MalformedBban);
    assert_eq!(decompose("WEST1234569876543A", &format).unwrap_err(), DecomposeError::MalformedBban);
}

#[test]
fn decompose_without_identifiers() {
    let format =
        CountryFormat::new(('Q', 'A'), vec![field(3, Charset::Alphanumeric, Role::Other)]).unwrap();
    let parts = decompose("A1B", &format).unwrap();
    assert_eq!(parts.bank_identifier, None);
    assert_eq!(parts.branch_identifier, None);
    let empty = CountryFormat::new(('Q', 'B'), vec![]).unwrap();
    assert!(decompose("", &empty).is_ok());
    assert!(decompose("1", &empty).is_err());
}

#[test]
fn formats_are_checked_when_built() {
    assert!(CountryFormat::new(('d', 'E'), vec![]).is_none());
    assert!(CountryFormat::new(('D', '1'), vec![]).is_none());
    assert!(CountryFormat::new(('D', 'E'), vec![field(31, Charset::Digits, Role::Other)]).is_none());
    assert!(CountryFormat::new(
        ('D', 'E'),
        vec![
            field(2, Charset::Digits, Role::BankIdentifier),
            field(2, Charset::Digits, Role::BankIdentifier)
        ]
    )
    .is_none());
    let f = CountryFormat::new(('D', 'E'), vec![field(30, Charset::Digits, Role::Other)]).unwrap();
    assert_eq!(f.total_length, 34);
    assert_eq!(f.country_code, ('D', 'E'));
}

#[test]
fn registry_keeps_the_first_format_of_a_country() {
    let mut registry = Registry::new();
    assert_eq!(registry.len(), 0);
    let a = CountryFormat::new(('Q', 'Q'), vec![field(3, Charset::Digits, Role::Other)]).unwrap();
    let b = CountryFormat::new(('Q', 'Q'), vec![field(5, Charset::Digits, Role::Other)]).unwrap();
    assert!(registry.insert(a));
    assert!(!registry.insert(b));
    assert_eq!(registry.len(), 1);
    assert_eq!(registry.lookup(('Q', 'Q')).unwrap().total_length, 7);
    assert!(registry.lookup(('Q', 'R')).is_none());
}

#[test]
fn standard_table_knows_the_scheme() {
    let registry = Registry::standard();
    assert_eq!(registry.len(), 87);
    let de = registry.lookup(('D', 'E')).unwrap();
    assert_eq!(de.total_length, 22);
    assert_eq!(
        de.bban_fields,
        vec![
            field(8, Charset::Digits, Role::BankIdentifier),
            field(10, Charset::Digits, Role::AccountNumber)
        ]
    );
    assert_eq!(registry.lookup(('N', 'O')).unwrap().total_length, 15);
    assert_eq!(registry.lookup(('L', 'C')).unwrap().total_length, 32);
    assert_eq!(registry.lookup(('R', 'U')).unwrap().total_length, 33);
}

#[test]
fn identifiers_are_the_slices_of_their_fields() {
    let format = CountryFormat::new(
        ('Q', 'Z'),
        vec![
            field(1, Charset::Letters, Role::Other),
            field(3, Charset::Digits, Role::BranchIdentifier),
            field(2, Charset::Alphanumeric, Role::BankIdentifier),
        ],
    )
    .unwrap();
    let bban = "X123A9";
    let parts = decompose(bban, &format).unwrap();
    assert_eq!(parts.branch_identifier.as_deref(), Some("123"));
    assert_eq!(parts.bank_identifier.as_deref(), Some("A9"));
    let rebuilt = format!(
        "{}{}{}",
        &bban[0..1],
        parts.branch_identifier.unwrap(),
        parts.bank_identifier.unwrap()
    );
    assert_eq!(rebuilt, bban);
}

#[test]
fn identifiers_make_up_the_front_of_a_british_number() {
    let registry = Registry::standard();
    let info = registry.validate("GB82WEST12345698765432").unwrap();
    let front = format!(
        "{}{}",
        info.bank_identifier.clone().unwrap(),
        info.branch_identifier.clone().unwrap()
    );
    assert!(info.bban.starts_with(&front));
    assert_eq!(front.len() + 8, info.bban.len());
}
