use iban::{Iban, IbanLike};
use iban_engine::registry::Registry;

const SAMPLES: [&str; 6] = [
    "DE44500105175407324931",
    "GB82WEST12345698765432",
    "FR1420041010050500013M02606",
    "NL91ABNA0417164300",
    "AL47212110090000000235698741",
    "MU17BOMM0101101030300200000MUR",
];

#[test]
fn parts_agree_with_iban_validate() {
    let registry = Registry::standard();
    for sample in SAMPLES {
        let theirs: Iban = sample.parse().unwrap();
        let ours = registry.validate(sample).unwrap();
        assert_eq!(ours.iban, theirs.electronic_str());
        assert_eq!(ours.country_code, theirs.country_code());
        assert_eq!(ours.check_digits, theirs.check_digits());
        assert_eq!(ours.bban, theirs.bban());
        assert_eq!(ours.bank_identifier.as_deref(), theirs.bank_identifier());
        assert_eq!(ours.branch_identifier.as_deref(), theirs.branch_identifier());
    }
}

#[test]
fn refusals_agree_with_iban_validate() {
    let registry = Registry::standard();
    for sample in ["DE44500105175407324932", "GB82WEST1234569876543", "DE44-00105175407324931"] {
        assert!(sample.parse::<Iban>().is_err());
        assert!(registry.validate(sample).is_err());
    }
}
