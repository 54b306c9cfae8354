use iban_engine::engine::IbanValidationError;
use iban_engine::registry::Registry;
use iban_engine::service::{
    decimal_text, IbanResponse, LevelFilter, LogLevel, MessageResponse, ServerError, VersionInfo,
};

#[test]
fn test_iban_valid() {
    let registry = Registry::standard();
    let response = registry.respond("DE44500105175407324931");
    assert_eq!(response.status(), 200);
    match response {
        IbanResponse::Info(iban_info) => {
            assert_eq!(iban_info.country_code, "DE");
            assert_eq!(iban_info.check_digits, 44);
            assert_eq!(iban_info.bban, "500105175407324931");
            assert_eq!(iban_info.bank_identifier, Some(String::from("50010517")));
            assert_eq!(iban_info.branch_identifier, None);
        }
        IbanResponse::Error(e) => panic!("refused: {}", e.to_text()),
    }
}

#[test]
fn test_iban_invalid() {
    let registry = Registry::standard();
    let response = registry.respond("XX44500105175407324931");
    assert_eq!(response.status(), 400);
    match response {
        IbanResponse::Error(iban_response) => {
            assert_eq!(
                iban_response.message,
                "Invalid IBAN: the string does not follow the base IBAN rules"
            );
        }
        IbanResponse::Info(info) => panic!("accepted: {:?}", info),
    }
}

#[test]
fn test_version() {
    let info = VersionInfo::from_build_info(
        "axum-iban",
        "0.5.0",
        "2024-02-14 14:42:35 +02:00",
        "main",
        "ee9ec805f61944653a56a7e429b2fad03232be49",
        "2024-02-14 12:42:18 +00:00",
        "macos-aarch64",
        "rustc 1.76.0 (07dca489a 2024-02-04)",
        "stable-aarch64-apple-darwin",
    );
    assert_eq!(info.name, "axum-iban");
    assert_eq!(info.version, "0.5.0");
    assert_eq!(info.build_time, "2024-02-14 14:42:35 +02:00");
    assert_eq!(info.branch, "main");
    assert_eq!(info.commit, "ee9ec805f61944653a56a7e429b2fad03232be49");
    assert_eq!(info.commit_time, "2024-02-14 12:42:18 +00:00");
    assert_eq!(info.build_os, "macos-aarch64");
    assert_eq!(info.rust_version, "rustc 1.76.0 (07dca489a 2024-02-04)");
    assert_eq!(info.rust_channel, "stable-aarch64-apple-darwin");
}

#[test]
fn log_levels_map_to_their_filters() {
    assert_eq!(LogLevel::Trace.to_filter(), LevelFilter::Trace);
    assert_eq!(LogLevel::Debug.to_filter(), LevelFilter::Debug);
    assert_eq!(LogLevel::Info.to_filter(), LevelFilter::Info);
    assert_eq!(LogLevel::Warn.to_filter(), LevelFilter::Warn);
    assert_eq!(LogLevel::Error.to_filter(), LevelFilter::Error);
}

#[test]
fn each_refusal_has_its_message() {
    let e = IbanValidationError::InvalidCharacters { position: 4, character: '-' };
    assert_eq!(
        e.message(),
        "Invalid IBAN: the character '-' may not stand at position 4"
    );
    let e = IbanValidationError::InvalidLength { expected: 22, actual: 5 };
    assert_eq!(e.message(), "Invalid IBAN: the length is 5 where 22 is asked for");
    let e = IbanValidationError::ChecksumMismatch { remainder: 44 };
    assert_eq!(e.reason(), "the string does not follow the base IBAN rules");
    let e = IbanValidationError::MalformedBban;
    assert_eq!(e.message(), "Invalid IBAN: the IBAN doesn't have a correct BBAN");
}

#[test]
fn refusal_becomes_an_error_response() {
    let r = IbanResponse::from_outcome(Err(IbanValidationError::MalformedBban));
    assert_eq!(r.status(), 400);
    match r {
        IbanResponse::Error(m) => {
            assert_eq!(m.to_text(), "Invalid IBAN: the IBAN doesn't have a correct BBAN")
        }
        IbanResponse::Info(_) => panic!("no refusal"),
    }
}

#[test]
fn message_response_gives_its_text() {
    let m = MessageResponse { message: String::from("Invalid IBAN") };
    assert_eq!(m.to_text(), "Invalid IBAN");
}

#[test]
fn server_error_reports_its_cause() {
    let e = ServerError { cause: String::from("disk full") };
    assert_eq!(e.body(), "Error: disk full");
    assert_eq!(e.status(), 500);
}

#[test]
fn numerals_are_decimal() {
    assert_eq!(decimal_text(0), "0");
    assert_eq!(decimal_text(9), "9");
    assert_eq!(decimal_text(10), "10");
    assert_eq!(decimal_text(34), "34");
    assert_eq!(decimal_text(12345), "12345");
    assert_eq!(decimal_text(usize::MAX), usize::MAX.to_string());
}

#[test]
fn responses_carry_the_refusal_in_words() {
    let registry = Registry::standard();
    match registry.respond("DE44-00105175407324931") {
        IbanResponse::Error(m) => assert_eq!(
            m.message,
            "Invalid IBAN: the character '-' may not stand at position 4"
        ),
        IbanResponse::Info(info) => panic!("accepted: {:?}", info),
    }
    match registry.respond("DE440") {
        IbanResponse::Error(m) => {
            assert_eq!(m.message, "Invalid IBAN: the length is 5 where 22 is asked for")
        }
        IbanResponse::Info(info) => panic!("accepted: {:?}", info),
    }
}
