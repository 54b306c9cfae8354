//! The validation pipeline: normalise, check the shape, check the
//! checksum, look the country up and decompose.

use vstd::prelude::*;
use crate::alphabet::{numeric_value, value_of};
use crate::bban::{decompose_chars, decomposition, text_view, PartsView};
use crate::countries::{reads_as, STANDARD_TABLE};
use crate::checksum::{checksum_outcome, verify_checksum, ChecksumError};
use crate::lexical::{check_shape, shape_outcome, LexicalError};
use crate::normalize::{chars_of, normalize_chars, normalized, text_of};
use crate::registry::{find, CountryFormat, Registry, HEADER_LENGTH};

verus! {

/// Why a text is no valid account number: the verdict of the first stage
/// that refused it.
#[derive(Clone, Copy, Debug, PartialEq, Eq, Structural)]
pub enum IbanValidationError {
    /// The character at `position` of the normal form may not stand there.
    InvalidCharacters { position: usize, character: char },
    /// The normal form has `actual` characters where `expected` are asked
    /// for: the minimum, the maximum, or the country's length.
    InvalidLength { expected: usize, actual: usize },
    /// The number leaves the remainder `remainder` modulo 97, not 1.
    ChecksumMismatch { remainder: u8 },
    /// The national part does not follow the country's layout.
    MalformedBban,
}

/// The parts of a valid account number.
#[derive(Clone, Debug)]
pub struct IbanInfo {
    pub iban: String,
    pub bban: String,
    pub check_digits: u8,
    pub bank_identifier: Option<String>,
    pub branch_identifier: Option<String>,
    pub country_code: String,
}

/// The parts of a valid account number as sequences of characters.
pub struct InfoView {
    pub iban: Seq<char>,
    pub bban: Seq<char>,
    pub check_digits: int,
    pub bank_identifier: Option<Seq<char>>,
    pub branch_identifier: Option<Seq<char>>,
    pub country_code: Seq<char>,
}

impl View for IbanInfo {
    type V = InfoView;

    open spec fn view(&self) -> InfoView {
        InfoView {
            iban: self.iban@,
            bban: self.bban@,
            check_digits: self.check_digits as int,
            bank_identifier: text_view(self.bank_identifier),
            branch_identifier: text_view(self.branch_identifier),
            country_code: self.country_code@,
        }
    }
}

/// The facade's error for a refusal of the lexical stage on a normal form
/// of `length` characters.
pub open spec fn lexical_refusal(e: LexicalError, length: nat) -> IbanValidationError {
    match e {
        LexicalError::InvalidCharacters { position, character } => {
            IbanValidationError::InvalidCharacters { position, character }
        },
        LexicalError::InvalidLength { expected, actual } => IbanValidationError::InvalidLength {
            expected,
            actual,
        },
        LexicalError::TooShortToParse => IbanValidationError::InvalidLength {
            expected: HEADER_LENGTH,
            actual: length as usize,
        },
    }
}

/// The parts of the well-shaped normal form `s`, with the identifiers
/// `parts`.
pub open spec fn assembled(s: Seq<char>, parts: PartsView) -> InfoView {
    InfoView {
        iban: s,
        bban: s.skip(4),
        check_digits: numeric_value(s[2]) * 10 + numeric_value(s[3]),
        bank_identifier: parts.bank_identifier,
        branch_identifier: parts.branch_identifier,
        country_code: s.take(2),
    }
}

/// What validating the normal form `s` gives once it has passed the
/// lexical and the checksum stage.
pub open spec fn decomposed(formats: Seq<CountryFormat>, s: Seq<char>) -> Result<
    InfoView,
    IbanValidationError,
> {
    match find(formats, (s[0], s[1])) {
        None => Ok(assembled(s, PartsView { bank_identifier: None, branch_identifier: None })),
        Some(f) => match decomposition(f.bban_fields@, s.skip(4)) {
            Ok(parts) => Ok(assembled(s, parts)),
            Err(_) => Err(IbanValidationError::MalformedBban),
        },
    }
}

/// What validating `raw` gives with the table `formats`: the verdict of
/// the first stage that refuses its normal form, or its parts.
pub open spec fn validation(formats: Seq<CountryFormat>, raw: Seq<char>) -> Result<
    InfoView,
    IbanValidationError,
> {
    let s = normalized(raw);
    match shape_outcome(formats, s) {
        Err(e) => Err(lexical_refusal(e, s.len())),
        Ok(_) => match checksum_outcome(s) {
            Err(ChecksumError::ChecksumMismatch { remainder }) => Err(
                IbanValidationError::ChecksumMismatch { remainder },
            ),
            Ok(_) => decomposed(formats, s),
        },
    }
}

/// The facade's error for a refusal of the lexical stage.
pub fn refuse_lexical(e: LexicalError, length: usize) -> (r: IbanValidationError)
    ensures
        r == lexical_refusal(e, length as nat),
{
    match e {
        LexicalError::InvalidCharacters { position, character } => {
            IbanValidationError::InvalidCharacters { position, character }
        },
        LexicalError::InvalidLength { expected, actual } => IbanValidationError::InvalidLength {
            expected,
            actual,
        },
        LexicalError::TooShortToParse => IbanValidationError::InvalidLength {
            expected: HEADER_LENGTH,
            actual: length,
        },
    }
}

/// A copy of `v[from..]`.
fn tail_of(v: &Vec<char>, from: usize) -> (t: Vec<char>)
    requires
        from <= v@.len(),
    ensures
        t@ == v@.skip(from as int),
{
    let mut t: Vec<char> = Vec::new();
    let mut i: usize = from;
    while i < v.len()
        invariant
            from <= i <= v@.len(),
            t@ == v@.subrange(from as int, i as int),
        decreases v@.len() - i,
    {
        t.push(v[i]);
        i += 1;
    }
    t
}

/// Whether `r` is what validating `raw` gives with the table `formats`.
pub open spec fn is_outcome(
    formats: Seq<CountryFormat>,
    raw: Seq<char>,
    r: Result<IbanInfo, IbanValidationError>,
) -> bool {
    match r {
        Ok(info) => validation(formats, raw) == Ok::<InfoView, IbanValidationError>(info@),
        Err(e) => validation(formats, raw) == Err::<InfoView, IbanValidationError>(e),
    }
}

/// Validates `raw` as an account number with the standard table of
/// countries, and takes it apart. The table is read anew at each call: a
/// caller with many texts reads it once and asks the table.
pub fn validate(raw: &str) -> (r: Result<IbanInfo, IbanValidationError>)
    ensures
        exists|formats: Seq<CountryFormat>| #[trigger]
            reads_as(formats, STANDARD_TABLE@) && is_outcome(formats, raw@, r),
{
    let table = Registry::standard();
    let r = table.validate(raw);
    assert(reads_as(table@, STANDARD_TABLE@) && is_outcome(table@, raw@, r));
    r
}

impl Registry {
    /// Validates `raw` as an account number and takes it apart: normalises
    /// it, checks shape and length, checks the checksum, and for a country
    /// of this table decomposes the national part. A country that the
    /// table does not hold passes without identifiers.
    pub fn validate(&self, raw: &str) -> (r: Result<IbanInfo, IbanValidationError>)
        ensures
            is_outcome(self@, raw@, r),
    {
        let chars = chars_of(raw);
        let clean = normalize_chars(&chars);
        let len: usize = clean.len();
        let text = match check_shape(clean, self) {
            Ok(text) => text,
            Err(e) => {
                return Err(refuse_lexical(e, len));
            },
        };
        match verify_checksum(&text) {
            Ok(_) => {},
            Err(ChecksumError::ChecksumMismatch { remainder }) => {
                return Err(IbanValidationError::ChecksumMismatch { remainder });
            },
        }
        let cs = text.chars();
        let parts = match self.lookup((cs[0], cs[1])) {
            None => (None, None),
            Some(format) => {
                let national = tail_of(cs, 4);
                match decompose_chars(&national, format) {
                    Ok(parts) => (parts.bank_identifier, parts.branch_identifier),
                    Err(_) => {
                        return Err(IbanValidationError::MalformedBban);
                    },
                }
            },
        };
        let tens: u32 = value_of(cs[2]);
        let units: u32 = value_of(cs[3]);
        let check_digits: u8 = (tens * 10 + units) as u8;
        assert(cs@.subrange(0, cs@.len() as int) == cs@);
        assert(cs@.subrange(4, cs@.len() as int) == cs@.skip(4));
        assert(cs@.subrange(0, 2) == cs@.take(2));
        Ok(
            IbanInfo {
                iban: text_of(cs, 0, len),
                bban: text_of(cs, 4, len),
                check_digits,
                bank_identifier: parts.0,
                branch_identifier: parts.1,
                country_code: text_of(cs, 0, 2),
            },
        )
    }
}

} // verus!
