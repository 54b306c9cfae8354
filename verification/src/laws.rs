//! What holds of every validation, stated over the pipeline's model.

use vstd::prelude::*;
use crate::alphabet::{decimal_digit, numeric_value};
use crate::bban::{joined, slices_rebuild_bban};
use crate::checksum::remainder;
use crate::countries::layout_of;
use crate::engine::{validation, IbanValidationError, InfoView};
use crate::lexical::{accepted_is_well_shaped, first_bad, shape_outcome, well_shaped};
use crate::normalize::normalized;
use crate::registry::{find, found_is_member, table_ok, CountryFormat};

verus! {

/// The parts of a valid account number fit together: country code, check
/// digits and national part make up the whole in this order, the whole is
/// the input's normal form in the shape of an account number, and its
/// number leaves the remainder 1. For a country of the table the whole has
/// that country's length.
pub proof fn valid_parts_fit_together(formats: Seq<CountryFormat>, raw: Seq<char>, info: InfoView)
    requires
        table_ok(formats),
        validation(formats, raw) == Ok::<InfoView, IbanValidationError>(info),
    ensures
        info.iban == normalized(raw),
        well_shaped(info.iban),
        remainder(info.iban) == 1,
        info.country_code.len() == 2,
        0 <= info.check_digits <= 99,
        info.iban == info.country_code + info.iban.subrange(2, 4) + info.bban,
        info.check_digits == numeric_value(info.iban[2]) * 10 + numeric_value(info.iban[3]),
        match find(formats, (info.iban[0], info.iban[1])) {
            Some(f) => info.iban.len() == f.total_length,
            None => info.bank_identifier is None && info.branch_identifier is None,
        },
{
    let s = normalized(raw);
    accepted_is_well_shaped(formats, s);
    found_is_member(formats, (s[0], s[1]), 0);
    assert(s == s.take(2) + s.subrange(2, 4) + s.skip(4));
    assert(decimal_digit(s[2]) && decimal_digit(s[3]));
}

/// For a country of the table, the slices that the layout's fields take
/// from a valid account number make up its national part, in the layout's
/// order.
pub proof fn known_country_is_covered(
    formats: Seq<CountryFormat>,
    raw: Seq<char>,
    info: InfoView,
    format: CountryFormat,
)
    requires
        validation(formats, raw) == Ok::<InfoView, IbanValidationError>(info),
        find(formats, (info.iban[0], info.iban[1])) == Some(format),
    ensures
        joined(format.bban_fields@, info.bban, format.bban_fields@.len() as int) == info.bban,
{
    slices_rebuild_bban(format.bban_fields@, info.bban);
}

/// A text in the shape of an account number whose number leaves the
/// remainder 1 is valid where the table does not hold its country, and
/// has no identifiers.
pub proof fn unknown_country_passes(formats: Seq<CountryFormat>, raw: Seq<char>)
    requires
        well_shaped(normalized(raw)),
        remainder(normalized(raw)) == 1,
        find(formats, (normalized(raw)[0], normalized(raw)[1])) is None,
    ensures
        validation(formats, raw) is Ok,
        validation(formats, raw)->Ok_0.iban == normalized(raw),
        validation(formats, raw)->Ok_0.bank_identifier is None,
        validation(formats, raw)->Ok_0.branch_identifier is None,
{
    shaped_text_has_no_bad_position(normalized(raw), 0);
}

/// Two tables that hold the same layout for every country give the same
/// verdict on every text.
pub proof fn verdict_rests_on_layouts(
    first: Seq<CountryFormat>,
    second: Seq<CountryFormat>,
    raw: Seq<char>,
)
    requires
        table_ok(first),
        table_ok(second),
        forall|code: (char, char)| #[trigger] layout_of(first, code) == layout_of(second, code),
    ensures
        validation(first, raw) == validation(second, raw),
{
    let s = normalized(raw);
    if s.len() >= 2 {
        let code = (s[0], s[1]);
        assert(layout_of(first, code) == layout_of(second, code));
        found_is_member(first, code, 0);
        found_is_member(second, code, 0);
    }
}

/// A well-shaped text has no position whose character may not stand there.
pub proof fn shaped_text_has_no_bad_position(s: Seq<char>, i: int)
    requires
        well_shaped(s),
        0 <= i <= s.len(),
    ensures
        first_bad(s, i) == s.len(),
    decreases s.len() - i,
{
    if i < s.len() {
        shaped_text_has_no_bad_position(s, i + 1);
    }
}

/// Changing one character of a valid account number gives a text that the
/// checksum stage refuses, wherever the changed text still passes the
/// lexical stage and its number does not leave the remainder 1 again.
pub proof fn changed_character_is_detected(
    formats: Seq<CountryFormat>,
    raw: Seq<char>,
    position: int,
    character: char,
)
    requires
        validation(formats, raw) is Ok,
        0 <= position < raw.len(),
        character != raw[position],
        shape_outcome(formats, normalized(raw.update(position, character))) is Ok,
        remainder(normalized(raw.update(position, character))) != 1,
    ensures
        validation(formats, raw.update(position, character)) == Err::<
            InfoView,
            IbanValidationError,
        >(
            IbanValidationError::ChecksumMismatch {
                remainder: remainder(normalized(raw.update(position, character))) as u8,
            },
        ),
{
}

} // verus!
