//! The lexical stage: the shape that every account number has, and the
//! length that a known country asks for.

use vstd::prelude::*;
use crate::alphabet::{
    alphanumeric, decimal_digit, upper_letter, is_alphanumeric, is_decimal_digit, is_upper_letter,
};
use crate::normalize::{chars_of, normalize_chars, normalized};
use crate::registry::{CountryFormat, Registry, find, HEADER_LENGTH, MAX_IBAN_LENGTH};

verus! {

/// Why a text has not the shape of an account number.
#[derive(Clone, Copy, Debug, PartialEq, Eq, Structural)]
pub enum LexicalError {
    /// The character at `position` (counted from 0 in the normal form) may
    /// not stand there.
    InvalidCharacters { position: usize, character: char },
    /// The normal form has `actual` characters where `expected` are asked
    /// for: the country's length, or the standard's maximum.
    InvalidLength { expected: usize, actual: usize },
    /// The normal form is too short to hold country code and check digits.
    TooShortToParse,
}

/// Whether `c` may stand at position `i`: two letters, two digits, then
/// letters and digits.
pub open spec fn allowed_at(i: int, c: char) -> bool {
    if i < 2 {
        upper_letter(c)
    } else if i < 4 {
        decimal_digit(c)
    } else {
        alphanumeric(c)
    }
}

/// The first position from `i` on whose character may not stand there, or
/// the length of `s` where there is none.
pub open spec fn first_bad(s: Seq<char>, i: int) -> int
    decreases s.len() - i,
{
    if i < 0 || i >= s.len() {
        s.len() as int
    } else if !allowed_at(i, s[i]) {
        i
    } else {
        first_bad(s, i + 1)
    }
}

/// The shape of an account number: between 4 and 34 characters, each
/// allowed at its position.
pub open spec fn well_shaped(s: Seq<char>) -> bool {
    &&& HEADER_LENGTH <= s.len() <= MAX_IBAN_LENGTH
    &&& forall|i: int| 0 <= i < s.len() ==> allowed_at(i, #[trigger] s[i])
}

/// The verdict of the lexical stage on a normal form `s`, with the table
/// `formats` of known countries.
pub open spec fn shape_outcome(formats: Seq<CountryFormat>, s: Seq<char>) -> Result<
    (),
    LexicalError,
> {
    if s.len() < HEADER_LENGTH {
        Err(LexicalError::TooShortToParse)
    } else if s.len() > MAX_IBAN_LENGTH {
        Err(LexicalError::InvalidLength { expected: MAX_IBAN_LENGTH, actual: s.len() as usize })
    } else if first_bad(s, 0) < s.len() {
        Err(
            LexicalError::InvalidCharacters {
                position: first_bad(s, 0) as usize,
                character: s[first_bad(s, 0)],
            },
        )
    } else {
        match find(formats, (s[0], s[1])) {
            Some(f) => if f.total_length == s.len() {
                Ok(())
            } else {
                Err(
                    LexicalError::InvalidLength {
                        expected: f.total_length,
                        actual: s.len() as usize,
                    },
                )
            },
            None => Ok(()),
        }
    }
}

/// Where no position from `i` on is bad, every character from `i` on is
/// allowed; a bad position holds a character that is not.
pub proof fn first_bad_bounds(s: Seq<char>, i: int)
    requires
        0 <= i <= s.len(),
    ensures
        i <= first_bad(s, i) <= s.len(),
        first_bad(s, i) < s.len() ==> !allowed_at(first_bad(s, i), s[first_bad(s, i)]),
        forall|j: int| i <= j < first_bad(s, i) ==> allowed_at(j, #[trigger] s[j]),
    decreases s.len() - i,
{
    if i < s.len() && allowed_at(i, s[i]) {
        first_bad_bounds(s, i + 1);
    }
}

/// A text that passed the lexical stage, in its normal form.
#[derive(Debug)]
pub struct NormalizedIban {
    chars: Vec<char>,
}

impl View for NormalizedIban {
    type V = Seq<char>;

    closed spec fn view(&self) -> Seq<char> {
        self.chars@
    }
}

impl NormalizedIban {
    #[verifier::type_invariant]
    spec fn shaped(self) -> bool {
        well_shaped(self.chars@)
    }

    /// The characters of the normal form, which have the shape of an
    /// account number.
    pub fn chars(&self) -> (v: &Vec<char>)
        ensures
            v@ == self@,
            well_shaped(self@),
    {
        proof {
            use_type_invariant(self);
        }
        &self.chars
    }
}

/// Whether `c` may stand at position `i`.
fn is_allowed_at(i: usize, c: char) -> (r: bool)
    ensures
        r == allowed_at(i as int, c),
{
    if i < 2 {
        is_upper_letter(c)
    } else if i < 4 {
        is_decimal_digit(c)
    } else {
        is_alphanumeric(c)
    }
}

/// The lexical stage on characters that are in normal form already.
pub fn check_shape(chars: Vec<char>, registry: &Registry) -> (r: Result<
    NormalizedIban,
    LexicalError,
>)
    ensures
        match r {
            Ok(n) => n@ == chars@ && shape_outcome(registry@, chars@) is Ok,
            Err(e) => shape_outcome(registry@, chars@) == Err::<(), LexicalError>(e),
        },
{
    let len: usize = chars.len();
    if len < HEADER_LENGTH {
        return Err(LexicalError::TooShortToParse);
    }
    if len > MAX_IBAN_LENGTH {
        return Err(LexicalError::InvalidLength { expected: MAX_IBAN_LENGTH, actual: len });
    }
    let mut i: usize = 0;
    while i < len
        invariant
            len == chars@.len(),
            HEADER_LENGTH <= len <= MAX_IBAN_LENGTH,
            i <= len,
            first_bad(chars@, 0) == first_bad(chars@, i as int),
            forall|j: int| 0 <= j < i ==> allowed_at(j, #[trigger] chars@[j]),
        decreases len - i,
    {
        let c = chars[i];
        if !is_allowed_at(i, c) {
            assert(first_bad(chars@, i as int) == i);
            return Err(LexicalError::InvalidCharacters { position: i, character: c });
        }
        i += 1;
    }
    match registry.lookup((chars[0], chars[1])) {
        Some(format) => {
            if format.total_length != len {
                return Err(
                    LexicalError::InvalidLength { expected: format.total_length, actual: len },
                );
            }
        },
        None => {},
    }
    Ok(NormalizedIban { chars })
}

/// Normalises `raw` and checks that it has the shape of an account number
/// and, for a country of `registry`, that country's length.
pub fn validate_shape(raw: &str, registry: &Registry) -> (r: Result<NormalizedIban, LexicalError>)
    ensures
        match r {
            Ok(n) => n@ == normalized(raw@) && shape_outcome(registry@, normalized(raw@)) is Ok,
            Err(e) => shape_outcome(registry@, normalized(raw@)) == Err::<(), LexicalError>(e),
        },
{
    let chars = chars_of(raw);
    check_shape(normalize_chars(&chars), registry)
}

/// A text passes the lexical stage only in the shape of an account number.
pub proof fn accepted_is_well_shaped(formats: Seq<CountryFormat>, s: Seq<char>)
    requires
        shape_outcome(formats, s) is Ok,
    ensures
        well_shaped(s),
{
    first_bad_bounds(s, 0);
}

} // verus!
