//! Why the checksum finds a changed character: a digit put for another
//! digit, or a letter for another letter, always changes the remainder.

use vstd::prelude::*;
use crate::alphabet::{alphanumeric, blank, decimal_digit, lower_letter, numeric_value};
use crate::checksum::{expansion, rearranged, remainder};
use crate::engine::{validation, IbanValidationError, InfoView};
use crate::laws::shaped_text_has_no_bad_position;
use crate::lexical::{accepted_is_well_shaped, allowed_at, well_shaped};
use crate::normalize::{is_normal, normal_text_is_fixed, normalized};
use crate::registry::CountryFormat;

verus! {

/// The decimal places that a character takes, as a power of ten.
pub open spec fn width(c: char) -> int {
    if decimal_digit(c) {
        10
    } else {
        100
    }
}

/// The place value of position `p` in the number that `u` spells: the
/// product of the widths of the characters behind it.
pub open spec fn weight(u: Seq<char>, p: int) -> int
    decreases u.len(),
{
    if u.len() == 0 || u.len() <= p + 1 {
        1
    } else {
        weight(u.drop_last(), p) * width(u.last())
    }
}

/// Putting a character of the same kind at position `p` changes the number
/// by the difference of the two values, times the place value of `p`.
pub proof fn change_shifts_expansion(u: Seq<char>, p: int, c: char)
    requires
        0 <= p < u.len(),
        decimal_digit(c) == decimal_digit(u[p]),
    ensures
        expansion(u.update(p, c)) == expansion(u) + (numeric_value(c) - numeric_value(u[p]))
            * weight(u, p),
    decreases u.len(),
{
    let v = u.update(p, c);
    let d = numeric_value(c) - numeric_value(u[p]);
    if p == u.len() - 1 {
        assert(v.drop_last() == u.drop_last());
        assert(d * 1 == d);
    } else {
        assert(v.drop_last() == u.drop_last().update(p, c));
        change_shifts_expansion(u.drop_last(), p, c);
        let w = width(u.last());
        let a = expansion(u.drop_last());
        let k = weight(u.drop_last(), p);
        assert((a + d * k) * w == a * w + d * (k * w)) by (nonlinear_arith);
    }
}

/// A number that is no multiple of 97 is none after it is multiplied by ten
/// or by a hundred.
pub proof fn ten_keeps_remainders(x: int)
    requires
        x % 97 != 0,
    ensures
        (x * 10) % 97 != 0,
        (x * 100) % 97 != 0,
{
    // 68 * 10 = 7 * 97 + 1 and 65 * 100 = 67 * 97 + 1
    if (x * 10) % 97 == 0 {
        let k = (x * 10) / 97;
        assert(x == 97 * (68 * k - 7 * x));
    }
    if (x * 100) % 97 == 0 {
        let k = (x * 100) / 97;
        assert(x == 97 * (65 * k - 67 * x));
    }
}

/// A difference that 97 does not divide is not divided by it at any place
/// value.
pub proof fn weight_keeps_remainders(u: Seq<char>, p: int, d: int)
    requires
        d % 97 != 0,
    ensures
        (d * weight(u, p)) % 97 != 0,
    decreases u.len(),
{
    if u.len() == 0 || u.len() <= p + 1 {
        assert(d * 1 == d);
    } else {
        weight_keeps_remainders(u.drop_last(), p, d);
        let k = weight(u.drop_last(), p);
        ten_keeps_remainders(d * k);
        assert(d * (k * 10) == (d * k) * 10) by (nonlinear_arith);
        assert(d * (k * 100) == (d * k) * 100) by (nonlinear_arith);
    }
}

/// Putting another character of the same kind (a digit for a digit, a
/// letter for a letter) at one position of a well-shaped text changes the
/// remainder of its number.
pub proof fn same_kind_change_moves_remainder(s: Seq<char>, i: int, c: char)
    requires
        well_shaped(s),
        0 <= i < s.len(),
        alphanumeric(c),
        c != s[i],
        decimal_digit(c) == decimal_digit(s[i]),
    ensures
        remainder(s.update(i, c)) != remainder(s),
{
    let u = rearranged(s);
    let p = if i >= 4 {
        i - 4
    } else {
        s.len() - 4 + i
    };
    assert(rearranged(s.update(i, c)) == u.update(p, c));
    assert(u[p] == s[i]);
    assert(allowed_at(i, s[i]));
    let d = numeric_value(c) - numeric_value(s[i]);
    change_shifts_expansion(u, p, c);
    weight_keeps_remainders(u, p, d);
}

/// Changing one character of a valid account number in normal form into
/// another of its kind (a digit into a digit, a letter into a letter)
/// makes it invalid; behind the country code the verdict is the checksum
/// stage's.
pub proof fn same_kind_change_is_detected(
    formats: Seq<CountryFormat>,
    s: Seq<char>,
    i: int,
    c: char,
)
    requires
        normalized(s) == s,
        validation(formats, s) is Ok,
        0 <= i < s.len(),
        alphanumeric(c),
        c != s[i],
        decimal_digit(c) == decimal_digit(s[i]),
    ensures
        validation(formats, s.update(i, c)) is Err,
        i >= 2 ==> validation(formats, s.update(i, c)) == Err::<InfoView, IbanValidationError>(
            IbanValidationError::ChecksumMismatch { remainder: remainder(s.update(i, c)) as u8 },
        ),
{
    let t = s.update(i, c);
    accepted_is_well_shaped(formats, s);
    assert(allowed_at(i, s[i]));
    assert forall|j: int| 0 <= j < t.len() implies allowed_at(j, #[trigger] t[j]) by {
        if j != i {
            assert(t[j] == s[j]);
        }
    }
    assert(well_shaped(t));
    assert(is_normal(t)) by {
        assert forall|j: int| 0 <= j < t.len() implies !blank(#[trigger] t[j]) && !lower_letter(
            t[j],
        ) by {
            assert(allowed_at(j, t[j]));
        }
    }
    normal_text_is_fixed(t);
    shaped_text_has_no_bad_position(t, 0);
    same_kind_change_moves_remainder(s, i, c);
}

} // verus!
