//! The checksum stage: the remainder modulo 97 of the number that an
//! account number spells.

use vstd::prelude::*;
use crate::alphabet::{decimal_digit, numeric_value, value_of};
use crate::lexical::{NormalizedIban, well_shaped};

verus! {

/// Why the checksum stage refused a text.
#[derive(Clone, Copy, Debug, PartialEq, Eq, Structural)]
pub enum ChecksumError {
    /// The number's remainder is `remainder`, not 1.
    ChecksumMismatch { remainder: u8 },
}

/// The text with country code and check digits moved behind the national
/// part.
pub open spec fn rearranged(s: Seq<char>) -> Seq<char> {
    s.skip(4) + s.take(4)
}

/// The number that a text spells in decimal: a digit is one decimal place,
/// a letter is the two places of its base-36 value.
pub open spec fn expansion(s: Seq<char>) -> int
    decreases s.len(),
{
    if s.len() == 0 {
        0
    } else if decimal_digit(s.last()) {
        expansion(s.drop_last()) * 10 + numeric_value(s.last())
    } else {
        expansion(s.drop_last()) * 100 + numeric_value(s.last())
    }
}

/// The remainder modulo 97 of the number that the rearranged text spells.
pub open spec fn remainder(s: Seq<char>) -> int {
    expansion(rearranged(s)) % 97
}

/// The verdict of the checksum stage on a normal form.
pub open spec fn checksum_outcome(s: Seq<char>) -> Result<(), ChecksumError> {
    if remainder(s) == 1 {
        Ok(())
    } else {
        Err(ChecksumError::ChecksumMismatch { remainder: remainder(s) as u8 })
    }
}

/// The remainder of `text`'s number, computed place by place.
pub fn remainder_of(text: &NormalizedIban) -> (r: u8)
    ensures
        r == remainder(text@),
        r < 97,
{
    let chars = text.chars();
    let len: usize = chars.len();
    let mut turned: Vec<char> = Vec::new();
    let mut i: usize = 4;
    while i < len
        invariant
            len == chars@.len(),
            4 <= i <= len,
            turned@ == chars@.subrange(4, i as int),
        decreases len - i,
    {
        turned.push(chars[i]);
        i += 1;
    }
    let mut j: usize = 0;
    while j < 4
        invariant
            len == chars@.len(),
            4 <= len,
            j <= 4,
            turned@ == chars@.skip(4) + chars@.take(j as int),
        decreases 4 - j,
    {
        turned.push(chars[j]);
        j += 1;
    }
    assert(turned@ == rearranged(chars@));
    let mut r: u32 = 0;
    let mut k: usize = 0;
    while k < len
        invariant
            len == turned@.len(),
            len == chars@.len(),
            well_shaped(chars@),
            turned@ == rearranged(chars@),
            k <= len,
            r < 97,
            r == expansion(turned@.take(k as int)) % 97,
        decreases len - k,
    {
        let c = turned[k];
        assert(c == chars@[if k + 4 < len { k + 4 } else { k + 4 - len }]);
        let v: u32 = value_of(c);
        let ghost before = expansion(turned@.take(k as int));
        assert(turned@.take(k as int + 1).drop_last() == turned@.take(k as int));
        if v <= 9 {
            assert((before * 10 + v) % 97 == ((before % 97) * 10 + v) % 97) by (nonlinear_arith);
            r = (r * 10 + v) % 97;
        } else {
            assert((before * 100 + v) % 97 == ((before % 97) * 100 + v) % 97) by (nonlinear_arith);
            r = (r * 100 + v) % 97;
        }
        k += 1;
    }
    assert(turned@.take(len as int) == turned@);
    r as u8
}

/// Checks that the number which `text` spells leaves the remainder 1.
pub fn verify_checksum(text: &NormalizedIban) -> (r: Result<(), ChecksumError>)
    ensures
        r == checksum_outcome(text@),
{
    let rem = remainder_of(text);
    if rem == 1 {
        Ok(())
    } else {
        Err(ChecksumError::ChecksumMismatch { remainder: rem })
    }
}

} // verus!
