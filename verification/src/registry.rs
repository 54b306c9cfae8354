//! The table of national account number layouts, keyed by country code.

use vstd::prelude::*;
use crate::alphabet::{upper_letter, is_upper_letter};

verus! {

/// The longest account number that the standard allows, in characters.
pub const MAX_IBAN_LENGTH: usize = 34;

/// The characters that stand before the national part: country code and
/// check digits.
pub const HEADER_LENGTH: usize = 4;

/// The characters a field of a national layout may hold.
#[derive(Clone, Copy, Debug, PartialEq, Eq, Structural)]
pub enum Charset {
    Digits,
    Letters,
    Alphanumeric,
}

/// What a field of a national layout means.
#[derive(Clone, Copy, Debug, PartialEq, Eq, Structural)]
pub enum Role {
    BankIdentifier,
    BranchIdentifier,
    AccountNumber,
    NationalCheckDigit,
    Other,
}

/// One field of a national layout.
#[derive(Clone, Copy, Debug, PartialEq, Eq, Structural)]
pub struct BbanField {
    pub length: usize,
    pub charset: Charset,
    pub role: Role,
}

/// The layout of one country's account numbers.
#[derive(Debug)]
pub struct CountryFormat {
    pub country_code: (char, char),
    pub total_length: usize,
    pub bban_fields: Vec<BbanField>,
}

/// The characters that the first `k` fields take together.
pub open spec fn span(fields: Seq<BbanField>, k: int) -> int
    decreases k,
{
    if k <= 0 {
        0
    } else {
        span(fields, k - 1) + fields[k - 1].length
    }
}

/// How many of the first `k` fields carry `role`.
pub open spec fn role_count(fields: Seq<BbanField>, role: Role, k: int) -> int
    decreases k,
{
    if k <= 0 {
        0
    } else {
        role_count(fields, role, k - 1) + if fields[k - 1].role == role {
            1int
        } else {
            0int
        }
    }
}

/// A layout that a format may hold: it fits the longest account number and
/// names at most one bank and one branch identifier.
pub open spec fn layout_ok(fields: Seq<BbanField>) -> bool {
    &&& span(fields, fields.len() as int) <= MAX_IBAN_LENGTH - HEADER_LENGTH
    &&& role_count(fields, Role::BankIdentifier, fields.len() as int) <= 1
    &&& role_count(fields, Role::BranchIdentifier, fields.len() as int) <= 1
}

/// The first format of `formats[i..]` with the country code `code`.
pub open spec fn find_from(formats: Seq<CountryFormat>, code: (char, char), i: int) -> Option<
    CountryFormat,
>
    decreases formats.len() - i,
{
    if i < 0 || i >= formats.len() {
        None
    } else if formats[i].country_code == code {
        Some(formats[i])
    } else {
        find_from(formats, code, i + 1)
    }
}

/// The format that a table holds for `code`, if any.
pub open spec fn find(formats: Seq<CountryFormat>, code: (char, char)) -> Option<CountryFormat> {
    find_from(formats, code, 0)
}

/// Every format of the table is well formed.
pub open spec fn table_ok(formats: Seq<CountryFormat>) -> bool {
    forall|i: int| 0 <= i < formats.len() ==> (#[trigger] formats[i]).well_formed()
}

/// No two formats of the table are for one country.
pub open spec fn codes_distinct(formats: Seq<CountryFormat>) -> bool {
    forall|i: int, j: int|
        0 <= i < j < formats.len() ==> (#[trigger] formats[i]).country_code
            != (#[trigger] formats[j]).country_code
}

/// Where looking a country up from position `i` on finds nothing, no
/// format from there on is for that country.
pub proof fn absent_where_not_found(formats: Seq<CountryFormat>, code: (char, char), i: int)
    requires
        0 <= i,
        find_from(formats, code, i) is None,
    ensures
        forall|j: int| i <= j < formats.len() ==> (#[trigger] formats[j]).country_code != code,
    decreases formats.len() - i,
{
    if i < formats.len() {
        absent_where_not_found(formats, code, i + 1);
    }
}

/// The spans of a layout grow with the number of fields.
pub proof fn span_grows(fields: Seq<BbanField>, j: int, k: int)
    requires
        0 <= j <= k,
    ensures
        0 <= span(fields, j) <= span(fields, k),
    decreases k,
{
    if j < k {
        span_grows(fields, j, k - 1);
    } else if k > 0 {
        span_grows(fields, j - 1, k - 1);
    }
}

/// What `find_from` returns is a well-formed format of the table with the
/// code asked for.
pub proof fn found_is_member(formats: Seq<CountryFormat>, code: (char, char), i: int)
    requires
        table_ok(formats),
        0 <= i,
    ensures
        match find_from(formats, code, i) {
            Some(f) => f.well_formed() && f.country_code == code,
            None => true,
        },
    decreases formats.len() - i,
{
    if i < formats.len() && formats[i].country_code != code {
        found_is_member(formats, code, i + 1);
    }
}

impl CountryFormat {
    /// The validity of a format: an uppercase two-letter code, a layout that
    /// fits, and a total length that is the header's plus the layout's.
    pub open spec fn well_formed(self) -> bool {
        &&& upper_letter(self.country_code.0)
        &&& upper_letter(self.country_code.1)
        &&& layout_ok(self.bban_fields@)
        &&& self.total_length == HEADER_LENGTH + span(
            self.bban_fields@,
            self.bban_fields@.len() as int,
        )
    }

    /// Builds the format of the country `code` from its layout, or nothing
    /// where code or layout are not valid.
    pub fn new(code: (char, char), fields: Vec<BbanField>) -> (r: Option<CountryFormat>)
        ensures
            match r {
                Some(f) => f.well_formed() && f.country_code == code && f.bban_fields@ == fields@,
                None => !(upper_letter(code.0) && upper_letter(code.1) && layout_ok(fields@)),
            },
    {
        if !is_upper_letter(code.0) || !is_upper_letter(code.1) {
            return None;
        }
        let limit: usize = MAX_IBAN_LENGTH - HEADER_LENGTH;
        let mut total: usize = 0;
        let mut banks: usize = 0;
        let mut branches: usize = 0;
        let mut k: usize = 0;
        while k < fields.len()
            invariant
                k <= fields@.len(),
                limit == MAX_IBAN_LENGTH - HEADER_LENGTH,
                total == span(fields@, k as int),
                total <= limit,
                banks == role_count(fields@, Role::BankIdentifier, k as int),
                branches == role_count(fields@, Role::BranchIdentifier, k as int),
                banks <= 1,
                branches <= 1,
            decreases fields@.len() - k,
        {
            let field = fields[k];
            proof {
                span_grows(fields@, k as int + 1, fields@.len() as int);
                role_count_grows(fields@, Role::BankIdentifier, k as int + 1, fields@.len() as int);
                role_count_grows(
                    fields@,
                    Role::BranchIdentifier,
                    k as int + 1,
                    fields@.len() as int,
                );
            }
            if field.length > limit - total {
                return None;
            }
            if field.role == Role::BankIdentifier {
                if banks == 1 {
                    return None;
                }
                banks = 1;
            }
            if field.role == Role::BranchIdentifier {
                if branches == 1 {
                    return None;
                }
                branches = 1;
            }
            total = total + field.length;
            k += 1;
        }
        Some(CountryFormat { country_code: code, total_length: HEADER_LENGTH + total, bban_fields: fields })
    }
}

/// The role counts of a layout grow with the number of fields.
pub proof fn role_count_grows(fields: Seq<BbanField>, role: Role, j: int, k: int)
    requires
        0 <= j <= k,
    ensures
        0 <= role_count(fields, role, j) <= role_count(fields, role, k),
    decreases k,
{
    if j < k {
        role_count_grows(fields, role, j, k - 1);
    } else if k > 0 {
        role_count_grows(fields, role, j - 1, k - 1);
    }
}

/// The table of the known countries' formats.
#[derive(Debug)]
pub struct Registry {
    formats: Vec<CountryFormat>,
}

impl View for Registry {
    type V = Seq<CountryFormat>;

    closed spec fn view(&self) -> Seq<CountryFormat> {
        self.formats@
    }
}

impl Registry {
    /// The validity of a table: each of its formats is well formed, and
    /// no country has two.
    pub open spec fn well_formed(&self) -> bool {
        table_ok(self@) && codes_distinct(self@)
    }

    /// A table without any country.
    pub fn new() -> (r: Registry)
        ensures
            r@ == Seq::<CountryFormat>::empty(),
            r.well_formed(),
    {
        Registry { formats: Vec::new() }
    }

    /// The number of countries in the table.
    pub fn len(&self) -> (n: usize)
        ensures
            n == self@.len(),
    {
        self.formats.len()
    }

    /// The format of the country `code`, if the table holds one.
    pub fn lookup(&self, code: (char, char)) -> (r: Option<&CountryFormat>)
        ensures
            match r {
                Some(f) => find(self@, code) == Some(*f),
                None => find(self@, code) is None,
            },
    {
        let mut i: usize = 0;
        while i < self.formats.len()
            invariant
                i <= self.formats@.len(),
                find(self@, code) == find_from(self@, code, i as int),
            decreases self.formats@.len() - i,
        {
            let f = &self.formats[i];
            if f.country_code.0 == code.0 && f.country_code.1 == code.1 {
                return Some(f);
            }
            i += 1;
        }
        None
    }

    /// Adds `format` at the end of the table unless the table has a format
    /// for its country already; says whether it was added.
    pub fn insert(&mut self, format: CountryFormat) -> (added: bool)
        requires
            old(self).well_formed(),
            format.well_formed(),
        ensures
            final(self).well_formed(),
            added == (find(old(self)@, format.country_code) is None),
            added ==> final(self)@ == old(self)@.push(format),
            !added ==> final(self)@ == old(self)@,
    {
        if self.lookup(format.country_code).is_some() {
            return false;
        }
        proof {
            absent_where_not_found(self@, format.country_code, 0);
        }
        self.formats.push(format);
        true
    }
}

} // verus!
