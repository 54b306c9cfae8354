//! The standard table of national layouts, and how a table is read from
//! its text.
//!
//! A table's text is a run of rows of 33 characters, one row a country:
//! the country code, the number of fields, and six slots of five
//! characters. A slot in use is a blank, the field's length in two digits,
//! the letter of its character set (`n` digits, `a` letters, `c` both) and
//! the letter of its role (`B` bank, `R` branch, `A` account number, `K`
//! national check digit, `O` other).

use vstd::prelude::*;
use crate::alphabet::{decimal_digit, is_decimal_digit, numeric_value, upper_letter, value_of};
use crate::normalize::chars_of;
use crate::registry::{
    find, find_from, layout_ok, table_ok, BbanField, Charset, CountryFormat, Registry, Role,
};

verus! {

/// The countries that take part in the scheme.
pub const STANDARD_TABLE: &'static str = "\
AD3 04nB 04nR 12cA .... .... ....\
AE2 03nB 16nA .... .... .... ....\
AL4 03nB 04nR 01nO 16cA .... ....\
AT2 05nB 11nA .... .... .... ....\
AZ2 04aB 20cA .... .... .... ....\
BA4 03nB 03nR 08nA 02nO .... ....\
BE3 03nB 07nA 02nO .... .... ....\
BG4 04aB 04nR 02nO 08cA .... ....\
BH2 04aB 14cA .... .... .... ....\
BI4 05nB 05nR 11nA 02nO .... ....\
BR5 08nB 05nR 10nA 01aO 01cO ....\
BY3 04cB 04nO 16cA .... .... ....\
CH2 05nB 12cA .... .... .... ....\
CR2 04nB 14nA .... .... .... ....\
CY3 03nB 05nR 16cA .... .... ....\
CZ3 04nB 06nO 10nA .... .... ....\
DE2 08nB 10nA .... .... .... ....\
DJ4 05nB 05nR 11nA 02nO .... ....\
DK3 04nB 09nA 01nO .... .... ....\
DO2 04cB 20nA .... .... .... ....\
EE4 02nB 02nO 11nA 01nO .... ....\
EG3 04nB 04nR 17nA .... .... ....\
ES5 04nB 04nR 01nO 01nO 10nA ....\
FI2 03nB 11nA .... .... .... ....\
FK2 02aB 12nA .... .... .... ....\
FO3 04nB 09nA 01nO .... .... ....\
FR4 05nB 05nO 11cA 02nO .... ....\
GB3 04aB 06nR 08nA .... .... ....\
GE2 02aB 16nA .... .... .... ....\
GI2 04aB 15cA .... .... .... ....\
GL3 04nB 09nA 01nO .... .... ....\
GR3 03nB 04nR 16cA .... .... ....\
GT2 04cB 20cA .... .... .... ....\
HR2 07nB 10nA .... .... .... ....\
HU5 03nB 04nR 01nO 15nA 01nO ....\
IE3 04aB 06nR 08nA .... .... ....\
IL3 03nB 03nR 13nA .... .... ....\
IQ3 04aB 03nR 12nA .... .... ....\
IS5 02nB 02nR 02nO 06nO 10nA ....\
IT4 01aO 05nB 05nR 12cA .... ....\
JO3 04aB 04nR 18cA .... .... ....\
KW2 04aB 22cA .... .... .... ....\
KZ2 03nB 13cA .... .... .... ....\
LB2 04nB 20cA .... .... .... ....\
LC2 04aB 24cA .... .... .... ....\
LI2 05nB 12cA .... .... .... ....\
LT2 05nB 11nA .... .... .... ....\
LU2 03nB 13cA .... .... .... ....\
LV2 04aB 13cA .... .... .... ....\
LY3 03nB 03nR 15nA .... .... ....\
MC4 05nB 05nR 11cA 02nO .... ....\
MD2 02cB 18cA .... .... .... ....\
ME3 03nB 13nA 02nO .... .... ....\
MK3 03nB 10cA 02nO .... .... ....\
MN2 04nB 12nA .... .... .... ....\
MR4 05nB 05nR 11nA 02nO .... ....\
MT3 04aB 05nR 18cA .... .... ....\
MU5 06cB 02nR 12nA 03nO 03aO ....\
NI2 04aB 20nA .... .... .... ....\
NL2 04aB 10nA .... .... .... ....\
NO3 04nB 06nA 01nO .... .... ....\
OM2 03nB 16cA .... .... .... ....\
PL2 08nR 16nA .... .... .... ....\
PS2 04aB 21cA .... .... .... ....\
PT4 04nB 04nR 11nA 02nO .... ....\
QA2 04aB 21cA .... .... .... ....\
RO2 04aB 16cA .... .... .... ....\
RS3 03nB 13nA 02nO .... .... ....\
RU3 09nB 05nR 15cA .... .... ....\
SA2 02nB 18cA .... .... .... ....\
SC4 06cB 02nR 16nA 03aO .... ....\
SD2 02nB 12nA .... .... .... ....\
SE3 03nB 16nA 01nO .... .... ....\
SI3 05nB 08nA 02nO .... .... ....\
SK3 04nB 06nO 10nA .... .... ....\
SM4 01aO 05nB 05nR 12cA .... ....\
SO3 04nB 03nR 12nA .... .... ....\
ST4 04nB 04nR 11nA 02nO .... ....\
SV2 04aB 20nA .... .... .... ....\
TL3 03nB 14nA 02nO .... .... ....\
TN4 02nB 03nR 13nA 02nO .... ....\
TR3 05nB 01nO 16cA .... .... ....\
UA2 06nB 19cA .... .... .... ....\
VA2 03nB 15nA .... .... .... ....\
VG2 04aB 16nA .... .... .... ....\
XK4 02nB 02nR 10nA 02nO .... ....\
YE3 04aB 04nR 18cA .... .... ....";

/// The characters of one row.
pub const ROW_WIDTH: usize = 33;

/// The characters of one slot.
pub const SLOT_WIDTH: usize = 5;

/// The slots of one row.
pub const MAX_SLOTS: usize = 6;

/// The character set that a letter of the table stands for.
pub open spec fn charset_of(c: char) -> Option<Charset> {
    if c == 'n' {
        Some(Charset::Digits)
    } else if c == 'a' {
        Some(Charset::Letters)
    } else if c == 'c' {
        Some(Charset::Alphanumeric)
    } else {
        None
    }
}

/// The role that a letter of the table stands for.
pub open spec fn role_of(c: char) -> Option<Role> {
    if c == 'B' {
        Some(Role::BankIdentifier)
    } else if c == 'R' {
        Some(Role::BranchIdentifier)
    } else if c == 'A' {
        Some(Role::AccountNumber)
    } else if c == 'K' {
        Some(Role::NationalCheckDigit)
    } else if c == 'O' {
        Some(Role::Other)
    } else {
        None
    }
}

/// Whether the five characters from `at` on are a slot in use.
pub open spec fn slot_ok(t: Seq<char>, at: int) -> bool {
    &&& t[at] == ' '
    &&& decimal_digit(t[at + 1])
    &&& decimal_digit(t[at + 2])
    &&& charset_of(t[at + 3]) is Some
    &&& role_of(t[at + 4]) is Some
}

/// The field that the slot at `at` describes.
pub open spec fn slot_field(t: Seq<char>, at: int) -> BbanField {
    BbanField {
        length: (numeric_value(t[at + 1]) * 10 + numeric_value(t[at + 2])) as usize,
        charset: charset_of(t[at + 3])->0,
        role: role_of(t[at + 4])->0,
    }
}

/// The rows that a text holds in full.
pub open spec fn row_count(t: Seq<char>) -> int {
    t.len() as int / ROW_WIDTH as int
}

/// Where the slot `j` of row `r` begins.
pub open spec fn slot_start(r: int, j: int) -> int {
    r * ROW_WIDTH as int + 3 + j * SLOT_WIDTH as int
}

/// The number of slots that row `r` uses.
pub open spec fn slots_used(t: Seq<char>, r: int) -> int {
    numeric_value(t[r * ROW_WIDTH as int + 2])
}

/// Whether row `r` can be read: a number of slots that a row has, and
/// that many slots in use.
pub open spec fn row_ok(t: Seq<char>, r: int) -> bool {
    &&& decimal_digit(t[r * ROW_WIDTH as int + 2])
    &&& slots_used(t, r) <= MAX_SLOTS
    &&& forall|j: int| 0 <= j < slots_used(t, r) ==> slot_ok(t, #[trigger] slot_start(r, j))
}

/// The country code of row `r`.
pub open spec fn row_code(t: Seq<char>, r: int) -> (char, char) {
    (t[r * ROW_WIDTH as int], t[r * ROW_WIDTH as int + 1])
}

/// The layout that row `r` describes.
pub open spec fn row_fields(t: Seq<char>, r: int) -> Seq<BbanField> {
    Seq::new(slots_used(t, r) as nat, |j: int| slot_field(t, slot_start(r, j)))
}

/// Whether row `r` gives a format: it can be read, its code is two
/// uppercase letters, and its layout is one that a format may hold.
pub open spec fn row_usable(t: Seq<char>, r: int) -> bool {
    &&& row_ok(t, r)
    &&& upper_letter(row_code(t, r).0)
    &&& upper_letter(row_code(t, r).1)
    &&& layout_ok(row_fields(t, r))
}

/// The layout that the first `k` rows of a text give for the country
/// `code`: that of the first usable row with this code.
pub open spec fn listed(t: Seq<char>, code: (char, char), k: int) -> Option<Seq<BbanField>>
    decreases k,
{
    if k <= 0 {
        None
    } else {
        match listed(t, code, k - 1) {
            Some(fields) => Some(fields),
            None => if row_usable(t, k - 1) && row_code(t, k - 1) == code {
                Some(row_fields(t, k - 1))
            } else {
                None
            },
        }
    }
}

/// The layout that a table of formats holds for the country `code`.
pub open spec fn layout_of(formats: Seq<CountryFormat>, code: (char, char)) -> Option<
    Seq<BbanField>,
> {
    match find(formats, code) {
        Some(f) => Some(f.bban_fields@),
        None => None,
    }
}

/// Whether a table of formats holds what the rows of `text` give: valid
/// formats, and for each country the layout of its first usable row.
pub open spec fn reads_as(formats: Seq<CountryFormat>, text: Seq<char>) -> bool {
    &&& table_ok(formats)
    &&& forall|code: (char, char)| #[trigger]
        layout_of(formats, code) == listed(text, code, row_count(text))
}

/// Looking a country up from position `i` on in a table with one more
/// format at its end: what the shorter table gives, else the new format
/// where it has the code.
pub proof fn find_after_push(
    formats: Seq<CountryFormat>,
    format: CountryFormat,
    code: (char, char),
    i: int,
)
    requires
        0 <= i <= formats.len(),
    ensures
        find_from(formats.push(format), code, i) == match find_from(formats, code, i) {
            Some(f) => Some(f),
            None => if format.country_code == code {
                Some(format)
            } else {
                None
            },
        },
    decreases formats.len() - i,
{
    let longer = formats.push(format);
    if i < formats.len() {
        assert(longer[i] == formats[i]);
        if formats[i].country_code != code {
            find_after_push(formats, format, code, i + 1);
        }
    } else {
        assert(longer[i] == format);
        assert(find_from(longer, code, i + 1) is None);
    }
}

fn read_charset(c: char) -> (r: Option<Charset>)
    ensures
        r == charset_of(c),
{
    if c == 'n' {
        Some(Charset::Digits)
    } else if c == 'a' {
        Some(Charset::Letters)
    } else if c == 'c' {
        Some(Charset::Alphanumeric)
    } else {
        None
    }
}

fn read_role(c: char) -> (r: Option<Role>)
    ensures
        r == role_of(c),
{
    if c == 'B' {
        Some(Role::BankIdentifier)
    } else if c == 'R' {
        Some(Role::BranchIdentifier)
    } else if c == 'A' {
        Some(Role::AccountNumber)
    } else if c == 'K' {
        Some(Role::NationalCheckDigit)
    } else if c == 'O' {
        Some(Role::Other)
    } else {
        None
    }
}

/// Reads the slot that begins at `at`.
fn read_slot(t: &Vec<char>, at: usize) -> (r: Option<BbanField>)
    requires
        at + SLOT_WIDTH <= t.len(),
    ensures
        r == if slot_ok(t@, at as int) {
            Some(slot_field(t@, at as int))
        } else {
            None
        },
{
    if t[at] != ' ' || !is_decimal_digit(t[at + 1]) || !is_decimal_digit(t[at + 2]) {
        return None;
    }
    let tens: u32 = value_of(t[at + 1]);
    let units: u32 = value_of(t[at + 2]);
    let length: usize = (tens * 10 + units) as usize;
    match (read_charset(t[at + 3]), read_role(t[at + 4])) {
        (Some(charset), Some(role)) => Some(BbanField { length, charset, role }),
        _ => None,
    }
}

/// Reads the layout of row `r`, where the row can be read.
fn read_row(t: &Vec<char>, r: usize) -> (o: Option<Vec<BbanField>>)
    requires
        (r + 1) * ROW_WIDTH <= t.len(),
    ensures
        match o {
            Some(fields) => row_ok(t@, r as int) && fields@ == row_fields(t@, r as int),
            None => !row_ok(t@, r as int),
        },
{
    let base: usize = r * ROW_WIDTH;
    if !is_decimal_digit(t[base + 2]) {
        return None;
    }
    let used: usize = value_of(t[base + 2]) as usize;
    if used > MAX_SLOTS {
        return None;
    }
    let mut fields: Vec<BbanField> = Vec::new();
    let mut j: usize = 0;
    while j < used
        invariant
            base == r * ROW_WIDTH,
            base + ROW_WIDTH <= t.len(),
            used == slots_used(t@, r as int),
            used <= MAX_SLOTS,
            j <= used,
            fields@.len() == j,
            forall|i: int| 0 <= i < j ==> slot_ok(t@, #[trigger] slot_start(r as int, i)),
            forall|i: int|
                0 <= i < j ==> fields@[i] == slot_field(t@, #[trigger] slot_start(r as int, i)),
        decreases used - j,
    {
        let at: usize = base + 3 + j * SLOT_WIDTH;
        assert(at == slot_start(r as int, j as int));
        match read_slot(t, at) {
            Some(field) => {
                fields.push(field);
            },
            None => {
                return None;
            },
        }
        j += 1;
    }
    assert(fields@ =~= row_fields(t@, r as int));
    Some(fields)
}

/// Adds the country `code` with the layout `fields` to `table`, unless
/// the row is not valid or the table has the country already.
fn row(table: &mut Registry, code: (char, char), fields: Vec<BbanField>)
    requires
        old(table).well_formed(),
    ensures
        final(table).well_formed(),
        forall|other: (char, char)| #[trigger]
            layout_of(final(table)@, other) == match layout_of(old(table)@, other) {
                Some(layout) => Some(layout),
                None => if other == code && upper_letter(code.0) && upper_letter(code.1)
                    && layout_ok(fields@) {
                    Some(fields@)
                } else {
                    None
                },
            },
{
    match CountryFormat::new(code, fields) {
        Some(format) => {
            let ghost before = table@;
            let added = table.insert(format);
            proof {
                if added {
                    assert forall|other: (char, char)| #[trigger]
                        find(table@, other) == match find(before, other) {
                            Some(f) => Some(f),
                            None => if format.country_code == other {
                                Some(format)
                            } else {
                                None
                            },
                        } by {
                        find_after_push(before, format, other, 0);
                    }
                }
            }
        },
        None => {},
    }
}

impl Registry {
    /// Reads a table from its text. A row that cannot be read or does not
    /// give a valid format is passed over, and so is a row for a country
    /// that an earlier row has given; characters behind the last full row
    /// are not read.
    pub fn from_table(text: &str) -> (table: Registry)
        ensures
            table.well_formed(),
            reads_as(table@, text@),
    {
        let t = chars_of(text);
        let rows: usize = t.len() / ROW_WIDTH;
        let mut table = Registry::new();
        let mut r: usize = 0;
        while r < rows
            invariant
                t@ == text@,
                rows == t.len() / ROW_WIDTH,
                rows == row_count(t@),
                r <= rows,
                table.well_formed(),
                forall|code: (char, char)| #[trigger]
                    layout_of(table@, code) == listed(t@, code, r as int),
            decreases rows - r,
        {
            let base: usize = r * ROW_WIDTH;
            let code = (t[base], t[base + 1]);
            match read_row(&t, r) {
                Some(fields) => {
                    row(&mut table, code, fields);
                },
                None => {},
            }
            r += 1;
        }
        table
    }

    /// The table of the countries that take part in the scheme.
    pub fn standard() -> (table: Registry)
        ensures
            table.well_formed(),
            reads_as(table@, STANDARD_TABLE@),
    {
        Registry::from_table(STANDARD_TABLE)
    }
}

} // verus!
