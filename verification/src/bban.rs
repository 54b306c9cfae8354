//! The decomposition of a national account number into the fields of its
//! country's layout.

use vstd::prelude::*;
use crate::alphabet::{
    alphanumeric, decimal_digit, upper_letter, is_alphanumeric, is_decimal_digit, is_upper_letter,
};
use crate::normalize::{chars_of, text_of};
use crate::registry::{role_count, span, span_grows, BbanField, Charset, CountryFormat, Role};

verus! {

/// Why a national account number could not be decomposed.
#[derive(Clone, Copy, Debug, PartialEq, Eq, Structural)]
pub enum DecomposeError {
    /// The fields do not take up the number exactly, or a field holds a
    /// character outside its character set.
    MalformedBban,
}

/// The identifiers that a layout names.
#[derive(Debug)]
pub struct BbanParts {
    pub bank_identifier: Option<String>,
    pub branch_identifier: Option<String>,
}

/// The identifiers of a decomposition as sequences of characters.
pub struct PartsView {
    pub bank_identifier: Option<Seq<char>>,
    pub branch_identifier: Option<Seq<char>>,
}

/// An optional text as an optional sequence of characters.
pub open spec fn text_view(text: Option<String>) -> Option<Seq<char>> {
    match text {
        Some(s) => Some(s@),
        None => None,
    }
}

impl View for BbanParts {
    type V = PartsView;

    open spec fn view(&self) -> PartsView {
        PartsView {
            bank_identifier: text_view(self.bank_identifier),
            branch_identifier: text_view(self.branch_identifier),
        }
    }
}

/// Whether `c` belongs to the character set `charset`.
pub open spec fn in_charset(charset: Charset, c: char) -> bool {
    match charset {
        Charset::Digits => decimal_digit(c),
        Charset::Letters => upper_letter(c),
        Charset::Alphanumeric => alphanumeric(c),
    }
}

/// The characters of `bban` that field `k` takes.
pub open spec fn slice_of(fields: Seq<BbanField>, bban: Seq<char>, k: int) -> Seq<char> {
    bban.subrange(span(fields, k), span(fields, k + 1))
}

/// Whether every character that field `k` takes is of the field's
/// character set.
pub open spec fn conforms(fields: Seq<BbanField>, bban: Seq<char>, k: int) -> bool {
    forall|j: int|
        span(fields, k) <= j < span(fields, k + 1) ==> in_charset(
            fields[k].charset,
            #[trigger] bban[j],
        )
}

/// Whether `bban` follows the layout: the fields take it up exactly, and
/// each holds characters of its set only.
pub open spec fn decomposable(fields: Seq<BbanField>, bban: Seq<char>) -> bool {
    &&& span(fields, fields.len() as int) == bban.len()
    &&& forall|k: int| 0 <= k < fields.len() ==> #[trigger] conforms(fields, bban, k)
}

/// The slice of the first field among the first `k` that carries `role`.
pub open spec fn identifier(fields: Seq<BbanField>, bban: Seq<char>, role: Role, k: int) -> Option<
    Seq<char>,
>
    decreases k,
{
    if k <= 0 {
        None
    } else {
        match identifier(fields, bban, role, k - 1) {
            Some(s) => Some(s),
            None => if fields[k - 1].role == role {
                Some(slice_of(fields, bban, k - 1))
            } else {
                None
            },
        }
    }
}

/// What decomposing `bban` by the layout `fields` gives.
pub open spec fn decomposition(fields: Seq<BbanField>, bban: Seq<char>) -> Result<
    PartsView,
    DecomposeError,
> {
    if decomposable(fields, bban) {
        Ok(
            PartsView {
                bank_identifier: identifier(
                    fields,
                    bban,
                    Role::BankIdentifier,
                    fields.len() as int,
                ),
                branch_identifier: identifier(
                    fields,
                    bban,
                    Role::BranchIdentifier,
                    fields.len() as int,
                ),
            },
        )
    } else {
        Err(DecomposeError::MalformedBban)
    }
}

/// The slices of the first `k` fields, one after the other.
pub open spec fn joined(fields: Seq<BbanField>, bban: Seq<char>, k: int) -> Seq<char>
    decreases k,
{
    if k <= 0 {
        Seq::<char>::empty()
    } else {
        joined(fields, bban, k - 1) + slice_of(fields, bban, k - 1)
    }
}

/// The slices of the first `k` fields make up the front of the number, as
/// far as those fields reach.
pub proof fn joined_is_prefix(fields: Seq<BbanField>, bban: Seq<char>, k: int)
    requires
        0 <= k,
        span(fields, k) <= bban.len(),
    ensures
        joined(fields, bban, k) == bban.take(span(fields, k)),
    decreases k,
{
    if k > 0 {
        span_grows(fields, k - 1, k);
        joined_is_prefix(fields, bban, k - 1);
        assert(bban.take(span(fields, k - 1)) + slice_of(fields, bban, k - 1) == bban.take(
            span(fields, k),
        ));
    } else {
        assert(bban.take(0) == Seq::<char>::empty());
    }
}

/// The slices of all fields of a layout, in the layout's order, make up
/// the number that was decomposed.
pub proof fn slices_rebuild_bban(fields: Seq<BbanField>, bban: Seq<char>)
    requires
        decomposition(fields, bban) is Ok,
    ensures
        joined(fields, bban, fields.len() as int) == bban,
{
    joined_is_prefix(fields, bban, fields.len() as int);
    assert(bban.take(bban.len() as int) == bban);
}

/// A slice lies inside the number that was decomposed, behind the slices
/// of the fields before it.
pub proof fn slices_lie_in_order(fields: Seq<BbanField>, bban: Seq<char>, k: int)
    requires
        decomposition(fields, bban) is Ok,
        0 <= k < fields.len(),
    ensures
        0 <= span(fields, k) <= span(fields, k + 1) <= bban.len(),
        slice_of(fields, bban, k).len() == fields[k].length,
{
    span_grows(fields, k, k + 1);
    span_grows(fields, k + 1, fields.len() as int);
}

/// A layout hands out an identifier exactly where one of its fields
/// carries the identifier's role.
pub proof fn identifier_is_present_where_named(
    fields: Seq<BbanField>,
    bban: Seq<char>,
    role: Role,
    k: int,
)
    ensures
        identifier(fields, bban, role, k) is Some <==> role_count(fields, role, k) >= 1,
        role_count(fields, role, k) >= 0,
    decreases k,
{
    if k > 0 {
        identifier_is_present_where_named(fields, bban, role, k - 1);
    }
}

fn is_in_charset(charset: Charset, c: char) -> (r: bool)
    ensures
        r == in_charset(charset, c),
{
    match charset {
        Charset::Digits => is_decimal_digit(c),
        Charset::Letters => is_upper_letter(c),
        Charset::Alphanumeric => is_alphanumeric(c),
    }
}

/// Decomposes the characters `bban` by the layout of `format`.
pub fn decompose_chars(bban: &Vec<char>, format: &CountryFormat) -> (r: Result<
    BbanParts,
    DecomposeError,
>)
    ensures
        match r {
            Ok(parts) => decomposition(format.bban_fields@, bban@) == Ok::<
                PartsView,
                DecomposeError,
            >(parts@),
            Err(e) => decomposition(format.bban_fields@, bban@) == Err::<PartsView, DecomposeError>(
                e,
            ),
        },
{
    let fields = &format.bban_fields;
    let ghost layout = format.bban_fields@;
    let len: usize = bban.len();
    let mut bank: Option<String> = None;
    let mut branch: Option<String> = None;
    let mut pos: usize = 0;
    let mut k: usize = 0;
    while k < fields.len()
        invariant
            fields@ == layout,
            layout == format.bban_fields@,
            len == bban@.len(),
            k <= layout.len(),
            pos == span(layout, k as int),
            pos <= len,
            forall|i: int| 0 <= i < k ==> #[trigger] conforms(layout, bban@, i),
            text_view(bank) == identifier(layout, bban@, Role::BankIdentifier, k as int),
            text_view(branch) == identifier(layout, bban@, Role::BranchIdentifier, k as int),
        decreases layout.len() - k,
    {
        let field = fields[k];
        if field.length > len - pos {
            proof {
                span_grows(layout, k as int + 1, layout.len() as int);
                assert(span(layout, k as int + 1) > len);
                assert(!decomposable(layout, bban@));
            }
            return Err(DecomposeError::MalformedBban);
        }
        let end: usize = pos + field.length;
        let mut j: usize = pos;
        while j < end
            invariant
                fields@ == layout,
                layout == format.bban_fields@,
                len == bban@.len(),
                k < layout.len(),
                field == layout[k as int],
                pos == span(layout, k as int),
                end == span(layout, k as int + 1),
                pos <= j <= end <= len,
                forall|i: int| pos <= i < j ==> in_charset(field.charset, #[trigger] bban@[i]),
            decreases end - j,
        {
            if !is_in_charset(field.charset, bban[j]) {
                assert(!conforms(layout, bban@, k as int));
                assert(!decomposable(layout, bban@));
                return Err(DecomposeError::MalformedBban);
            }
            j += 1;
        }
        assert(conforms(layout, bban@, k as int));
        if field.role == Role::BankIdentifier && bank.is_none() {
            bank = Some(text_of(bban, pos, end));
        }
        if field.role == Role::BranchIdentifier && branch.is_none() {
            branch = Some(text_of(bban, pos, end));
        }
        pos = end;
        k += 1;
    }
    if pos != len {
        return Err(DecomposeError::MalformedBban);
    }
    Ok(BbanParts { bank_identifier: bank, branch_identifier: branch })
}

/// Decomposes the national account number `bban` by the layout of
/// `format`: walks the fields in order, takes each field's characters from
/// the front, and hands out the bank and branch identifiers.
pub fn decompose(bban: &str, format: &CountryFormat) -> (r: Result<BbanParts, DecomposeError>)
    ensures
        match r {
            Ok(parts) => decomposition(format.bban_fields@, bban@) == Ok::<
                PartsView,
                DecomposeError,
            >(parts@),
            Err(e) => decomposition(format.bban_fields@, bban@) == Err::<PartsView, DecomposeError>(
                e,
            ),
        },
{
    let chars = chars_of(bban);
    decompose_chars(&chars, format)
}

} // verus!
