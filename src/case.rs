//! Case conversion of identifiers, done by the `stringcase` crate.
use vstd::prelude::*;

verus! {

/// What `stringcase::pascal_case` returns for `s`.
pub uninterp spec fn pascal_of(s: Seq<char>) -> Seq<char>;

/// Relies on `stringcase::pascal_case`: its result depends on the input
/// characters alone.
#[verifier::external_body]
pub(crate) fn pascal_case(s: &str) -> (r: String)
    ensures
        r@ == pascal_of(s@),
{
    stringcase::pascal_case(s)
}

} // verus!

verus! {

/// What `stringcase::pascal_case_with_sep` returns for `s` and the
/// separator characters `seps`.
pub uninterp spec fn pascal_sep_of(s: Seq<char>, seps: Seq<char>) -> Seq<char>;

/// Relies on `stringcase::pascal_case_with_sep`: its result depends on the
/// input and separator characters alone.
#[verifier::external_body]
#[allow(deprecated)]
pub(crate) fn pascal_case_with_sep(s: &str, seps: &str) -> (r: String)
    ensures
        r@ == pascal_sep_of(s@, seps@),
{
    stringcase::pascal_case_with_sep(s, seps)
}

} // verus!

verus! {

/// What `char::is_uppercase` says of `c`.
pub uninterp spec fn is_upper_of(c: char) -> bool;

/// Relies on `char::is_uppercase`: whether `c` has the Unicode
/// `Uppercase` property.
#[verifier::external_body]
pub(crate) fn is_uppercase(c: char) -> (r: bool)
    ensures
        r == is_upper_of(c),
{
    c.is_uppercase()
}

/// The first character of what `char::to_lowercase` gives for `c`.
pub uninterp spec fn lower_first_of(c: char) -> char;

/// Relies on `char::to_lowercase`, whose mapping always yields at least
/// one character: the first of them.
#[verifier::external_body]
pub(crate) fn lowercase_first(c: char) -> (r: char)
    ensures
        r == lower_first_of(c),
{
    c.to_lowercase().next().unwrap_or(c)
}

} // verus!
