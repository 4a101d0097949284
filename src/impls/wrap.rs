//! The `wrap` macro: wraps the type of every named field of a struct in a
//! generic wrapper type, `T` becoming `W<T>`.
use vstd::prelude::*;
use crate::logr::{Diagnostic, Logr, Severity, tagged};

verus! {

/// The configuration of `wrap`: the wrapper type's name.
#[derive(Debug)]
pub struct Args {
    pub with: String,
}

/// The syntactic form of a field's type.
#[derive(Debug)]
pub enum TypeShape {
    Path,
    Slice,
    Tuple,
    Array,
    /// Any other form, by the name of its syntax node.
    Other(String),
}

/// A field of the decorated struct: the form of its type and the type
/// written out as tokens.
#[derive(Debug)]
pub struct FieldType {
    pub shape: TypeShape,
    pub ty: String,
}

/// `wrapper<inner>`
pub open spec fn wrapped(wrapper: Seq<char>, inner: Seq<char>) -> Seq<char> {
    wrapper + "<"@ + inner + ">"@
}

pub open spec fn unsupported_type_msg(shape: Seq<char>) -> Seq<char> {
    "#[rsmack_wrap::wrap]: Field type not supported "@ + shape
}

/// The new type of a field, or the message saying why it stays as it is.
pub open spec fn wrap_spec(wrapper: Seq<char>, f: FieldType) -> Result<Seq<char>, Seq<char>> {
    match f.shape {
        TypeShape::Other(name) => Err(unsupported_type_msg(name@)),
        _ => Ok(wrapped(wrapper, f.ty@)),
    }
}

pub open spec fn outcome_view(r: Result<String, String>) -> Result<Seq<char>, Seq<char>> {
    match r {
        Ok(s) => Ok(s@),
        Err(s) => Err(s@),
    }
}

/// The type `wrapper<inner>`, as text.
pub fn wrap_field_ty(wrapper: &str, inner: &str) -> (r: String)
    ensures
        r@ == wrapped(wrapper@, inner@),
{
    String::from_str(wrapper).concat("<").concat(inner).concat(">")
}

/// For each field in order: its wrapped type, or the message of the
/// recoverable error that leaves it unchanged.
pub fn wrap_fields(args: &Args, fields: &Vec<FieldType>) -> (r: Vec<Result<String, String>>)
    ensures
        r@.len() == fields@.len(),
        forall|i: int|
            0 <= i < fields@.len() ==> outcome_view(#[trigger] r@[i]) == wrap_spec(
                args.with@,
                fields@[i],
            ),
{
    let mut r: Vec<Result<String, String>> = Vec::new();
    let n = fields.len();
    let mut i: usize = 0;
    while i < n
        invariant
            n == fields@.len(),
            i <= n,
            r@.len() == i,
            forall|j: int|
                0 <= j < i ==> outcome_view(#[trigger] r@[j]) == wrap_spec(args.with@, fields@[j]),
        decreases n - i,
    {
        let f = &fields[i];
        let outcome = match &f.shape {
            TypeShape::Other(name) => Err(
                String::from_str("#[rsmack_wrap::wrap]: Field type not supported ").concat(
                    name.as_str(),
                ),
            ),
            _ => Ok(wrap_field_ty(args.with.as_str(), f.ty.as_str())),
        };
        r.push(outcome);
        i = i + 1;
    }
    r
}

/// A struct without named fields cannot be wrapped: the expansion aborts.
pub fn unnamed_struct_error(logr: &Logr) -> (r: Diagnostic)
    ensures
        r@ == (Severity::Abort, tagged(logr.prefix@, "Only named struct supported"@)),
{
    logr.abort_call_site("Only named struct supported")
}

} // verus!
