//! The `seanum` macro: derives a database enum type from a Rust enum.
use vstd::prelude::*;
use crate::case::{is_upper_of, is_uppercase, lower_first_of, lowercase_first};
use crate::text::push_char;

verus! {

/// The configuration of `seanum`.
#[derive(Debug)]
pub struct Args {
    /// The Rust type stored for the enum.
    pub rs_type: String,
    /// The database type of the enum.
    pub db_type: String,
}

/// The database name of the enum `name`: every character lowered, and
/// an upper-case one after the first preceded by `_`.
pub open spec fn db_enum_name_spec(name: Seq<char>) -> Seq<char>
    decreases name.len(),
{
    if name.len() == 0 {
        Seq::empty()
    } else {
        let c = name.last();
        let rest = db_enum_name_spec(name.drop_last());
        if name.len() > 1 && is_upper_of(c) {
            rest.push('_').push(lower_first_of(c))
        } else {
            rest.push(lower_first_of(c))
        }
    }
}

/// The database name of the enum `name` (`MyEnum` gives `my_enum`).
pub fn db_enum_name(name: &str) -> (r: String)
    ensures
        r@ == db_enum_name_spec(name@),
{
    let mut r = String::new();
    let n = name.unicode_len();
    let mut i: usize = 0;
    while i < n
        invariant
            n == name@.len(),
            i <= n,
            r@ == db_enum_name_spec(name@.take(i as int)),
        decreases n - i,
    {
        let c = name.get_char(i);
        proof {
            assert(name@.take(i + 1).drop_last() =~= name@.take(i as int));
            assert(name@.take(i + 1).last() == c);
        }
        if i > 0 && is_uppercase(c) {
            push_char(&mut r, '_');
        }
        push_char(&mut r, lowercase_first(c));
        i = i + 1;
    }
    proof {
        assert(name@.take(n as int) =~= name@);
    }
    r
}

} // verus!
