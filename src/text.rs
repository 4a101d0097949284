//! Small text operations on strings.
use vstd::prelude::*;

verus! {

/// What `str::trim` returns for `s`.
pub uninterp spec fn trimmed_of(s: Seq<char>) -> Seq<char>;

/// Relies on `str::trim`: leading and trailing whitespace removed, the
/// result depending on the characters of `s` alone.
#[verifier::external_body]
pub(crate) fn trim(s: &str) -> (r: String)
    ensures
        r@ == trimmed_of(s@),
{
    s.trim().to_string()
}

/// Relies on `String::push`: appends one character.
#[verifier::external_body]
pub(crate) fn push_char(s: &mut String, c: char)
    ensures
        final(s)@ == old(s)@.push(c),
{
    s.push(c)
}

/// Whether `s` begins with `p`.
pub fn has_prefix(s: &str, p: &str) -> (r: bool)
    ensures
        r == p@.is_prefix_of(s@),
{
    let n = s.unicode_len();
    let m = p.unicode_len();
    if m > n {
        return false;
    }
    let mut i: usize = 0;
    while i < m
        invariant
            n == s@.len(),
            m == p@.len(),
            m <= n,
            i <= m,
            forall|j: int| 0 <= j < i ==> p@[j] == s@[j],
        decreases m - i,
    {
        if s.get_char(i) != p.get_char(i) {
            return false;
        }
        i = i + 1;
    }
    true
}

/// The decimal digits of `n`.
pub open spec fn decimal(n: nat) -> Seq<char>
    decreases n,
{
    if n < 10 {
        seq![digit(n)]
    } else {
        decimal(n / 10).push(digit(n % 10))
    }
}

pub open spec fn digit(d: nat) -> char {
    ((d + 48) as u8) as char
}

/// `n` written in decimal.
pub fn push_decimal(s: &mut String, n: u8)
    ensures
        final(s)@ == old(s)@ + decimal(n as nat),
{
    let ghost k = n as nat;
    let ghost start = s@;
    if n >= 100 {
        push_char(s, ((n / 100) + 48) as char);
        push_char(s, ((n / 10 % 10) + 48) as char);
        push_char(s, ((n % 10) + 48) as char);
        proof {
            assert(k / 10 >= 10);
            assert(k / 10 / 10 == k / 100);
            assert(decimal(k / 10 / 10) == seq![digit(k / 100)]);
            assert(decimal(k / 10) == decimal(k / 10 / 10).push(digit(k / 10 % 10)));
            assert(decimal(k) == decimal(k / 10).push(digit(k % 10)));
            assert(s@ =~= start + decimal(k));
        }
    } else if n >= 10 {
        push_char(s, ((n / 10) + 48) as char);
        push_char(s, ((n % 10) + 48) as char);
        proof {
            assert(decimal(k / 10) == seq![digit(k / 10)]);
            assert(decimal(k) == decimal(k / 10).push(digit(k % 10)));
            assert(s@ =~= start + decimal(k));
        }
    } else {
        push_char(s, (n + 48) as char);
        proof {
            assert(s@ =~= start + decimal(k));
        }
    }
}

/// The elements of `v` in decimal, separated by `, `.
pub open spec fn decimal_list(v: Seq<u8>) -> Seq<char>
    decreases v.len(),
{
    if v.len() == 0 {
        Seq::empty()
    } else if v.len() == 1 {
        decimal(v[0] as nat)
    } else {
        decimal_list(v.drop_last()) + ", "@ + decimal(v.last() as nat)
    }
}

/// How a byte list is shown: `[1, 2, 3]`.
pub open spec fn bytes_text(v: Seq<u8>) -> Seq<char> {
    "["@ + decimal_list(v) + "]"@
}

/// The bytes of `v` shown as a list: `[1, 2, 3]`.
pub fn show_bytes(v: &Vec<u8>) -> (r: String)
    ensures
        r@ == bytes_text(v@),
{
    let mut r = String::from_str("[");
    let n = v.len();
    let mut i: usize = 0;
    while i < n
        invariant
            n == v@.len(),
            i <= n,
            r@ == "["@ + decimal_list(v@.take(i as int)),
        decreases n - i,
    {
        proof {
            assert(v@.take(i + 1).drop_last() =~= v@.take(i as int));
        }
        if i > 0 {
            r.append(", ");
        }
        push_decimal(&mut r, v[i]);
        proof {
            if i == 0 {
                assert(v@.take(0) =~= Seq::<u8>::empty());
            }
        }
        i = i + 1;
    }
    proof {
        assert(v@.take(n as int) =~= v@);
    }
    r.concat("]")
}

} // verus!
