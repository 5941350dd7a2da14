//! Small executable string helpers proved against sequence-level
//! specifications, together with the trusted shims for the few `str` and
//! `String` operations that vstd leaves unspecified.

use vstd::prelude::*;

verus! {

/// Relies on `String::push`: appends exactly one character.
#[verifier::external_body]
pub fn push_char(s: &mut String, c: char)
    ensures
        final(s)@ == old(s)@.push(c),
{
    s.push(c)
}

/// Relies on `str::eq` (`==` on string slices): equality of the character
/// sequences.
#[verifier::external_body]
pub fn str_eq(a: &str, b: &str) -> (r: bool)
    ensures
        r == (a@ == b@),
{
    a == b
}

/// Appends `b` to `a`.
pub fn append_str(a: &mut String, b: &str)
    ensures
        final(a)@ == old(a)@ + b@,
{
    a.append(b);
}

} // verus!
