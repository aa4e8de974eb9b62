use vstd::prelude::*;

verus! {

/// Relies on `String::from_iter` over `&char`: the string of these characters.
#[verifier::external_body]
pub(crate) fn string_of(v: &[char]) -> (s: String)
    ensures
        s@ == v@,
{
    String::from_iter(v)
}

} // verus!
