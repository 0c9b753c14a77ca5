use vstd::prelude::*;

verus! {

/// Relies on std's `String::push_str`: appends the characters of `t`.
#[verifier::external_body]
pub(crate) fn append(s: &mut String, t: &str)
    ensures
        final(s)@ == old(s)@ + t@,
{
    s.push_str(t)
}

} // verus!
