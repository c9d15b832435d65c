//! Calls into the standard library that Verus has no specification for.

use vstd::prelude::*;

verus! {

/// Calls `std::path::Path::exists` on `path`. Whether a file is there is a
/// fact about the machine at the time of the call, so nothing is promised of
/// the answer.
#[verifier::external_body]
pub fn path_exists(path: &str) -> bool {
    std::path::Path::new(path).exists()
}

/// Calls `String::push`: `c` is appended to `s`.
#[verifier::external_body]
pub fn push_char(s: &mut String, c: char)
    ensures
        final(s)@ == old(s)@.push(c),
{
    s.push(c);
}

} // verus!
