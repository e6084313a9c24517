//! Facts about the standard library that the proofs rest on without checking.

use vstd::prelude::*;

verus! {

/// `std::io::Error`, carried through as an opaque value: nothing in the
/// library looks inside one.
#[verifier::external_type_specification]
#[verifier::external_body]
pub struct ExIoError(std::io::Error);

/// `String::push` appends the given character to the end of the string and
/// leaves the characters before it as they were.
pub assume_specification[ String::push ](s: &mut String, ch: char)
    ensures
        final(s)@ == old(s)@.push(ch),
;

} // verus!
