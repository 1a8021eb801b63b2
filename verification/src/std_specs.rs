//! Contracts for the few functions of the standard library that the crate
//! calls and that come without one. Nothing here is proved: each contract
//! restates what the standard library documents.

use vstd::prelude::*;

verus! {

/// `String::push` appends the given character to the end of the string.
pub assume_specification[ String::push ](s: &mut String, c: char)
    ensures
        final(s)@ == old(s)@.push(c),
;

/// `std::io::ErrorKind`, the classification that the operating system gives
/// to a failed file operation. The crate carries such a value from the
/// failed operation to whoever displays it and never looks inside.
#[verifier::external_type_specification]
#[verifier::external_body]
pub struct ExErrorKind(std::io::ErrorKind);

/// `ErrorKind` is `Copy`: its `clone` returns the same classification.
pub assume_specification[ <std::io::ErrorKind as Clone>::clone ](
    kind: &std::io::ErrorKind,
) -> (copy: std::io::ErrorKind)
    ensures
        copy == *kind,
;

} // verus!
