//! What this crate relies on from `String` beyond what vstd states.

use vstd::prelude::*;

verus! {

/// `String::push` of the standard library: appends the given character to the
/// end of the string and changes nothing else. Believed from the standard
/// library's documentation, not proved.
pub assume_specification[ String::push ](s: &mut String, ch: char)
    ensures
        final(s)@ == old(s)@.push(ch),
;

} // verus!
