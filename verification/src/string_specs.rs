//! What this crate takes on trust about the standard library's strings,
//! beyond what vstd specifies.

use vstd::prelude::*;

verus! {

/// `String::push` of the standard library. Not proved: by its documentation
/// it appends `ch` to the end of the string, so the string's text afterwards
/// is its text before with `ch` added at the end.
pub assume_specification[ String::push ](s: &mut String, ch: char)
    ensures
        final(s)@ == old(s)@.push(ch),
;

} // verus!
