//! What is taken for granted of std's `String`.

use vstd::prelude::*;

verus! {

/// `String::push` of std: the character is added at the end of the text.
pub assume_specification[ String::push ](s: &mut String, ch: char)
    ensures
        final(s)@ == old(s)@.push(ch),
;

} // verus!
