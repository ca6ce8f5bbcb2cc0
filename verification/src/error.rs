//! The one way in which making a response can fail.

use vstd::prelude::*;

verus! {

/// A value of a response could not be written as text: a timestamp outside
/// the years that its format has, or a count past the range of its number.
#[derive(Clone, Copy, Debug, PartialEq, Eq)]
pub struct EncodeError {}

/// The view of a text that was written, or `None` for the error in its place.
pub open spec fn encoded(r: Result<String, EncodeError>) -> Option<Seq<char>> {
    match r {
        Ok(text) => Some(text@),
        Err(_) => None,
    }
}

} // verus!
