//! What a client sends to have a record made.

use vstd::prelude::*;

verus! {

/// A debt as a client states it: a label and a quantity. A negative quantity
/// is a debt in the other direction.
#[derive(Clone, Debug, PartialEq, Eq)]
pub struct Debt {
    pub name: String,
    pub amount: isize,
}

} // verus!
