//! The debt record.

use crate::models::datetime::DateTime;
use crate::models::oid::ObjectId;
use vstd::prelude::*;

verus! {

/// A debt record. The identifier is absent until the store has assigned one;
/// the timestamps are absent until the service has set them.
#[derive(Clone, Debug, PartialEq, Eq, PartialOrd, Ord, Default)]
pub struct Debt {
    pub id: Option<ObjectId>,
    pub name: String,
    pub amount: isize,
    pub created_at: Option<DateTime>,
    pub updated_at: Option<DateTime>,
}

/// A debt record as plain values.
pub struct DebtView {
    pub id: Option<Seq<u8>>,
    pub name: Seq<char>,
    pub amount: int,
    pub created_at: Option<DateTime>,
    pub updated_at: Option<DateTime>,
}

impl View for Debt {
    type V = DebtView;

    open spec fn view(&self) -> DebtView {
        DebtView {
            id: match self.id {
                Some(id) => Some(id@),
                None => None,
            },
            name: self.name@,
            amount: self.amount as int,
            created_at: self.created_at,
            updated_at: self.updated_at,
        }
    }
}

impl Debt {
    /// The record for a debt that a client states: no identifier and no
    /// timestamps yet.
    pub fn new(stated: crate::model::Debt) -> (r: Debt)
        ensures
            r@ == (DebtView {
                id: None,
                name: stated.name@,
                amount: stated.amount as int,
                created_at: None,
                updated_at: None,
            }),
    {
        Debt { id: None, name: stated.name, amount: stated.amount, created_at: None, updated_at: None }
    }
}

} // verus!
