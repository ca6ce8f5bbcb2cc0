//! A model of the document store, and what the service does over a store that
//! behaves as the model says.

use crate::error::EncodeError;
use crate::models::datetime::{rfc3339_text, DateTime};
use crate::models::debt::DebtView;
use crate::models::oid::{is_object_id_text, lemma_text_reads_back, object_id_bytes, object_id_text};
use crate::routes::json::{delete_result_json, lemma_empty_array};
use crate::routes::response::{json_response, json_response_of, HttpResponseView, CREATED, OK};
use crate::routes::route::{
    add_debt_response, delete_debt_response, get_all_debts_response, get_debt_by_id_response,
    identified, invalid_id_response, not_found_response, record_json, shown_json, step_for,
    update_debt_response, DebtReturnTypeView, RequestView, StepView,
};
use vstd::prelude::*;

verus! {

/// The collection of the store: the records, each under its identifier, and
/// the identifiers that the store has assigned so far, those of deleted
/// records among them.
pub struct Collection {
    pub records: Map<Seq<u8>, DebtView>,
    pub used: Set<Seq<u8>>,
}

/// What the store is free to choose when it serves a request: the identifier
/// that it assigns to a record it inserts, and the order in which it hands
/// out the records it finds.
pub struct StoreChoice {
    pub assigned: Seq<u8>,
    pub listing: Seq<DebtView>,
}

/// The record after an update: the identifier stays, the label and the
/// quantity are those that the update sets, and a timestamp is replaced where
/// the update holds one.
pub open spec fn merged(stored: DebtView, set: DebtView) -> DebtView {
    DebtView {
        id: stored.id,
        name: set.name,
        amount: set.amount,
        created_at: if set.created_at is Some {
            set.created_at
        } else {
            stored.created_at
        },
        updated_at: if set.updated_at is Some {
            set.updated_at
        } else {
            stored.updated_at
        },
    }
}

impl Collection {
    /// The records are finitely many; each holds the identifier that it
    /// stands under, which the store has assigned, and both timestamps.
    pub open spec fn wf(self) -> bool {
        &&& self.records.dom().finite()
        &&& forall|id: Seq<u8>| #[trigger]
            self.records.contains_key(id) ==> {
                &&& id.len() == 12
                &&& self.used.contains(id)
                &&& self.records[id].id == Some(id)
                &&& self.records[id].created_at is Some
                &&& self.records[id].updated_at is Some
            }
    }

    /// No record was updated before it was made.
    pub open spec fn ordered(self) -> bool {
        forall|id: Seq<u8>| #[trigger]
            self.records.contains_key(id) ==> self.records[id].created_at.unwrap().millis
                <= self.records[id].updated_at.unwrap().millis
    }

    /// How many records the collection holds.
    pub open spec fn len(self) -> nat {
        self.records.dom().len()
    }

    /// An identifier that the store may assign: twelve bytes that it has
    /// assigned to no record before.
    pub open spec fn is_new(self, id: Seq<u8>) -> bool {
        id.len() == 12 && !self.used.contains(id)
    }

    /// The record under an identifier, if there is one.
    pub open spec fn find_one(self, id: Seq<u8>) -> Option<DebtView> {
        if self.records.contains_key(id) {
            Some(self.records[id])
        } else {
            None
        }
    }

    /// The sequence holds the records of the collection, each once.
    pub open spec fn lists(self, found: Seq<DebtView>) -> bool {
        &&& forall|i: int|
            0 <= i < found.len() ==> (#[trigger] found[i]).id is Some && self.find_one(
                found[i].id.unwrap(),
            ) == Some(found[i])
        &&& forall|id: Seq<u8>| #[trigger]
            self.records.contains_key(id) ==> found.contains(self.records[id])
        &&& forall|i: int, j: int|
            0 <= i < j < found.len() ==> (#[trigger] found[i]).id != (#[trigger] found[j]).id
    }

    /// What the store may choose: an identifier that is new, and a listing
    /// of the records that are there.
    pub open spec fn admits(self, choice: StoreChoice) -> bool {
        self.is_new(choice.assigned) && self.lists(choice.listing)
    }

    /// The collection with a record inserted under the identifier assigned to it.
    pub open spec fn insert_one(self, record: DebtView, assigned: Seq<u8>) -> Collection {
        Collection {
            records: self.records.insert(assigned, identified(record, assigned)),
            used: self.used.insert(assigned),
        }
    }

    /// The collection without the record under an identifier. The
    /// identifier stays assigned.
    pub open spec fn delete_one(self, id: Seq<u8>) -> Collection {
        Collection { records: self.records.remove(id), used: self.used }
    }

    /// How many records a deletion under an identifier takes away.
    pub open spec fn deleted_count(self, id: Seq<u8>) -> u64 {
        if self.records.contains_key(id) {
            1
        } else {
            0
        }
    }

    /// The collection with the record under an identifier updated; unchanged
    /// where there is no such record.
    pub open spec fn update_one(self, id: Seq<u8>, set: DebtView) -> Collection {
        if self.records.contains_key(id) {
            Collection {
                records: self.records.insert(id, merged(self.records[id], set)),
                used: self.used,
            }
        } else {
            self
        }
    }
}

/// What becomes of a request that arrives at the instant `now`, over a store
/// that does what it is asked: the collection afterwards, and the response.
pub open spec fn served(
    before: Collection,
    request: RequestView,
    now: DateTime,
    choice: StoreChoice,
) -> (Collection, Result<HttpResponseView, EncodeError>) {
    match step_for(request, now) {
        StepView::Respond { response } => (before, Ok(response)),
        StepView::FindAll { now } => (before, get_all_debts_response(Ok(choice.listing), now)),
        StepView::FindOne { id, now } => (
            before,
            get_debt_by_id_response(Ok(before.find_one(id)), now),
        ),
        StepView::InsertOne { record, now } => (
            before.insert_one(record, choice.assigned),
            add_debt_response(record, Ok(choice.assigned), now),
        ),
        StepView::DeleteOne { id } => (
            before.delete_one(id),
            delete_debt_response(Ok(before.deleted_count(id))),
        ),
        StepView::UpdateOne { id, set } => (
            before.update_one(id, set),
            Ok(update_debt_response(Ok(()))),
        ),
    }
}

/// Whatever the request, the collection is well formed afterwards: every
/// record still holds its identifier and both timestamps.
pub proof fn lemma_served_keeps_records_complete(
    before: Collection,
    request: RequestView,
    now: DateTime,
    choice: StoreChoice,
)
    requires
        before.wf(),
        before.is_new(choice.assigned),
    ensures
        served(before, request, now, choice).0.wf(),
{
}

/// A request leaves no record updated before it was made, unless it is an
/// update that comes before the time of making that the record then has:
/// the one that the client sent, or else the one that the record had.
pub proof fn lemma_served_keeps_times_in_order(
    before: Collection,
    request: RequestView,
    now: DateTime,
    choice: StoreChoice,
)
    requires
        before.wf(),
        before.ordered(),
        before.is_new(choice.assigned),
        match request {
            RequestView::UpdateDebt { id, form } => before.records.contains_key(object_id_bytes(id))
                ==> match form.created_at {
                Some(made) => made.millis <= now.millis,
                None => before.records[object_id_bytes(id)].created_at.unwrap().millis
                    <= now.millis,
            },
            _ => true,
        },
    ensures
        served(before, request, now, choice).0.ordered(),
{
}

/// A request to make a record adds one record and touches no other: the
/// identifier that the store assigns was not in use, the record stands under
/// it afterwards with the label and the quantity that the client sent and
/// both timestamps at the instant of the request, and every record that was
/// there is there unchanged.
pub proof fn lemma_insertion_adds_one_record(
    before: Collection,
    form: DebtView,
    now: DateTime,
    choice: StoreChoice,
)
    requires
        before.wf(),
        before.is_new(choice.assigned),
    ensures
        ({
            let after = served(before, RequestView::AddDebt { form }, now, choice).0;
            let record = DebtView {
                id: Some(choice.assigned),
                name: form.name,
                amount: form.amount,
                created_at: Some(now),
                updated_at: Some(now),
            };
            &&& !before.records.contains_key(choice.assigned)
            &&& after.records == before.records.insert(choice.assigned, record)
            &&& after.len() == before.len() + 1
            &&& forall|id: Seq<u8>| #[trigger]
                before.records.contains_key(id) ==> after.records.contains_key(id)
                    && after.records[id] == before.records[id]
            &&& forall|id: Seq<u8>| #[trigger]
                after.records.contains_key(id) ==> id == choice.assigned
                    || before.records.contains_key(id)
        }),
{
}

/// The identifier of a deleted record is not assigned again.
pub proof fn lemma_identifier_is_not_reused(
    before: Collection,
    id: Seq<char>,
    now: DateTime,
    choice: StoreChoice,
    later: Seq<u8>,
)
    requires
        before.wf(),
        is_object_id_text(id),
        before.records.contains_key(object_id_bytes(id)),
    ensures
        ({
            let after = served(before, RequestView::DeleteDebt { id }, now, choice).0;
            after.is_new(later) ==> later != object_id_bytes(id)
        }),
{
}

/// A record that is made is found under the identifier that the response to
/// its making shows: that text is the text of the identifier that the store
/// assigned, which was not in use before and is in use after. The record is
/// found with the label and the quantity that the client sent, and with both
/// timestamps at the instant of the request that made it. The two responses
/// show the same record, and fail only where that instant cannot be written.
pub proof fn lemma_created_record_is_found(
    before: Collection,
    form: DebtView,
    now: DateTime,
    choice: StoreChoice,
    later: DateTime,
    later_choice: StoreChoice,
)
    requires
        before.wf(),
        before.is_new(choice.assigned),
    ensures
        ({
            let id = object_id_text(choice.assigned);
            let body = match rfc3339_text(now.millis) {
                Some(instant) => Some(
                    record_json(
                        DebtReturnTypeView {
                            id,
                            name: form.name,
                            amount: form.amount,
                            created_at: instant,
                            updated_at: instant,
                        },
                    ),
                ),
                None => None,
            };
            let (after, made) = served(before, RequestView::AddDebt { form }, now, choice);
            let (last, got) = served(after, RequestView::GetDebtById { id }, later, later_choice);
            &&& is_object_id_text(id) && object_id_bytes(id) == choice.assigned
            &&& !before.records.contains_key(choice.assigned)
            &&& after.records.contains_key(choice.assigned)
            &&& made == json_response_of(CREATED, body)
            &&& got == json_response_of(OK, body)
            &&& last == after
        }),
{
    lemma_text_reads_back(choice.assigned);
}

/// A request that names a record by a text that is not that of an identifier
/// is refused as not well formed, and the store is not asked.
pub proof fn lemma_malformed_identifier_is_refused(
    before: Collection,
    id: Seq<char>,
    form: DebtView,
    now: DateTime,
    choice: StoreChoice,
)
    requires
        !is_object_id_text(id),
    ensures
        ({
            let refused = StepView::Respond { response: invalid_id_response() };
            let unchanged = (before, Ok::<HttpResponseView, EncodeError>(invalid_id_response()));
            &&& step_for(RequestView::GetDebtById { id }, now) == refused
            &&& step_for(RequestView::DeleteDebt { id }, now) == refused
            &&& step_for(RequestView::UpdateDebt { id, form }, now) == refused
            &&& served(before, RequestView::GetDebtById { id }, now, choice) == unchanged
            &&& served(before, RequestView::DeleteDebt { id }, now, choice) == unchanged
            &&& served(before, RequestView::UpdateDebt { id, form }, now, choice) == unchanged
        }),
{
}

/// Over a collection without records, the request for all records is answered
/// with the empty array.
pub proof fn lemma_empty_collection_lists_nothing(
    before: Collection,
    now: DateTime,
    choice: StoreChoice,
)
    requires
        forall|id: Seq<u8>| !before.records.contains_key(id),
        before.lists(choice.listing),
    ensures
        served(before, RequestView::GetAllDebts, now, choice) == (
            before,
            Ok::<HttpResponseView, EncodeError>(json_response(OK, "[]"@)),
        ),
{
    if choice.listing.len() > 0 {
        assert(before.find_one(choice.listing[0].id.unwrap()) == Some(choice.listing[0]));
    }
    assert(choice.listing.map_values(|debt: DebtView| shown_json(debt, now).unwrap()) =~= Seq::<
        Seq<char>,
    >::empty());
    lemma_empty_array();
}

/// A request for the record under an identifier that no record stands under
/// is answered with "not found".
pub proof fn lemma_missing_record_is_not_found(
    before: Collection,
    id: Seq<char>,
    now: DateTime,
    choice: StoreChoice,
)
    requires
        is_object_id_text(id),
        !before.records.contains_key(object_id_bytes(id)),
    ensures
        served(before, RequestView::GetDebtById { id }, now, choice) == (
            before,
            Ok::<HttpResponseView, EncodeError>(not_found_response()),
        ),
{
}

/// After an update, the record is found with every field that the client
/// sent, but for the identifier, which stays whatever the client sent: the
/// label, the quantity, and the time of making if the client sent one. The
/// time of the update is the instant of the request, which is later than the
/// time of the update before it where the clock has moved on since.
pub proof fn lemma_updated_record_is_found(
    before: Collection,
    id: Seq<char>,
    form: DebtView,
    now: DateTime,
    choice: StoreChoice,
    later: DateTime,
    later_choice: StoreChoice,
)
    requires
        before.wf(),
        is_object_id_text(id),
        before.records.contains_key(object_id_bytes(id)),
        before.records[object_id_bytes(id)].updated_at.unwrap().millis < now.millis,
    ensures
        ({
            let stored = before.records[object_id_bytes(id)];
            let record = DebtView {
                id: Some(object_id_bytes(id)),
                name: form.name,
                amount: form.amount,
                created_at: if form.created_at is Some {
                    form.created_at
                } else {
                    stored.created_at
                },
                updated_at: Some(now),
            };
            let (after, updated) = served(
                before,
                RequestView::UpdateDebt { id, form },
                now,
                choice,
            );
            let (_, got) = served(after, RequestView::GetDebtById { id }, later, later_choice);
            &&& updated == Ok::<HttpResponseView, EncodeError>(update_debt_response(Ok(())))
            &&& after.find_one(object_id_bytes(id)) == Some(record)
            &&& got == json_response_of(OK, shown_json(record, later))
            &&& stored.updated_at.unwrap().millis < record.updated_at.unwrap().millis
            &&& after.len() == before.len()
        }),
{
    let key = object_id_bytes(id);
    assert(before.records.dom().insert(key) =~= before.records.dom());
}

/// After the deletion of a record, a request for it is answered with "not
/// found". The deletion itself is answered with the count of one.
pub proof fn lemma_deleted_record_is_gone(
    before: Collection,
    id: Seq<char>,
    now: DateTime,
    choice: StoreChoice,
    later: DateTime,
    later_choice: StoreChoice,
)
    requires
        is_object_id_text(id),
        before.records.contains_key(object_id_bytes(id)),
    ensures
        ({
            let (after, deleted) = served(before, RequestView::DeleteDebt { id }, now, choice);
            let (last, got) = served(after, RequestView::GetDebtById { id }, later, later_choice);
            &&& deleted == json_response_of(OK, delete_result_json(1))
            &&& deleted matches Ok(response) && response.status == OK
            &&& got == Ok::<HttpResponseView, EncodeError>(not_found_response())
            &&& last == after
        }),
{
}

/// The deletion of a record that is not there succeeds all the same: it is
/// answered with the count of none, and the collection stays as it was.
pub proof fn lemma_deleting_nothing_succeeds(
    before: Collection,
    id: Seq<char>,
    now: DateTime,
    choice: StoreChoice,
)
    requires
        is_object_id_text(id),
        !before.records.contains_key(object_id_bytes(id)),
    ensures
        ({
            let (after, deleted) = served(before, RequestView::DeleteDebt { id }, now, choice);
            &&& deleted == json_response_of(OK, delete_result_json(0))
            &&& deleted matches Ok(response) && response.status == OK
            &&& after.records == before.records
            &&& after.used == before.used
        }),
{
    assert(before.records.remove(object_id_bytes(id)) =~= before.records);
}

} // verus!
