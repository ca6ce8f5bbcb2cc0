//! The five operations on debt records: what each asks of the store, and the
//! response it gives for what the store answers.

use crate::error::{encoded, EncodeError};
use crate::models::datetime::{into_valid_datetime, valid_datetime_text, DateTime};
use crate::models::debt::{Debt, DebtView};
use crate::models::oid::{is_object_id_text, object_id_bytes, object_id_text, ObjectId};
use crate::routes::json::{
    array_text, decimal, delete_result_json, encode_delete_result, encode_string, json_array,
    json_string, lemma_empty_array, push_integer, texts,
};
use crate::routes::response::{
    json_response, json_response_of, respond_json, respond_text, responded, text_response,
    HttpResponse, HttpResponseView, BAD_REQUEST, CREATED, INTERNAL_SERVER_ERROR, NOT_FOUND, OK,
};
use vstd::prelude::*;
use vstd::string::*;

verus! {

/// A record as a response shows it: the identifier and the timestamps as text.
#[derive(Clone, Debug, PartialEq, Eq)]
pub struct DebtReturnType {
    pub id: String,
    pub name: String,
    pub amount: isize,
    pub created_at: String,
    pub updated_at: String,
}

/// A shown record as plain values.
pub struct DebtReturnTypeView {
    pub id: Seq<char>,
    pub name: Seq<char>,
    pub amount: int,
    pub created_at: Seq<char>,
    pub updated_at: Seq<char>,
}

impl View for DebtReturnType {
    type V = DebtReturnTypeView;

    open spec fn view(&self) -> DebtReturnTypeView {
        DebtReturnTypeView {
            id: self.id@,
            name: self.name@,
            amount: self.amount as int,
            created_at: self.created_at@,
            updated_at: self.updated_at@,
        }
    }
}

/// How a stored record is shown: the identifier in hexadecimal, the label and
/// the quantity as they are, each timestamp in RFC 3339, with `now` standing
/// in for a timestamp that the record lacks. `None` where a timestamp cannot
/// be written.
pub open spec fn shown(debt: DebtView, now: DateTime) -> Option<DebtReturnTypeView>
    recommends
        debt.id is Some,
{
    match (valid_datetime_text(debt.created_at, now), valid_datetime_text(debt.updated_at, now)) {
        (Some(created_at), Some(updated_at)) => Some(
            DebtReturnTypeView {
                id: object_id_text(debt.id.unwrap()),
                name: debt.name,
                amount: debt.amount,
                created_at,
                updated_at,
            },
        ),
        _ => None,
    }
}

/// A shown record as plain values, or `None` for the error in its place.
pub open spec fn shown_of(r: Result<DebtReturnType, EncodeError>) -> Option<DebtReturnTypeView> {
    match r {
        Ok(record) => Some(record@),
        Err(_) => None,
    }
}

/// The JSON object of a shown record, from the JSON texts of its fields: the
/// five fields under their outward names, in this order and without white
/// space.
pub open spec fn record_object_text(
    id: Seq<char>,
    name: Seq<char>,
    amount: int,
    created_at: Seq<char>,
    updated_at: Seq<char>,
) -> Seq<char> {
    "{\"_id\":"@ + id + ",\"name\":"@ + name + ",\"amount\":"@ + decimal(amount)
        + ",\"createdAt\":"@ + created_at + ",\"updatedAt\":"@ + updated_at + "}"@
}

/// The JSON object of a shown record.
pub open spec fn record_json(r: DebtReturnTypeView) -> Seq<char> {
    record_object_text(
        json_string(r.id),
        json_string(r.name),
        r.amount,
        json_string(r.created_at),
        json_string(r.updated_at),
    )
}

/// The JSON object of a stored record as it is shown. `None` where a
/// timestamp cannot be written.
pub open spec fn shown_json(debt: DebtView, now: DateTime) -> Option<Seq<char>> {
    match shown(debt, now) {
        Some(record) => Some(record_json(record)),
        None => None,
    }
}

/// Writes the JSON object of a shown record from the JSON texts of its
/// identifier, label and timestamps, and from its quantity.
pub fn record_object(id: &str, name: &str, amount: isize, created_at: &str, updated_at: &str) -> (r:
    String)
    ensures
        r@ == record_object_text(id@, name@, amount as int, created_at@, updated_at@),
{
    let mut out = String::from_str("{\"_id\":");
    out.append(id);
    out.append(",\"name\":");
    out.append(name);
    out.append(",\"amount\":");
    push_integer(&mut out, amount);
    out.append(",\"createdAt\":");
    out.append(created_at);
    out.append(",\"updatedAt\":");
    out.append(updated_at);
    out.append("}");
    out
}

impl DebtReturnType {
    /// Shows a stored record. Fails where a timestamp cannot be written.
    pub fn from_debt(debt: &Debt, now: DateTime) -> (r: Result<DebtReturnType, EncodeError>)
        requires
            debt.id is Some,
        ensures
            shown_of(r) == shown(debt@, now),
    {
        let id = match &debt.id {
            Some(id) => id.to_hex(),
            None => String::new(),
        };
        let created_at = match into_valid_datetime(debt.created_at, now) {
            Ok(text) => text,
            Err(e) => { return Err(e); },
        };
        let updated_at = match into_valid_datetime(debt.updated_at, now) {
            Ok(text) => text,
            Err(e) => { return Err(e); },
        };
        Ok(DebtReturnType { id, name: debt.name.clone(), amount: debt.amount, created_at, updated_at })
    }

    /// Writes the shown record as a JSON object.
    pub fn to_json(&self) -> (r: String)
        ensures
            r@ == record_json(self@),
    {
        let id = encode_string(self.id.as_str());
        let name = encode_string(self.name.as_str());
        let created_at = encode_string(self.created_at.as_str());
        let updated_at = encode_string(self.updated_at.as_str());
        record_object(
            id.as_str(),
            name.as_str(),
            self.amount,
            created_at.as_str(),
            updated_at.as_str(),
        )
    }
}

/// A request, as the server hands it over: the operation, with the
/// identifier from the path and the record from the body where it has them.
#[derive(Clone, Debug, PartialEq, Eq)]
pub enum Request {
    GetAllDebts,
    GetDebtById { id: String },
    AddDebt { form: Debt },
    DeleteDebt { id: String },
    UpdateDebt { id: String, form: Debt },
}

/// A request as plain values.
pub enum RequestView {
    GetAllDebts,
    GetDebtById { id: Seq<char> },
    AddDebt { form: DebtView },
    DeleteDebt { id: Seq<char> },
    UpdateDebt { id: Seq<char>, form: DebtView },
}

impl View for Request {
    type V = RequestView;

    open spec fn view(&self) -> RequestView {
        match *self {
            Request::GetAllDebts => RequestView::GetAllDebts,
            Request::GetDebtById { id } => RequestView::GetDebtById { id: id@ },
            Request::AddDebt { form } => RequestView::AddDebt { form: form@ },
            Request::DeleteDebt { id } => RequestView::DeleteDebt { id: id@ },
            Request::UpdateDebt { id, form } => RequestView::UpdateDebt { id: id@, form: form@ },
        }
    }
}

/// What is to be done for a request: answer it at once, or ask the store and
/// answer with what it says. A step that asks the store carries what the
/// answer to the client will be made from.
#[derive(Clone, Debug, PartialEq, Eq)]
pub enum Step {
    /// Answer without asking the store.
    Respond { response: HttpResponse },
    /// Find every record, reading them with `get_all_debts_read`; answer
    /// with `get_all_debts_found`.
    FindAll { now: DateTime },
    /// Find the record under `id`; answer with `get_debt_by_id_found`.
    FindOne { id: ObjectId, now: DateTime },
    /// Insert `record`; answer with `add_debt_inserted`.
    InsertOne { record: Debt, now: DateTime },
    /// Delete the record under `id`; answer with `delete_debt_done`.
    DeleteOne { id: ObjectId },
    /// Replace, in the record under `id`, each field that `set` holds;
    /// answer with `update_debt_done`.
    UpdateOne { id: ObjectId, set: Debt },
}

/// A step as plain values.
pub enum StepView {
    Respond { response: HttpResponseView },
    FindAll { now: DateTime },
    FindOne { id: Seq<u8>, now: DateTime },
    InsertOne { record: DebtView, now: DateTime },
    DeleteOne { id: Seq<u8> },
    UpdateOne { id: Seq<u8>, set: DebtView },
}

impl View for Step {
    type V = StepView;

    open spec fn view(&self) -> StepView {
        match *self {
            Step::Respond { response } => StepView::Respond { response: response@ },
            Step::FindAll { now } => StepView::FindAll { now },
            Step::FindOne { id, now } => StepView::FindOne { id: id@, now },
            Step::InsertOne { record, now } => StepView::InsertOne { record: record@, now },
            Step::DeleteOne { id } => StepView::DeleteOne { id: id@ },
            Step::UpdateOne { id, set } => StepView::UpdateOne { id: id@, set: set@ },
        }
    }
}

/// The response to a request whose identifier is not the text of one.
pub open spec fn invalid_id_response() -> HttpResponseView {
    text_response(BAD_REQUEST, "Invalid ID"@)
}

/// The step for a request for the record under an identifier: the request is
/// refused where the text is not that of an identifier, and the store is
/// asked for the record otherwise.
pub open spec fn get_debt_by_id_step(id: Seq<char>, now: DateTime) -> StepView {
    if is_object_id_text(id) {
        StepView::FindOne { id: object_id_bytes(id), now }
    } else {
        StepView::Respond { response: invalid_id_response() }
    }
}

/// The record that is handed to the store for a record as a client sent it:
/// without an identifier, which the store is to assign, and with both
/// timestamps at the instant of the request, whatever the client sent in
/// their place.
pub open spec fn created(form: DebtView, now: DateTime) -> DebtView {
    DebtView { id: None, created_at: Some(now), updated_at: Some(now), ..form }
}

/// The step for a request to make a record.
pub open spec fn add_debt_step(form: DebtView, now: DateTime) -> StepView {
    StepView::InsertOne { record: created(form, now), now }
}

/// The step for a request to delete the record under an identifier.
pub open spec fn delete_debt_step(id: Seq<char>) -> StepView {
    if is_object_id_text(id) {
        StepView::DeleteOne { id: object_id_bytes(id) }
    } else {
        StepView::Respond { response: invalid_id_response() }
    }
}

/// The fields that an update sets: those of the record as the client sent
/// it, but for the identifier, which no update touches, and with the instant
/// of the request as the time of the update, whatever the client sent in its
/// place.
pub open spec fn updated(form: DebtView, now: DateTime) -> DebtView {
    DebtView { id: None, updated_at: Some(now), ..form }
}

/// The step for a request to update the record under an identifier.
pub open spec fn update_debt_step(id: Seq<char>, form: DebtView, now: DateTime) -> StepView {
    if is_object_id_text(id) {
        StepView::UpdateOne { id: object_id_bytes(id), set: updated(form, now) }
    } else {
        StepView::Respond { response: invalid_id_response() }
    }
}

/// The step for a request that arrives at the instant `now`.
pub open spec fn step_for(request: RequestView, now: DateTime) -> StepView {
    match request {
        RequestView::GetAllDebts => StepView::FindAll { now },
        RequestView::GetDebtById { id } => get_debt_by_id_step(id, now),
        RequestView::AddDebt { form } => add_debt_step(form, now),
        RequestView::DeleteDebt { id } => delete_debt_step(id),
        RequestView::UpdateDebt { id, form } => update_debt_step(id, form, now),
    }
}

fn invalid_id() -> (r: Step)
    ensures
        r@ == (StepView::Respond { response: invalid_id_response() }),
{
    Step::Respond { response: respond_text(BAD_REQUEST, "Invalid ID") }
}

/// Begins a request for the record under an identifier.
pub fn get_debt_by_id(id: &str, now: DateTime) -> (step: Step)
    ensures
        step@ == get_debt_by_id_step(id@, now),
        !is_object_id_text(id@) ==> step@ == (StepView::Respond { response: invalid_id_response() }),
{
    match ObjectId::parse_str(id) {
        Some(id) => Step::FindOne { id, now },
        None => invalid_id(),
    }
}

/// Begins a request to make a record.
pub fn add_debt(form: Debt, now: DateTime) -> (step: Step)
    ensures
        step@ == add_debt_step(form@, now),
{
    Step::InsertOne {
        record: Debt { id: None, created_at: Some(now), updated_at: Some(now), ..form },
        now,
    }
}

/// Begins a request to delete the record under an identifier.
pub fn delete_debt(id: &str) -> (step: Step)
    ensures
        step@ == delete_debt_step(id@),
        !is_object_id_text(id@) ==> step@ == (StepView::Respond { response: invalid_id_response() }),
{
    match ObjectId::parse_str(id) {
        Some(id) => Step::DeleteOne { id },
        None => invalid_id(),
    }
}

/// Begins a request to update the record under an identifier.
pub fn update_debt(id: &str, form: Debt, now: DateTime) -> (step: Step)
    ensures
        step@ == update_debt_step(id@, form@, now),
        !is_object_id_text(id@) ==> step@ == (StepView::Respond { response: invalid_id_response() }),
{
    match ObjectId::parse_str(id) {
        Some(id) => Step::UpdateOne {
            id,
            set: Debt { id: None, updated_at: Some(now), ..form },
        },
        None => invalid_id(),
    }
}

/// Begins a request that arrives at the instant `now`.
pub fn start_at(request: Request, now: DateTime) -> (step: Step)
    ensures
        step@ == step_for(request@, now),
{
    match request {
        Request::GetAllDebts => Step::FindAll { now },
        Request::GetDebtById { id } => get_debt_by_id(id.as_str(), now),
        Request::AddDebt { form } => add_debt(form, now),
        Request::DeleteDebt { id } => delete_debt(id.as_str()),
        Request::UpdateDebt { id, form } => update_debt(id.as_str(), form, now),
    }
}

/// The request names a record by a text that is not that of an identifier.
pub open spec fn names_malformed_id(request: RequestView) -> bool {
    match request {
        RequestView::GetAllDebts => false,
        RequestView::GetDebtById { id } => !is_object_id_text(id),
        RequestView::AddDebt { form } => false,
        RequestView::DeleteDebt { id } => !is_object_id_text(id),
        RequestView::UpdateDebt { id, form } => !is_object_id_text(id),
    }
}

/// Begins a request at the instant that the clock shows. Whatever that
/// instant is, the step is the one that `step_for` gives for it; so a request
/// that names a record by a malformed identifier is refused, and the store is
/// not asked.
pub fn start(request: Request) -> (step: Step)
    ensures
        exists|now: DateTime| step@ == #[trigger] step_for(request@, now),
        names_malformed_id(request@) ==> step@ == (StepView::Respond {
            response: invalid_id_response(),
        }),
{
    let now = DateTime::now();
    start_at(request, now)
}

/// What is to be done with what the store hands out while it is read for all
/// records.
#[derive(Clone, Debug, PartialEq, Eq)]
pub enum ReadStep {
    /// The store handed out a record: keep it and read on.
    Push { record: Debt },
    /// The store has no more records: the reading is done.
    Done,
    /// The store failed: the reading has failed, whatever was read before.
    Fail { description: String },
}

/// Decides what to do with what the store hands out while it is read for all
/// records: a record, the end of the records, or a failure. A failure in the
/// middle of the reading makes the whole reading fail.
pub fn get_all_debts_read(event: Result<Option<Debt>, String>) -> (next: ReadStep)
    ensures
        event matches Ok(Some(record)) ==> next == (ReadStep::Push { record }),
        event matches Ok(None) ==> next == ReadStep::Done,
        event matches Err(description) ==> next == (ReadStep::Fail { description }),
{
    match event {
        Ok(Some(record)) => ReadStep::Push { record },
        Ok(None) => ReadStep::Done,
        Err(description) => ReadStep::Fail { description },
    }
}

/// The records that a sequence of stored records stands for.
pub open spec fn debt_views(found: Seq<Debt>) -> Seq<DebtView> {
    found.map_values(|debt: Debt| debt@)
}

/// Every record of the sequence has an identifier.
pub open spec fn all_identified(found: Seq<Debt>) -> bool {
    forall|i: int| 0 <= i < found.len() ==> (#[trigger] found[i]).id is Some
}

/// Every record of the sequence can be shown.
pub open spec fn all_shown(found: Seq<DebtView>, now: DateTime) -> bool {
    forall|i: int| 0 <= i < found.len() ==> shown(#[trigger] found[i], now) is Some
}

/// The JSON array of the stored records as they are shown, in the order
/// given. `None` where a timestamp of one of them cannot be written.
pub open spec fn records_json(found: Seq<DebtView>, now: DateTime) -> Option<Seq<char>> {
    if all_shown(found, now) {
        Some(array_text(found.map_values(|debt: DebtView| shown_json(debt, now).unwrap())))
    } else {
        None
    }
}

/// The JSON object that carries a description, given as JSON text already.
pub open spec fn error_object_text(description: Seq<char>) -> Seq<char> {
    "{\"error\": "@ + description + "}"@
}

/// The response when there is no record under the identifier.
pub open spec fn not_found_response() -> HttpResponseView {
    text_response(NOT_FOUND, "Not found."@)
}

/// The response when the store failed: the description of the failure in a
/// JSON object.
pub open spec fn store_failure_response(description: Seq<char>) -> HttpResponseView {
    json_response(INTERNAL_SERVER_ERROR, error_object_text(json_string(description)))
}

/// Writes the JSON object that carries a description, given as JSON text
/// already.
pub fn error_object(description: &str) -> (r: String)
    ensures
        r@ == error_object_text(description@),
{
    let mut out = String::from_str("{\"error\": ");
    out.append(description);
    out.append("}");
    out
}

/// Makes the response to a failure of the store.
pub fn store_failure(description: &str) -> (r: HttpResponse)
    ensures
        r@ == store_failure_response(description@),
{
    let text = encode_string(description);
    respond_json(INTERNAL_SERVER_ERROR, error_object(text.as_str()))
}

/// What a sequence of records found by the store is answered with: the JSON
/// array of the shown records; or the failure of the store.
pub open spec fn get_all_debts_response(
    outcome: Result<Seq<DebtView>, Seq<char>>,
    now: DateTime,
) -> Result<HttpResponseView, EncodeError> {
    match outcome {
        Ok(found) => json_response_of(OK, records_json(found, now)),
        Err(description) => Ok(store_failure_response(description)),
    }
}

/// Writes the records that the store found as a JSON array of shown records.
fn encode_records(found: &Vec<Debt>, now: DateTime) -> (r: Result<String, EncodeError>)
    requires
        all_identified(found@),
    ensures
        encoded(r) == records_json(debt_views(found@), now),
        found@.len() == 0 ==> encoded(r) == Some("[]"@),
{
    let ghost records = debt_views(found@);
    let mut items: Vec<String> = Vec::new();
    let mut i: usize = 0;
    while i < found.len()
        invariant
            i <= found.len(),
            all_identified(found@),
            records == debt_views(found@),
            items@.len() == i,
            forall|j: int| 0 <= j < i ==> shown_json(#[trigger] records[j], now) == Some(items@[j]@),
        decreases found.len() - i,
    {
        assert(records[i as int] == found@[i as int]@);
        match DebtReturnType::from_debt(&found[i], now) {
            Ok(shown_record) => {
                items.push(shown_record.to_json());
            },
            Err(e) => {
                return Err(e);
            },
        }
        i += 1;
    }
    proof {
        assert(texts(items@) =~= records.map_values(
            |debt: DebtView| shown_json(debt, now).unwrap(),
        ));
        if found@.len() == 0 {
            assert(texts(items@) =~= Seq::<Seq<char>>::empty());
            lemma_empty_array();
        }
    }
    Ok(json_array(&items))
}

/// The response to a request for all records, for what the store found. The
/// records stand in the array in the order in which the store gave them; where
/// it found none, the body is the empty array. Fails where a timestamp of
/// a record cannot be written.
pub fn get_all_debts_found(outcome: Result<Vec<Debt>, String>, now: DateTime) -> (r: Result<
    HttpResponse,
    EncodeError,
>)
    requires
        outcome matches Ok(found) ==> all_identified(found@),
    ensures
        responded(r) == get_all_debts_response(
            match outcome {
                Ok(found) => Ok(debt_views(found@)),
                Err(description) => Err(description@),
            },
            now,
        ),
        outcome matches Ok(found) && found@.len() == 0 ==> responded(r) == Ok::<
            HttpResponseView,
            EncodeError,
        >(json_response(OK, "[]"@)),
{
    match outcome {
        Ok(found) => match encode_records(&found, now) {
            Ok(body) => Ok(respond_json(OK, body)),
            Err(e) => Err(e),
        },
        Err(description) => Ok(store_failure(description.as_str())),
    }
}

/// What a record found by the store, or its absence, is answered with.
pub open spec fn get_debt_by_id_response(
    outcome: Result<Option<DebtView>, Seq<char>>,
    now: DateTime,
) -> Result<HttpResponseView, EncodeError> {
    match outcome {
        Ok(Some(debt)) => json_response_of(OK, shown_json(debt, now)),
        Ok(None) => Ok(not_found_response()),
        Err(description) => Ok(store_failure_response(description)),
    }
}

/// Makes the response that shows a stored record.
fn respond_record(status: u16, debt: &Debt, now: DateTime) -> (r: Result<
    HttpResponse,
    EncodeError,
>)
    requires
        debt.id is Some,
    ensures
        responded(r) == json_response_of(status, shown_json(debt@, now)),
{
    match DebtReturnType::from_debt(debt, now) {
        Ok(shown_record) => Ok(respond_json(status, shown_record.to_json())),
        Err(e) => Err(e),
    }
}

/// The response to a request for one record, for what the store found under
/// the identifier. Fails where a timestamp of the record cannot be written.
pub fn get_debt_by_id_found(outcome: Result<Option<Debt>, String>, now: DateTime) -> (r: Result<
    HttpResponse,
    EncodeError,
>)
    requires
        outcome matches Ok(Some(debt)) ==> debt.id is Some,
    ensures
        responded(r) == get_debt_by_id_response(
            match outcome {
                Ok(Some(debt)) => Ok(Some(debt@)),
                Ok(None) => Ok(None),
                Err(description) => Err(description@),
            },
            now,
        ),
{
    match outcome {
        Ok(Some(debt)) => respond_record(OK, &debt, now),
        Ok(None) => Ok(respond_text(NOT_FOUND, "Not found.")),
        Err(description) => Ok(store_failure(description.as_str())),
    }
}

/// A record under the identifier that the store assigned to it.
pub open spec fn identified(record: DebtView, id: Seq<u8>) -> DebtView {
    DebtView { id: Some(id), ..record }
}

/// What the store's answer to an insertion is answered with: the record as
/// it was stored, under the identifier that the store assigned.
pub open spec fn add_debt_response(
    record: DebtView,
    outcome: Result<Seq<u8>, Seq<char>>,
    now: DateTime,
) -> Result<HttpResponseView, EncodeError> {
    match outcome {
        Ok(id) => json_response_of(CREATED, shown_json(identified(record, id), now)),
        Err(description) => Ok(store_failure_response(description)),
    }
}

/// The response to a request to make a record, for the store's answer to
/// the insertion of `record`. Fails where a timestamp of the record cannot be
/// written.
pub fn add_debt_inserted(record: Debt, outcome: Result<ObjectId, String>, now: DateTime) -> (r:
    Result<HttpResponse, EncodeError>)
    ensures
        responded(r) == add_debt_response(
            record@,
            match outcome {
                Ok(id) => Ok(id@),
                Err(description) => Err(description@),
            },
            now,
        ),
{
    match outcome {
        Ok(id) => {
            let stored = Debt { id: Some(id), ..record };
            respond_record(CREATED, &stored, now)
        },
        Err(description) => Ok(store_failure(description.as_str())),
    }
}

/// What the store's answer to a deletion is answered with: the count of
/// records that it deleted, were it none.
pub open spec fn delete_debt_response(outcome: Result<u64, Seq<char>>) -> Result<
    HttpResponseView,
    EncodeError,
> {
    match outcome {
        Ok(deleted_count) => json_response_of(OK, delete_result_json(deleted_count)),
        Err(description) => Ok(store_failure_response(description)),
    }
}

/// The response to a request to delete a record, for the store's answer.
/// Fails where the count cannot be written.
pub fn delete_debt_done(outcome: Result<u64, String>) -> (r: Result<HttpResponse, EncodeError>)
    ensures
        responded(r) == delete_debt_response(
            match outcome {
                Ok(deleted_count) => Ok(deleted_count),
                Err(description) => Err(description@),
            },
        ),
{
    match outcome {
        Ok(deleted_count) => match encode_delete_result(deleted_count) {
            Ok(body) => Ok(respond_json(OK, body)),
            Err(e) => Err(e),
        },
        Err(description) => Ok(store_failure(description.as_str())),
    }
}

/// What the store's answer to an update is answered with: an acknowledgment,
/// whether or not a record was there to update.
pub open spec fn update_debt_response(outcome: Result<(), Seq<char>>) -> HttpResponseView {
    match outcome {
        Ok(_) => text_response(OK, "updated"@),
        Err(description) => store_failure_response(description),
    }
}

/// The response to a request to update a record, for the store's answer.
pub fn update_debt_done(outcome: Result<(), String>) -> (r: HttpResponse)
    ensures
        r@ == update_debt_response(
            match outcome {
                Ok(_) => Ok(()),
                Err(description) => Err(description@),
            },
        ),
{
    match outcome {
        Ok(_) => respond_text(OK, "updated"),
        Err(description) => store_failure(description.as_str()),
    }
}

} // verus!
