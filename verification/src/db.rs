//! The storage layer: what is sent to the document backend for each
//! operation on plans, and what its answer means.
//!
//! The backend itself is reached by the caller. For every operation this
//! module builds the documents to send and reads the reply, so that the
//! caller only carries them to the collection named by [`PLANS_COLLECTION`]
//! and back.

use crate::document::{
    bson_document, bson_object_id, bson_string, bson_value, document_fields, hex_bytes, hex_text,
    is_object_id_text, Element, Fields,
};
use crate::error::PlanError;
use crate::models::{text_of, PatchPlan, PatchPlanView, Plan, PlanView};
use bson::oid::ObjectId;
use bson::{Bson, Document};
use vstd::prelude::*;

verus! {

/// The name of the collection that holds the plans.
pub const PLANS_COLLECTION: &'static str = "plans";

/// The backend did not carry out an operation.
#[derive(Debug, Clone, Copy, PartialEq, Eq)]
pub struct BackendFailure;

/// `fields` with `text` under `key`, where there is a text to set.
pub open spec fn with_text(fields: Fields, key: Seq<char>, text: Option<Seq<char>>) -> Fields {
    match text {
        Some(t) => fields.insert(key, Element::Text(t)),
        None => fields,
    }
}

/// The fields of the document that stores a new plan: the four that a caller
/// sets. The identifier is not among them, the backend assigns it.
pub open spec fn plan_fields(plan: PlanView) -> Fields {
    Fields::empty().insert("adaptation_id"@, Element::Text(plan.adaptation_id)).insert(
        "end"@,
        Element::Text(plan.end),
    ).insert("name"@, Element::Text(plan.name)).insert("start"@, Element::Text(plan.start))
}

/// The fields that a partial update sets: those that it holds, no others.
pub open spec fn patch_fields(patch: PatchPlanView) -> Fields {
    with_text(
        with_text(
            with_text(
                with_text(Fields::empty(), "adaptation_id"@, patch.adaptation_id),
                "end"@,
                patch.end,
            ),
            "name"@,
            patch.name,
        ),
        "start"@,
        patch.start,
    )
}

/// The fields of the update document for a partial update: its fields under
/// the `$set` operator.
pub open spec fn update_fields(patch: PatchPlanView) -> Fields {
    Fields::empty().insert("$set"@, Element::Nested(patch_fields(patch)))
}

/// The fields of the filter that selects the document with identifier `id`.
pub open spec fn filter_fields(id: Seq<u8>) -> Fields {
    Fields::empty().insert("_id"@, Element::Id(id))
}

/// The text under `key`, where the field is there and holds a string.
pub open spec fn text_field(fields: Fields, key: Seq<char>) -> Option<Seq<char>> {
    if fields.contains_key(key) {
        match fields[key] {
            Element::Text(text) => Some(text),
            _ => None,
        }
    } else {
        None
    }
}

/// The identifier under `key`, where the field is there and holds one.
pub open spec fn id_field(fields: Fields, key: Seq<char>) -> Option<Seq<u8>> {
    if fields.contains_key(key) {
        match fields[key] {
            Element::Id(id) => Some(id),
            _ => None,
        }
    } else {
        None
    }
}

/// The plan that a stored document holds: its four string fields, and its
/// identifier in lower-case hexadecimal digits. There is none where one of
/// the five is missing or holds another kind of value.
pub open spec fn decoded(fields: Fields) -> Option<PlanView> {
    match (
        text_field(fields, "adaptation_id"@),
        text_field(fields, "end"@),
        id_field(fields, "_id"@),
        text_field(fields, "name"@),
        text_field(fields, "start"@),
    ) {
        (Some(adaptation_id), Some(end), Some(id), Some(name), Some(start)) => Some(
            PlanView { adaptation_id, end, id: hex_text(id), name, start },
        ),
        _ => None,
    }
}

/// The plan as it is once stored under the identifier `id`.
pub open spec fn created(plan: PlanView, id: Seq<u8>) -> PlanView {
    PlanView { id: hex_text(id), ..plan }
}

/// What the creation of `plan` returns where the backend reports `inserted`
/// as the new document's identifier: the plan as created, or `InvalidId`
/// where it reports nothing or a value that is no identifier.
pub open spec fn inserted_plan(plan: PlanView, inserted: Option<Element>) -> Result<
    PlanView,
    PlanError,
> {
    match inserted {
        Some(Element::Id(id)) => Ok(created(plan, id)),
        _ => Err(PlanError::InvalidId),
    }
}

/// What a lookup returns where the backend found `found`: the plan that the
/// document holds, `Corrupt` where it holds none, `NotFound` where no
/// document matched.
pub open spec fn found_plan(found: Option<Fields>) -> Result<PlanView, PlanError> {
    match found {
        Some(fields) => match decoded(fields) {
            Some(plan) => Ok(plan),
            None => Err(PlanError::Corrupt),
        },
        None => Err(PlanError::NotFound),
    }
}

/// A plan, or the error in its place, by the plan's view.
pub open spec fn plan_outcome(outcome: Result<Plan, PlanError>) -> Result<PlanView, PlanError> {
    match outcome {
        Ok(plan) => Ok(plan@),
        Err(error) => Err(error),
    }
}

/// The fields of the document that the backend answered with, if any.
pub open spec fn fields_of(reply: Option<Document>) -> Option<Fields> {
    match reply {
        Some(document) => Some(document_fields(document)),
        None => None,
    }
}

/// The value that the backend answered with, if any.
pub open spec fn value_of(reply: Option<Bson>) -> Option<Element> {
    match reply {
        Some(value) => Some(bson_value(value)),
        None => None,
    }
}

/// The document that stores a new plan. It holds the four fields that a
/// caller sets and never the plan's `id`.
pub fn plan_document(plan: &Plan) -> (document: Document)
    ensures
        document_fields(document) == plan_fields(plan@),
{
    let mut document = Document::new();
    let _ = document.insert_bson(
        "adaptation_id".to_owned(),
        bson_string(plan.adaptation_id.clone()),
    );
    let _ = document.insert_bson("end".to_owned(), bson_string(plan.end.clone()));
    let _ = document.insert_bson("name".to_owned(), bson_string(plan.name.clone()));
    let _ = document.insert_bson("start".to_owned(), bson_string(plan.start.clone()));
    document
}

/// The filter that selects the plan with the identifier `id`, or
/// `InvalidId` where `id` is not twenty-four hexadecimal digits.
pub fn plan_filter(id: &str) -> (filter: Result<Document, PlanError>)
    ensures
        is_object_id_text(id@) ==> filter is Ok && document_fields(filter.unwrap())
            == filter_fields(hex_bytes(id@)),
        !is_object_id_text(id@) ==> filter == Err::<Document, PlanError>(PlanError::InvalidId),
{
    match ObjectId::with_string(id) {
        Ok(object_id) => {
            let mut filter = Document::new();
            let _ = filter.insert_bson("_id".to_owned(), bson_object_id(object_id));
            Ok(filter)
        },
        Err(_) => Err(PlanError::InvalidId),
    }
}

/// The update document for a partial update: under the `$set` operator, the
/// fields that `patch` holds and no others. An update that holds none gives
/// an empty `$set`.
pub fn patch_update(patch: &PatchPlan) -> (update: Document)
    ensures
        document_fields(update) == update_fields(patch@),
{
    let mut props = Document::new();
    if let Some(text) = &patch.adaptation_id {
        let _ = props.insert_bson("adaptation_id".to_owned(), bson_string(text.clone()));
    }
    if let Some(text) = &patch.end {
        let _ = props.insert_bson("end".to_owned(), bson_string(text.clone()));
    }
    if let Some(text) = &patch.name {
        let _ = props.insert_bson("name".to_owned(), bson_string(text.clone()));
    }
    if let Some(text) = &patch.start {
        let _ = props.insert_bson("start".to_owned(), bson_string(text.clone()));
    }
    let mut update = Document::new();
    let _ = update.insert_bson("$set".to_owned(), bson_document(props));
    update
}

/// The string that `document` holds under `key`, if it holds one there.
fn string_field(document: &Document, key: &str) -> (text: Option<String>)
    ensures
        text_of(text) == text_field(document_fields(*document), key@),
{
    match document.get(key) {
        Some(value) => match value.as_str() {
            Some(text) => Some(text.to_owned()),
            None => None,
        },
        None => None,
    }
}

/// The identifier that `document` holds under `key`, in hexadecimal digits,
/// if it holds one there.
fn hex_id_field(document: &Document, key: &str) -> (hex: Option<String>)
    ensures
        match id_field(document_fields(*document), key@) {
            Some(id) => hex is Some && hex.unwrap()@ == hex_text(id),
            None => hex is None,
        },
{
    match document.get(key) {
        Some(value) => match value.as_object_id() {
            Some(id) => Some(id.to_hex()),
            None => None,
        },
        None => None,
    }
}

/// The plan that a stored document holds, or `Corrupt` where the document
/// lacks one of the plan's fields or holds it as another kind of value.
pub fn plan_from_document(document: &Document) -> (plan: Result<Plan, PlanError>)
    ensures
        plan_outcome(plan) == found_plan(Some(document_fields(*document))),
{
    let adaptation_id = string_field(document, "adaptation_id");
    let end = string_field(document, "end");
    let id = hex_id_field(document, "_id");
    let name = string_field(document, "name");
    let start = string_field(document, "start");
    match (adaptation_id, end, id, name, start) {
        (Some(adaptation_id), Some(end), Some(id), Some(name), Some(start)) => Ok(
            Plan { adaptation_id, end, id, name, start },
        ),
        _ => Err(PlanError::Corrupt),
    }
}

/// The views of a list of plans, in its order.
pub open spec fn plan_views(plans: Seq<Plan>) -> Seq<PlanView> {
    plans.map_values(|plan: Plan| plan@)
}

/// The documents that a cursor yielded: the fields of each item that it
/// answered with, in its order, without the items on which it failed.
pub open spec fn answered(items: Seq<Result<Document, BackendFailure>>) -> Seq<Fields> {
    items.filter_map(
        |item: Result<Document, BackendFailure>|
            match item {
                Ok(document) => Some(document_fields(document)),
                Err(_) => None,
            },
    )
}

/// Whether each of `documents` holds a plan.
pub open spec fn all_decode(documents: Seq<Fields>) -> bool {
    forall|i: int| 0 <= i < documents.len() ==> decoded(#[trigger] documents[i]) is Some
}

/// The plans that `documents` hold, in their order, or `Corrupt` where one of
/// them holds none.
pub open spec fn listed(documents: Seq<Fields>) -> Result<Seq<PlanView>, PlanError> {
    if all_decode(documents) {
        Ok(documents.map_values(|fields: Fields| decoded(fields).unwrap()))
    } else {
        Err(PlanError::Corrupt)
    }
}

/// A list of plans, or the error in its place, by the plans' views.
pub open spec fn plans_outcome(outcome: Result<Vec<Plan>, PlanError>) -> Result<
    Seq<PlanView>,
    PlanError,
> {
    match outcome {
        Ok(plans) => Ok(plan_views(plans@)),
        Err(error) => Err(error),
    }
}

/// A cursor's items up to and with the item at `i` answer with what the items
/// before it answer with, and with the document at `i` if there is one.
proof fn lemma_answered_step(items: Seq<Result<Document, BackendFailure>>, i: int)
    requires
        0 <= i < items.len(),
    ensures
        answered(items.take(i + 1)) == match items[i] {
            Ok(document) => answered(items.take(i)).push(document_fields(document)),
            Err(_) => answered(items.take(i)),
        },
{
    let upto = items.take(i + 1);
    assert(upto.drop_last() == items.take(i));
    assert(upto.last() == items[i]);
}

/// What a cursor's first items answer with is among what all of them answer
/// with.
proof fn lemma_answered_prefix(items: Seq<Result<Document, BackendFailure>>, i: int, k: int)
    requires
        0 <= i <= items.len(),
        0 <= k < answered(items.take(i)).len(),
    ensures
        answered(items).contains(answered(items.take(i))[k]),
    decreases items.len() - i,
{
    if i == items.len() {
        assert(items.take(i) == items);
    } else {
        lemma_answered_step(items, i);
        let longer = answered(items.take(i + 1));
        assert(longer[k] == answered(items.take(i))[k]);
        lemma_answered_prefix(items, i + 1, k);
    }
}

/// The plans that a listing found.
///
/// `found` is the backend's answer to a query for every document of the
/// collection: the cursor's items, or the failure to open it. An item on
/// which the cursor failed is passed over. The plans come in the cursor's
/// order. A document that holds no plan fails the whole listing.
pub fn get_plans(found: Result<Vec<Result<Document, BackendFailure>>, BackendFailure>) -> (plans:
    Result<Vec<Plan>, PlanError>)
    ensures
        found is Err ==> plans == Err::<Vec<Plan>, PlanError>(PlanError::BackendUnavailable),
        found matches Ok(items) ==> plans_outcome(plans) == listed(answered(items@)),
{
    let items = match found {
        Ok(items) => items,
        Err(_) => {
            return Err(PlanError::BackendUnavailable);
        },
    };
    let mut plans: Vec<Plan> = Vec::new();
    let mut i: usize = 0;
    while i < items.len()
        invariant
            found == Ok::<Vec<Result<Document, BackendFailure>>, BackendFailure>(items),
            0 <= i <= items.len(),
            all_decode(answered(items@.take(i as int))),
            plan_views(plans@) == answered(items@.take(i as int)).map_values(
                |fields: Fields| decoded(fields).unwrap(),
            ),
        decreases items.len() - i,
    {
        proof {
            lemma_answered_step(items@, i as int);
        }
        match &items[i] {
            Ok(document) => {
                match plan_from_document(document) {
                    Ok(plan) => {
                        let ghost earlier = plans@;
                        plans.push(plan);
                        proof {
                            let before = answered(items@.take(i as int));
                            let upto = answered(items@.take(i + 1));
                            let decode = |fields: Fields| decoded(fields).unwrap();
                            assert(upto == before.push(document_fields(*document)));
                            assert(plan_views(earlier) == before.map_values(decode));
                            assert forall|k: int| 0 <= k < upto.len() implies plan_views(plans@)[k]
                                == upto.map_values(decode)[k] by {
                                if k < before.len() {
                                    assert(plan_views(earlier)[k] == before.map_values(decode)[k]);
                                }
                            }
                            assert(plan_views(plans@) =~= upto.map_values(decode));
                        }
                    },
                    Err(_) => {
                        proof {
                            let upto = answered(items@.take(i + 1));
                            lemma_answered_prefix(items@, i + 1, upto.len() - 1);
                            let all = answered(items@);
                            let k = choose|k: int| 0 <= k < all.len() && all[k] == upto.last();
                            assert(decoded(all[k]) is None);
                        }
                        return Err(PlanError::Corrupt);
                    },
                }
            },
            Err(_) => {},
        }
        i += 1;
    }
    proof {
        assert(items@.take(i as int) == items@);
    }
    Ok(plans)
}

/// The plan as created, from the backend's answer to the insertion of its
/// document.
///
/// `inserted` is the identifier that the backend reports for the new
/// document, if it reports one, or the failure of the insertion. The plan
/// returned holds that identifier in hexadecimal digits and the four fields of
/// `plan`, whatever `plan.id` was. Where the backend reports no identifier,
/// or a value that is none, the error is `InvalidId`.
pub fn create_plan(plan: Plan, inserted: Result<Option<Bson>, BackendFailure>) -> (stored: Result<
    Plan,
    PlanError,
>)
    ensures
        inserted is Err ==> stored == Err::<Plan, PlanError>(PlanError::BackendUnavailable),
        inserted matches Ok(reply) ==> plan_outcome(stored) == inserted_plan(
            plan@,
            value_of(reply),
        ),
{
    match inserted {
        Ok(Some(value)) => match value.as_object_id() {
            Some(object_id) => Ok(
                Plan {
                    id: object_id.to_hex(),
                    adaptation_id: plan.adaptation_id,
                    end: plan.end,
                    name: plan.name,
                    start: plan.start,
                },
            ),
            None => Err(PlanError::InvalidId),
        },
        Ok(None) => Err(PlanError::InvalidId),
        Err(_) => Err(PlanError::BackendUnavailable),
    }
}

/// The plan that a lookup by identifier found.
///
/// `found` is the backend's answer to a query with the filter of
/// [`plan_filter`]: the document that matched, if one did, or the failure of
/// the query.
pub fn get_plan(found: Result<Option<Document>, BackendFailure>) -> (plan: Result<Plan, PlanError>)
    ensures
        found is Err ==> plan == Err::<Plan, PlanError>(PlanError::BackendUnavailable),
        found matches Ok(reply) ==> plan_outcome(plan) == found_plan(fields_of(reply)),
{
    match found {
        Ok(Some(document)) => plan_from_document(&document),
        Ok(None) => Err(PlanError::NotFound),
        Err(_) => Err(PlanError::BackendUnavailable),
    }
}

/// Whether a partial update was applied.
///
/// `updated` is the backend's answer to an update of the one document that
/// matches the filter of [`plan_filter`] with the update of
/// [`patch_update`]: the document that matched, if one did, or the failure of
/// the update. Both a failure and no match give `NotFound`.
pub fn update_plan(updated: Result<Option<Document>, BackendFailure>) -> (outcome: Result<
    (),
    PlanError,
>)
    ensures
        outcome is Ok <==> updated matches Ok(Some(_)),
        outcome matches Err(error) ==> error == PlanError::NotFound,
{
    match updated {
        Ok(Some(_)) => Ok(()),
        _ => Err(PlanError::NotFound),
    }
}

/// Whether a removal was carried out.
///
/// `deleted` is the backend's answer to the removal of the one document that
/// matches the filter of [`plan_filter`]: the document removed, if one
/// matched, or the failure of the removal. A removal that matched nothing is
/// no error.
pub fn delete_plan(deleted: Result<Option<Document>, BackendFailure>) -> (outcome: Result<
    (),
    PlanError,
>)
    ensures
        outcome is Ok <==> deleted is Ok,
        outcome matches Err(error) ==> error == PlanError::BackendUnavailable,
{
    match deleted {
        Ok(_) => Ok(()),
        Err(_) => Err(PlanError::BackendUnavailable),
    }
}

} // verus!
