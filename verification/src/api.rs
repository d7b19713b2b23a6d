//! The API layer: the request body of a creation, and the JSON envelope that
//! wraps every response.
//!
//! An envelope is an object with a `status`. A success carries its payload
//! as `data`; an error carries its `message` and no payload. Each
//! operation's response is the envelope of what the storage layer returned
//! for it.

use crate::db::plan_views;
use crate::error::PlanError;
use crate::json::{
    json_array, json_null, json_object, json_string, json_value, Json, Members,
};
use crate::models::{Plan, PlanView};
use vstd::prelude::*;

verus! {

/// The greeting served at the root of the service.
pub fn index() -> (greeting: &'static str)
    ensures
        greeting@ == "Hello, world!"@,
{
    "Hello, world!"
}

/// The body of a request to create a plan: the four fields that a caller
/// sets.
#[derive(Debug, Clone, PartialEq, Eq)]
pub struct CreatePlanRequestBody {
    pub adaptation_id: String,
    pub end: String,
    pub name: String,
    pub start: String,
}

/// The plan that a request to create one asks for. Its `id` is empty: the
/// backend assigns the identifier.
pub fn new_plan(body: CreatePlanRequestBody) -> (plan: Plan)
    ensures
        plan@ == (PlanView {
            adaptation_id: body.adaptation_id@,
            end: body.end@,
            id: Seq::<char>::empty(),
            name: body.name@,
            start: body.start@,
        }),
{
    Plan {
        id: String::new(),
        adaptation_id: body.adaptation_id,
        end: body.end,
        name: body.name,
        start: body.start,
    }
}

/// A plan as a JSON object: its five fields as strings, under their names.
pub open spec fn plan_json(plan: PlanView) -> Json {
    Json::Object(
        Members::empty().insert("adaptation_id"@, Json::Text(plan.adaptation_id)).insert(
            "end"@,
            Json::Text(plan.end),
        ).insert("id"@, Json::Text(plan.id)).insert("name"@, Json::Text(plan.name)).insert(
            "start"@,
            Json::Text(plan.start),
        ),
    )
}

/// A list of plans as a JSON array, in the list's order.
pub open spec fn plans_json(plans: Seq<PlanView>) -> Json {
    Json::Array(plans.map_values(|plan: PlanView| plan_json(plan)))
}

/// The envelope of a success with the payload `data`.
pub open spec fn success(data: Json) -> Json {
    Json::Object(Members::empty().insert("status"@, Json::Text("success"@)).insert("data"@, data))
}

/// The envelope of an error with the message `message`.
pub open spec fn failure(message: Seq<char>) -> Json {
    Json::Object(
        Members::empty().insert("status"@, Json::Text("error"@)).insert(
            "message"@,
            Json::Text(message),
        ),
    )
}

/// A plan as a JSON object.
pub fn plan_value(plan: &Plan) -> (value: serde_json::Value)
    ensures
        json_value(value) == plan_json(plan@),
{
    let mut members = serde_json::Map::new();
    let _ = members.insert("adaptation_id".to_owned(), json_string(plan.adaptation_id.clone()));
    let _ = members.insert("end".to_owned(), json_string(plan.end.clone()));
    let _ = members.insert("id".to_owned(), json_string(plan.id.clone()));
    let _ = members.insert("name".to_owned(), json_string(plan.name.clone()));
    let _ = members.insert("start".to_owned(), json_string(plan.start.clone()));
    json_object(members)
}

/// A list of plans as a JSON array, in the list's order.
pub fn plans_value(plans: &Vec<Plan>) -> (value: serde_json::Value)
    ensures
        json_value(value) == plans_json(plan_views(plans@)),
{
    let mut items: Vec<serde_json::Value> = Vec::new();
    let mut i: usize = 0;
    while i < plans.len()
        invariant
            0 <= i <= plans.len(),
            items.len() == i,
            forall|k: int| 0 <= k < i ==> json_value(#[trigger] items[k]) == plan_json(plans[k]@),
        decreases plans.len() - i,
    {
        items.push(plan_value(&plans[i]));
        i += 1;
    }
    assert(items@.map_values(|item: serde_json::Value| json_value(item)) =~= plan_views(
        plans@,
    ).map_values(|plan: PlanView| plan_json(plan)));
    json_array(items)
}

/// The envelope of a success with the payload `data`.
fn success_value(data: serde_json::Value) -> (body: serde_json::Value)
    ensures
        json_value(body) == success(json_value(data)),
{
    let mut members = serde_json::Map::new();
    let _ = members.insert("status".to_owned(), json_string("success".to_owned()));
    let _ = members.insert("data".to_owned(), data);
    json_object(members)
}

/// The envelope of an error with the message `message`.
fn failure_value(message: &str) -> (body: serde_json::Value)
    ensures
        json_value(body) == failure(message@),
{
    let mut members = serde_json::Map::new();
    let _ = members.insert("status".to_owned(), json_string("error".to_owned()));
    let _ = members.insert("message".to_owned(), json_string(message.to_owned()));
    json_object(members)
}

/// The response to a listing of the plans: on success the plans, in their
/// order, as `data`.
pub fn get_plans(outcome: Result<Vec<Plan>, PlanError>) -> (body: serde_json::Value)
    ensures
        json_value(body) == match outcome {
            Ok(plans) => success(plans_json(plan_views(plans@))),
            Err(error) => failure(error.message_text()),
        },
{
    match outcome {
        Ok(plans) => success_value(plans_value(&plans)),
        Err(error) => failure_value(error.message()),
    }
}

/// The response to the creation of a plan: on success the plan as created,
/// its identifier with it, as `data`.
pub fn create_plan(outcome: Result<Plan, PlanError>) -> (body: serde_json::Value)
    ensures
        json_value(body) == match outcome {
            Ok(plan) => success(plan_json(plan@)),
            Err(error) => failure(error.message_text()),
        },
{
    match outcome {
        Ok(plan) => success_value(plan_value(&plan)),
        Err(error) => failure_value(error.message()),
    }
}

/// The response to a lookup of a plan by its identifier: on success the plan
/// as `data`.
pub fn get_plan(outcome: Result<Plan, PlanError>) -> (body: serde_json::Value)
    ensures
        json_value(body) == match outcome {
            Ok(plan) => success(plan_json(plan@)),
            Err(error) => failure(error.message_text()),
        },
{
    match outcome {
        Ok(plan) => success_value(plan_value(&plan)),
        Err(error) => failure_value(error.message()),
    }
}

/// The response to a partial update of a plan: on success `null` as `data`.
pub fn update_plan(outcome: Result<(), PlanError>) -> (body: serde_json::Value)
    ensures
        json_value(body) == match outcome {
            Ok(_) => success(Json::Null),
            Err(error) => failure(error.message_text()),
        },
{
    match outcome {
        Ok(_) => success_value(json_null()),
        Err(error) => failure_value(error.message()),
    }
}

/// The response to the removal of a plan: on success `null` as `data`.
pub fn delete_plan(outcome: Result<(), PlanError>) -> (body: serde_json::Value)
    ensures
        json_value(body) == match outcome {
            Ok(_) => success(Json::Null),
            Err(error) => failure(error.message_text()),
        },
{
    match outcome {
        Ok(_) => success_value(json_null()),
        Err(error) => failure_value(error.message()),
    }
}

/// The response where no route matches a request: an error with an empty
/// message.
pub fn not_found() -> (body: serde_json::Value)
    ensures
        json_value(body) == failure(Seq::<char>::empty()),
{
    let body = failure_value("");
    proof {
        reveal_strlit("");
        assert(""@ =~= Seq::<char>::empty());
    }
    body
}

/// The response where the server failed on a request: an error with an empty
/// message.
pub fn server_error() -> (body: serde_json::Value)
    ensures
        json_value(body) == failure(Seq::<char>::empty()),
{
    let body = failure_value("");
    proof {
        reveal_strlit("");
        assert(""@ =~= Seq::<char>::empty());
    }
    body
}

} // verus!
