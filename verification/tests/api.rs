use plan::api::{
    create_plan, delete_plan, get_plan, get_plans, index, new_plan, not_found, plan_value,
    plans_value, server_error, update_plan, CreatePlanRequestBody,
};
use plan::error::PlanError;
use plan::models::Plan;
use serde_json::Value;

fn sample_plan(id: &str, name: &str) -> Plan {
    Plan {
        adaptation_id: "A1".to_string(),
        end: "E".to_string(),
        id: id.to_string(),
        name: name.to_string(),
        start: "S".to_string(),
    }
}

fn parsed(text: &str) -> Value {
    serde_json::from_str(text).unwrap()
}

const FIRST: &str =
    r#"{"adaptation_id":"A1","end":"E","id":"53e37d08776f724e42000000","name":"N","start":"S"}"#;

const SECOND: &str =
    r#"{"adaptation_id":"A1","end":"E","id":"53e37d08776f724e42000001","name":"M","start":"S"}"#;

#[test]
fn index_greets() {
    assert_eq!(index(), "Hello, world!");
}

#[test]
fn new_plan_takes_the_four_fields_and_no_id() {
    let body = CreatePlanRequestBody {
        adaptation_id: "A1".to_string(),
        end: "E".to_string(),
        name: "N".to_string(),
        start: "S".to_string(),
    };
    assert_eq!(new_plan(body), sample_plan("", "N"));
}

#[test]
fn plan_value_is_an_object_of_five_strings() {
    let value = plan_value(&sample_plan("53e37d08776f724e42000000", "N"));
    assert_eq!(value, parsed(FIRST));
    assert_eq!(value.as_object().unwrap().len(), 5);
    assert_eq!(value["name"], Value::String("N".to_string()));
}

#[test]
fn plan_value_keeps_special_characters() {
    let value = plan_value(&sample_plan("", "a \"quoted\" \\ name\n"));
    assert_eq!(value["name"].as_str(), Some("a \"quoted\" \\ name\n"));
    assert_eq!(value["id"].as_str(), Some(""));
}

#[test]
fn plans_value_is_an_array_in_order() {
    let plans = vec![
        sample_plan("53e37d08776f724e42000001", "M"),
        sample_plan("53e37d08776f724e42000000", "N"),
    ];
    assert_eq!(plans_value(&plans), parsed(&format!("[{},{}]", SECOND, FIRST)));
    assert_eq!(plans_value(&Vec::new()), parsed("[]"));
}

#[test]
fn get_plans_wraps_the_list() {
    let plans = vec![
        sample_plan("53e37d08776f724e42000000", "N"),
        sample_plan("53e37d08776f724e42000001", "M"),
    ];
    let body = get_plans(Ok(plans));
    assert_eq!(body, parsed(&format!(r#"{{"status":"success","data":[{},{}]}}"#, FIRST, SECOND)));
    assert_eq!(body.as_object().unwrap().len(), 2);
}

#[test]
fn get_plans_wraps_an_empty_list() {
    assert_eq!(get_plans(Ok(Vec::new())), parsed(r#"{"status":"success","data":[]}"#));
}

#[test]
fn get_plans_wraps_a_backend_error() {
    let body = get_plans(Err(PlanError::BackendUnavailable));
    assert_eq!(body, parsed(r#"{"status":"error","message":"Database error"}"#));
    assert!(body.get("data").is_none());
}

#[test]
fn get_plans_wraps_a_corrupt_record() {
    assert_eq!(
        get_plans(Err(PlanError::Corrupt)),
        parsed(r#"{"status":"error","message":"Corrupt record"}"#)
    );
}

#[test]
fn create_plan_wraps_the_created_plan() {
    let body = create_plan(Ok(sample_plan("53e37d08776f724e42000000", "N")));
    assert_eq!(body, parsed(&format!(r#"{{"status":"success","data":{}}}"#, FIRST)));
    assert_eq!(body["data"]["id"], Value::String("53e37d08776f724e42000000".to_string()));
}

#[test]
fn create_plan_wraps_a_missing_identifier() {
    assert_eq!(
        create_plan(Err(PlanError::InvalidId)),
        parsed(r#"{"status":"error","message":"Invalid ObjectId"}"#)
    );
}

#[test]
fn create_plan_wraps_a_backend_error() {
    assert_eq!(
        create_plan(Err(PlanError::BackendUnavailable)),
        parsed(r#"{"status":"error","message":"Database error"}"#)
    );
}

#[test]
fn get_plan_wraps_the_plan() {
    let body = get_plan(Ok(sample_plan("53e37d08776f724e42000001", "M")));
    assert_eq!(body, parsed(&format!(r#"{{"status":"success","data":{}}}"#, SECOND)));
}

#[test]
fn get_plan_wraps_not_found() {
    let body = get_plan(Err(PlanError::NotFound));
    assert_eq!(body, parsed(r#"{"status":"error","message":"Plan not found"}"#));
    assert_eq!(body.as_object().unwrap().len(), 2);
    assert!(body.get("data").is_none());
}

#[test]
fn get_plan_wraps_an_invalid_identifier() {
    assert_eq!(
        get_plan(Err(PlanError::InvalidId)),
        parsed(r#"{"status":"error","message":"Invalid ObjectId"}"#)
    );
}

#[test]
fn update_plan_success_carries_null() {
    let body = update_plan(Ok(()));
    assert_eq!(body, parsed(r#"{"status":"success","data":null}"#));
    assert_eq!(body.get("data"), Some(&Value::Null));
}

#[test]
fn update_plan_wraps_not_found() {
    assert_eq!(
        update_plan(Err(PlanError::NotFound)),
        parsed(r#"{"status":"error","message":"Plan not found"}"#)
    );
}

#[test]
fn delete_plan_success_carries_null() {
    assert_eq!(delete_plan(Ok(())), parsed(r#"{"status":"success","data":null}"#));
}

#[test]
fn delete_plan_wraps_a_backend_error() {
    assert_eq!(
        delete_plan(Err(PlanError::BackendUnavailable)),
        parsed(r#"{"status":"error","message":"Database error"}"#)
    );
}

#[test]
fn not_found_is_an_error_with_an_empty_message() {
    assert_eq!(not_found(), parsed(r#"{"message":"","status":"error"}"#));
}

#[test]
fn server_error_is_an_error_with_an_empty_message() {
    assert_eq!(server_error(), parsed(r#"{"message":"","status":"error"}"#));
}
