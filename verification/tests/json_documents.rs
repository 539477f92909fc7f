use posthog::json::{batch_body, event_api_key};
use serde_json::Value;

fn object(members: Vec<(&str, Value)>) -> Value {
    let mut map = serde_json::Map::new();
    for (key, value) in members {
        map.insert(key.to_string(), value);
    }
    Value::Object(map)
}

#[test]
fn api_key_of_an_event_is_the_string_under_its_name() {
    let event = object(vec![
        ("event", Value::from("signup")),
        ("api_key", Value::from("phc_abc")),
        ("distinct_id", Value::from("user-1")),
    ]);
    assert_eq!(event_api_key(&event), Some("phc_abc".to_string()));
    assert_eq!(event_api_key(&object(vec![("api_key", Value::from(""))])), Some(String::new()));
}

#[test]
fn event_without_a_string_key_has_none() {
    assert_eq!(event_api_key(&object(vec![("event", Value::from("signup"))])), None);
    assert_eq!(event_api_key(&object(vec![])), None);
    assert_eq!(event_api_key(&object(vec![("api_key", Value::Null)])), None);
    assert_eq!(event_api_key(&object(vec![("api_key", Value::from(17))])), None);
    assert_eq!(event_api_key(&object(vec![("api_key", Value::Bool(true))])), None);
    assert_eq!(
        event_api_key(&object(vec![("api_key", Value::Array(vec![Value::from("phc_abc")]))])),
        None
    );
    assert_eq!(
        event_api_key(&object(vec![("api_key", object(vec![("api_key", Value::from("x"))]))])),
        None
    );
}

#[test]
fn document_that_is_no_object_has_no_key() {
    assert_eq!(event_api_key(&Value::Null), None);
    assert_eq!(event_api_key(&Value::from("api_key")), None);
    assert_eq!(event_api_key(&Value::from(3)), None);
    assert_eq!(event_api_key(&Value::Array(vec![object(vec![("api_key", Value::from("x"))])])), None);
}

#[test]
fn batch_body_holds_the_key_and_the_events_in_order() {
    let first = object(vec![("event", Value::from("a")), ("api_key", Value::from("phc_abc"))]);
    let second = object(vec![("event", Value::from("b")), ("api_key", Value::from("phc_abc"))]);
    let body = batch_body("phc_abc".to_string(), vec![first.clone(), second.clone()]);
    assert_eq!(
        body,
        object(vec![
            ("api_key", Value::from("phc_abc")),
            ("batch", Value::Array(vec![first.clone(), second.clone()])),
        ])
    );
    assert_eq!(body.as_object().map(|members| members.len()), Some(2));
    assert_eq!(body["api_key"].as_str(), Some("phc_abc"));
    assert_eq!(body["batch"].as_array(), Some(&vec![first, second]));
    assert_eq!(
        serde_json::to_string(&body).unwrap(),
        r#"{"api_key":"phc_abc","batch":[{"api_key":"phc_abc","event":"a"},{"api_key":"phc_abc","event":"b"}]}"#
    );
}

#[test]
fn batch_body_of_no_events_has_an_empty_list() {
    assert_eq!(
        batch_body("phc_abc".to_string(), Vec::new()),
        object(vec![("api_key", Value::from("phc_abc")), ("batch", Value::Array(Vec::new()))])
    );
}
