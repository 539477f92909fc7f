use posthog::client::http::{
    check_status, content_headers, decode_body, join_url, transport_failure, HttpCall, HttpMethod,
};
use posthog::client::queue::{Dispatch, PosthogRequest, QueueWorkerInner, QueuedRequest};
use posthog::error::{HttpFailure, PosthogError};
use serde_json::Value;
use tokio::sync::oneshot;

fn call() -> HttpCall {
    HttpCall {
        method: HttpMethod::Post,
        url: "https://app.example.com/decide?v=3".to_string(),
        headers: content_headers(),
        body: Value::Null,
    }
}

#[test]
fn success_statuses_let_the_body_be_read() {
    assert_eq!(check_status(200), Ok(()));
    assert_eq!(check_status(201), Ok(()));
    assert_eq!(check_status(204), Ok(()));
    assert_eq!(check_status(299), Ok(()));
}

#[test]
fn statuses_outside_the_success_range_are_errors() {
    for status in [0u16, 100, 199, 300, 301, 304, 400, 404, 499, 500, 503, 599, 600, u16::MAX] {
        assert_eq!(
            check_status(status),
            Err(PosthogError::HttpError(HttpFailure::Status(status)))
        );
    }
}

#[test]
fn body_of_a_response_decodes_to_its_document() {
    let mut members = serde_json::Map::new();
    members.insert("status".to_string(), Value::from(1));
    let mut flags = serde_json::Map::new();
    flags.insert("beta".to_string(), Value::Bool(true));
    members.insert("featureFlags".to_string(), Value::Object(flags));
    assert_eq!(
        decode_body(br#"{"status": 1, "featureFlags": {"beta": true}}"#),
        Ok(Value::Object(members))
    );
    assert_eq!(decode_body(b"null"), Ok(Value::Null));
    assert_eq!(decode_body(b" [1, \"two\"] "), Ok(Value::Array(vec![Value::from(1), Value::from("two")])));
}

#[test]
fn body_that_is_no_json_is_a_decode_error() {
    let expected = serde_json::from_slice::<Value>(b"{\"status\": ").unwrap_err().to_string();
    assert_eq!(
        decode_body(b"{\"status\": "),
        Err(PosthogError::HttpError(HttpFailure::Decode(expected)))
    );
    assert!(matches!(
        decode_body(b""),
        Err(PosthogError::HttpError(HttpFailure::Decode(_)))
    ));
    assert!(matches!(
        decode_body(b"<html>Service Unavailable</html>"),
        Err(PosthogError::HttpError(HttpFailure::Decode(_)))
    ));
}

#[test]
fn transport_failure_carries_the_description() {
    assert_eq!(
        transport_failure("connection refused".to_string()),
        PosthogError::HttpError(HttpFailure::Transport("connection refused".to_string()))
    );
}

#[test]
fn url_is_base_slash_endpoint() {
    assert_eq!(
        join_url(&"https://app.example.com".to_string(), "capture"),
        "https://app.example.com/capture"
    );
    assert_eq!(join_url(&"http://h".to_string(), ""), "http://h/");
    assert_eq!(join_url(&String::new(), "batch"), "/batch");
}

#[test]
fn every_call_carries_the_json_headers() {
    assert_eq!(
        content_headers(),
        vec![
            ("Content-Type".to_string(), "application/json".to_string()),
            ("Accept".to_string(), "application/json".to_string()),
        ]
    );
}

#[test]
fn outcome_goes_unchanged_to_the_waiting_caller() {
    let dispatch = Dispatch { call: call(), response_tx: Some(7u32) };
    let response = Ok(Value::String("done".to_string()));
    assert_eq!(dispatch.complete(response.clone()), Some((7, response)));

    let dispatch = Dispatch { call: call(), response_tx: Some(8u32) };
    let failure = Err(PosthogError::HttpError(HttpFailure::Status(502)));
    assert_eq!(dispatch.complete(failure.clone()), Some((8, failure)));
}

#[test]
fn outcome_of_a_fire_and_forget_call_is_dropped() {
    let dispatch: Dispatch<u32> = Dispatch { call: call(), response_tx: None };
    assert_eq!(dispatch.complete(Ok(Value::Null)), None);
    let dispatch: Dispatch<u32> = Dispatch { call: call(), response_tx: None };
    assert_eq!(
        dispatch.complete(Err(PosthogError::HttpError(HttpFailure::Status(500)))),
        None
    );
}

#[test]
fn server_error_reaches_the_waiting_caller_as_an_error() {
    let (tx, mut rx) = oneshot::channel::<Result<Value, PosthogError>>();
    let worker = QueueWorkerInner { base_url: "https://app.example.com".to_string() };
    let dispatch = worker.handle_request(QueuedRequest {
        request: PosthogRequest::EvaluateFeatureFlags { body: Value::Null },
        response_tx: Some(tx),
    });
    assert_eq!(dispatch.call.url, "https://app.example.com/decide?v=3");

    // The service answers 500: the body is never read.
    let outcome = match check_status(500) {
        Ok(()) => decode_body(b"{\"featureFlags\": {}}"),
        Err(error) => Err(error),
    };
    let (tx, response) = dispatch.complete(outcome).expect("the caller waits");
    assert!(tx.send(response).is_ok());
    assert_eq!(
        rx.try_recv().expect("signalled once"),
        Err(PosthogError::HttpError(HttpFailure::Status(500)))
    );
}

#[test]
fn successful_response_reaches_the_waiting_caller_as_a_document() {
    let (tx, mut rx) = oneshot::channel::<Result<Value, PosthogError>>();
    let dispatch = Dispatch { call: call(), response_tx: Some(tx) };
    let outcome = match check_status(200) {
        Ok(()) => decode_body(b"true"),
        Err(error) => Err(error),
    };
    let (tx, response) = dispatch.complete(outcome).expect("the caller waits");
    assert!(tx.send(response).is_ok());
    assert_eq!(rx.try_recv().expect("signalled once"), Ok(Value::Bool(true)));
}
