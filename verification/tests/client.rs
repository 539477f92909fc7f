use posthog::client::queue::QueueWorkerHandle;
use posthog::{PosthogClient, PosthogClientBuilder};

#[test]
fn builder_starts_with_nothing_set() {
    let builder = PosthogClient::builder();
    assert_eq!(builder.base_url, None);
    assert_eq!(builder.api_key, None);
    let builder = PosthogClientBuilder::new();
    assert_eq!(builder.base_url, None);
    assert_eq!(builder.api_key, None);
}

#[test]
fn builder_keeps_what_was_set() {
    let builder = PosthogClient::builder().base_url("https://eu.example.com".to_string());
    assert_eq!(builder.base_url.as_deref(), Some("https://eu.example.com"));
    assert_eq!(builder.api_key, None);
    let builder = builder.api_key("phc_key".to_string());
    assert_eq!(builder.base_url.as_deref(), Some("https://eu.example.com"));
    assert_eq!(builder.api_key.as_deref(), Some("phc_key"));
    let builder = builder.base_url("https://us.example.com".to_string());
    assert_eq!(builder.base_url.as_deref(), Some("https://us.example.com"));
    assert_eq!(builder.api_key.as_deref(), Some("phc_key"));
}

#[test]
fn builder_builds_a_client_once_both_are_set() {
    let client = PosthogClient::builder()
        .api_key("phc_key".to_string())
        .base_url("https://eu.example.com".to_string())
        .build()
        .expect("both are set");
    assert_eq!(client.api_key, "phc_key");
    assert_eq!(client.worker.inner_client.base_url, "https://eu.example.com");
}

#[test]
fn builder_builds_nothing_while_something_is_missing() {
    assert!(PosthogClient::builder().build().is_none());
    assert!(PosthogClient::builder().api_key("phc_key".to_string()).build().is_none());
    assert!(PosthogClient::builder()
        .base_url("https://eu.example.com".to_string())
        .build()
        .is_none());
}

#[test]
fn new_client_binds_its_worker_to_the_base_url() {
    let client = PosthogClient::new("https://app.example.com".to_string(), "phc_abc".to_string());
    assert_eq!(client.api_key, "phc_abc");
    assert_eq!(client.worker.inner_client.base_url, "https://app.example.com");
}

#[test]
fn started_worker_serves_the_given_base_url() {
    let handle = QueueWorkerHandle::start("http://localhost:8000".to_string());
    assert_eq!(handle.inner_client.base_url, "http://localhost:8000");
}
