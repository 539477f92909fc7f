//! The client and its queue worker.

pub mod builder;
pub mod http;
pub mod laws;
pub mod queue;

use crate::client::builder::PosthogClientBuilder;
use crate::client::queue::QueueWorkerHandle;
use vstd::prelude::*;

verus! {

/// A client of the analytics service: the key it reports under and the
/// worker that delivers for it.
#[derive(Clone, Debug)]
pub struct PosthogClient {
    pub api_key: String,
    pub worker: QueueWorkerHandle,
}

impl PosthogClient {
    /// Starts the configuration of a client: a builder with nothing set.
    pub fn builder() -> (builder: PosthogClientBuilder)
        ensures
            builder.base_url is None,
            builder.api_key is None,
    {
        PosthogClientBuilder::new()
    }

    /// A client for the service at `base_url` that reports under `api_key`,
    /// with a worker of its own bound to that service.
    pub fn new(base_url: String, api_key: String) -> (client: Self)
        ensures
            client.api_key@ == api_key@,
            client.worker.inner_client.base_url@ == base_url@,
    {
        let worker = QueueWorkerHandle::start(base_url);
        PosthogClient { api_key, worker }
    }
}

} // verus!
