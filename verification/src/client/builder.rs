//! Step-by-step configuration of a client.

use crate::client::PosthogClient;
use vstd::prelude::*;

verus! {

/// Collects what a client needs before it can exist.
#[derive(Clone, Debug)]
pub struct PosthogClientBuilder {
    pub base_url: Option<String>,
    pub api_key: Option<String>,
}

impl PosthogClientBuilder {
    /// A builder with nothing set.
    pub fn new() -> (builder: Self)
        ensures
            builder.base_url is None,
            builder.api_key is None,
    {
        PosthogClientBuilder { base_url: None, api_key: None }
    }

    /// Sets the address of the service, replacing an earlier one.
    pub fn base_url(self, base_url: String) -> (builder: Self)
        ensures
            builder.base_url == Some(base_url),
            builder.api_key == self.api_key,
    {
        PosthogClientBuilder { base_url: Some(base_url), api_key: self.api_key }
    }

    /// Sets the key to report under, replacing an earlier one.
    pub fn api_key(self, api_key: String) -> (builder: Self)
        ensures
            builder.base_url == self.base_url,
            builder.api_key == Some(api_key),
    {
        PosthogClientBuilder { base_url: self.base_url, api_key: Some(api_key) }
    }

    /// Builds the client, once both the address and the key are set.
    pub fn build(self) -> (client: Option<PosthogClient>)
        ensures
            client is Some <==> self.base_url is Some && self.api_key is Some,
            client matches Some(built) ==> built.api_key@ == self.api_key.unwrap()@
                && built.worker.inner_client.base_url@ == self.base_url.unwrap()@,
    {
        match (self.base_url, self.api_key) {
            (Some(base_url), Some(api_key)) => Some(PosthogClient::new(base_url, api_key)),
            _ => None,
        }
    }
}

} // verus!
