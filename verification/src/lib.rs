//! Event-delivery core of an analytics client.
//!
//! Producers hand the queue worker envelopes that describe one HTTP call each.
//! The worker coalesces fire-and-forget capture events into batches, sends
//! everything else on its own, and reports results to callers that wait.
//! This crate holds the decisions of that worker; the network and the task
//! runtime are driven from outside, with the values computed here.

pub mod client;
pub mod error;
pub mod json;

pub use client::builder::PosthogClientBuilder;
pub use client::queue::PosthogRequest;
pub use client::PosthogClient;
pub use error::PosthogError;
