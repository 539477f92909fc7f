//! The queue worker: which requests exist, how one becomes an HTTP call, and
//! how a drain cycle sorts what arrived into single calls and one batch.

use crate::client::http::{
    content_headers, endpoint_url, header_views, join_url, json_headers, HttpCall, HttpMethod,
};
use crate::error::PosthogError;
use crate::json::{
    batch_body, event_api_key, is_batch_body, json_is_null, null_value, spec_event_api_key,
};
use serde_json::Value;
use vstd::prelude::*;

verus! {

/// How many envelopes one drain cycle takes from the queue at most.
pub const POSTHOG_BATCH_LIMIT: usize = 20;

/// Everything the worker can be asked to do. Each variant fixes one HTTP call.
#[derive(Debug, PartialEq)]
pub enum PosthogRequest {
    /// Capture an event: `POST /capture`.
    CaptureEvent { body: Value },
    /// Capture several events at once: `POST /batch`.
    CaptureBatch { body: Value },
    /// Evaluate feature flags: `POST /decide?v=3`.
    EvaluateFeatureFlags { body: Value },
    /// Look up early access features: `GET /api/early_access_features`.
    GetEarlyAccessFeatures { api_key: String },
    /// Any other call, as the caller spells it.
    Other { method: HttpMethod, endpoint: String, json: Value },
}

impl PosthogRequest {
    /// The method of the call that this request stands for.
    pub open spec fn method(self) -> HttpMethod {
        match self {
            PosthogRequest::CaptureEvent { .. } => HttpMethod::Post,
            PosthogRequest::CaptureBatch { .. } => HttpMethod::Post,
            PosthogRequest::EvaluateFeatureFlags { .. } => HttpMethod::Post,
            PosthogRequest::GetEarlyAccessFeatures { .. } => HttpMethod::Get,
            PosthogRequest::Other { method, .. } => method,
        }
    }

    /// The path below the base URL that the call goes to.
    pub open spec fn endpoint(self) -> Seq<char> {
        match self {
            PosthogRequest::CaptureEvent { .. } => "capture"@,
            PosthogRequest::CaptureBatch { .. } => "batch"@,
            PosthogRequest::EvaluateFeatureFlags { .. } => "decide?v=3"@,
            PosthogRequest::GetEarlyAccessFeatures { api_key } =>
                "api/early_access_features?api_key="@ + api_key@,
            PosthogRequest::Other { endpoint, .. } => endpoint@,
        }
    }

    /// Whether `body` is what the call sends: the request's own document, or
    /// JSON `null` for the lookup that has none.
    pub open spec fn sends(self, body: Value) -> bool {
        match self {
            PosthogRequest::CaptureEvent { body: own } => body == own,
            PosthogRequest::CaptureBatch { body: own } => body == own,
            PosthogRequest::EvaluateFeatureFlags { body: own } => body == own,
            PosthogRequest::GetEarlyAccessFeatures { .. } => json_is_null(body),
            PosthogRequest::Other { json, .. } => body == json,
        }
    }
}

impl Default for PosthogRequest {
    /// A harmless stand-in for "no request": `GET` on the empty endpoint with
    /// a `null` body.
    fn default() -> (request: Self)
        ensures
            (request matches PosthogRequest::Other { method, endpoint, json }
                && method == HttpMethod::Get
                && endpoint@.len() == 0
                && json_is_null(json)),
    {
        PosthogRequest::Other { method: HttpMethod::Get, endpoint: String::new(), json: null_value() }
    }
}

/// A request on its way to the worker, with the channel on which the caller
/// waits for the response, if it waits at all.
#[derive(Debug, PartialEq)]
pub struct QueuedRequest<R> {
    pub request: PosthogRequest,
    pub response_tx: Option<R>,
}

impl<R> Default for QueuedRequest<R> {
    fn default() -> (envelope: Self)
        ensures
            envelope.response_tx is None,
            (envelope.request matches PosthogRequest::Other { method, endpoint, json }
                && method == HttpMethod::Get
                && endpoint@.len() == 0
                && json_is_null(json)),
    {
        QueuedRequest { request: PosthogRequest::default(), response_tx: None }
    }
}

/// An HTTP call to issue, and the channel that gets its outcome.
#[derive(Debug, PartialEq)]
pub struct Dispatch<R> {
    pub call: HttpCall,
    pub response_tx: Option<R>,
}

impl<R> Dispatch<R> {
    /// Whether this dispatch is the one that `envelope` asks for from a
    /// worker bound to `base_url`.
    pub open spec fn serves(self, base_url: Seq<char>, envelope: QueuedRequest<R>) -> bool {
        &&& self.response_tx == envelope.response_tx
        &&& self.call.method == envelope.request.method()
        &&& self.call.url@ == endpoint_url(base_url, envelope.request.endpoint())
        &&& header_views(self.call.headers@) == json_headers()
        &&& envelope.request.sends(self.call.body)
    }

    /// Decides what becomes of the outcome of the call: it goes, unchanged,
    /// to the caller that waits, and nowhere if nobody does.
    pub fn complete(self, response: Result<Value, PosthogError>) -> (delivery: Option<
        (R, Result<Value, PosthogError>),
    >)
        ensures
            self.response_tx is None ==> delivery is None,
            self.response_tx matches Some(tx) ==> delivery == Some((tx, response)),
    {
        match self.response_tx {
            Some(tx) => Some((tx, response)),
            None => None,
        }
    }
}

/// The body of an envelope that may join a batch: a capture event that
/// nobody waits for. `None` for every other envelope.
pub open spec fn batchable_body<R>(envelope: QueuedRequest<R>) -> Option<Value> {
    match envelope.request {
        PosthogRequest::CaptureEvent { body } => if envelope.response_tx is None {
            Some(body)
        } else {
            None
        },
        _ => None,
    }
}

/// Whether an envelope may join a batch.
pub open spec fn is_batchable<R>(envelope: QueuedRequest<R>) -> bool {
    batchable_body(envelope) is Some
}

/// The envelopes of a buffer that are sent on their own, in arrival order.
pub open spec fn individual_requests<R>(buffer: Seq<QueuedRequest<R>>) -> Seq<QueuedRequest<R>> {
    buffer.filter(|envelope: QueuedRequest<R>| !is_batchable(envelope))
}

/// The event bodies of a buffer that join the batch, in arrival order.
pub open spec fn batched_bodies<R>(buffer: Seq<QueuedRequest<R>>) -> Seq<Value> {
    buffer.filter_map(|envelope: QueuedRequest<R>| batchable_body(envelope))
}

/// How many envelopes a cycle takes when `available` are waiting.
pub open spec fn cycle_len(available: nat) -> nat {
    if available <= POSTHOG_BATCH_LIMIT {
        available
    } else {
        POSTHOG_BATCH_LIMIT as nat
    }
}

/// What one drain cycle has to send.
#[derive(Debug, PartialEq)]
pub struct DrainCycle<R> {
    /// Envelopes that go out one by one, in arrival order.
    pub individual: Vec<QueuedRequest<R>>,
    /// Bodies of the events that go out together, in arrival order.
    pub batch_capture: Vec<Value>,
}

/// Takes the envelopes of one cycle from the front of the queue: all of them,
/// or the first twenty.
fn take_cycle<R>(available: &mut Vec<QueuedRequest<R>>) -> (drained: Vec<QueuedRequest<R>>)
    ensures
        drained@ == old(available)@.take(cycle_len(old(available)@.len()) as int),
        final(available)@ == old(available)@.skip(cycle_len(old(available)@.len()) as int),
{
    if available.len() <= POSTHOG_BATCH_LIMIT {
        let mut drained: Vec<QueuedRequest<R>> = Vec::new();
        core::mem::swap(available, &mut drained);
        drained
    } else {
        let mut rest = available.split_off(POSTHOG_BATCH_LIMIT);
        core::mem::swap(available, &mut rest);
        rest
    }
}

/// Sorts a buffer into the envelopes that are sent alone and the event
/// bodies that are batched.
fn partition<R>(buffer: Vec<QueuedRequest<R>>) -> (cycle: DrainCycle<R>)
    ensures
        cycle.individual@ == individual_requests(buffer@),
        cycle.batch_capture@ == batched_bodies(buffer@),
{
    let mut individual: Vec<QueuedRequest<R>> = Vec::new();
    let mut batch_capture: Vec<Value> = Vec::new();
    let ghost all = buffer@;
    for envelope in iter: buffer
        invariant
            iter.seq() == all,
            individual@ == individual_requests(all.take(iter.index())),
            batch_capture@ == batched_bodies(all.take(iter.index())),
    {
        proof {
            let i = iter.index();
            reveal(Seq::filter);
            assert(all.take(i + 1).drop_last() =~= all.take(i));
            all.lemma_filter_map_take_succ(
                |envelope: QueuedRequest<R>| batchable_body(envelope),
                i,
            );
        }
        match envelope {
            QueuedRequest { request: PosthogRequest::CaptureEvent { body }, response_tx: None } => {
                batch_capture.push(body);
            },
            other => {
                individual.push(other);
            },
        }
    }
    assert(all.take(all.len() as int) =~= all);
    DrainCycle { individual, batch_capture }
}

impl<R> DrainCycle<R> {
    /// Whether this cycle is the sorting of the envelopes `taken`: those sent
    /// alone and the bodies batched, each in arrival order.
    pub open spec fn sorts(self, taken: Seq<QueuedRequest<R>>) -> bool {
        &&& self.individual@ == individual_requests(taken)
        &&& self.batch_capture@ == batched_bodies(taken)
    }
}

/// The envelopes that a cycle takes from a queue: its first `cycle_len`.
pub open spec fn taken_by_cycle<R>(available: Seq<QueuedRequest<R>>) -> Seq<QueuedRequest<R>> {
    available.take(cycle_len(available.len()) as int)
}

/// The envelopes that a cycle leaves in a queue for the next one.
pub open spec fn left_by_cycle<R>(available: Seq<QueuedRequest<R>>) -> Seq<QueuedRequest<R>> {
    available.skip(cycle_len(available.len()) as int)
}

/// Whether `envelope` is the batch made of `events` under `api_key`: a
/// `CaptureBatch` with that payload, and nobody waiting for the answer.
pub open spec fn is_capture_batch<R>(
    envelope: QueuedRequest<R>,
    api_key: Seq<char>,
    events: Seq<Value>,
) -> bool {
    &&& envelope.response_tx is None
    &&& envelope.request matches PosthogRequest::CaptureBatch { body }
    &&& is_batch_body(body, api_key, events)
}

/// Runs one drain cycle on the envelopes that wait in `available`, oldest
/// first.
///
/// An empty queue yields `None`: the worker calls this once its channel has
/// handed over what it had, so nothing left means that every producer is gone
/// and the worker stops. Otherwise the cycle takes at most
/// [`POSTHOG_BATCH_LIMIT`] envelopes from the front, leaves the rest in place,
/// and sorts what it took: capture events that nobody waits for are gathered
/// for one batch, every other envelope is sent on its own.
pub fn drain_cycle<R>(available: &mut Vec<QueuedRequest<R>>) -> (cycle: Option<DrainCycle<R>>)
    ensures
        cycle is None <==> old(available)@.len() == 0,
        final(available)@ == left_by_cycle(old(available)@),
        cycle matches Some(drained) ==> drained.sorts(taken_by_cycle(old(available)@)),
        cycle matches Some(drained) ==> drained.individual@.len() + drained.batch_capture@.len()
            == taken_by_cycle(old(available)@).len() <= POSTHOG_BATCH_LIMIT,
{
    if available.len() == 0 {
        return None;
    }
    let buffer = take_cycle(available);
    proof {
        lemma_partition_keeps_every_envelope(buffer@);
    }
    Some(partition(buffer))
}

/// Wraps the gathered events into the one request that carries them all.
pub fn capture_batch<R>(api_key: String, batch_capture: Vec<Value>) -> (envelope: QueuedRequest<R>)
    ensures
        is_capture_batch(envelope, api_key@, batch_capture@),
{
    QueuedRequest {
        request: PosthogRequest::CaptureBatch { body: batch_body(api_key, batch_capture) },
        response_tx: None,
    }
}

/// Ends a drain cycle: turns the gathered events into at most one batch.
///
/// No events, no batch. Otherwise the batch carries the API key of the first
/// event. Producers are expected to put one and the same key on every event
/// that they enqueue; this is not looked into, and the key of the first event
/// stands for all, whatever the others carry. Where the first event carries
/// no key there is nothing to send the batch under, and the events come back
/// as they were.
pub fn flush_batch<R>(batch_capture: Vec<Value>) -> (flushed: Result<
    Option<QueuedRequest<R>>,
    Vec<Value>,
>)
    ensures
        batch_capture@.len() == 0 ==> flushed matches Ok(None),
        batch_capture@.len() > 0 ==> match spec_event_api_key(batch_capture@[0]) {
            Some(api_key) => (flushed matches Ok(Some(envelope)) && is_capture_batch(
                envelope,
                api_key,
                batch_capture@,
            )),
            None => (flushed matches Err(events) && events@ == batch_capture@),
        },
{
    if batch_capture.len() == 0 {
        return Ok(None);
    }
    match event_api_key(&batch_capture[0]) {
        Some(api_key) => Ok(Some(capture_batch(api_key, batch_capture))),
        None => Err(batch_capture),
    }
}

/// Every envelope of a buffer lands in exactly one of the two groups: the
/// envelopes sent alone and the bodies batched together are as many as the
/// buffer holds.
pub proof fn lemma_partition_keeps_every_envelope<R>(buffer: Seq<QueuedRequest<R>>)
    ensures
        individual_requests(buffer).len() + batched_bodies(buffer).len() == buffer.len(),
    decreases buffer.len(),
{
    reveal(Seq::filter);
    if buffer.len() > 0 {
        lemma_partition_keeps_every_envelope(buffer.drop_last());
    }
}

/// The part of the worker that turns requests into HTTP calls: it knows where
/// the service lives.
#[derive(Clone, Debug)]
pub struct QueueWorkerInner {
    pub base_url: String,
}

impl QueueWorkerInner {
    /// Describes the call for a method, an endpoint below the base URL and a
    /// JSON body: `{base_url}/{endpoint}`, with the JSON headers.
    pub fn send_request(&self, method: HttpMethod, endpoint: String, json: Value) -> (call:
        HttpCall)
        ensures
            call.method == method,
            call.url@ == endpoint_url(self.base_url@, endpoint@),
            header_views(call.headers@) == json_headers(),
            call.body == json,
    {
        HttpCall {
            method,
            url: join_url(&self.base_url, endpoint.as_str()),
            headers: content_headers(),
            body: json,
        }
    }

    /// Turns an envelope into the HTTP call that its request stands for,
    /// keeping the response channel beside it.
    pub fn handle_request<R>(&self, request: QueuedRequest<R>) -> (dispatch: Dispatch<R>)
        ensures
            dispatch.serves(self.base_url@, request),
    {
        let call = match request.request {
            PosthogRequest::CaptureEvent { body } => self.send_request(
                HttpMethod::Post,
                "capture".to_owned(),
                body,
            ),
            PosthogRequest::CaptureBatch { body } => self.send_request(
                HttpMethod::Post,
                "batch".to_owned(),
                body,
            ),
            PosthogRequest::EvaluateFeatureFlags { body } => self.send_request(
                HttpMethod::Post,
                "decide?v=3".to_owned(),
                body,
            ),
            PosthogRequest::GetEarlyAccessFeatures { api_key } => {
                let mut endpoint = "api/early_access_features?api_key=".to_owned();
                endpoint.append(api_key.as_str());
                self.send_request(HttpMethod::Get, endpoint, null_value())
            },
            PosthogRequest::Other { method, endpoint, json } => self.send_request(
                method,
                endpoint,
                json,
            ),
        };
        Dispatch { call, response_tx: request.response_tx }
    }
}

/// Everything that one drain cycle sends, in sending order.
#[derive(Debug, PartialEq)]
pub struct CyclePlan<R> {
    /// The calls of the cycle: one for each envelope that is sent alone, in
    /// arrival order, and after them the batch, if there is one.
    pub dispatches: Vec<Dispatch<R>>,
    /// Events that were gathered but cannot be sent for want of an API key.
    /// Empty whenever the batch could be made.
    pub unsent: Vec<Value>,
}

impl<R> Dispatch<R> {
    /// Whether this dispatch posts the batch of `events` under `api_key` to
    /// the service at `base_url`, with nobody waiting for the answer.
    pub open spec fn sends_batch(
        self,
        base_url: Seq<char>,
        api_key: Seq<char>,
        events: Seq<Value>,
    ) -> bool {
        &&& self.response_tx is None
        &&& self.call.method == HttpMethod::Post
        &&& self.call.url@ == endpoint_url(base_url, "batch"@)
        &&& header_views(self.call.headers@) == json_headers()
        &&& is_batch_body(self.call.body, api_key, events)
    }
}

impl<R> CyclePlan<R> {
    /// Whether this plan is what a worker bound to `base_url` owes for the
    /// envelopes `taken`: first a call for every envelope that is sent alone,
    /// in arrival order; then, where events were gathered, one batch of them
    /// under the key of the first, or the events unsent where it has none.
    pub open spec fn serves(self, base_url: Seq<char>, taken: Seq<QueuedRequest<R>>) -> bool {
        let alone = individual_requests(taken);
        let events = batched_bodies(taken);
        &&& self.dispatches@.len() >= alone.len()
        &&& forall|i: int|
            0 <= i < alone.len() ==> (#[trigger] self.dispatches@[i]).serves(base_url, alone[i])
        &&& if events.len() == 0 {
            self.dispatches@.len() == alone.len() && self.unsent@.len() == 0
        } else {
            match spec_event_api_key(events[0]) {
                Some(api_key) => {
                    &&& self.dispatches@.len() == alone.len() + 1
                    &&& self.dispatches@[alone.len() as int].sends_batch(base_url, api_key, events)
                    &&& self.unsent@.len() == 0
                },
                None => self.dispatches@.len() == alone.len() && self.unsent@ == events,
            }
        }
    }
}

impl QueueWorkerInner {
    /// Runs one whole drain cycle on the envelopes that wait in `available`
    /// and says what to send for it, call by call.
    ///
    /// `None` means that nothing waited: the worker is done. Otherwise at
    /// most [`POSTHOG_BATCH_LIMIT`] envelopes leave the front of the queue.
    /// Those that are no fire-and-forget capture events are sent one by one
    /// in arrival order; the events are sent after them, as one batch.
    pub fn run_cycle<R>(&self, available: &mut Vec<QueuedRequest<R>>) -> (plan: Option<
        CyclePlan<R>,
    >)
        ensures
            plan is None <==> old(available)@.len() == 0,
            final(available)@ == left_by_cycle(old(available)@),
            plan matches Some(cycle) ==> cycle.serves(
                self.base_url@,
                taken_by_cycle(old(available)@),
            ),
            plan matches Some(cycle) ==> cycle.dispatches@.len() <= taken_by_cycle(
                old(available)@,
            ).len() <= POSTHOG_BATCH_LIMIT,
    {
        let cycle = match drain_cycle(available) {
            Some(cycle) => cycle,
            None => {
                return None;
            },
        };
        let ghost alone = cycle.individual@;
        let mut dispatches: Vec<Dispatch<R>> = Vec::new();
        for envelope in iter: cycle.individual
            invariant
                iter.seq() == alone,
                dispatches@.len() == iter.index(),
                forall|i: int|
                    0 <= i < iter.index() ==> (#[trigger] dispatches@[i]).serves(
                        self.base_url@,
                        alone[i],
                    ),
        {
            dispatches.push(self.handle_request(envelope));
        }
        match flush_batch(cycle.batch_capture) {
            Ok(Some(batch)) => {
                dispatches.push(self.handle_request(batch));
                Some(CyclePlan { dispatches, unsent: Vec::new() })
            },
            Ok(None) => Some(CyclePlan { dispatches, unsent: Vec::new() }),
            Err(events) => Some(CyclePlan { dispatches, unsent: events }),
        }
    }
}

/// What producers hold of a worker, as far as decisions go. The sending end
/// of the queue and the HTTP client live with the runtime that drives the
/// worker.
#[derive(Clone, Debug)]
pub struct QueueWorkerHandle {
    /// Serves the requests that bypass the queue.
    pub inner_client: QueueWorkerInner,
}

impl QueueWorkerHandle {
    /// Binds a new worker to the service at `base_url`. The task that runs
    /// its cycles is spawned by the runtime, which then calls
    /// [`QueueWorkerInner::run_cycle`] whenever the queue hands something over.
    pub fn start(base_url: String) -> (handle: QueueWorkerHandle)
        ensures
            handle.inner_client.base_url@ == base_url@,
    {
        QueueWorkerHandle { inner_client: QueueWorkerInner { base_url } }
    }

    /// Prepares a request for immediate dispatch, past the queue and its
    /// batching: exactly one call, for exactly this envelope. The runtime
    /// issues it in a task of its own.
    pub fn dispatch_request<R>(&self, request: QueuedRequest<R>) -> (dispatch: Dispatch<R>)
        ensures
            dispatch.serves(self.inner_client.base_url@, request),
    {
        self.inner_client.handle_request(request)
    }
}

} // verus!
