//! The command worker's request queue and its replies.
//!
//! The worker is strictly single-threaded: it takes the oldest pending
//! request, performs the one external fetch for it, and reports that fetch's
//! outcome as a single event, before it looks at the next request.  A request
//! issued while a fetch is in flight therefore queues behind it rather than
//! pre-empting it, and the results of two fetches are never merged into one
//! reply.  The external fetch itself happens outside the crate and comes back
//! as a plain `FetchOutcome`.

use vstd::prelude::*;

use crate::event::{record_views, EventModel, OutgoingRequest, UiEvent};

verus! {

/// Outcome of one external fetch, as plain values: the raw `(title, detail)`
/// records on success, the reason on failure.
#[derive(Debug)]
pub enum FetchOutcome {
    Success(Vec<(String, String)>),
    Failure(String),
}

/// Mathematical model of a `FetchOutcome`.
pub enum FetchOutcomeModel {
    Success(Seq<(Seq<char>, Seq<char>)>),
    Failure(Seq<char>),
}

impl View for FetchOutcome {
    type V = FetchOutcomeModel;

    open spec fn view(&self) -> FetchOutcomeModel {
        match self {
            FetchOutcome::Success(rs) => FetchOutcomeModel::Success(record_views(rs@)),
            FetchOutcome::Failure(reason) => FetchOutcomeModel::Failure(reason@),
        }
    }
}

/// The event that reports the outcome of one fetch: the whole new list on
/// success, the failure reason otherwise.
pub open spec fn response_model(o: FetchOutcomeModel) -> EventModel {
    match o {
        FetchOutcomeModel::Success(rs) => EventModel::DataRefreshed(rs),
        FetchOutcomeModel::Failure(reason) => EventModel::FetchFailed(reason),
    }
}

/// Wraps one fetch outcome as the single event sent back on the dispatcher.
/// A failure becomes data on the normal event path instead of ending the
/// worker, so the render loop can display it; the worker keeps serving.
pub fn response_event(outcome: FetchOutcome) -> (e: UiEvent)
    ensures
        e@ == response_model(outcome@),
{
    match outcome {
        FetchOutcome::Success(records) => UiEvent::DataRefreshed(records),
        FetchOutcome::Failure(reason) => UiEvent::FetchFailed(reason),
    }
}

/// The command worker's request queue, oldest request first.
#[derive(Debug)]
pub struct CommandWorker {
    pub requests: Vec<OutgoingRequest>,
}

impl View for CommandWorker {
    type V = Seq<OutgoingRequest>;

    open spec fn view(&self) -> Seq<OutgoingRequest> {
        self.requests@
    }
}

impl CommandWorker {
    /// A worker with an empty request queue.
    pub fn new() -> (r: Self)
        ensures
            r@ == Seq::<OutgoingRequest>::empty(),
    {
        CommandWorker { requests: Vec::new() }
    }

    /// How many requests are pending.
    pub fn pending(&self) -> (n: usize)
        ensures
            n == self@.len(),
    {
        self.requests.len()
    }

    /// Queues one request behind the ones already pending.  A request that
    /// arrives while an earlier one is still being served waits its turn.
    pub fn submit(&mut self, request: OutgoingRequest)
        ensures
            final(self)@ == old(self)@.push(request),
    {
        self.requests.push(request);
    }

    /// Takes the oldest pending request to serve next; the rest keep their
    /// order.  `None` only when nothing is pending.
    pub fn take_next(&mut self) -> (r: Option<OutgoingRequest>)
        ensures
            old(self)@.len() == 0 ==> r is None && final(self)@ == old(self)@,
            old(self)@.len() > 0 ==> r == Some(old(self)@[0]) && final(self)@ == old(self)@.skip(
                1,
            ),
    {
        if self.requests.len() == 0 {
            None
        } else {
            let r = self.requests.remove(0);
            proof {
                assert(self.requests@ =~= old(self).requests@.skip(1));
            }
            Some(r)
        }
    }
}

} // verus!
