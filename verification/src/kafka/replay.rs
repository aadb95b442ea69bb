//! The decisions of the replay loop: each request read from the replay topic is
//! fanned out to all replicas, waiting for every one of them.
use vstd::prelude::*;
use crate::models::{DegresslyError, DegresslyRequest, HostResults};

verus! {

/// What the replay loop does next.
#[derive(Debug)]
pub enum ReplayAction {
    /// Fan the request out to the replicas.
    Dispatch { request: DegresslyRequest, wait_for_all_replicas: bool },
    /// Read the next message.
    Continue,
    /// End the loop with the error.
    Stop(DegresslyError),
}

/// The step after reading from the replay topic: a request is dispatched to
/// all replicas, waiting for every one of them; an empty read moves on; an
/// error ends the loop.
pub fn on_consumed(consumed: Result<Option<DegresslyRequest>, DegresslyError>) -> (a: ReplayAction)
    ensures
        consumed matches Ok(Some(req)) ==> a == (ReplayAction::Dispatch {
            request: req,
            wait_for_all_replicas: true,
        }),
        consumed matches Ok(None) ==> a == ReplayAction::Continue,
        consumed matches Err(e) ==> a == ReplayAction::Stop(e),
{
    match consumed {
        Ok(Some(request)) => ReplayAction::Dispatch { request, wait_for_all_replicas: true },
        Ok(None) => ReplayAction::Continue,
        Err(e) => ReplayAction::Stop(e),
    }
}

/// The step after a dispatched request was answered: the loop reads on, or
/// ends with the error of the fan-out.
pub fn on_replayed(outcome: Result<HostResults, DegresslyError>) -> (a: ReplayAction)
    ensures
        outcome is Ok ==> a == ReplayAction::Continue,
        outcome matches Err(e) ==> a == ReplayAction::Stop(e),
{
    match outcome {
        Ok(_) => ReplayAction::Continue,
        Err(e) => ReplayAction::Stop(e),
    }
}

} // verus!
