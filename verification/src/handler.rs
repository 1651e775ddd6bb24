//! Handling one event from start to end, a request at a time.

use crate::approval::{
    approve, approved, check_membership, fetched, membership_checked, publish, publish_fetched,
    published,
};
use crate::backend::{Response, ResponseView};
use crate::channel::EventId;
use crate::config::{Config, ConfigView};
use crate::error::{ErrorView, FourwarderError, UNEXPECTED_ANSWER};
use crate::event::{EventView, InboundEvent};
use crate::relay::{relay, relayed};
use crate::router::{route, routed, Dispatch, DispatchView};
use crate::step::{Pending, PendingView, Step, StepView};
use vstd::prelude::*;

verus! {

/// The first move on `event`: that of the handler the router picks, or done at once
/// where it picks none.
pub open spec fn started(config: ConfigView, event: EventView) -> StepView {
    match routed(config, event) {
        DispatchView::Relay { body } => relayed(config, body),
        DispatchView::Approve { target } => approved(config, target),
        DispatchView::Ignore => StepView::Done(Ok(())),
    }
}

/// How a send ended.
pub open spec fn sent(outcome: Option<Seq<char>>) -> StepView {
    match outcome {
        Some(_) => StepView::Done(Ok(())),
        None => StepView::Done(Err(ErrorView::Matrix)),
    }
}

/// The move that follows `response`, given what was pending.
pub open spec fn resumed(
    config: ConfigView,
    pending: PendingView,
    response: ResponseView,
) -> StepView {
    match (pending, response) {
        (PendingView::Relay, ResponseView::Sent(outcome)) => sent(outcome),
        (PendingView::Membership { target }, ResponseView::Joined(joined)) => membership_checked(
            config,
            target,
            joined,
        ),
        (PendingView::Fetch, ResponseView::Fetched(Some(json))) => fetched(config, json),
        (PendingView::Fetch, ResponseView::Fetched(None)) => published(config, None),
        (PendingView::Publish, ResponseView::Sent(outcome)) => sent(outcome),
        _ => StepView::Done(Err(ErrorView::Logic(UNEXPECTED_ANSWER@))),
    }
}

/// Ends a handler whose last request was a send.
fn finish_send(outcome: Result<EventId, matrix_sdk::Error>) -> (step: Step)
    ensures
        step@ == sent(
            match outcome {
                Ok(event) => Some(event@),
                Err(_) => None,
            },
        ),
        outcome matches Err(cause) ==> step.cause() == Some(cause),
{
    match outcome {
        Ok(_) => Step::Done(Ok(())),
        Err(cause) => Step::Done(Err(FourwarderError::Matrix(cause))),
    }
}

/// Takes up one event: routes it and makes the first move of its handler.
pub fn handle(config: &Config, event: InboundEvent) -> (step: Step)
    ensures
        step@ == started(config@, event@),
{
    match route(config, event) {
        Dispatch::Relay { body } => relay(config, body),
        Dispatch::Approve { target } => approve(config, target),
        Dispatch::Ignore => Step::Done(Ok(())),
    }
}

/// Takes a handler up again with the backend's answer to its pending request. A
/// failure the backend reports ends the handler and is handed on as it came.
pub fn resume(config: &Config, pending: Pending, response: Response) -> (step: Step)
    ensures
        step@ == resumed(config@, pending@, response@),
        step.cause() is Some && response.failure() is Some ==> step.cause()
            == response.failure(),
{
    match (pending, response) {
        (Pending::Relay, Response::Sent(outcome)) => finish_send(outcome),
        (Pending::Membership { target }, Response::Joined(joined)) => check_membership(
            config,
            target,
            joined,
        ),
        (Pending::Fetch, Response::Fetched(Ok(json))) => publish_fetched(config, json.as_str()),
        (Pending::Fetch, Response::Fetched(Err(cause))) => publish(config, Err(cause)),
        (Pending::Publish, Response::Sent(outcome)) => finish_send(outcome),
        _ => Step::Done(Err(FourwarderError::Logic(UNEXPECTED_ANSWER))),
    }
}

} // verus!
