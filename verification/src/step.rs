//! The shape of a handler's progress: it either asks the backend for something and
//! waits, or it is done.

use crate::backend::{Request, RequestView};
use crate::channel::EventId;
use crate::error::{ErrorView, FourwarderError};
use vstd::prelude::*;

verus! {

/// What a handler is waiting for.
#[derive(Debug)]
pub enum Pending {
    /// The copy for the moderation channel is being sent.
    Relay,
    /// Membership of the moderation channel is being confirmed, before `target` is fetched.
    Membership { target: EventId },
    /// The approved event is being fetched.
    Fetch,
    /// The approved text is being sent to the output channel.
    Publish,
}

/// Where a handler stands after a move.
#[derive(Debug)]
pub enum Step {
    /// Perform `request`, then resume with the answer and `pending`.
    Ask { request: Request, pending: Pending },
    /// The event is dealt with.
    Done(Result<(), FourwarderError>),
}

/// What a handler is waiting for, as contracts see it.
pub enum PendingView {
    Relay,
    Membership { target: Seq<char> },
    Fetch,
    Publish,
}

/// Where a handler stands, as contracts see it.
pub enum StepView {
    Ask { request: RequestView, pending: PendingView },
    Done(Result<(), ErrorView>),
}

impl View for Pending {
    type V = PendingView;

    open spec fn view(&self) -> PendingView {
        match self {
            Pending::Relay => PendingView::Relay,
            Pending::Membership { target } => PendingView::Membership { target: target@ },
            Pending::Fetch => PendingView::Fetch,
            Pending::Publish => PendingView::Publish,
        }
    }
}

impl View for Step {
    type V = StepView;

    open spec fn view(&self) -> StepView {
        match self {
            Step::Ask { request, pending } => StepView::Ask {
                request: request@,
                pending: pending@,
            },
            Step::Done(Ok(())) => StepView::Done(Ok(())),
            Step::Done(Err(error)) => StepView::Done(Err(error@)),
        }
    }
}

impl Step {
    /// The backend failure this step ended with, if it ended with one.
    pub open spec fn cause(self) -> Option<matrix_sdk::Error> {
        match self {
            Step::Done(Err(error)) => error.cause(),
            _ => None,
        }
    }
}

impl PendingView {
    /// An upper bound on the requests still to come, the awaited one included.
    pub open spec fn rank(self) -> nat {
        match self {
            PendingView::Relay => 1,
            PendingView::Membership { .. } => 3,
            PendingView::Fetch => 2,
            PendingView::Publish => 1,
        }
    }
}

impl StepView {
    /// An upper bound on the requests still to come.
    pub open spec fn rank(self) -> nat {
        match self {
            StepView::Ask { pending, .. } => pending.rank(),
            StepView::Done(_) => 0,
        }
    }
}

} // verus!
