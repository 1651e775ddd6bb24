//! The relay handler: input channel to moderation channel.

use crate::backend::{Request, RequestView};
use crate::config::{Config, ConfigView};
use crate::step::{Pending, PendingView, Step, StepView};
use vstd::prelude::*;

verus! {

/// The first move of the relay handler: one request, to post `body` unchanged to the
/// moderation channel.
pub open spec fn relayed(config: ConfigView, body: Seq<char>) -> StepView {
    StepView::Ask {
        request: RequestView::SendMessage { channel: config.mod_room_id, body },
        pending: PendingView::Relay,
    }
}

/// Starts the copy of a text message of the input channel into the moderation channel.
/// Nothing is sent back to the input channel.
pub fn relay(config: &Config, body: String) -> (step: Step)
    ensures
        step@ == relayed(config@, body@),
{
    Step::Ask {
        request: Request::SendMessage { channel: config.mod_room_id.clone(), body },
        pending: Pending::Relay,
    }
}

} // verus!
