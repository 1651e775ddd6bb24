//! The event router: which handler, if any, an event is for.

use crate::channel::EventId;
use crate::config::{Config, ConfigView};
use crate::event::{
    EventView, InboundEvent, MessageContent, MessageContentView, Payload, PayloadView,
    APPROVAL_SYMBOL,
};
use vstd::prelude::*;

verus! {

/// The router's verdict on one event.
#[derive(Debug)]
pub enum Dispatch {
    /// A text message of the input channel: copy `body` to the moderation channel.
    Relay { body: String },
    /// An approval in the moderation channel: publish the event `target`.
    Approve { target: EventId },
    /// Not for the relay.
    Ignore,
}

/// The router's verdict, as contracts see it.
pub enum DispatchView {
    Relay { body: Seq<char> },
    Approve { target: Seq<char> },
    Ignore,
}

impl View for Dispatch {
    type V = DispatchView;

    open spec fn view(&self) -> DispatchView {
        match self {
            Dispatch::Relay { body } => DispatchView::Relay { body: body@ },
            Dispatch::Approve { target } => DispatchView::Approve { target: target@ },
            Dispatch::Ignore => DispatchView::Ignore,
        }
    }
}

/// The verdict on `event` under `config`: a text message goes to the relay handler
/// when it comes from the input channel, a reaction goes to the approval handler when
/// it carries the approval symbol and comes from the moderation channel, and
/// everything else is ignored.
pub open spec fn routed(config: ConfigView, event: EventView) -> DispatchView {
    match event.payload {
        PayloadView::Message(MessageContentView::Text { body }) => {
            if event.channel == config.input_room_id {
                DispatchView::Relay { body }
            } else {
                DispatchView::Ignore
            }
        },
        PayloadView::Reaction(reaction) => {
            if reaction.symbol == APPROVAL_SYMBOL@ && event.channel == config.mod_room_id {
                DispatchView::Approve { target: reaction.relates_to }
            } else {
                DispatchView::Ignore
            }
        },
        _ => DispatchView::Ignore,
    }
}

/// Classifies one event by its kind and channel.
pub fn route(config: &Config, event: InboundEvent) -> (verdict: Dispatch)
    ensures
        verdict@ == routed(config@, event@),
{
    match event.payload {
        Payload::Message(MessageContent::Text { body }) => {
            if event.channel == config.input_room_id {
                Dispatch::Relay { body }
            } else {
                Dispatch::Ignore
            }
        },
        Payload::Reaction(reaction) => {
            if reaction.is_approval() && event.channel == config.mod_room_id {
                Dispatch::Approve { target: reaction.relates_to }
            } else {
                Dispatch::Ignore
            }
        },
        _ => Dispatch::Ignore,
    }
}

} // verus!
