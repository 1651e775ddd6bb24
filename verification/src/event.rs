//! The events that reach the relay.

use crate::channel::{ChannelId, EventId};
use vstd::prelude::*;

verus! {

/// The one reaction symbol that means "publish this".
pub const APPROVAL_SYMBOL: &'static str = "\u{2705}";

/// What a message holds, as far as the relay looks.
#[derive(Debug)]
pub enum MessageContent {
    /// A text message.
    Text { body: String },
    /// A message of any other type: an image, a file, a notice and so on.
    NonText,
}

/// A reaction attached to an earlier event of the same channel.
#[derive(Debug)]
pub struct Reaction {
    /// The event reacted to.
    pub relates_to: EventId,
    /// The symbol attached.
    pub symbol: String,
}

/// The part of an event that depends on its kind.
#[derive(Debug)]
pub enum Payload {
    /// A message was posted.
    Message(MessageContent),
    /// A reaction was attached to an earlier event.
    Reaction(Reaction),
    /// Every kind of event the relay never acts on.
    Other,
}

/// One event delivered by the backend.
#[derive(Debug)]
pub struct InboundEvent {
    /// The channel the event occurred in.
    pub channel: ChannelId,
    /// Who sent it.
    pub sender: String,
    /// What happened.
    pub payload: Payload,
}

/// An event fetched again from its channel, read as far as approval needs it.
#[derive(Debug)]
pub enum FetchedEvent {
    /// A text message.
    Text { body: String },
    /// A message, but not of text.
    OtherMessage,
    /// Any other room event: a state event, a redacted event, or a message-like
    /// event that is no room message, such as a reaction, a sticker, an encrypted
    /// event or a call event.
    NotMessage,
}

/// What a message holds, as contracts see it.
pub enum MessageContentView {
    Text { body: Seq<char> },
    NonText,
}

/// A reaction, as contracts see it.
pub struct ReactionView {
    pub relates_to: Seq<char>,
    pub symbol: Seq<char>,
}

/// The kind-dependent part of an event, as contracts see it.
pub enum PayloadView {
    Message(MessageContentView),
    Reaction(ReactionView),
    Other,
}

/// An event, as contracts see it.
pub struct EventView {
    pub channel: Seq<char>,
    pub sender: Seq<char>,
    pub payload: PayloadView,
}

/// A fetched event, as contracts see it.
pub enum FetchedView {
    Text { body: Seq<char> },
    OtherMessage,
    NotMessage,
}

impl View for MessageContent {
    type V = MessageContentView;

    open spec fn view(&self) -> MessageContentView {
        match self {
            MessageContent::Text { body } => MessageContentView::Text { body: body@ },
            MessageContent::NonText => MessageContentView::NonText,
        }
    }
}

impl View for Reaction {
    type V = ReactionView;

    open spec fn view(&self) -> ReactionView {
        ReactionView { relates_to: self.relates_to@, symbol: self.symbol@ }
    }
}

impl View for Payload {
    type V = PayloadView;

    open spec fn view(&self) -> PayloadView {
        match self {
            Payload::Message(content) => PayloadView::Message(content@),
            Payload::Reaction(reaction) => PayloadView::Reaction(reaction@),
            Payload::Other => PayloadView::Other,
        }
    }
}

impl View for InboundEvent {
    type V = EventView;

    open spec fn view(&self) -> EventView {
        EventView { channel: self.channel@, sender: self.sender@, payload: self.payload@ }
    }
}

impl View for FetchedEvent {
    type V = FetchedView;

    open spec fn view(&self) -> FetchedView {
        match self {
            FetchedEvent::Text { body } => FetchedView::Text { body: body@ },
            FetchedEvent::OtherMessage => FetchedView::OtherMessage,
            FetchedEvent::NotMessage => FetchedView::NotMessage,
        }
    }
}

impl Reaction {
    /// Whether this reaction carries the approval symbol.
    pub fn is_approval(&self) -> (approving: bool)
        ensures
            approving == (self@.symbol == APPROVAL_SYMBOL@),
    {
        self.symbol == APPROVAL_SYMBOL.to_owned()
    }
}

/// The approval symbol is the single character U+2705, the white heavy check mark.
pub proof fn lemma_approval_symbol_is_check_mark()
    ensures
        APPROVAL_SYMBOL@ == seq!['\u{2705}'],
{
    reveal_strlit("\u{2705}");
    assert(APPROVAL_SYMBOL@ =~= seq!['\u{2705}']);
}

} // verus!
