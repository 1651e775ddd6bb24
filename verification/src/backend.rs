//! What the relay asks of the chat backend, and what the backend answers.

use crate::channel::{ChannelId, EventId};
use vstd::prelude::*;

verus! {

/// One operation for the backend to perform.
#[derive(Debug)]
pub enum Request {
    /// Is the relay a member of `channel`?
    IsJoined { channel: ChannelId },
    /// Fetch one event of `channel` by its identifier.
    FetchEvent { channel: ChannelId, event: EventId },
    /// Post `body` to `channel` as a new plain-text message.
    SendMessage { channel: ChannelId, body: String },
}

/// The backend's answer to a [`Request`].
#[derive(Debug)]
pub enum Response {
    /// The answer to `IsJoined`.
    Joined(bool),
    /// The answer to `FetchEvent`: the event as JSON text.
    Fetched(Result<String, matrix_sdk::Error>),
    /// The answer to `SendMessage`: the identifier of the new message.
    Sent(Result<EventId, matrix_sdk::Error>),
}

/// A request, as contracts see it.
pub enum RequestView {
    IsJoined { channel: Seq<char> },
    FetchEvent { channel: Seq<char>, event: Seq<char> },
    SendMessage { channel: Seq<char>, body: Seq<char> },
}

/// An answer as contracts see it. `None` stands for a failed operation.
pub enum ResponseView {
    Joined(bool),
    Fetched(Option<Seq<char>>),
    Sent(Option<Seq<char>>),
}

impl View for Request {
    type V = RequestView;

    open spec fn view(&self) -> RequestView {
        match self {
            Request::IsJoined { channel } => RequestView::IsJoined { channel: channel@ },
            Request::FetchEvent { channel, event } => RequestView::FetchEvent {
                channel: channel@,
                event: event@,
            },
            Request::SendMessage { channel, body } => RequestView::SendMessage {
                channel: channel@,
                body: body@,
            },
        }
    }
}

impl View for Response {
    type V = ResponseView;

    open spec fn view(&self) -> ResponseView {
        match self {
            Response::Joined(joined) => ResponseView::Joined(*joined),
            Response::Fetched(Ok(json)) => ResponseView::Fetched(Some(json@)),
            Response::Fetched(Err(_)) => ResponseView::Fetched(None),
            Response::Sent(Ok(event)) => ResponseView::Sent(Some(event@)),
            Response::Sent(Err(_)) => ResponseView::Sent(None),
        }
    }
}

impl Response {
    /// The failure the backend reported, if this answer is one.
    pub open spec fn failure(self) -> Option<matrix_sdk::Error> {
        match self {
            Response::Fetched(Err(cause)) => Some(cause),
            Response::Sent(Err(cause)) => Some(cause),
            _ => None,
        }
    }
}

} // verus!
