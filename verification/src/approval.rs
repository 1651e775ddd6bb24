//! The approval handler: moderation channel to output channel.

use crate::backend::{Request, RequestView};
use crate::channel::EventId;
use crate::config::{Config, ConfigView};
use crate::error::{ErrorView, FourwarderError};
use crate::event::{FetchedEvent, FetchedView};
use crate::nesting::{deepest_nesting, nesting, MAX_NESTING};
use crate::step::{Pending, PendingView, Step, StepView};
use matrix_sdk::ruma::events::room::message::MessageType;
use matrix_sdk::ruma::events::{AnyMessageEvent, AnyRoomEvent};
use vstd::prelude::*;

verus! {

/// Said when the relay turns out not to be a member of the moderation channel.
pub const NOT_JOINED: &'static str =
    "We could not get a joined room that we definetly have joined before";

/// Said when the approved event is not a text message.
pub const NOT_TEXT: &'static str =
    "We assumed that the message being reacted to was a text message";

/// Said when the approved event nests too deeply to be decoded.
pub const TOO_DEEP: &'static str =
    "We assumed that the event being reacted to was not nested this deeply";

/// What the Matrix event library reads out of `json` taken as a room event, as far
/// as approval needs it; `None` where it does not take `json` for a room event.
pub uninterp spec fn decoded_event(json: Seq<char>) -> Option<FetchedView>;

/// Reads `json` as `AnyRoomEvent` of the Matrix event library, with
/// `serde_json::from_str`, and sorts what comes out: a room message of type text,
/// with its body; a room message of another type; or anything else. Where the text
/// is no room event, the decoder's error comes back inside the client library's
/// error type. The outcome depends on the text alone.
///
/// The decoder calls itself once for each level of nesting, and where one message
/// content holds another it starts counting the levels anew, so that nothing of its
/// own keeps it from running out of stack. Texts that nest deeper than
/// [`MAX_NESTING`] are therefore left out; up to there it needs a small part of
/// the stack of any thread.
#[verifier::external_body]
fn decode_event(json: &str) -> (decoded: Result<FetchedEvent, matrix_sdk::Error>)
    requires
        nesting(json@) <= MAX_NESTING,
    ensures
        match decoded {
            Ok(event) => decoded_event(json@) == Some(event@),
            Err(_) => decoded_event(json@) is None,
        },
{
    match serde_json::from_str::<AnyRoomEvent>(json) {
        Ok(AnyRoomEvent::Message(AnyMessageEvent::RoomMessage(message))) => {
            match message.content.msgtype {
                MessageType::Text(text) => Ok(FetchedEvent::Text { body: text.body }),
                _ => Ok(FetchedEvent::OtherMessage),
            }
        },
        Ok(_) => Ok(FetchedEvent::NotMessage),
        Err(error) => Err(matrix_sdk::Error::SerdeJson(error)),
    }
}

/// The first move of the approval handler: confirm membership of the moderation
/// channel, remembering which event is to be published.
pub open spec fn approved(config: ConfigView, target: Seq<char>) -> StepView {
    StepView::Ask {
        request: RequestView::IsJoined { channel: config.mod_room_id },
        pending: PendingView::Membership { target },
    }
}

/// The move after the membership check: fetch `target` from the moderation channel,
/// or fail because the relay is no member of it.
pub open spec fn membership_checked(
    config: ConfigView,
    target: Seq<char>,
    joined: bool,
) -> StepView {
    if joined {
        StepView::Ask {
            request: RequestView::FetchEvent { channel: config.mod_room_id, event: target },
            pending: PendingView::Fetch,
        }
    } else {
        StepView::Done(Err(ErrorView::Logic(NOT_JOINED@)))
    }
}

/// The move after the fetch, `None` standing for a failed fetch or decoding: the body
/// of a text message goes unchanged to the output channel, anything that is not a
/// text message breaks the relay's assumption, and a failure is the backend's.
pub open spec fn published(config: ConfigView, fetched: Option<FetchedView>) -> StepView {
    match fetched {
        Some(FetchedView::Text { body }) => StepView::Ask {
            request: RequestView::SendMessage { channel: config.output_room_id, body },
            pending: PendingView::Publish,
        },
        Some(_) => StepView::Done(Err(ErrorView::Logic(NOT_TEXT@))),
        None => StepView::Done(Err(ErrorView::Matrix)),
    }
}

/// The move after a fetch that brought `json`: a text that nests too deeply is not
/// decoded and breaks the relay's assumption, any other is decoded and published.
pub open spec fn fetched(config: ConfigView, json: Seq<char>) -> StepView {
    if nesting(json) > MAX_NESTING {
        StepView::Done(Err(ErrorView::Logic(TOO_DEEP@)))
    } else {
        published(config, decoded_event(json))
    }
}

/// A fetch outcome as contracts see it.
pub open spec fn fetched_view(fetched: Result<FetchedEvent, matrix_sdk::Error>) -> Option<
    FetchedView,
> {
    match fetched {
        Ok(event) => Some(event@),
        Err(_) => None,
    }
}

/// Starts the approval of the event `target` of the moderation channel.
pub fn approve(config: &Config, target: EventId) -> (step: Step)
    ensures
        step@ == approved(config@, target@),
{
    Step::Ask {
        request: Request::IsJoined { channel: config.mod_room_id.clone() },
        pending: Pending::Membership { target },
    }
}

/// Goes on after the membership check.
pub fn check_membership(config: &Config, target: EventId, joined: bool) -> (step: Step)
    ensures
        step@ == membership_checked(config@, target@, joined),
{
    if joined {
        Step::Ask {
            request: Request::FetchEvent { channel: config.mod_room_id.clone(), event: target },
            pending: Pending::Fetch,
        }
    } else {
        Step::Done(Err(FourwarderError::Logic(NOT_JOINED)))
    }
}

/// Goes on after the fetch, with the event already decoded.
pub fn publish(config: &Config, fetched: Result<FetchedEvent, matrix_sdk::Error>) -> (step: Step)
    ensures
        step@ == published(config@, fetched_view(fetched)),
        fetched matches Err(cause) ==> step.cause() == Some(cause),
{
    match fetched {
        Ok(FetchedEvent::Text { body }) => Step::Ask {
            request: Request::SendMessage { channel: config.output_room_id.clone(), body },
            pending: Pending::Publish,
        },
        Ok(_) => Step::Done(Err(FourwarderError::Logic(NOT_TEXT))),
        Err(cause) => Step::Done(Err(FourwarderError::Matrix(cause))),
    }
}

/// Goes on after the fetch: decodes the event fetched, unless it nests too deeply,
/// then publishes it.
pub fn publish_fetched(config: &Config, json: &str) -> (step: Step)
    ensures
        step@ == fetched(config@, json@),
{
    if deepest_nesting(json) > MAX_NESTING {
        Step::Done(Err(FourwarderError::Logic(TOO_DEEP)))
    } else {
        publish(config, decode_event(json))
    }
}

} // verus!
