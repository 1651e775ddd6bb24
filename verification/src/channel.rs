//! Channel roles, and the identifiers of channels and events.

use matrix_sdk::ruma::RoomId;
use vstd::prelude::*;

verus! {

/// The part a channel plays in the relay.
#[derive(Clone, Copy, Debug, PartialEq, Eq, Structural)]
pub enum ChannelRole {
    /// Where untrusted messages arrive.
    Input,
    /// Where moderators look at copies of them.
    Moderation,
    /// Where approved messages are published.
    Output,
}

/// Whether `RoomId::try_from` takes `text` for a room identifier.
pub uninterp spec fn room_id_accepted(text: Seq<char>) -> bool;

/// Asks `RoomId::try_from` of the Matrix identifier library whether `text` is a room
/// identifier: at most 255 bytes that begin with `!` and hold a colon with a server
/// name behind it. The answer depends on the text alone, and the call always returns.
#[verifier::external_body]
fn is_room_id(text: &str) -> (accepted: bool)
    ensures
        accepted == room_id_accepted(text@),
{
    match RoomId::try_from(text) {
        Ok(_) => true,
        Err(_) => false,
    }
}

/// The identifier of a channel. Every value holds a text that passed validation.
#[derive(Debug)]
pub struct ChannelId {
    id: String,
}

impl View for ChannelId {
    type V = Seq<char>;

    closed spec fn view(&self) -> Seq<char> {
        self.id@
    }
}

impl ChannelId {
    #[verifier::type_invariant]
    spec fn well_formed(self) -> bool {
        room_id_accepted(self.id@)
    }

    /// Validates `text` as a channel identifier.
    pub fn parse(text: String) -> (parsed: Option<ChannelId>)
        ensures
            parsed is Some <==> room_id_accepted(text@),
            parsed matches Some(channel) ==> channel@ == text@,
    {
        if is_room_id(text.as_str()) {
            Some(ChannelId { id: text })
        } else {
            None
        }
    }

    /// The identifier as text.
    pub fn as_str(&self) -> (text: &str)
        ensures
            text@ == self@,
            room_id_accepted(text@),
    {
        proof {
            use_type_invariant(self);
        }
        self.id.as_str()
    }
}

impl Clone for ChannelId {
    fn clone(&self) -> (copy: ChannelId)
        ensures
            copy@ == self@,
    {
        proof {
            use_type_invariant(self);
        }
        ChannelId { id: self.id.clone() }
    }
}

impl PartialEq for ChannelId {
    fn eq(&self, other: &ChannelId) -> (equal: bool) {
        self.id == other.id
    }
}

impl Eq for ChannelId {}

impl vstd::std_specs::cmp::PartialEqSpecImpl for ChannelId {
    open spec fn obeys_eq_spec() -> bool {
        true
    }

    open spec fn eq_spec(&self, other: &ChannelId) -> bool {
        self@ == other@
    }
}

/// The identifier of an event, as the backend gave it.
#[derive(Debug)]
pub struct EventId {
    id: String,
}

impl View for EventId {
    type V = Seq<char>;

    closed spec fn view(&self) -> Seq<char> {
        self.id@
    }
}

impl EventId {
    /// Wraps the text of an event identifier.
    pub fn new(text: String) -> (event: EventId)
        ensures
            event@ == text@,
    {
        EventId { id: text }
    }

    /// The identifier as text.
    pub fn as_str(&self) -> (text: &str)
        ensures
            text@ == self@,
    {
        self.id.as_str()
    }
}

impl Clone for EventId {
    fn clone(&self) -> (copy: EventId)
        ensures
            copy@ == self@,
    {
        EventId { id: self.id.clone() }
    }
}

} // verus!
