//! The settings of the relay: where to log in, and which channel plays which part.

use crate::channel::{room_id_accepted, ChannelId, ChannelRole};
use crate::error::{ErrorView, FourwarderError};
use vstd::prelude::*;

verus! {

/// What is said of an input channel that is no room identifier.
pub const INVALID_INPUT_ROOM: &'static str = "`input_room_id` is not a valid `RoomId`";

/// What is said of a moderation channel that is no room identifier.
pub const INVALID_MOD_ROOM: &'static str = "`mod_room_id` is not a valid `RoomId`";

/// What is said of an output channel that is no room identifier.
pub const INVALID_OUTPUT_ROOM: &'static str = "`output_room_id` is not a valid `RoomId`";

/// The settings as they are written down, nothing checked yet.
#[derive(Debug)]
pub struct RawConfig {
    /// The address of the homeserver.
    pub homeserver: String,
    /// The account to log in as.
    pub username: String,
    /// The password of that account.
    pub password: String,
    /// The channel to watch for messages.
    pub input_room_id: String,
    /// The channel in which moderators approve.
    pub mod_room_id: String,
    /// The channel to publish to.
    pub output_room_id: String,
}

/// The settings with the three channels validated. The three need not differ, but
/// the relay makes sense only where they do.
#[derive(Debug)]
pub struct Config {
    /// The address of the homeserver.
    pub homeserver: String,
    /// The account to log in as.
    pub username: String,
    /// The password of that account.
    pub password: String,
    /// The channel to watch for messages.
    pub input_room_id: ChannelId,
    /// The channel in which moderators approve.
    pub mod_room_id: ChannelId,
    /// The channel to publish to.
    pub output_room_id: ChannelId,
}

/// The six texts of a configuration.
pub struct ConfigView {
    pub homeserver: Seq<char>,
    pub username: Seq<char>,
    pub password: Seq<char>,
    pub input_room_id: Seq<char>,
    pub mod_room_id: Seq<char>,
    pub output_room_id: Seq<char>,
}

impl ConfigView {
    /// The channel bound to `role`.
    pub open spec fn channel(self, role: ChannelRole) -> Seq<char> {
        match role {
            ChannelRole::Input => self.input_room_id,
            ChannelRole::Moderation => self.mod_room_id,
            ChannelRole::Output => self.output_room_id,
        }
    }

    /// Whether `channel` plays any part in the relay.
    pub open spec fn uses(self, channel: Seq<char>) -> bool {
        channel == self.input_room_id || channel == self.mod_room_id || channel
            == self.output_room_id
    }
}

impl View for RawConfig {
    type V = ConfigView;

    open spec fn view(&self) -> ConfigView {
        ConfigView {
            homeserver: self.homeserver@,
            username: self.username@,
            password: self.password@,
            input_room_id: self.input_room_id@,
            mod_room_id: self.mod_room_id@,
            output_room_id: self.output_room_id@,
        }
    }
}

impl View for Config {
    type V = ConfigView;

    open spec fn view(&self) -> ConfigView {
        ConfigView {
            homeserver: self.homeserver@,
            username: self.username@,
            password: self.password@,
            input_room_id: self.input_room_id@,
            mod_room_id: self.mod_room_id@,
            output_room_id: self.output_room_id@,
        }
    }
}

/// What validating `raw` gives: the same six texts when all three channels are room
/// identifiers, and otherwise the complaint about the first that is not, in the order
/// input, moderation, output.
pub open spec fn validated(raw: ConfigView) -> Result<ConfigView, ErrorView> {
    if !room_id_accepted(raw.input_room_id) {
        Err(ErrorView::Config(INVALID_INPUT_ROOM@))
    } else if !room_id_accepted(raw.mod_room_id) {
        Err(ErrorView::Config(INVALID_MOD_ROOM@))
    } else if !room_id_accepted(raw.output_room_id) {
        Err(ErrorView::Config(INVALID_OUTPUT_ROOM@))
    } else {
        Ok(raw)
    }
}

/// The settings put together from the account values and what validation made of
/// each channel, `None` standing for a channel that did not pass: the complaint
/// about the first that did not, in the order input, moderation, output, and the
/// settings when all three passed.
pub open spec fn assembled(
    homeserver: Seq<char>,
    username: Seq<char>,
    password: Seq<char>,
    input: Option<Seq<char>>,
    moderation: Option<Seq<char>>,
    output: Option<Seq<char>>,
) -> Result<ConfigView, ErrorView> {
    match (input, moderation, output) {
        (None, _, _) => Err(ErrorView::Config(INVALID_INPUT_ROOM@)),
        (Some(_), None, _) => Err(ErrorView::Config(INVALID_MOD_ROOM@)),
        (Some(_), Some(_), None) => Err(ErrorView::Config(INVALID_OUTPUT_ROOM@)),
        (Some(input_room_id), Some(mod_room_id), Some(output_room_id)) => Ok(
            ConfigView {
                homeserver,
                username,
                password,
                input_room_id,
                mod_room_id,
                output_room_id,
            },
        ),
    }
}

/// A channel that may have failed validation, as contracts see it.
pub open spec fn channel_view(channel: Option<ChannelId>) -> Option<Seq<char>> {
    match channel {
        Some(channel) => Some(channel@),
        None => None,
    }
}

/// The outcome of validation as contracts see it.
pub open spec fn checked_view(checked: Result<Config, FourwarderError>) -> Result<
    ConfigView,
    ErrorView,
> {
    match checked {
        Ok(config) => Ok(config@),
        Err(error) => Err(error@),
    }
}

impl Config {
    /// Puts the settings together from the account values and the three channels as
    /// validation left them.
    pub fn assemble(
        homeserver: String,
        username: String,
        password: String,
        input: Option<ChannelId>,
        moderation: Option<ChannelId>,
        output: Option<ChannelId>,
    ) -> (checked: Result<Config, FourwarderError>)
        ensures
            checked_view(checked) == assembled(
                homeserver@,
                username@,
                password@,
                channel_view(input),
                channel_view(moderation),
                channel_view(output),
            ),
    {
        let input_room_id = match input {
            Some(channel) => channel,
            None => {
                return Err(FourwarderError::Config(INVALID_INPUT_ROOM));
            },
        };
        let mod_room_id = match moderation {
            Some(channel) => channel,
            None => {
                return Err(FourwarderError::Config(INVALID_MOD_ROOM));
            },
        };
        let output_room_id = match output {
            Some(channel) => channel,
            None => {
                return Err(FourwarderError::Config(INVALID_OUTPUT_ROOM));
            },
        };
        Ok(Config { homeserver, username, password, input_room_id, mod_room_id, output_room_id })
    }

    /// Validates the three channels of `raw`.
    pub fn try_from(raw: RawConfig) -> (checked: Result<Config, FourwarderError>)
        ensures
            checked_view(checked) == validated(raw@),
    {
        let input = ChannelId::parse(raw.input_room_id);
        let moderation = ChannelId::parse(raw.mod_room_id);
        let output = ChannelId::parse(raw.output_room_id);
        Config::assemble(raw.homeserver, raw.username, raw.password, input, moderation, output)
    }

    /// The channel bound to `role`.
    pub fn channel(&self, role: ChannelRole) -> (channel: &ChannelId)
        ensures
            channel@ == self@.channel(role),
    {
        match role {
            ChannelRole::Input => &self.input_room_id,
            ChannelRole::Moderation => &self.mod_room_id,
            ChannelRole::Output => &self.output_room_id,
        }
    }

    /// Whether `channel` plays any part in the relay.
    pub fn uses(&self, channel: &ChannelId) -> (used: bool)
        ensures
            used == self@.uses(channel@),
    {
        *channel == self.input_room_id || *channel == self.mod_room_id || *channel
            == self.output_room_id
    }
}

} // verus!
