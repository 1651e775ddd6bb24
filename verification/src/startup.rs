//! Establishing the session: the moves from the configuration to the endless sync.
//!
//! Like a handler, the sequence asks for one operation at a time and is taken up
//! again with the outcome. It has no good end: the last operation is a sync that is
//! not meant to return.

use crate::channel::ChannelId;
use crate::config::{Config, ConfigView};
use crate::error::{ErrorView, FourwarderError, UNEXPECTED_ANSWER};
use url::Url;
use vstd::prelude::*;

verus! {

/// The name under which the relay's device is shown.
pub const DEVICE_NAME: &'static str = "4warder_bot";

/// Said when the first sync left no position to resume from.
pub const NO_SYNC_TOKEN: &'static str =
    "Could not get sync token... if we don't have it now, what's going on?";

/// Said when the sync that should run forever came back.
pub const SYNC_RETURNED: &'static str = "`client.sync` returned.";

/// The text of the URL that `Url::parse` makes of `text`; `None` where it makes none.
pub uninterp spec fn parsed_url(text: Seq<char>) -> Option<Seq<char>>;

/// Parses `text` with `Url::parse` of the URL library. Where that succeeds, the URL
/// comes back as the text it is kept as, which may differ from `text` in spelling;
/// where it fails, the parser's error comes back inside the client library's error
/// type. The outcome depends on the text alone.
#[verifier::external_body]
fn parse_url(text: &str) -> (parsed: Result<String, matrix_sdk::Error>)
    ensures
        match parsed {
            Ok(url) => parsed_url(text@) == Some(url@),
            Err(_) => parsed_url(text@) is None,
        },
{
    match Url::parse(text) {
        Ok(url) => Ok(String::from(url)),
        Err(error) => Err(matrix_sdk::Error::Url(error)),
    }
}

/// One operation of the startup sequence.
#[derive(Debug)]
pub enum StartupRequest {
    /// Make a client for the homeserver at this URL.
    Connect { homeserver: String },
    /// Log in, naming the device `device_name`.
    Login { username: String, password: String, device_name: String },
    /// Sync once, to learn of invitations.
    SyncOnce,
    /// List the channels the relay is invited to.
    ListInvitations,
    /// Accept the invitation to `channel`.
    AcceptInvitation { channel: ChannelId },
    /// Start delivering message and reaction events to the handlers.
    RegisterHandlers,
    /// Read the position the first sync ended at.
    ReadSyncToken,
    /// Sync from `token` on, for good.
    Sync { token: String },
}

/// The outcome of a [`StartupRequest`].
#[derive(Debug)]
pub enum StartupResponse {
    /// The operation ran to its end, or failed: the outcome of every request but the
    /// two that ask for a value.
    Completed(Result<(), matrix_sdk::Error>),
    /// The outcome of `ListInvitations`.
    Invitations(Vec<ChannelId>),
    /// The outcome of `ReadSyncToken`.
    SyncToken(Option<String>),
}

/// What the startup sequence is waiting for.
#[derive(Debug)]
pub enum StartupPending {
    /// The client is being made.
    Connect,
    /// The login is under way.
    Login,
    /// The first sync is under way.
    FirstSync,
    /// The invitations are being listed.
    Invitations,
    /// An invitation is being accepted; those of `rooms` from `next` on come after it.
    Accept { rooms: Vec<ChannelId>, next: usize },
    /// The handlers are being registered.
    Register,
    /// The sync position is being read.
    Token,
    /// The endless sync is running.
    Sync,
}

/// Where the startup sequence stands after a move.
#[derive(Debug)]
pub enum StartupStep {
    /// Perform `request`, then resume with its outcome and `pending`.
    Ask { request: StartupRequest, pending: StartupPending },
    /// The session could not be established, or did not last.
    Failed(FourwarderError),
}

/// A startup operation, as contracts see it.
pub enum StartupRequestView {
    Connect { homeserver: Seq<char> },
    Login { username: Seq<char>, password: Seq<char>, device_name: Seq<char> },
    SyncOnce,
    ListInvitations,
    AcceptInvitation { channel: Seq<char> },
    RegisterHandlers,
    ReadSyncToken,
    Sync { token: Seq<char> },
}

/// An outcome as contracts see it. `Completed(false)` stands for a failed operation.
pub enum StartupResponseView {
    Completed(bool),
    Invitations(Seq<Seq<char>>),
    SyncToken(Option<Seq<char>>),
}

/// What the startup sequence is waiting for, as contracts see it. Of the
/// invitations only those still to accept show.
pub enum StartupPendingView {
    Connect,
    Login,
    FirstSync,
    Invitations,
    Accept { remaining: Seq<Seq<char>> },
    Register,
    Token,
    Sync,
}

/// Where the startup sequence stands, as contracts see it.
pub enum StartupStepView {
    Ask { request: StartupRequestView, pending: StartupPendingView },
    Failed(ErrorView),
}

/// The texts of a list of channels.
pub open spec fn texts(channels: Seq<ChannelId>) -> Seq<Seq<char>> {
    Seq::new(channels.len(), |i: int| channels[i]@)
}

/// The texts of the channels of `rooms` from position `next` on.
pub open spec fn remaining(rooms: Seq<ChannelId>, next: usize) -> Seq<Seq<char>> {
    if next <= rooms.len() {
        texts(rooms).skip(next as int)
    } else {
        Seq::empty()
    }
}

impl View for StartupRequest {
    type V = StartupRequestView;

    open spec fn view(&self) -> StartupRequestView {
        match self {
            StartupRequest::Connect { homeserver } => StartupRequestView::Connect {
                homeserver: homeserver@,
            },
            StartupRequest::Login { username, password, device_name } => StartupRequestView::Login {
                username: username@,
                password: password@,
                device_name: device_name@,
            },
            StartupRequest::SyncOnce => StartupRequestView::SyncOnce,
            StartupRequest::ListInvitations => StartupRequestView::ListInvitations,
            StartupRequest::AcceptInvitation { channel } => StartupRequestView::AcceptInvitation {
                channel: channel@,
            },
            StartupRequest::RegisterHandlers => StartupRequestView::RegisterHandlers,
            StartupRequest::ReadSyncToken => StartupRequestView::ReadSyncToken,
            StartupRequest::Sync { token } => StartupRequestView::Sync { token: token@ },
        }
    }
}

impl View for StartupResponse {
    type V = StartupResponseView;

    open spec fn view(&self) -> StartupResponseView {
        match self {
            StartupResponse::Completed(outcome) => StartupResponseView::Completed(outcome is Ok),
            StartupResponse::Invitations(rooms) => StartupResponseView::Invitations(texts(rooms@)),
            StartupResponse::SyncToken(Some(token)) => StartupResponseView::SyncToken(
                Some(token@),
            ),
            StartupResponse::SyncToken(None) => StartupResponseView::SyncToken(None),
        }
    }
}

impl View for StartupPending {
    type V = StartupPendingView;

    open spec fn view(&self) -> StartupPendingView {
        match self {
            StartupPending::Connect => StartupPendingView::Connect,
            StartupPending::Login => StartupPendingView::Login,
            StartupPending::FirstSync => StartupPendingView::FirstSync,
            StartupPending::Invitations => StartupPendingView::Invitations,
            StartupPending::Accept { rooms, next } => StartupPendingView::Accept {
                remaining: remaining(rooms@, *next),
            },
            StartupPending::Register => StartupPendingView::Register,
            StartupPending::Token => StartupPendingView::Token,
            StartupPending::Sync => StartupPendingView::Sync,
        }
    }
}

impl View for StartupStep {
    type V = StartupStepView;

    open spec fn view(&self) -> StartupStepView {
        match self {
            StartupStep::Ask { request, pending } => StartupStepView::Ask {
                request: request@,
                pending: pending@,
            },
            StartupStep::Failed(error) => StartupStepView::Failed(error@),
        }
    }
}

impl StartupResponse {
    /// The failure reported, if this outcome is one.
    pub open spec fn failure(self) -> Option<matrix_sdk::Error> {
        match self {
            StartupResponse::Completed(Err(cause)) => Some(cause),
            _ => None,
        }
    }
}

impl StartupStep {
    /// The backend failure the sequence ended with, if it ended with one.
    pub open spec fn cause(self) -> Option<matrix_sdk::Error> {
        match self {
            StartupStep::Failed(error) => error.cause(),
            _ => None,
        }
    }
}

/// The invitations worth accepting: those to channels that play a part in the relay,
/// in the order they were listed.
pub open spec fn wanted(config: ConfigView, invited: Seq<Seq<char>>) -> Seq<Seq<char>> {
    invited.filter(|channel: Seq<char>| config.uses(channel))
}

/// The first move, `homeserver` being what parsing the configured address gave: make
/// a client for that URL, or give up with the parser's failure.
pub open spec fn connected(homeserver: Option<Seq<char>>) -> StartupStepView {
    match homeserver {
        Some(homeserver) => StartupStepView::Ask {
            request: StartupRequestView::Connect { homeserver },
            pending: StartupPendingView::Connect,
        },
        None => StartupStepView::Failed(ErrorView::Matrix),
    }
}

/// The move once the invitations in `remaining` are left to accept: accept the first
/// of them, or go on to register the handlers when there is none.
pub open spec fn accepting(remaining: Seq<Seq<char>>) -> StartupStepView {
    if remaining.len() == 0 {
        StartupStepView::Ask {
            request: StartupRequestView::RegisterHandlers,
            pending: StartupPendingView::Register,
        }
    } else {
        StartupStepView::Ask {
            request: StartupRequestView::AcceptInvitation { channel: remaining[0] },
            pending: StartupPendingView::Accept { remaining: remaining.skip(1) },
        }
    }
}

/// The move that follows an operation that ran to its end.
pub open spec fn advanced(config: ConfigView, pending: StartupPendingView) -> StartupStepView {
    match pending {
        StartupPendingView::Connect => StartupStepView::Ask {
            request: StartupRequestView::Login {
                username: config.username,
                password: config.password,
                device_name: DEVICE_NAME@,
            },
            pending: StartupPendingView::Login,
        },
        StartupPendingView::Login => StartupStepView::Ask {
            request: StartupRequestView::SyncOnce,
            pending: StartupPendingView::FirstSync,
        },
        StartupPendingView::FirstSync => StartupStepView::Ask {
            request: StartupRequestView::ListInvitations,
            pending: StartupPendingView::Invitations,
        },
        StartupPendingView::Accept { remaining } => accepting(remaining),
        StartupPendingView::Register => StartupStepView::Ask {
            request: StartupRequestView::ReadSyncToken,
            pending: StartupPendingView::Token,
        },
        StartupPendingView::Sync => StartupStepView::Failed(ErrorView::Logic(SYNC_RETURNED@)),
        _ => StartupStepView::Failed(ErrorView::Logic(UNEXPECTED_ANSWER@)),
    }
}

/// The move that follows `response`, given what was pending.
pub open spec fn resumed(
    config: ConfigView,
    pending: StartupPendingView,
    response: StartupResponseView,
) -> StartupStepView {
    match (pending, response) {
        (StartupPendingView::Invitations, StartupResponseView::Invitations(invited)) => accepting(
            wanted(config, invited),
        ),
        (StartupPendingView::Token, StartupResponseView::SyncToken(Some(token))) => {
            StartupStepView::Ask {
                request: StartupRequestView::Sync { token },
                pending: StartupPendingView::Sync,
            }
        },
        (StartupPendingView::Token, StartupResponseView::SyncToken(None)) => {
            StartupStepView::Failed(ErrorView::Logic(NO_SYNC_TOKEN@))
        },
        (StartupPendingView::Invitations, _) | (StartupPendingView::Token, _) => {
            StartupStepView::Failed(ErrorView::Logic(UNEXPECTED_ANSWER@))
        },
        (_, StartupResponseView::Completed(true)) => advanced(config, pending),
        (_, StartupResponseView::Completed(false)) => StartupStepView::Failed(ErrorView::Matrix),
        _ => StartupStepView::Failed(ErrorView::Logic(UNEXPECTED_ANSWER@)),
    }
}

/// Picks, in their order, the invitations to channels that play a part in the relay.
pub fn rooms_to_join(config: &Config, invited: &Vec<ChannelId>) -> (rooms: Vec<ChannelId>)
    ensures
        texts(rooms@) == wanted(config@, texts(invited@)),
{
    let mut rooms: Vec<ChannelId> = Vec::new();
    let mut i: usize = 0;
    proof {
        reveal(Seq::filter);
        assert(texts(invited@).take(0) =~= texts(rooms@));
    }
    while i < invited.len()
        invariant
            i <= invited.len(),
            texts(rooms@) == wanted(config@, texts(invited@).take(i as int)),
        decreases invited.len() - i,
    {
        let ghost before = texts(rooms@);
        let ghost seen = texts(invited@).take(i as int);
        let ghost longer = texts(invited@).take(i + 1);
        proof {
            reveal(Seq::filter);
            assert(longer.drop_last() =~= seen);
        }
        if config.uses(&invited[i]) {
            rooms.push(invited[i].clone());
            proof {
                assert(texts(rooms@) =~= before.push(invited@[i as int]@));
            }
        }
        i += 1;
    }
    proof {
        assert(texts(invited@).take(i as int) =~= texts(invited@));
    }
    rooms
}

/// The first move, given what parsing the configured address gave.
pub fn connect(homeserver: Result<String, matrix_sdk::Error>) -> (step: StartupStep)
    ensures
        step@ == connected(
            match homeserver {
                Ok(url) => Some(url@),
                Err(_) => None,
            },
        ),
        homeserver matches Err(cause) ==> step.cause() == Some(cause),
{
    match homeserver {
        Ok(homeserver) => StartupStep::Ask {
            request: StartupRequest::Connect { homeserver },
            pending: StartupPending::Connect,
        },
        Err(cause) => StartupStep::Failed(FourwarderError::Matrix(cause)),
    }
}

/// Begins the startup sequence: parses the configured homeserver address and asks
/// for a client to be made for it.
pub fn login_and_sync(config: &Config) -> (step: StartupStep)
    ensures
        step@ == connected(parsed_url(config@.homeserver)),
{
    connect(parse_url(config.homeserver.as_str()))
}

/// Accepts the invitation at position `next` of `rooms`, or goes on to register the
/// handlers when none is left.
fn accept_from(rooms: Vec<ChannelId>, next: usize) -> (step: StartupStep)
    ensures
        step@ == accepting(remaining(rooms@, next)),
{
    if next < rooms.len() {
        let channel = rooms[next].clone();
        proof {
            assert(remaining(rooms@, next)[0] == rooms@[next as int]@);
            assert(remaining(rooms@, next).skip(1) =~= remaining(rooms@, (next + 1) as usize));
        }
        StartupStep::Ask {
            request: StartupRequest::AcceptInvitation { channel },
            pending: StartupPending::Accept { rooms, next: next + 1 },
        }
    } else {
        proof {
            assert(remaining(rooms@, next) =~= Seq::empty());
        }
        StartupStep::Ask {
            request: StartupRequest::RegisterHandlers,
            pending: StartupPending::Register,
        }
    }
}

/// Goes on after an operation that ran to its end.
fn advance(config: &Config, pending: StartupPending) -> (step: StartupStep)
    ensures
        step@ == advanced(config@, pending@),
{
    match pending {
        StartupPending::Connect => StartupStep::Ask {
            request: StartupRequest::Login {
                username: config.username.clone(),
                password: config.password.clone(),
                device_name: DEVICE_NAME.to_owned(),
            },
            pending: StartupPending::Login,
        },
        StartupPending::Login => StartupStep::Ask {
            request: StartupRequest::SyncOnce,
            pending: StartupPending::FirstSync,
        },
        StartupPending::FirstSync => StartupStep::Ask {
            request: StartupRequest::ListInvitations,
            pending: StartupPending::Invitations,
        },
        StartupPending::Accept { rooms, next } => accept_from(rooms, next),
        StartupPending::Register => StartupStep::Ask {
            request: StartupRequest::ReadSyncToken,
            pending: StartupPending::Token,
        },
        StartupPending::Sync => StartupStep::Failed(FourwarderError::Logic(SYNC_RETURNED)),
        _ => StartupStep::Failed(FourwarderError::Logic(UNEXPECTED_ANSWER)),
    }
}

/// Takes the startup sequence up again with the outcome of its pending request. A
/// failure reported ends the sequence and is handed on as it came.
pub fn resume(config: &Config, pending: StartupPending, response: StartupResponse) -> (step:
    StartupStep)
    ensures
        step@ == resumed(config@, pending@, response@),
        step.cause() is Some ==> step.cause() == response.failure(),
{
    match (pending, response) {
        (StartupPending::Invitations, StartupResponse::Invitations(invited)) => {
            let rooms = rooms_to_join(config, &invited);
            proof {
                assert(remaining(rooms@, 0) =~= texts(rooms@));
            }
            accept_from(rooms, 0)
        },
        (StartupPending::Token, StartupResponse::SyncToken(Some(token))) => StartupStep::Ask {
            request: StartupRequest::Sync { token },
            pending: StartupPending::Sync,
        },
        (StartupPending::Token, StartupResponse::SyncToken(None)) => StartupStep::Failed(
            FourwarderError::Logic(NO_SYNC_TOKEN),
        ),
        (StartupPending::Invitations, _) | (StartupPending::Token, _) => StartupStep::Failed(
            FourwarderError::Logic(UNEXPECTED_ANSWER),
        ),
        (pending, StartupResponse::Completed(Ok(()))) => advance(config, pending),
        (_, StartupResponse::Completed(Err(cause))) => StartupStep::Failed(
            FourwarderError::Matrix(cause),
        ),
        _ => StartupStep::Failed(FourwarderError::Logic(UNEXPECTED_ANSWER)),
    }
}

} // verus!
