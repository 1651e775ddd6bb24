//! What handling an event does to the channels, whatever the backend answers.
//!
//! A handler talks to the backend in exchanges: a request and the answer to it. The
//! run of an event is the list of its exchanges and the result it ends with. A
//! message appears in a channel when the backend accepts a send to that channel.
//!
//! The backend is taken for a function from requests to answers. Nothing is lost by
//! that: no run makes the same request twice.

use crate::approval::{approved, decoded_event, NOT_JOINED, NOT_TEXT, TOO_DEEP};
use crate::backend::{RequestView, ResponseView};
use crate::config::ConfigView;
use crate::error::{fatal, ErrorView, Phase};
use crate::event::{EventView, FetchedView, MessageContentView, PayloadView, APPROVAL_SYMBOL};
use crate::handler::{resumed, started};
use crate::nesting::{nesting, MAX_NESTING};
use crate::router::{routed, DispatchView};
use crate::step::{PendingView, StepView};
use vstd::prelude::*;

verus! {

/// A request together with the backend's answer to it.
pub struct Exchange {
    pub request: RequestView,
    pub response: ResponseView,
}

/// Everything that happened while one event was handled.
pub struct Run {
    pub exchanges: Seq<Exchange>,
    pub outcome: Result<(), ErrorView>,
}

/// Every answer leaves fewer requests to come than were still to come before it.
pub proof fn lemma_resuming_lowers_rank(
    config: ConfigView,
    pending: PendingView,
    response: ResponseView,
)
    ensures
        resumed(config, pending, response).rank() < pending.rank(),
{
}

/// The run that begins at `step`, against a backend that answers `backend(request)`
/// to each request.
pub open spec fn run_from(
    config: ConfigView,
    step: StepView,
    backend: spec_fn(RequestView) -> ResponseView,
) -> Run
    decreases step.rank(),
{
    match step {
        StepView::Done(outcome) => Run { exchanges: Seq::empty(), outcome },
        StepView::Ask { request, pending } => {
            let response = backend(request);
            proof {
                lemma_resuming_lowers_rank(config, pending, response);
            }
            let rest = run_from(config, resumed(config, pending, response), backend);
            Run {
                exchanges: seq![Exchange { request, response }] + rest.exchanges,
                outcome: rest.outcome,
            }
        },
    }
}

/// The run of `event`.
pub open spec fn run(
    config: ConfigView,
    event: EventView,
    backend: spec_fn(RequestView) -> ResponseView,
) -> Run {
    run_from(config, started(config, event), backend)
}

/// The body that `exchange` made appear in `channel`, if it made one appear.
pub open spec fn posted_by(exchange: Exchange, channel: Seq<char>) -> Option<Seq<char>> {
    match (exchange.request, exchange.response) {
        (RequestView::SendMessage { channel: target, body }, ResponseView::Sent(Some(_))) => {
            if target == channel {
                Some(body)
            } else {
                None
            }
        },
        _ => None,
    }
}

/// The bodies of the messages that `exchanges` made appear in `channel`, oldest first.
pub open spec fn posted(exchanges: Seq<Exchange>, channel: Seq<char>) -> Seq<Seq<char>>
    decreases exchanges.len(),
{
    if exchanges.len() == 0 {
        Seq::empty()
    } else {
        let earlier = posted(exchanges.drop_last(), channel);
        match posted_by(exchanges.last(), channel) {
            Some(body) => earlier.push(body),
            None => earlier,
        }
    }
}

/// Whether the backend accepts a message `body` for `channel`.
pub open spec fn accepts(
    backend: spec_fn(RequestView) -> ResponseView,
    channel: Seq<char>,
    body: Seq<char>,
) -> bool {
    backend(RequestView::SendMessage { channel, body }) matches ResponseView::Sent(Some(_))
}

/// Whether the backend reports the relay as a member of `channel`.
pub open spec fn member(backend: spec_fn(RequestView) -> ResponseView, channel: Seq<char>) -> bool {
    backend(RequestView::IsJoined { channel }) == ResponseView::Joined(true)
}

/// Whether what the backend holds under the identifier `event` in `channel` nests
/// too deeply to be decoded.
pub open spec fn too_deep(
    backend: spec_fn(RequestView) -> ResponseView,
    channel: Seq<char>,
    event: Seq<char>,
) -> bool {
    backend(RequestView::FetchEvent { channel, event }) matches ResponseView::Fetched(Some(json))
        && nesting(json) > MAX_NESTING
}

/// What the backend holds under the identifier `event` in `channel`, decoded; `None`
/// where the fetch fails, or what comes back nests too deeply or does not decode.
pub open spec fn stored(
    backend: spec_fn(RequestView) -> ResponseView,
    channel: Seq<char>,
    event: Seq<char>,
) -> Option<FetchedView> {
    match backend(RequestView::FetchEvent { channel, event }) {
        ResponseView::Fetched(Some(json)) => {
            if nesting(json) > MAX_NESTING {
                None
            } else {
                decoded_event(json)
            }
        },
        _ => None,
    }
}

/// Whether `response` is the kind of answer that `request` asks for.
pub open spec fn fits(request: RequestView, response: ResponseView) -> bool {
    match (request, response) {
        (RequestView::IsJoined { .. }, ResponseView::Joined(_)) => true,
        (RequestView::FetchEvent { .. }, ResponseView::Fetched(_)) => true,
        (RequestView::SendMessage { .. }, ResponseView::Sent(_)) => true,
        _ => false,
    }
}

/// Whether the backend answers every request with the kind of answer it asks for.
pub open spec fn answers_in_kind(backend: spec_fn(RequestView) -> ResponseView) -> bool {
    forall|request: RequestView| #[trigger] fits(request, backend(request))
}

/// Whether `event` is a reaction of the moderation channel that attaches the approval
/// symbol to the event `target`.
pub open spec fn approves(config: ConfigView, event: EventView, target: Seq<char>) -> bool {
    &&& event.channel == config.mod_room_id
    &&& event.payload matches PayloadView::Reaction(reaction)
    &&& reaction.symbol == APPROVAL_SYMBOL@
    &&& reaction.relates_to == target
}

/// Whether approving the event `target` ends with a message in the output channel:
/// the relay is a member of the moderation channel, the event is a text message,
/// and the backend accepts its body for the output channel.
pub open spec fn publishes(
    config: ConfigView,
    backend: spec_fn(RequestView) -> ResponseView,
    target: Seq<char>,
) -> bool {
    &&& member(backend, config.mod_room_id)
    &&& stored(backend, config.mod_room_id, target) matches Some(FetchedView::Text { body })
    &&& accepts(backend, config.output_room_id, body)
}

/// The result an approval of the event `target` ends with.
pub open spec fn approval_outcome(
    config: ConfigView,
    backend: spec_fn(RequestView) -> ResponseView,
    target: Seq<char>,
) -> Result<(), ErrorView> {
    if !member(backend, config.mod_room_id) {
        Err(ErrorView::Logic(NOT_JOINED@))
    } else if too_deep(backend, config.mod_room_id, target) {
        Err(ErrorView::Logic(TOO_DEEP@))
    } else {
        match stored(backend, config.mod_room_id, target) {
            None => Err(ErrorView::Matrix),
            Some(FetchedView::Text { body }) => {
                if accepts(backend, config.output_room_id, body) {
                    Ok(())
                } else {
                    Err(ErrorView::Matrix)
                }
            },
            Some(_) => Err(ErrorView::Logic(NOT_TEXT@)),
        }
    }
}

/// What `posted` gives of two lists put end to end is what it gives of the first,
/// followed by what it gives of the second.
pub proof fn lemma_posted_concat(first: Seq<Exchange>, second: Seq<Exchange>, channel: Seq<char>)
    ensures
        posted(first + second, channel) == posted(first, channel) + posted(second, channel),
    decreases second.len(),
{
    if second.len() == 0 {
        assert(first + second =~= first);
        assert(posted(first, channel) + posted(second, channel) =~= posted(first, channel));
    } else {
        let whole = first + second;
        assert(whole.drop_last() =~= first + second.drop_last());
        assert(whole.last() == second.last());
        lemma_posted_concat(first, second.drop_last(), channel);
        let earlier = posted(second.drop_last(), channel);
        match posted_by(second.last(), channel) {
            Some(body) => {
                assert((posted(first, channel) + earlier).push(body) =~= posted(first, channel)
                    + earlier.push(body));
            },
            None => {},
        }
    }
}

/// Exchanges of which none posts to `channel` post nothing to it together.
pub proof fn lemma_nothing_posted(exchanges: Seq<Exchange>, channel: Seq<char>)
    requires
        forall|i: int| 0 <= i < exchanges.len() ==> posted_by(#[trigger] exchanges[i], channel)
            is None,
    ensures
        posted(exchanges, channel) == Seq::<Seq<char>>::empty(),
    decreases exchanges.len(),
{
    if exchanges.len() > 0 {
        lemma_nothing_posted(exchanges.drop_last(), channel);
    }
}

/// An approval posts to no channel but the output channel, and not to that one
/// either unless it publishes.
proof fn lemma_approval_posts_only_by_publishing(
    config: ConfigView,
    target: Seq<char>,
    backend: spec_fn(RequestView) -> ResponseView,
    channel: Seq<char>,
)
    requires
        channel != config.output_room_id || !publishes(config, backend, target),
    ensures
        posted(run_from(config, approved(config, target), backend).exchanges, channel) == Seq::<
            Seq<char>,
        >::empty(),
{
    reveal_with_fuel(run_from, 4);
    let exchanges = run_from(config, approved(config, target), backend).exchanges;
    assert forall|i: int| 0 <= i < exchanges.len() implies posted_by(
        #[trigger] exchanges[i],
        channel,
    ) is None by {}
    lemma_nothing_posted(exchanges, channel);
}

/// No run takes more than three exchanges.
pub proof fn lemma_run_is_short(
    config: ConfigView,
    event: EventView,
    backend: spec_fn(RequestView) -> ResponseView,
)
    ensures
        run(config, event, backend).exchanges.len() <= 3,
{
    reveal_with_fuel(run_from, 4);
}

/// No run makes the same request twice.
pub proof fn lemma_run_asks_nothing_twice(
    config: ConfigView,
    event: EventView,
    backend: spec_fn(RequestView) -> ResponseView,
    i: int,
    j: int,
)
    requires
        0 <= i < j < run(config, event, backend).exchanges.len(),
    ensures
        run(config, event, backend).exchanges[i].request != run(
            config,
            event,
            backend,
        ).exchanges[j].request,
{
    reveal_with_fuel(run_from, 4);
}

/// Whatever the backend answers, no event ends in a failure that stops the process:
/// a handler fails with a backend failure or a logic error, and neither is fatal once
/// the session stands.
pub proof fn lemma_handler_failures_are_not_fatal(
    config: ConfigView,
    event: EventView,
    backend: spec_fn(RequestView) -> ResponseView,
)
    ensures
        run(config, event, backend).outcome matches Err(error) ==> !fatal(
            error.kind(),
            Phase::Steady,
        ),
{
    reveal_with_fuel(run_from, 4);
}

/// An event that the router ignores causes no request and ends well.
pub proof fn lemma_ignored_event_does_nothing(
    config: ConfigView,
    event: EventView,
    backend: spec_fn(RequestView) -> ResponseView,
)
    requires
        routed(config, event) is Ignore,
    ensures
        run(config, event, backend).exchanges == Seq::<Exchange>::empty(),
        run(config, event, backend).outcome == Ok::<(), ErrorView>(()),
{
}

/// A text message of the input channel appears, with its body unchanged and once, in
/// the moderation channel, provided the backend accepts it there.
pub proof fn lemma_text_reaches_moderation(
    config: ConfigView,
    event: EventView,
    body: Seq<char>,
    backend: spec_fn(RequestView) -> ResponseView,
)
    requires
        event.channel == config.input_room_id,
        event.payload == PayloadView::Message(MessageContentView::Text { body }),
        accepts(backend, config.mod_room_id, body),
    ensures
        posted(run(config, event, backend).exchanges, config.mod_room_id) == seq![body],
        run(config, event, backend).outcome == Ok::<(), ErrorView>(()),
{
    reveal_with_fuel(run_from, 2);
    reveal_with_fuel(posted, 2);
    let exchanges = run(config, event, backend).exchanges;
    assert(exchanges.len() == 1);
    assert(exchanges.drop_last() =~= Seq::empty());
    assert(posted(exchanges, config.mod_room_id) =~= seq![body]);
}

/// A text message of the input channel makes nothing appear in the output channel.
/// Left out is the one case in which it does: the output channel is the moderation
/// channel too, and the backend accepts the copy there.
pub proof fn lemma_relay_spares_output(
    config: ConfigView,
    event: EventView,
    body: Seq<char>,
    backend: spec_fn(RequestView) -> ResponseView,
)
    requires
        event.channel == config.input_room_id,
        event.payload == PayloadView::Message(MessageContentView::Text { body }),
        config.output_room_id == config.mod_room_id ==> !accepts(
            backend,
            config.mod_room_id,
            body,
        ),
    ensures
        posted(run(config, event, backend).exchanges, config.output_room_id) == Seq::<
            Seq<char>,
        >::empty(),
{
    reveal_with_fuel(run_from, 2);
    reveal_with_fuel(posted, 2);
    let exchanges = run(config, event, backend).exchanges;
    assert(exchanges.len() == 1);
    assert(exchanges.drop_last() =~= Seq::empty());
}

/// An event of the input channel that is no text message makes nothing appear in the
/// moderation channel. Left out is the one case in which it does: one channel plays
/// all three parts, the event is an approval, and the approval publishes.
pub proof fn lemma_non_text_stays_out_of_moderation(
    config: ConfigView,
    event: EventView,
    backend: spec_fn(RequestView) -> ResponseView,
)
    requires
        event.channel == config.input_room_id,
        !(event.payload matches PayloadView::Message(MessageContentView::Text { .. })),
        routed(config, event) matches DispatchView::Approve { target } ==> config.output_room_id
            != config.mod_room_id || !publishes(config, backend, target),
    ensures
        posted(run(config, event, backend).exchanges, config.mod_room_id) == Seq::<
            Seq<char>,
        >::empty(),
{
    match routed(config, event) {
        DispatchView::Approve { target } => {
            lemma_approval_posts_only_by_publishing(config, target, backend, config.mod_room_id);
        },
        _ => {
            lemma_ignored_event_does_nothing(config, event, backend);
        },
    }
}

/// An event of a channel that is neither the input nor the moderation channel is
/// ignored: no handler runs, nothing is asked of the backend, and no error comes of it.
pub proof fn lemma_other_channels_are_ignored(
    config: ConfigView,
    event: EventView,
    backend: spec_fn(RequestView) -> ResponseView,
)
    requires
        event.channel != config.input_room_id,
        event.channel != config.mod_room_id,
    ensures
        routed(config, event) is Ignore,
        run(config, event, backend).exchanges == Seq::<Exchange>::empty(),
        run(config, event, backend).outcome == Ok::<(), ErrorView>(()),
{
    lemma_ignored_event_does_nothing(config, event, backend);
}

/// Approving a text message of the moderation channel makes its body appear,
/// unchanged and once, in the output channel, provided the relay is a member of the
/// moderation channel and the backend accepts the message for the output channel.
pub proof fn lemma_approval_publishes(
    config: ConfigView,
    event: EventView,
    target: Seq<char>,
    body: Seq<char>,
    backend: spec_fn(RequestView) -> ResponseView,
)
    requires
        approves(config, event, target),
        stored(backend, config.mod_room_id, target) == Some(FetchedView::Text { body }),
        publishes(config, backend, target),
    ensures
        posted(run(config, event, backend).exchanges, config.output_room_id) == seq![body],
        run(config, event, backend).outcome == Ok::<(), ErrorView>(()),
{
    reveal_with_fuel(run_from, 4);
    let exchanges = run(config, event, backend).exchanges;
    assert(exchanges.len() == 3);
    let asked = exchanges.drop_last();
    assert(asked.len() == 2);
    assert(posted_by(asked[0], config.output_room_id) is None);
    assert(posted_by(asked[1], config.output_room_id) is None);
    lemma_nothing_posted(asked, config.output_room_id);
    assert(posted_by(exchanges.last(), config.output_room_id) == Some(body));
    assert(posted(exchanges, config.output_room_id) =~= seq![body]);
}

/// A reaction with any other symbol than the approval symbol causes nothing: no
/// request to the backend, and so no message in the output channel.
pub proof fn lemma_other_symbols_publish_nothing(
    config: ConfigView,
    event: EventView,
    backend: spec_fn(RequestView) -> ResponseView,
)
    requires
        event.payload matches PayloadView::Reaction(reaction) && reaction.symbol
            != APPROVAL_SYMBOL@,
    ensures
        run(config, event, backend).exchanges == Seq::<Exchange>::empty(),
        posted(run(config, event, backend).exchanges, config.output_room_id) == Seq::<
            Seq<char>,
        >::empty(),
{
    lemma_ignored_event_does_nothing(config, event, backend);
}

/// Approving an event of the moderation channel that is no text message ends in a
/// logic error, and nothing appears in any channel.
pub proof fn lemma_approving_non_text_fails(
    config: ConfigView,
    event: EventView,
    target: Seq<char>,
    backend: spec_fn(RequestView) -> ResponseView,
    channel: Seq<char>,
)
    requires
        approves(config, event, target),
        stored(backend, config.mod_room_id, target) matches Some(found) && !(found is Text),
    ensures
        run(config, event, backend).outcome matches Err(ErrorView::Logic(_)),
        posted(run(config, event, backend).exchanges, channel) == Seq::<Seq<char>>::empty(),
{
    reveal_with_fuel(run_from, 4);
    let exchanges = run(config, event, backend).exchanges;
    assert forall|i: int| 0 <= i < exchanges.len() implies posted_by(
        #[trigger] exchanges[i],
        channel,
    ) is None by {}
    lemma_nothing_posted(exchanges, channel);
}

/// Approving an event of the moderation channel that nests too deeply to be decoded
/// ends in a logic error, and nothing appears in any channel.
pub proof fn lemma_approving_too_deep_fails(
    config: ConfigView,
    event: EventView,
    target: Seq<char>,
    backend: spec_fn(RequestView) -> ResponseView,
    channel: Seq<char>,
)
    requires
        approves(config, event, target),
        too_deep(backend, config.mod_room_id, target),
    ensures
        run(config, event, backend).outcome matches Err(ErrorView::Logic(_)),
        member(backend, config.mod_room_id) ==> run(config, event, backend).outcome == Err::<
            (),
            ErrorView,
        >(ErrorView::Logic(TOO_DEEP@)),
        posted(run(config, event, backend).exchanges, channel) == Seq::<Seq<char>>::empty(),
{
    reveal_with_fuel(run_from, 4);
    let exchanges = run(config, event, backend).exchanges;
    assert forall|i: int| 0 <= i < exchanges.len() implies posted_by(
        #[trigger] exchanges[i],
        channel,
    ) is None by {}
    lemma_nothing_posted(exchanges, channel);
}

/// Approval keeps no record: approving the same text message twice makes its body
/// appear twice in the output channel, whether or not the backend has changed in
/// between, as long as each approval publishes.
pub proof fn lemma_approving_twice_publishes_twice(
    config: ConfigView,
    first: EventView,
    second: EventView,
    target: Seq<char>,
    body: Seq<char>,
    before: spec_fn(RequestView) -> ResponseView,
    after: spec_fn(RequestView) -> ResponseView,
)
    requires
        approves(config, first, target),
        approves(config, second, target),
        stored(before, config.mod_room_id, target) == Some(FetchedView::Text { body }),
        stored(after, config.mod_room_id, target) == Some(FetchedView::Text { body }),
        publishes(config, before, target),
        publishes(config, after, target),
    ensures
        posted(
            run(config, first, before).exchanges + run(config, second, after).exchanges,
            config.output_room_id,
        ) == seq![body, body],
{
    lemma_approval_publishes(config, first, target, body, before);
    lemma_approval_publishes(config, second, target, body, after);
    lemma_posted_concat(
        run(config, first, before).exchanges,
        run(config, second, after).exchanges,
        config.output_room_id,
    );
    assert(seq![body] + seq![body] =~= seq![body, body]);
}

/// How an approval ends, in every case, against a backend that answers each request
/// in kind: without membership in a logic error, with an event that nests too deeply
/// in a logic error, with a failed fetch or an event that does not decode in a
/// backend failure, with an event that is no text message in a logic error, and with
/// a text message well or in a backend failure as the send to the output channel goes.
pub proof fn lemma_approval_outcome(
    config: ConfigView,
    event: EventView,
    target: Seq<char>,
    backend: spec_fn(RequestView) -> ResponseView,
)
    requires
        approves(config, event, target),
        answers_in_kind(backend),
    ensures
        run(config, event, backend).outcome == approval_outcome(config, backend, target),
{
    reveal_with_fuel(run_from, 4);
    let joined = RequestView::IsJoined { channel: config.mod_room_id };
    let fetch = RequestView::FetchEvent { channel: config.mod_room_id, event: target };
    assert(fits(joined, backend(joined)));
    assert(fits(fetch, backend(fetch)));
    match stored(backend, config.mod_room_id, target) {
        Some(FetchedView::Text { body }) => {
            let send = RequestView::SendMessage { channel: config.output_room_id, body };
            assert(fits(send, backend(send)));
        },
        _ => {},
    }
}

} // verus!
