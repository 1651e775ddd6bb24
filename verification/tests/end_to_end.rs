use fourwarder::backend::{Request, Response};
use fourwarder::channel::{ChannelId, EventId};
use fourwarder::config::{Config, RawConfig};
use fourwarder::error::{Disposition, ErrorKind, FourwarderError, Phase};
use fourwarder::event::{InboundEvent, MessageContent, Payload, Reaction};
use fourwarder::handler::{handle, resume};
use fourwarder::step::Step;

const INPUT: &str = "!in:example.org";
const MODERATION: &str = "!mod:example.org";
const OUTPUT: &str = "!out:example.org";

/// One event as a channel of the stand-in backend keeps it.
struct Stored {
    channel: String,
    id: String,
    msgtype: String,
    body: String,
}

/// A backend that lives in memory: channels that keep what is sent to them.
struct Backend {
    joined: Vec<String>,
    events: Vec<Stored>,
    requests: usize,
}

impl Backend {
    fn new() -> Backend {
        Backend {
            joined: vec![INPUT.to_string(), MODERATION.to_string(), OUTPUT.to_string()],
            events: Vec::new(),
            requests: 0,
        }
    }

    fn store(&mut self, channel: &str, msgtype: &str, body: &str) -> String {
        let id = format!("${}:example.org", self.events.len());
        self.events.push(Stored {
            channel: channel.to_string(),
            id: id.clone(),
            msgtype: msgtype.to_string(),
            body: body.to_string(),
        });
        id
    }

    fn bodies(&self, channel: &str) -> Vec<String> {
        self.events.iter().filter(|e| e.channel == channel).map(|e| e.body.clone()).collect()
    }

    fn last_id(&self, channel: &str) -> String {
        self.events.iter().filter(|e| e.channel == channel).last().unwrap().id.clone()
    }

    fn json(event: &Stored) -> String {
        format!(
            "{{\"type\":\"m.room.message\",\"event_id\":{},\"room_id\":{},\
             \"sender\":\"@relay:example.org\",\"origin_server_ts\":1632491098485,\
             \"content\":{{\"msgtype\":{},\"body\":{},\"url\":\"mxc://example.org/abc\"}}}}",
            serde_json::to_string(&event.id).unwrap(),
            serde_json::to_string(&event.channel).unwrap(),
            serde_json::to_string(&event.msgtype).unwrap(),
            serde_json::to_string(&event.body).unwrap()
        )
    }

    fn answer(&mut self, request: Request) -> Response {
        self.requests += 1;
        match request {
            Request::IsJoined { channel } => {
                Response::Joined(self.joined.iter().any(|j| j == channel.as_str()))
            }
            Request::FetchEvent { channel, event } => {
                let found = self
                    .events
                    .iter()
                    .find(|e| e.channel == channel.as_str() && e.id == event.as_str());
                match found {
                    Some(stored) => Response::Fetched(Ok(Backend::json(stored))),
                    None => Response::Fetched(Err(matrix_sdk::Error::AuthenticationRequired)),
                }
            }
            Request::SendMessage { channel, body } => {
                let id = self.store(channel.as_str(), "m.text", &body);
                Response::Sent(Ok(EventId::new(id)))
            }
        }
    }
}

fn config_of(input: &str, moderation: &str, output: &str) -> Config {
    Config::try_from(RawConfig {
        homeserver: "https://matrix.example.org".to_string(),
        username: "relay".to_string(),
        password: "hunter2".to_string(),
        input_room_id: input.to_string(),
        mod_room_id: moderation.to_string(),
        output_room_id: output.to_string(),
    })
    .unwrap()
}

fn config() -> Config {
    config_of(INPUT, MODERATION, OUTPUT)
}

fn event(channel: &str, payload: Payload) -> InboundEvent {
    InboundEvent {
        channel: ChannelId::parse(channel.to_string()).unwrap(),
        sender: "@alice:example.org".to_string(),
        payload,
    }
}

fn text(channel: &str, body: &str) -> InboundEvent {
    event(channel, Payload::Message(MessageContent::Text { body: body.to_string() }))
}

fn reaction(channel: &str, target: &str, symbol: &str) -> InboundEvent {
    event(
        channel,
        Payload::Reaction(Reaction {
            relates_to: EventId::new(target.to_string()),
            symbol: symbol.to_string(),
        }),
    )
}

/// Handles one event to its end against the stand-in backend.
fn deliver(config: &Config, backend: &mut Backend, event: InboundEvent) -> Result<(), FourwarderError> {
    let mut step = handle(config, event);
    let mut exchanges = 0;
    loop {
        match step {
            Step::Done(outcome) => return outcome,
            Step::Ask { request, pending } => {
                exchanges += 1;
                assert!(exchanges <= 3, "a handler asked more than three times");
                let response = backend.answer(request);
                step = resume(config, pending, response);
            }
        }
    }
}

fn none() -> Vec<String> {
    Vec::new()
}

#[test]
fn hello_world_travels_from_input_to_output_once_approved() {
    let config = config();
    let mut backend = Backend::new();

    deliver(&config, &mut backend, text(INPUT, "hello world")).unwrap();
    assert_eq!(backend.bodies(MODERATION), vec!["hello world".to_string()]);
    assert_eq!(backend.bodies(OUTPUT), none());

    let copy = backend.last_id(MODERATION);
    deliver(&config, &mut backend, reaction(MODERATION, &copy, "✅")).unwrap();
    assert_eq!(backend.bodies(OUTPUT), vec!["hello world".to_string()]);
    assert_eq!(backend.bodies(MODERATION), vec!["hello world".to_string()]);
    assert_eq!(backend.bodies(INPUT), none());
}

#[test]
fn image_in_input_is_dropped_and_later_text_still_relayed() {
    let config = config();
    let mut backend = Backend::new();

    let image = event(INPUT, Payload::Message(MessageContent::NonText));
    deliver(&config, &mut backend, image).unwrap();
    assert_eq!(backend.bodies(MODERATION), none());
    assert_eq!(backend.requests, 0);

    deliver(&config, &mut backend, text(INPUT, "first")).unwrap();
    deliver(&config, &mut backend, text(INPUT, "second")).unwrap();
    assert_eq!(backend.bodies(MODERATION), vec!["first".to_string(), "second".to_string()]);
    assert_eq!(backend.bodies(OUTPUT), none());
}

#[test]
fn every_text_body_is_relayed_exactly() {
    let config = config();
    let mut backend = Backend::new();
    let bodies = ["", "a", "  two  spaces ", "new\nline", "\"quoted\"", "✅", "日本語 🎉 \u{0}"];
    for body in bodies {
        deliver(&config, &mut backend, text(INPUT, body)).unwrap();
    }
    let expected: Vec<String> = bodies.iter().map(|b| b.to_string()).collect();
    assert_eq!(backend.bodies(MODERATION), expected);
    assert_eq!(backend.bodies(OUTPUT), none());
}

#[test]
fn events_elsewhere_touch_nothing() {
    let config = config();
    let mut backend = Backend::new();
    let kept = backend.store(MODERATION, "m.text", "waiting");
    let elsewhere = "!elsewhere:example.org";
    deliver(&config, &mut backend, text(elsewhere, "hello")).unwrap();
    deliver(&config, &mut backend, text(OUTPUT, "hello")).unwrap();
    deliver(&config, &mut backend, reaction(elsewhere, &kept, "✅")).unwrap();
    deliver(&config, &mut backend, reaction(OUTPUT, &kept, "✅")).unwrap();
    deliver(&config, &mut backend, event(elsewhere, Payload::Other)).unwrap();
    assert_eq!(backend.requests, 0);
    assert_eq!(backend.events.len(), 1);
}

#[test]
fn approval_publishes_the_body_and_other_symbols_do_not() {
    let config = config();
    let mut backend = Backend::new();
    let message = backend.store(MODERATION, "m.text", "please publish");

    deliver(&config, &mut backend, reaction(MODERATION, &message, "👍")).unwrap();
    deliver(&config, &mut backend, reaction(MODERATION, &message, "")).unwrap();
    assert_eq!(backend.bodies(OUTPUT), none());
    assert_eq!(backend.requests, 0);

    deliver(&config, &mut backend, reaction(MODERATION, &message, "✅")).unwrap();
    assert_eq!(backend.bodies(OUTPUT), vec!["please publish".to_string()]);
    assert_eq!(backend.requests, 3);
}

#[test]
fn approving_an_image_is_a_logic_error_without_effect() {
    let config = config();
    let mut backend = Backend::new();
    let image = backend.store(MODERATION, "m.image", "cat.png");

    let error = deliver(&config, &mut backend, reaction(MODERATION, &image, "✅")).unwrap_err();
    assert_eq!(error.kind(), ErrorKind::Logic);
    assert_eq!(error.disposition(Phase::Steady), Disposition::Report);
    assert_eq!(backend.bodies(OUTPUT), none());
    assert_eq!(backend.events.len(), 1);
}

#[test]
fn approving_twice_publishes_twice() {
    let config = config();
    let mut backend = Backend::new();
    let message = backend.store(MODERATION, "m.text", "again");

    deliver(&config, &mut backend, reaction(MODERATION, &message, "✅")).unwrap();
    deliver(&config, &mut backend, reaction(MODERATION, &message, "✅")).unwrap();
    assert_eq!(backend.bodies(OUTPUT), vec!["again".to_string(), "again".to_string()]);
}

#[test]
fn approving_an_unknown_event_is_a_backend_failure() {
    let config = config();
    let mut backend = Backend::new();
    let error =
        deliver(&config, &mut backend, reaction(MODERATION, "$gone:example.org", "✅")).unwrap_err();
    assert_eq!(error.kind(), ErrorKind::Backend);
    assert_eq!(error.disposition(Phase::Steady), Disposition::Report);
    assert_eq!(backend.bodies(OUTPUT), none());
}

#[test]
fn approval_refers_to_the_moderation_copy_not_the_input_event() {
    let config = config();
    let mut backend = Backend::new();
    let in_input = backend.store(INPUT, "m.text", "hello");
    deliver(&config, &mut backend, text(INPUT, "hello")).unwrap();

    let error = deliver(&config, &mut backend, reaction(MODERATION, &in_input, "✅")).unwrap_err();
    assert_eq!(error.kind(), ErrorKind::Backend);
    assert_eq!(backend.bodies(OUTPUT), none());
}

#[test]
fn approval_when_not_joined_is_a_logic_error_without_fetch() {
    let config = config();
    let mut backend = Backend::new();
    let message = backend.store(MODERATION, "m.text", "pending");
    backend.joined.retain(|channel| channel != MODERATION);

    let error = deliver(&config, &mut backend, reaction(MODERATION, &message, "✅")).unwrap_err();
    assert_eq!(error.kind(), ErrorKind::Logic);
    assert_eq!(backend.requests, 1);
    assert_eq!(backend.bodies(OUTPUT), none());
}

#[test]
fn shared_moderation_and_output_channel_receives_both_copies() {
    let config = config_of(INPUT, MODERATION, MODERATION);
    let mut backend = Backend::new();
    deliver(&config, &mut backend, text(INPUT, "echo")).unwrap();
    let copy = backend.last_id(MODERATION);
    deliver(&config, &mut backend, reaction(MODERATION, &copy, "✅")).unwrap();
    assert_eq!(backend.bodies(MODERATION), vec!["echo".to_string(), "echo".to_string()]);
}
