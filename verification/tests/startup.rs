use fourwarder::channel::ChannelId;
use fourwarder::config::{Config, RawConfig};
use fourwarder::error::{Disposition, FourwarderError, Phase, UNEXPECTED_ANSWER};
use fourwarder::startup::{
    connect, login_and_sync, resume, rooms_to_join, StartupPending, StartupRequest,
    StartupResponse, StartupStep, DEVICE_NAME, NO_SYNC_TOKEN, SYNC_RETURNED,
};

fn config_at(homeserver: &str) -> Config {
    Config::try_from(RawConfig {
        homeserver: homeserver.to_string(),
        username: "relay".to_string(),
        password: "hunter2".to_string(),
        input_room_id: "!in:example.org".to_string(),
        mod_room_id: "!mod:example.org".to_string(),
        output_room_id: "!out:example.org".to_string(),
    })
    .unwrap()
}

fn config() -> Config {
    config_at("https://matrix.example.org")
}

fn channels(texts: &[&str]) -> Vec<ChannelId> {
    texts.iter().map(|t| ChannelId::parse(t.to_string()).unwrap()).collect()
}

fn texts(channels: &[ChannelId]) -> Vec<String> {
    channels.iter().map(|c| c.as_str().to_string()).collect()
}

fn done() -> StartupResponse {
    StartupResponse::Completed(Ok(()))
}

fn asked(step: StartupStep) -> (StartupRequest, StartupPending) {
    match step {
        StartupStep::Ask { request, pending } => (request, pending),
        StartupStep::Failed(error) => panic!("startup failed: {:?}", error),
    }
}

fn logic_failure(step: StartupStep) -> &'static str {
    match step {
        StartupStep::Failed(FourwarderError::Logic(message)) => message,
        other => panic!("expected a logic error, got {:?}", other),
    }
}

#[test]
fn startup_begins_by_connecting_to_the_parsed_url() {
    for (written, parsed) in [
        ("https://matrix.example.org", "https://matrix.example.org/"),
        ("https://matrix.example.org/", "https://matrix.example.org/"),
        ("HTTPS://Matrix.Example.ORG:443/base", "https://matrix.example.org/base"),
        ("http://localhost:8008", "http://localhost:8008/"),
    ] {
        match asked(login_and_sync(&config_at(written))) {
            (StartupRequest::Connect { homeserver }, StartupPending::Connect) => {
                assert_eq!(homeserver, parsed)
            }
            other => panic!("expected a connect, got {:?}", other),
        }
    }
}

#[test]
fn unparsable_homeserver_fails_startup() {
    for written in ["", "matrix.example.org", "https://", "://example.org", "https://exa mple.org"] {
        match login_and_sync(&config_at(written)) {
            StartupStep::Failed(error) => {
                assert!(matches!(error, FourwarderError::Matrix(matrix_sdk::Error::Url(_))));
                assert_eq!(error.disposition(Phase::Startup), Disposition::Fatal);
            }
            other => panic!("{:?} was taken for a URL: {:?}", written, other),
        }
    }
}

#[test]
fn connect_takes_the_url_it_is_given() {
    match asked(connect(Ok("https://example.org/".to_string()))) {
        (StartupRequest::Connect { homeserver }, StartupPending::Connect) => {
            assert_eq!(homeserver, "https://example.org/")
        }
        other => panic!("expected a connect, got {:?}", other),
    }
    assert!(matches!(
        connect(Err(matrix_sdk::Error::AuthenticationRequired)),
        StartupStep::Failed(FourwarderError::Matrix(matrix_sdk::Error::AuthenticationRequired))
    ));
}

#[test]
fn login_follows_connect_with_the_configured_account() {
    match asked(resume(&config(), StartupPending::Connect, done())) {
        (StartupRequest::Login { username, password, device_name }, StartupPending::Login) => {
            assert_eq!(username, "relay");
            assert_eq!(password, "hunter2");
            assert_eq!(device_name, "4warder_bot");
            assert_eq!(device_name, DEVICE_NAME);
        }
        other => panic!("expected a login, got {:?}", other),
    }
}

#[test]
fn sync_once_and_invitations_follow_login() {
    let (request, pending) = asked(resume(&config(), StartupPending::Login, done()));
    assert!(matches!(request, StartupRequest::SyncOnce));
    let (request, pending) = asked(resume(&config(), pending, done()));
    assert!(matches!(request, StartupRequest::ListInvitations));
    assert!(matches!(pending, StartupPending::Invitations));
}

#[test]
fn rooms_to_join_keeps_configured_rooms_in_order() {
    let invited = channels(&[
        "!out:example.org",
        "!spam:example.org",
        "!in:example.org",
        "!in:example.com",
        "!mod:example.org",
        "!out:example.org",
    ]);
    assert_eq!(
        texts(&rooms_to_join(&config(), &invited)),
        vec!["!out:example.org", "!in:example.org", "!mod:example.org", "!out:example.org"]
    );
    assert_eq!(texts(&rooms_to_join(&config(), &Vec::new())), Vec::<String>::new());
    assert_eq!(
        texts(&rooms_to_join(&config(), &channels(&["!a:example.org", "!b:example.org"]))),
        Vec::<String>::new()
    );
}

#[test]
fn wanted_invitations_are_accepted_one_by_one() {
    let invited = channels(&["!spam:example.org", "!mod:example.org", "!in:example.org"]);
    let step = resume(&config(), StartupPending::Invitations, StartupResponse::Invitations(invited));
    let (request, pending) = asked(step);
    match request {
        StartupRequest::AcceptInvitation { channel } => assert_eq!(channel.as_str(), "!mod:example.org"),
        other => panic!("expected an acceptance, got {:?}", other),
    }
    let (request, pending) = asked(resume(&config(), pending, done()));
    match request {
        StartupRequest::AcceptInvitation { channel } => assert_eq!(channel.as_str(), "!in:example.org"),
        other => panic!("expected an acceptance, got {:?}", other),
    }
    let (request, pending) = asked(resume(&config(), pending, done()));
    assert!(matches!(request, StartupRequest::RegisterHandlers));
    assert!(matches!(pending, StartupPending::Register));
}

#[test]
fn without_wanted_invitations_handlers_are_registered_at_once() {
    for invited in [Vec::new(), channels(&["!spam:example.org"])] {
        let step =
            resume(&config(), StartupPending::Invitations, StartupResponse::Invitations(invited));
        let (request, pending) = asked(step);
        assert!(matches!(request, StartupRequest::RegisterHandlers));
        assert!(matches!(pending, StartupPending::Register));
    }
}

#[test]
fn accept_position_past_the_end_moves_on() {
    let pending = StartupPending::Accept { rooms: channels(&["!in:example.org"]), next: 7 };
    let (request, _) = asked(resume(&config(), pending, done()));
    assert!(matches!(request, StartupRequest::RegisterHandlers));
}

#[test]
fn sync_follows_registration_with_the_token() {
    let (request, pending) = asked(resume(&config(), StartupPending::Register, done()));
    assert!(matches!(request, StartupRequest::ReadSyncToken));
    let token = StartupResponse::SyncToken(Some("s72594_4483_1934".to_string()));
    match asked(resume(&config(), pending, token)) {
        (StartupRequest::Sync { token }, StartupPending::Sync) => {
            assert_eq!(token, "s72594_4483_1934")
        }
        other => panic!("expected a sync, got {:?}", other),
    }
}

#[test]
fn missing_sync_token_is_a_logic_error() {
    let step = resume(&config(), StartupPending::Token, StartupResponse::SyncToken(None));
    let message = logic_failure(step);
    assert_eq!(message, "Could not get sync token... if we don't have it now, what's going on?");
    assert_eq!(message, NO_SYNC_TOKEN);
}

#[test]
fn returning_sync_is_a_logic_error() {
    let message = logic_failure(resume(&config(), StartupPending::Sync, done()));
    assert_eq!(message, "`client.sync` returned.");
    assert_eq!(message, SYNC_RETURNED);
}

#[test]
fn failed_operation_ends_startup_with_its_failure() {
    let pendings = [
        StartupPending::Connect,
        StartupPending::Login,
        StartupPending::FirstSync,
        StartupPending::Accept { rooms: channels(&["!in:example.org"]), next: 1 },
        StartupPending::Register,
        StartupPending::Sync,
    ];
    for pending in pendings {
        let failed = StartupResponse::Completed(Err(matrix_sdk::Error::AuthenticationRequired));
        match resume(&config(), pending, failed) {
            StartupStep::Failed(error) => {
                assert!(matches!(
                    error,
                    FourwarderError::Matrix(matrix_sdk::Error::AuthenticationRequired)
                ));
                assert_eq!(error.disposition(Phase::Startup), Disposition::Fatal);
            }
            other => panic!("expected a failure, got {:?}", other),
        }
    }
}

#[test]
fn startup_answer_of_the_wrong_kind_is_a_logic_error() {
    let c = config();
    let token = || StartupResponse::SyncToken(Some("t".to_string()));
    let invitations = || StartupResponse::Invitations(Vec::new());
    assert_eq!(logic_failure(resume(&c, StartupPending::Connect, token())), UNEXPECTED_ANSWER);
    assert_eq!(logic_failure(resume(&c, StartupPending::Login, invitations())), UNEXPECTED_ANSWER);
    assert_eq!(logic_failure(resume(&c, StartupPending::Invitations, done())), UNEXPECTED_ANSWER);
    assert_eq!(logic_failure(resume(&c, StartupPending::Invitations, token())), UNEXPECTED_ANSWER);
    assert_eq!(logic_failure(resume(&c, StartupPending::Token, done())), UNEXPECTED_ANSWER);
    assert_eq!(logic_failure(resume(&c, StartupPending::Token, invitations())), UNEXPECTED_ANSWER);
    assert_eq!(logic_failure(resume(&c, StartupPending::Sync, token())), UNEXPECTED_ANSWER);
    let failed = StartupResponse::Completed(Err(matrix_sdk::Error::AuthenticationRequired));
    assert_eq!(logic_failure(resume(&c, StartupPending::Token, failed)), UNEXPECTED_ANSWER);
}

#[test]
fn whole_startup_runs_in_order() {
    let c = config();
    let mut names = Vec::new();
    let mut step = login_and_sync(&c);
    loop {
        let (request, pending) = match step {
            StartupStep::Ask { request, pending } => (request, pending),
            StartupStep::Failed(error) => {
                assert!(matches!(error, FourwarderError::Logic(SYNC_RETURNED)));
                break;
            }
        };
        let response = match &request {
            StartupRequest::ListInvitations => {
                StartupResponse::Invitations(channels(&["!out:example.org", "!x:example.org"]))
            }
            StartupRequest::ReadSyncToken => StartupResponse::SyncToken(Some("s1".to_string())),
            _ => done(),
        };
        names.push(match request {
            StartupRequest::Connect { .. } => "connect",
            StartupRequest::Login { .. } => "login",
            StartupRequest::SyncOnce => "sync once",
            StartupRequest::ListInvitations => "list invitations",
            StartupRequest::AcceptInvitation { .. } => "accept",
            StartupRequest::RegisterHandlers => "register",
            StartupRequest::ReadSyncToken => "read token",
            StartupRequest::Sync { .. } => "sync",
        });
        step = resume(&c, pending, response);
    }
    assert_eq!(
        names,
        vec![
            "connect",
            "login",
            "sync once",
            "list invitations",
            "accept",
            "register",
            "read token",
            "sync"
        ]
    );
}
