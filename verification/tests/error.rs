use fourwarder::error::{Disposition, ErrorKind, FourwarderError, Phase};

fn backend_failure() -> FourwarderError {
    FourwarderError::Matrix(matrix_sdk::Error::AuthenticationRequired)
}

#[test]
fn every_error_has_its_kind() {
    assert_eq!(FourwarderError::Config("bad value").kind(), ErrorKind::Config);
    assert_eq!(backend_failure().kind(), ErrorKind::Backend);
    assert_eq!(FourwarderError::Logic("broken assumption").kind(), ErrorKind::Logic);
}

#[test]
fn everything_is_fatal_during_startup() {
    assert_eq!(FourwarderError::Config("bad").disposition(Phase::Startup), Disposition::Fatal);
    assert_eq!(backend_failure().disposition(Phase::Startup), Disposition::Fatal);
    assert_eq!(FourwarderError::Logic("odd").disposition(Phase::Startup), Disposition::Fatal);
}

#[test]
fn handler_failures_are_only_reported() {
    assert_eq!(backend_failure().disposition(Phase::Steady), Disposition::Report);
    assert_eq!(FourwarderError::Logic("odd").disposition(Phase::Steady), Disposition::Report);
}

#[test]
fn config_error_is_always_fatal() {
    assert_eq!(FourwarderError::Config("bad").disposition(Phase::Steady), Disposition::Fatal);
}

#[test]
fn message_of_config_and_logic_errors_is_their_text() {
    assert_eq!(FourwarderError::Config("bad value").message(), "bad value");
    assert_eq!(FourwarderError::Logic("broken assumption").message(), "broken assumption");
    assert_eq!(FourwarderError::Logic("").message(), "");
}

#[test]
fn message_of_backend_failure_is_the_clients_wording() {
    assert_eq!(
        backend_failure().message(),
        "the queried endpoint requires authentication but was called before logging in"
    );
    let parse_failure = matrix_sdk::Error::Url(url::ParseError::EmptyHost);
    assert_eq!(FourwarderError::Matrix(parse_failure).message(), "empty host");
}

#[test]
fn backend_failure_converts_into_matrix_error() {
    let error = FourwarderError::from(matrix_sdk::Error::AuthenticationRequired);
    assert!(matches!(error, FourwarderError::Matrix(matrix_sdk::Error::AuthenticationRequired)));
    let error: FourwarderError = matrix_sdk::Error::AuthenticationRequired.into();
    assert_eq!(error.kind(), ErrorKind::Backend);
}
