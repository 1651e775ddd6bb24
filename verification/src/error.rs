//! The failures the relay can meet, and what becomes of the process when one occurs.

use vstd::prelude::*;

verus! {

/// `matrix_sdk::Error`, the error type of the Matrix client library. The relay hands
/// such values on and never looks inside.
#[verifier::external_type_specification]
#[verifier::external_body]
pub struct ExSdkError(matrix_sdk::Error);

/// Said when an answer does not fit the request that was pending.
pub const UNEXPECTED_ANSWER: &'static str =
    "The backend answered a question that was not asked";

/// Anything that can go wrong in the relay.
#[derive(Debug)]
pub enum FourwarderError {
    /// A configuration value failed validation.
    Config(&'static str),
    /// The chat backend rejected an operation, or the transport failed.
    Matrix(matrix_sdk::Error),
    /// An assumption the relay makes about its surroundings turned out false.
    Logic(&'static str),
}

/// The three families of failure.
#[derive(Clone, Copy, Debug, PartialEq, Eq, Structural)]
pub enum ErrorKind {
    /// Invalid configuration.
    Config,
    /// A failed backend or transport operation.
    Backend,
    /// A broken internal assumption.
    Logic,
}

/// Where in its life the process is when a failure occurs.
#[derive(Clone, Copy, Debug, PartialEq, Eq, Structural)]
pub enum Phase {
    /// Loading the configuration and establishing the session.
    Startup,
    /// Handling events, once the session stands.
    Steady,
}

/// What the process does about a failure.
#[derive(Clone, Copy, Debug, PartialEq, Eq, Structural)]
pub enum Disposition {
    /// Log it and go on with the next event.
    Report,
    /// Terminate.
    Fatal,
}

/// A failure as contracts see it: its family, and its text where the relay worded it.
/// Which backend failure it is does not show here; see [`FourwarderError::cause`].
pub enum ErrorView {
    Config(Seq<char>),
    Matrix,
    Logic(Seq<char>),
}

impl ErrorView {
    /// The family of the failure.
    pub open spec fn kind(self) -> ErrorKind {
        match self {
            ErrorView::Config(_) => ErrorKind::Config,
            ErrorView::Matrix => ErrorKind::Backend,
            ErrorView::Logic(_) => ErrorKind::Logic,
        }
    }
}

impl View for FourwarderError {
    type V = ErrorView;

    open spec fn view(&self) -> ErrorView {
        match self {
            FourwarderError::Config(message) => ErrorView::Config(message@),
            FourwarderError::Matrix(_) => ErrorView::Matrix,
            FourwarderError::Logic(message) => ErrorView::Logic(message@),
        }
    }
}

/// Whether a failure of family `kind` met in `phase` ends the process: everything does
/// while the session is being established, and afterwards only a configuration error.
pub open spec fn fatal(kind: ErrorKind, phase: Phase) -> bool {
    phase == Phase::Startup || kind == ErrorKind::Config
}

/// The text that `matrix_sdk::Error` prints of itself through `Display`. Nothing is
/// claimed of it.
#[verifier::external_body]
fn describe_backend_failure(cause: &matrix_sdk::Error) -> String {
    cause.to_string()
}

impl FourwarderError {
    /// The backend failure inside this error, if it is one.
    pub open spec fn cause(self) -> Option<matrix_sdk::Error> {
        match self {
            FourwarderError::Matrix(cause) => Some(cause),
            _ => None,
        }
    }

    /// The family this error belongs to.
    pub fn kind(&self) -> (kind: ErrorKind)
        ensures
            kind == self@.kind(),
    {
        match self {
            FourwarderError::Config(_) => ErrorKind::Config,
            FourwarderError::Matrix(_) => ErrorKind::Backend,
            FourwarderError::Logic(_) => ErrorKind::Logic,
        }
    }

    /// Decides whether the process survives this error.
    pub fn disposition(&self, phase: Phase) -> (verdict: Disposition)
        ensures
            verdict == Disposition::Fatal <==> fatal(self@.kind(), phase),
    {
        match phase {
            Phase::Startup => Disposition::Fatal,
            Phase::Steady => match self {
                FourwarderError::Config(_) => Disposition::Fatal,
                _ => Disposition::Report,
            },
        }
    }

    /// The text to show an operator. For a configuration or logic error it is the
    /// message the error was made with; for a backend failure it is whatever the
    /// client library prints.
    pub fn message(&self) -> (text: String)
        ensures
            self@ matches ErrorView::Config(message) ==> text@ == message,
            self@ matches ErrorView::Logic(message) ==> text@ == message,
    {
        match self {
            FourwarderError::Config(message) => (*message).to_owned(),
            FourwarderError::Matrix(cause) => describe_backend_failure(cause),
            FourwarderError::Logic(message) => (*message).to_owned(),
        }
    }
}

impl From<matrix_sdk::Error> for FourwarderError {
    fn from(cause: matrix_sdk::Error) -> (error: FourwarderError) {
        FourwarderError::Matrix(cause)
    }
}

impl vstd::std_specs::convert::FromSpecImpl<matrix_sdk::Error> for FourwarderError {
    open spec fn obeys_from_spec() -> bool {
        true
    }

    open spec fn from_spec(cause: matrix_sdk::Error) -> FourwarderError {
        FourwarderError::Matrix(cause)
    }
}

} // verus!
