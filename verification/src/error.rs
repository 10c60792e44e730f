//! Outcome kinds, the backend's error codes and how they are classified, and
//! the errors that end a worker or the bootstrap.

use vstd::prelude::*;
use vstd::string::StringExecFns;

verus! {

/// What a dispatched operation ended in. Every dispatched operation ends in
/// exactly one of these.
#[derive(Debug, Clone, Copy, PartialEq, Eq, Structural)]
pub enum OutcomeKind {
    Success,
    Exception,
    Timeout,
    RateLimited,
    BackendTimeout,
}

/// The failure of one request, as a worker reports it.
#[derive(Debug, Clone, Copy, PartialEq, Eq, Structural)]
pub enum ResponseError {
    /// The backend answered with an error of no special kind.
    Exception,
    /// The dispatcher's deadline passed before the backend answered.
    Timeout,
    /// The backend refused the request because a limit was exceeded.
    Ratelimited,
    /// The backend gave up on the request after its own timeout.
    BackendTimeout,
}

/// The closed set of error codes that the backend client reports.
#[derive(Debug, Clone, Copy, PartialEq, Eq, Structural)]
pub enum BackendError {
    InvalidArgument,
    UnknownService,
    AlreadyExists,
    CacheNotFound,
    StoreNotFound,
    ItemNotFound,
    InternalServer,
    Permission,
    Authentication,
    Cancelled,
    /// Request rate, bandwidth or object size went over the account's limits.
    LimitExceeded,
    BadRequest,
    /// The backend's own deadline for the request was exceeded.
    Timeout,
    ServerUnavailable,
    ClientResourceExhausted,
    FailedPrecondition,
    Unknown,
    Miss,
    Type,
}

impl BackendError {
    /// The outcome that a backend error counts as: the two codes that name a
    /// cause of their own are kept apart, every other code is an exception.
    pub open spec fn outcome(self) -> OutcomeKind {
        if self == BackendError::LimitExceeded {
            OutcomeKind::RateLimited
        } else if self == BackendError::Timeout {
            OutcomeKind::BackendTimeout
        } else {
            OutcomeKind::Exception
        }
    }

    /// Classifies a backend error.
    pub fn classify(self) -> (kind: OutcomeKind)
        ensures
            kind == self.outcome(),
    {
        match self {
            BackendError::LimitExceeded => OutcomeKind::RateLimited,
            BackendError::Timeout => OutcomeKind::BackendTimeout,
            _ => OutcomeKind::Exception,
        }
    }
}

impl OutcomeKind {
    /// The result that a worker reports for this outcome.
    pub open spec fn result(self) -> Result<(), ResponseError> {
        match self {
            OutcomeKind::Success => Ok(()),
            OutcomeKind::Exception => Err(ResponseError::Exception),
            OutcomeKind::Timeout => Err(ResponseError::Timeout),
            OutcomeKind::RateLimited => Err(ResponseError::Ratelimited),
            OutcomeKind::BackendTimeout => Err(ResponseError::BackendTimeout),
        }
    }

    /// Turns the outcome into the result that a worker reports.
    pub fn into_result(self) -> (r: Result<(), ResponseError>)
        ensures
            r == self.result(),
    {
        match self {
            OutcomeKind::Success => Ok(()),
            OutcomeKind::Exception => Err(ResponseError::Exception),
            OutcomeKind::Timeout => Err(ResponseError::Timeout),
            OutcomeKind::RateLimited => Err(ResponseError::Ratelimited),
            OutcomeKind::BackendTimeout => Err(ResponseError::BackendTimeout),
        }
    }
}

/// Why a worker ended other than by shutdown.
#[derive(Debug, Clone, Copy, PartialEq, Eq, Structural)]
pub enum WorkerError {
    /// The queue of work items was closed: its producers are gone.
    ChannelClosed,
}

impl WorkerError {
    /// The text of the error.
    pub fn message(&self) -> (text: String)
        ensures
            text@ == "channel closed"@,
    {
        String::from_str("channel closed")
    }
}

/// A failure while the pool is set up. Any of them invalidates the whole
/// run: the caller prints the diagnostic and ends the process.
#[derive(Debug, PartialEq, Eq)]
pub enum BootstrapError {
    /// The configuration has no section for the store.
    MissingStoreConfig,
    /// The store section names no store.
    MissingStoreName,
    /// `poolsize` is zero.
    InvalidPoolsize,
    /// `concurrency` is zero.
    InvalidConcurrency,
    /// The store's name is empty.
    EmptyStoreName,
    /// `request_timeout` is zero.
    InvalidRequestTimeout,
    /// No credential was found in the environment.
    MissingCredential,
    /// The credential was found but is not valid; the text is the client's.
    InvalidCredential(String),
    /// The client could not be built; the text is the client's.
    ClientBuild(String),
}

impl BootstrapError {
    /// The diagnostic of the error, as a sequence of characters.
    pub open spec fn diagnostic_text(self) -> Seq<char> {
        match self {
            BootstrapError::MissingStoreConfig => "store configuration was not specified"@,
            BootstrapError::MissingStoreName =>
                "store name is not specified in the `store` section"@,
            BootstrapError::InvalidPoolsize => "poolsize must be positive"@,
            BootstrapError::InvalidConcurrency => "concurrency must be positive"@,
            BootstrapError::EmptyStoreName => "store name must not be empty"@,
            BootstrapError::InvalidRequestTimeout => "request timeout must be positive"@,
            BootstrapError::MissingCredential =>
                "environment variable `MOMENTO_API_KEY` is not set"@,
            BootstrapError::InvalidCredential(detail) =>
                "MOMENTO_API_KEY key should be valid: "@ + detail@,
            BootstrapError::ClientBuild(detail) =>
                "could not create storage client: "@ + detail@,
        }
    }

    /// The diagnostic that the caller prints before it ends the process.
    pub fn diagnostic(&self) -> (text: String)
        ensures
            text@ == self.diagnostic_text(),
    {
        match self {
            BootstrapError::MissingStoreConfig => String::from_str(
                "store configuration was not specified",
            ),
            BootstrapError::MissingStoreName => String::from_str(
                "store name is not specified in the `store` section",
            ),
            BootstrapError::InvalidPoolsize => String::from_str("poolsize must be positive"),
            BootstrapError::InvalidConcurrency => String::from_str(
                "concurrency must be positive",
            ),
            BootstrapError::EmptyStoreName => String::from_str("store name must not be empty"),
            BootstrapError::InvalidRequestTimeout => String::from_str(
                "request timeout must be positive",
            ),
            BootstrapError::MissingCredential => String::from_str(
                "environment variable `MOMENTO_API_KEY` is not set",
            ),
            BootstrapError::InvalidCredential(detail) => String::from_str(
                "MOMENTO_API_KEY key should be valid: ",
            ).concat(detail.as_str()),
            BootstrapError::ClientBuild(detail) => String::from_str(
                "could not create storage client: ",
            ).concat(detail.as_str()),
        }
    }
}

} // verus!
