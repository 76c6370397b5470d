//! The failures that the client reports, and the remote status codes that
//! some of them carry.

use vstd::prelude::*;
use vstd::string::*;

verus! {

/// The status codes of the remote procedure protocol.
#[derive(Clone, Copy, Debug, PartialEq, Eq, Structural)]
pub enum Code {
    Success,
    Cancelled,
    Unknown,
    InvalidArgument,
    DeadlineExceeded,
    NotFound,
    AlreadyExists,
    PermissionDenied,
    ResourceExhausted,
    FailedPrecondition,
    Aborted,
    OutOfRange,
    Unimplemented,
    Internal,
    Unavailable,
    DataLoss,
    Unauthenticated,
}

impl Code {
    /// The number that stands for this code on the wire.
    pub open spec fn number(self) -> int {
        match self {
            Code::Success => 0,
            Code::Cancelled => 1,
            Code::Unknown => 2,
            Code::InvalidArgument => 3,
            Code::DeadlineExceeded => 4,
            Code::NotFound => 5,
            Code::AlreadyExists => 6,
            Code::PermissionDenied => 7,
            Code::ResourceExhausted => 8,
            Code::FailedPrecondition => 9,
            Code::Aborted => 10,
            Code::OutOfRange => 11,
            Code::Unimplemented => 12,
            Code::Internal => 13,
            Code::Unavailable => 14,
            Code::DataLoss => 15,
            Code::Unauthenticated => 16,
        }
    }

    /// The code that a wire number stands for. A number that names no code
    /// reads as `Unknown`.
    pub open spec fn of_number(i: int) -> Code {
        if i == 0 {
            Code::Success
        } else if i == 1 {
            Code::Cancelled
        } else if i == 3 {
            Code::InvalidArgument
        } else if i == 4 {
            Code::DeadlineExceeded
        } else if i == 5 {
            Code::NotFound
        } else if i == 6 {
            Code::AlreadyExists
        } else if i == 7 {
            Code::PermissionDenied
        } else if i == 8 {
            Code::ResourceExhausted
        } else if i == 9 {
            Code::FailedPrecondition
        } else if i == 10 {
            Code::Aborted
        } else if i == 11 {
            Code::OutOfRange
        } else if i == 12 {
            Code::Unimplemented
        } else if i == 13 {
            Code::Internal
        } else if i == 14 {
            Code::Unavailable
        } else if i == 15 {
            Code::DataLoss
        } else if i == 16 {
            Code::Unauthenticated
        } else {
            Code::Unknown
        }
    }

    /// Reads a code from its wire number; an unassigned number reads as
    /// `Unknown`.
    pub fn from_i32(i: i32) -> (code: Code)
        ensures
            code == Code::of_number(i as int),
    {
        match i {
            0 => Code::Success,
            1 => Code::Cancelled,
            3 => Code::InvalidArgument,
            4 => Code::DeadlineExceeded,
            5 => Code::NotFound,
            6 => Code::AlreadyExists,
            7 => Code::PermissionDenied,
            8 => Code::ResourceExhausted,
            9 => Code::FailedPrecondition,
            10 => Code::Aborted,
            11 => Code::OutOfRange,
            12 => Code::Unimplemented,
            13 => Code::Internal,
            14 => Code::Unavailable,
            15 => Code::DataLoss,
            16 => Code::Unauthenticated,
            _ => Code::Unknown,
        }
    }

    /// The wire number of this code.
    pub fn to_i32(self) -> (i: i32)
        ensures
            i == self.number(),
    {
        match self {
            Code::Success => 0,
            Code::Cancelled => 1,
            Code::Unknown => 2,
            Code::InvalidArgument => 3,
            Code::DeadlineExceeded => 4,
            Code::NotFound => 5,
            Code::AlreadyExists => 6,
            Code::PermissionDenied => 7,
            Code::ResourceExhausted => 8,
            Code::FailedPrecondition => 9,
            Code::Aborted => 10,
            Code::OutOfRange => 11,
            Code::Unimplemented => 12,
            Code::Internal => 13,
            Code::Unavailable => 14,
            Code::DataLoss => 15,
            Code::Unauthenticated => 16,
        }
    }
}

/// What a remote call answered when it did not succeed: a code and a
/// message for people.
#[derive(Debug, PartialEq, Eq)]
pub struct Status {
    pub code: Code,
    pub message: String,
}

/// The mathematical content of a [`Status`].
pub ghost struct StatusModel {
    pub code: Code,
    pub message: Seq<char>,
}

impl View for Status {
    type V = StatusModel;

    open spec fn view(&self) -> StatusModel {
        StatusModel { code: self.code, message: self.message@ }
    }
}

impl Status {
    /// A status with the given code and message.
    pub fn new(code: Code, message: String) -> (status: Status)
        ensures
            status.code == code,
            status.message == message,
    {
        Status { code, message }
    }

    /// The code of this status.
    pub fn code(&self) -> (code: Code)
        ensures
            code == self.code,
    {
        self.code
    }

    /// The message of this status.
    pub fn message(&self) -> (message: &str)
        ensures
            message@ == self.message@,
    {
        self.message.as_str()
    }
}

/// Why an operation of the client failed.
#[derive(Debug, PartialEq, Eq)]
pub enum Error {
    /// The client was used in a way that it does not support.
    Client(String),
    /// The connection settings are not usable.
    Config(String),
    /// A value could not be converted from or to its wire form.
    Codec(String),
    /// Credentials could not be obtained.
    Auth(String),
    /// The channel to the service could not be set up.
    TransportError(String),
    /// The service answered a call with a status other than success.
    Status(Status),
}

/// The mathematical content of an [`Error`].
pub ghost enum ErrorModel {
    Client(Seq<char>),
    Config(Seq<char>),
    Codec(Seq<char>),
    Auth(Seq<char>),
    TransportError(Seq<char>),
    Status(StatusModel),
}

impl View for Error {
    type V = ErrorModel;

    open spec fn view(&self) -> ErrorModel {
        match self {
            Error::Client(m) => ErrorModel::Client(m@),
            Error::Config(m) => ErrorModel::Config(m@),
            Error::Codec(m) => ErrorModel::Codec(m@),
            Error::Auth(m) => ErrorModel::Auth(m@),
            Error::TransportError(m) => ErrorModel::TransportError(m@),
            Error::Status(s) => ErrorModel::Status(s@),
        }
    }
}

impl Error {
    /// Whether this is the remote answer that a transaction lost a conflict
    /// and has to be run again.
    pub open spec fn is_aborted(self) -> bool {
        self matches Error::Status(status) && status.code == Code::Aborted
    }

    /// Tells a lost conflict apart from every other failure.
    pub fn aborted(&self) -> (r: bool)
        ensures
            r == self.is_aborted(),
    {
        match self {
            Error::Status(status) => status.code == Code::Aborted,
            _ => false,
        }
    }

    /// A copy of this error.
    pub fn duplicate(&self) -> (r: Error)
        ensures
            r@ == self@,
    {
        match self {
            Error::Client(m) => Error::Client(m.clone()),
            Error::Config(m) => Error::Config(m.clone()),
            Error::Codec(m) => Error::Codec(m.clone()),
            Error::Auth(m) => Error::Auth(m.clone()),
            Error::TransportError(m) => Error::TransportError(m.clone()),
            Error::Status(s) => Error::Status(Status { code: s.code, message: s.message.clone() }),
        }
    }

    /// The text that describes this error to people.
    pub open spec fn text(self) -> Seq<char> {
        match self {
            Error::Client(m) => "spanner client error: "@ + m@,
            Error::Config(m) => "configuration error: "@ + m@,
            Error::Codec(m) => "codec error: "@ + m@,
            Error::Auth(m) => "authentication error: "@ + m@,
            Error::TransportError(m) => "transport error: "@ + m@,
            Error::Status(s) => "unexpected gRPC status: "@ + s.message@,
        }
    }

    /// Describes this error to people.
    pub fn describe(&self) -> (r: String)
        ensures
            r@ == self.text(),
    {
        match self {
            Error::Client(m) => String::from_str("spanner client error: ").concat(m.as_str()),
            Error::Config(m) => String::from_str("configuration error: ").concat(m.as_str()),
            Error::Codec(m) => String::from_str("codec error: ").concat(m.as_str()),
            Error::Auth(m) => String::from_str("authentication error: ").concat(m.as_str()),
            Error::TransportError(m) => String::from_str("transport error: ").concat(m.as_str()),
            Error::Status(s) => String::from_str("unexpected gRPC status: ").concat(
                s.message.as_str(),
            ),
        }
    }
}

/// What the session pool reports when no session could be handed out.
#[derive(Debug, PartialEq, Eq)]
pub enum RunError {
    /// Creating a session failed with this error.
    User(Error),
    /// No session became free in time.
    TimedOut,
}

impl Error {
    /// The error that the caller sees for a failure of the session pool.
    pub open spec fn of_pool_failure(failure: RunError) -> ErrorModel {
        match failure {
            RunError::User(error) => error@,
            RunError::TimedOut => ErrorModel::Client("timeout while obtaining new session"@),
        }
    }

    /// Turns a failure of the session pool into the error that the caller
    /// sees: the pool's own time-out becomes a client error, a failed
    /// session creation is passed on unchanged.
    pub fn from_run_error(failure: RunError) -> (error: Error)
        ensures
            error@ == Error::of_pool_failure(failure),
            failure matches RunError::User(inner) ==> error == inner,
    {
        match failure {
            RunError::User(error) => error,
            RunError::TimedOut => Error::Client(
                String::from_str("timeout while obtaining new session"),
            ),
        }
    }
}

} // verus!
