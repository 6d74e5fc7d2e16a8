use vstd::prelude::*;

verus! {

/// The outcome class carried by a [`Status`].
#[derive(Clone, Copy, Debug, PartialEq, Eq, Structural)]
pub enum Code {
    Cancelled,
    Unknown,
    InvalidArgument,
    DeadlineExceeded,
    NotFound,
    AlreadyExists,
    PermissionDenied,
    ResourceExhausted,
    FailedPrecondition,
    Aborted,
    OutOfRange,
    Unimplemented,
    Internal,
    Unavailable,
    DataLoss,
    Unauthenticated,
}

/// The canonical error descriptor seen above the body layer: a code and a message.
pub struct Status {
    pub code: Code,
    pub message: String,
}

/// The generic error that every producer error converts into.
///
/// An error is either already a [`Status`], which is kept as it is, or any
/// other error, known by the text it displays.
pub enum Error {
    Status(Status),
    Other(String),
}

/// The status that the total error mapping gives for `e`.
pub open spec fn status_of(e: Error) -> (Code, Seq<char>) {
    match e {
        Error::Status(s) => (s.code, s.message@),
        Error::Other(m) => (Code::Unknown, m@),
    }
}

impl Status {
    /// The code and message of this status, as plain values.
    pub open spec fn view_pair(&self) -> (Code, Seq<char>) {
        (self.code, self.message@)
    }

    pub fn new(code: Code, message: String) -> (r: Status)
        ensures
            r.code == code,
            r.message == message,
    {
        Status { code, message }
    }

    pub fn code(&self) -> (r: Code)
        ensures
            r == self.code,
    {
        self.code
    }

    pub fn message(&self) -> (r: &str)
        ensures
            r@ == self.message@,
    {
        self.message.as_str()
    }

    /// Maps an error, seen by reference, to a status. Never fails: an error
    /// that is not already a status becomes one with code `Unknown` and the
    /// error's text as its message.
    pub fn from_error(err: &Error) -> (r: Status)
        ensures
            r.view_pair() == status_of(*err),
    {
        match err {
            Error::Status(s) => Status { code: s.code, message: s.message.clone() },
            Error::Other(m) => Status { code: Code::Unknown, message: m.clone() },
        }
    }

    /// Maps an owned error to a status. Never fails; a status inside the
    /// error is handed back as it is.
    pub fn map_error(err: Error) -> (r: Status)
        ensures
            r.view_pair() == status_of(err),
            err matches Error::Status(s) ==> r == s,
    {
        match err {
            Error::Status(s) => s,
            Error::Other(m) => Status { code: Code::Unknown, message: m },
        }
    }
}

/// A producer error that converts into the generic error.
pub trait IntoError {
    /// The generic error that this value converts into.
    spec fn error_of(&self) -> Error;

    fn into_error(self) -> (r: Error)
        ensures
            r == self.error_of(),
    ;
}

impl IntoError for Error {
    open spec fn error_of(&self) -> Error {
        *self
    }

    fn into_error(self) -> (r: Error) {
        self
    }
}

impl IntoError for Status {
    open spec fn error_of(&self) -> Error {
        Error::Status(*self)
    }

    fn into_error(self) -> (r: Error) {
        Error::Status(self)
    }
}

impl From<Status> for Error {
    fn from(s: Status) -> (r: Error) {
        Error::Status(s)
    }
}

impl vstd::std_specs::convert::FromSpecImpl<Status> for Error {
    open spec fn obeys_from_spec() -> bool {
        true
    }

    open spec fn from_spec(s: Status) -> Error {
        Error::Status(s)
    }
}

} // verus!
