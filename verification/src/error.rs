//! The errors of the service and what a client is told of each.

use vstd::prelude::*;

verus! {

/// Everything that can go wrong while serving a request.
#[derive(Clone, Copy, Debug, PartialEq, Eq)]
pub enum Error {
    LoginFail,
    // Model errors.
    LinkCreateFailedBadProtocol,
    /// The store already holds as many links as the current code width allows.
    LinkCreateFailedCapacityExceeded,
    LinkCreateFailedDBError,
    LinkCreateFailedEmptyTarget,
    LinkCreateFailedTargetTooLong,
    LinkCreateFailedTooManyCollisions,
    LinkGetDBError,
    LinkGetNoSuchLink,
}

/// The coarse error class that a client is told about.
#[derive(Clone, Copy, Debug, PartialEq, Eq)]
#[allow(non_camel_case_types)]
pub enum ClientError {
    LINK_NOT_FOUND,
    LOGIN_FAIL,
    NO_AUTH,
    INVALID_PARAMS,
    SERVICE_ERROR,
}

impl ClientError {
    /// The variant's name, as it is written in a response body.
    pub open spec fn name(self) -> Seq<char> {
        match self {
            ClientError::LINK_NOT_FOUND => "LINK_NOT_FOUND"@,
            ClientError::LOGIN_FAIL => "LOGIN_FAIL"@,
            ClientError::NO_AUTH => "NO_AUTH"@,
            ClientError::INVALID_PARAMS => "INVALID_PARAMS"@,
            ClientError::SERVICE_ERROR => "SERVICE_ERROR"@,
        }
    }

    /// The variant's name as a string.
    pub fn as_ref(&self) -> (name: &'static str)
        ensures
            name@ == self.name(),
    {
        match self {
            ClientError::LINK_NOT_FOUND => "LINK_NOT_FOUND",
            ClientError::LOGIN_FAIL => "LOGIN_FAIL",
            ClientError::NO_AUTH => "NO_AUTH",
            ClientError::INVALID_PARAMS => "INVALID_PARAMS",
            ClientError::SERVICE_ERROR => "SERVICE_ERROR",
        }
    }
}

impl Error {
    /// The variant's name, as it is written in a log line.
    pub open spec fn name(self) -> Seq<char> {
        match self {
            Error::LoginFail => "LoginFail"@,
            Error::LinkCreateFailedBadProtocol => "LinkCreateFailedBadProtocol"@,
            Error::LinkCreateFailedCapacityExceeded => "LinkCreateFailedCapacityExceeded"@,
            Error::LinkCreateFailedDBError => "LinkCreateFailedDBError"@,
            Error::LinkCreateFailedEmptyTarget => "LinkCreateFailedEmptyTarget"@,
            Error::LinkCreateFailedTargetTooLong => "LinkCreateFailedTargetTooLong"@,
            Error::LinkCreateFailedTooManyCollisions => "LinkCreateFailedTooManyCollisions"@,
            Error::LinkGetDBError => "LinkGetDBError"@,
            Error::LinkGetNoSuchLink => "LinkGetNoSuchLink"@,
        }
    }

    /// The HTTP status that answers a request which ended in this error.
    pub open spec fn client_status(self) -> u16 {
        match self {
            Error::LinkCreateFailedBadProtocol | Error::LinkCreateFailedEmptyTarget => 400,
            Error::LinkCreateFailedTargetTooLong => 413,
            Error::LinkGetNoSuchLink => 404,
            _ => 500,
        }
    }

    /// The class under which a client hears of this error: its own mistakes by
    /// name, a missing link as such, everything else as a fault of the service.
    pub open spec fn client_class(self) -> ClientError {
        match self {
            Error::LinkCreateFailedBadProtocol
            | Error::LinkCreateFailedEmptyTarget
            | Error::LinkCreateFailedTargetTooLong => ClientError::INVALID_PARAMS,
            Error::LinkGetNoSuchLink => ClientError::LINK_NOT_FOUND,
            _ => ClientError::SERVICE_ERROR,
        }
    }

    /// The sentence shown to the client. Faults of the store and the capacity
    /// stop share one deliberately vague sentence.
    pub open spec fn client_message(self) -> Seq<char> {
        match self {
            Error::LinkCreateFailedBadProtocol => "target must have http or https protocol"@,
            Error::LinkCreateFailedEmptyTarget => "target must not be empty"@,
            Error::LinkCreateFailedTargetTooLong => "target is too long"@,
            Error::LinkGetNoSuchLink => "Link not found"@,
            Error::LinkCreateFailedDBError
            | Error::LinkCreateFailedCapacityExceeded
            | Error::LinkGetDBError => "Database error"@,
            Error::LoginFail | Error::LinkCreateFailedTooManyCollisions => "Service error"@,
        }
    }

    /// The variant's name as a string.
    pub fn as_ref(&self) -> (name: &'static str)
        ensures
            name@ == self.name(),
    {
        match self {
            Error::LoginFail => "LoginFail",
            Error::LinkCreateFailedBadProtocol => "LinkCreateFailedBadProtocol",
            Error::LinkCreateFailedCapacityExceeded => "LinkCreateFailedCapacityExceeded",
            Error::LinkCreateFailedDBError => "LinkCreateFailedDBError",
            Error::LinkCreateFailedEmptyTarget => "LinkCreateFailedEmptyTarget",
            Error::LinkCreateFailedTargetTooLong => "LinkCreateFailedTargetTooLong",
            Error::LinkCreateFailedTooManyCollisions => "LinkCreateFailedTooManyCollisions",
            Error::LinkGetDBError => "LinkGetDBError",
            Error::LinkGetNoSuchLink => "LinkGetNoSuchLink",
        }
    }

    /// What the client is told: the HTTP status, the error class and a sentence.
    pub fn client_status_and_error(&self) -> (shown: (u16, ClientError, &'static str))
        ensures
            shown.0 == self.client_status(),
            shown.1 == self.client_class(),
            shown.2@ == self.client_message(),
    {
        match self {
            Error::LinkCreateFailedBadProtocol => (
                400,
                ClientError::INVALID_PARAMS,
                "target must have http or https protocol",
            ),
            Error::LinkCreateFailedDBError | Error::LinkCreateFailedCapacityExceeded => (
                500,
                ClientError::SERVICE_ERROR,
                "Database error",
            ),
            Error::LinkCreateFailedEmptyTarget => (
                400,
                ClientError::INVALID_PARAMS,
                "target must not be empty",
            ),
            Error::LinkCreateFailedTargetTooLong => (
                413,
                ClientError::INVALID_PARAMS,
                "target is too long",
            ),
            Error::LinkGetDBError => (500, ClientError::SERVICE_ERROR, "Database error"),
            Error::LinkGetNoSuchLink => (404, ClientError::LINK_NOT_FOUND, "Link not found"),
            // Whatever has no sentence of its own.
            Error::LoginFail | Error::LinkCreateFailedTooManyCollisions => (
                500,
                ClientError::SERVICE_ERROR,
                "Service error",
            ),
        }
    }
}

} // verus!
