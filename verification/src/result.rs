//! The failures of the service and the text each is reported with.

use crate::outside::{decimal, decimal_text};
use vstd::prelude::*;

verus! {

/// What can go wrong while a request is served.
#[derive(Debug)]
pub enum Error {
    /// The database failed; the text is its report.
    Diesel(String),
    DuplicateHardwareId(i64),
    IncorrectPassword,
    InvalidToken,
    MalformedToken,
    MissingToken,
    MissingBasicAuthHeader,
    MalformedBasicAuthHeader,
    WrongTokenType,
    NotSensorOwner,
    NoTokenInRequest,
    NotAdmin,
    DbConnectionFailed,
    /// The mail service refused; the text is its report.
    SendEmail(String),
    UnknownError(String),
}

impl Error {
    /// The text that reports this failure.
    pub open spec fn message_text(self) -> Seq<char> {
        match self {
            Error::Diesel(report) => "DieselError: "@ + report@,
            Error::DuplicateHardwareId(id) => "active sensor with hardware id "@ + decimal_text(
                id as int,
            ) + " already exists"@,
            Error::IncorrectPassword => "incorrect password"@,
            Error::InvalidToken => "invalid token"@,
            Error::MissingToken => "missing token"@,
            Error::MissingBasicAuthHeader => "missing basic auth header"@,
            Error::MalformedBasicAuthHeader => "malformed basic auth header"@,
            Error::MalformedToken => "malformed token"@,
            Error::WrongTokenType => "wrong token type"@,
            Error::NotSensorOwner => "user is not the owner of this sensor"@,
            Error::NoTokenInRequest => "failed to get auth token from request"@,
            Error::NotAdmin => "user is not an admin"@,
            Error::DbConnectionFailed => "failed to connect to the database"@,
            Error::SendEmail(report) => "failed to send email: "@ + report@,
            Error::UnknownError(report) => "unknown error: "@ + report@,
        }
    }

    /// The text that reports this failure.
    pub fn message(&self) -> (msg: String)
        ensures
            msg@ == self.message_text(),
    {
        match self {
            Error::Diesel(report) => String::from_str("DieselError: ").concat(report.as_str()),
            Error::DuplicateHardwareId(id) => {
                let number: String = decimal(*id);
                String::from_str("active sensor with hardware id ").concat(number.as_str()).concat(
                    " already exists",
                )
            },
            Error::IncorrectPassword => String::from_str("incorrect password"),
            Error::InvalidToken => String::from_str("invalid token"),
            Error::MissingToken => String::from_str("missing token"),
            Error::MissingBasicAuthHeader => String::from_str("missing basic auth header"),
            Error::MalformedBasicAuthHeader => String::from_str("malformed basic auth header"),
            Error::MalformedToken => String::from_str("malformed token"),
            Error::WrongTokenType => String::from_str("wrong token type"),
            Error::NotSensorOwner => String::from_str("user is not the owner of this sensor"),
            Error::NoTokenInRequest => String::from_str("failed to get auth token from request"),
            Error::NotAdmin => String::from_str("user is not an admin"),
            Error::DbConnectionFailed => String::from_str("failed to connect to the database"),
            Error::SendEmail(report) => String::from_str("failed to send email: ").concat(
                report.as_str(),
            ),
            Error::UnknownError(report) => String::from_str("unknown error: ").concat(
                report.as_str(),
            ),
        }
    }
}

/// The status of an answer.
#[derive(Clone, Copy, Debug, PartialEq, Eq)]
pub enum Status {
    Okay,
    SeeOther,
    BadRequest,
    Unauthorized,
    NotFound,
}

impl Status {
    /// The number of the status.
    pub fn code(&self) -> (n: u16)
        ensures
            n == match *self {
                Status::Okay => 200u16,
                Status::SeeOther => 303u16,
                Status::BadRequest => 400u16,
                Status::Unauthorized => 401u16,
                Status::NotFound => 404u16,
            },
    {
        match self {
            Status::Okay => 200,
            Status::SeeOther => 303,
            Status::BadRequest => 400,
            Status::Unauthorized => 401,
            Status::NotFound => 404,
        }
    }
}

} // verus!
