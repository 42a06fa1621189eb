//! Failures as the JSON interface reports them.

use crate::result::{Error as BaseError, Status};
use vstd::prelude::*;

verus! {

#[derive(Debug)]
pub struct Error(pub BaseError);

/// The text of a failure as the JSON interface reports it.
pub open spec fn api_error_text(e: BaseError) -> Seq<char> {
    "ApiError("@ + e.message_text() + ")"@
}

impl Error {
    pub fn from(err: BaseError) -> (e: Error)
        ensures
            e.0 == err,
    {
        Error(err)
    }

    /// The text that reports this failure.
    pub fn message(&self) -> (msg: String)
        ensures
            msg@ == api_error_text(self.0),
    {
        let inner: String = self.0.message();
        String::from_str("ApiError(").concat(inner.as_str()).concat(")")
    }

    /// The status that reports this failure: always a bad request.
    pub fn status(&self) -> (s: Status)
        ensures
            s == Status::BadRequest,
    {
        Status::BadRequest
    }
}

} // verus!
