//! Failures as the pages report them.

use crate::result::Error as BaseError;
use crate::web::Redirect;
use vstd::prelude::*;

verus! {

#[derive(Debug)]
pub struct Error(pub BaseError);

/// The text of a failure as the pages report it.
pub open spec fn web_error_text(e: BaseError) -> Seq<char> {
    "WebError("@ + e.message_text() + ")"@
}

impl Error {
    pub fn from(err: BaseError) -> (e: Error)
        ensures
            e.0 == err,
    {
        Error(err)
    }

    /// The text that reports this failure.
    pub fn message(&self) -> (msg: String)
        ensures
            msg@ == web_error_text(self.0),
    {
        let inner: String = self.0.message();
        String::from_str("WebError(").concat(inner.as_str()).concat(")")
    }

    /// Where a failure leads: back to the start page.
    pub fn redirect(&self) -> (r: Redirect)
        ensures
            r.to@ == "/"@,
    {
        Redirect { to: String::from_str("/") }
    }
}

} // verus!
