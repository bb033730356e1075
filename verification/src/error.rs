//! Why a request to the mail service came to nothing.

use vstd::prelude::*;
use vstd::string::StringExecFns;

verus! {

/// The ways in which one operation of the client fails. None of them is
/// recovered from: the operation is over, and the caller decides what follows.
#[derive(Clone, Copy, Debug, PartialEq, Eq, Structural)]
pub enum MailError {
    /// The HTTP request could not be made or was not answered.
    Request,
    /// The answer arrived, but its body could not be read as text.
    ResponseText,
    /// The body is not JSON.
    Json,
    /// The body is JSON of another shape than the operation expects: not an
    /// array, too few elements, a member that is missing or of the wrong type.
    Shape,
    /// An element is a string, but not a mail address: it does not hold
    /// exactly one `@` with text on both sides.
    Address,
}

impl MailError {
    /// The diagnostic that goes with the failure.
    pub open spec fn message_text(self) -> Seq<char> {
        match self {
            MailError::Request => "GET request error!"@,
            MailError::ResponseText => "Response text error!"@,
            MailError::Json => "JSON error!"@,
            MailError::Shape => "Unexpected response!"@,
            MailError::Address => "Malformed mail address!"@,
        }
    }

    /// The diagnostic that goes with the failure.
    pub fn message(&self) -> (text: String)
        ensures
            text@ == self.message_text(),
    {
        match self {
            MailError::Request => String::from_str("GET request error!"),
            MailError::ResponseText => String::from_str("Response text error!"),
            MailError::Json => String::from_str("JSON error!"),
            MailError::Shape => String::from_str("Unexpected response!"),
            MailError::Address => String::from_str("Malformed mail address!"),
        }
    }
}

} // verus!
