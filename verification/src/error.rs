//! Failures as they are reported to the clients of the service.

use vstd::prelude::*;

use crate::response::Reply;
use crate::text::append_decimal;
use crate::text::decimal;

verus! {

/// The body of a reply that reports a failure.
#[derive(Debug)]
pub struct ErrorResponse {
    pub status: u16,
    pub message: String,
}

/// The body of a reply that carries a status and a message.
pub struct Response {
    pub status: u16,
    pub message: String,
}

/// A failure with the status it is reported with.
#[derive(Debug, Clone)]
pub struct HttpError {
    pub message: String,
    pub status: u16,
}

impl HttpError {
    /// A failure with the given status.
    pub fn new(message: &str, status: u16) -> (error: HttpError)
        ensures
            error.message@ == message@,
            error.status == status,
    {
        HttpError { message: String::from_str(message), status }
    }

    /// A failure on the side of the service.
    pub fn server_error(message: &str) -> (error: HttpError)
        ensures
            error.message@ == message@,
            error.status == 500,
    {
        HttpError { message: String::from_str(message), status: 500 }
    }

    /// A request that cannot be served as it stands.
    pub fn bad_request(message: &str) -> (error: HttpError)
        ensures
            error.message@ == message@,
            error.status == 400,
    {
        HttpError { message: String::from_str(message), status: 400 }
    }

    /// A value that must be unique and is taken.
    pub fn unique_constraint_voilation(message: &str) -> (error: HttpError)
        ensures
            error.message@ == message@,
            error.status == 409,
    {
        HttpError { message: String::from_str(message), status: 409 }
    }

    /// A request that lacks the right to be served.
    pub fn unauthorized(message: &str) -> (error: HttpError)
        ensures
            error.message@ == message@,
            error.status == 401,
    {
        HttpError { message: String::from_str(message), status: 401 }
    }

    /// Something asked for that is not there.
    pub fn not_found(message: &str) -> (error: HttpError)
        ensures
            error.message@ == message@,
            error.status == 404,
    {
        HttpError { message: String::from_str(message), status: 404 }
    }

    /// The statuses that a failure is reported with as it stands.
    pub open spec fn is_reported(status: u16) -> bool {
        status == 400 || status == 401 || status == 404 || status == 409 || status == 500
    }

    /// Whether the failure is reported with its status as it stands.
    pub fn keeps_status(&self) -> (kept: bool)
        ensures
            kept == HttpError::is_reported(self.status),
    {
        match self.status {
            400 | 401 | 404 | 409 | 500 => true,
            _ => false,
        }
    }

    /// The reply that reports the failure. A failure with a status that is
    /// not among the reported ones is replaced by a plain server error, and
    /// its message is withheld.
    pub fn into_http_response(self) -> (reply: Reply)
        ensures
            reply.code == reply.body.status,
            HttpError::is_reported(self.status) ==> reply.body.status == self.status
                && reply.body.message@ == self.message@,
            !HttpError::is_reported(self.status) ==> reply.body.status == 500
                && reply.body.message@ == "Internal Server Error"@,
    {
        if self.keeps_status() {
            Reply { code: self.status, body: Response { status: self.status, message: self.message } }
        } else {
            Reply {
                code: 500,
                body: Response { status: 500, message: String::from_str("Internal Server Error") },
            }
        }
    }

    /// The failure in words.
    pub open spec fn description(self) -> Seq<char> {
        "HttpError: message: "@ + self.message@ + ", status: "@ + decimal(self.status as nat)
    }

    /// The failure in words.
    pub fn to_string(&self) -> (text: String)
        ensures
            text@ == self.description(),
    {
        let mut text = String::new();
        text.append("HttpError: message: ");
        text.append(self.message.as_str());
        text.append(", status: ");
        append_decimal(&mut text, self.status as u64);
        assert(text@ =~= self.description());
        text
    }
}

} // verus!
