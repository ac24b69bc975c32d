//! The replies of the service.

use vstd::prelude::*;

use crate::error::Response;
use crate::text::append_decimal;
use crate::text::decimal;

verus! {

/// A reply: the status code it is sent with, and its body.
pub struct Reply {
    pub code: u16,
    pub body: Response,
}

/// Calls `actix_web::http::StatusCode::from_u16` and tells whether the
/// number was accepted. It is accepted from 100 up to 999.
#[verifier::external_body]
fn is_status_code(code: u16) -> (accepted: bool)
    ensures
        accepted == (100 <= code <= 999),
{
    actix_web::http::StatusCode::from_u16(code).is_ok()
}

/// The status code a reply is sent with where its body says `status`: that
/// status if it is a status code, else that of a server error.
pub open spec fn reply_code(status: u16) -> u16 {
    if 100 <= status <= 999 {
        status
    } else {
        500
    }
}

/// The status code a reply is sent with where its body says `status`.
pub fn code_for(status: u16) -> (code: u16)
    ensures
        code == reply_code(status),
{
    if is_status_code(status) {
        status
    } else {
        500
    }
}

/// A message with a status that can be sent as a reply.
pub trait HttpResponse: Sized {
    /// The status that the body of the reply says.
    spec fn shown_status(&self) -> u16;

    /// The message in the body of the reply.
    spec fn shown_message(&self) -> Seq<char>;

    /// A message with the given status.
    fn new(message: &str, status: u16) -> (made: Self)
        ensures
            made.shown_status() == status,
            made.shown_message() == message@,
    ;

    /// The reply: the body says the status and the message as they are; the
    /// reply is sent with that status where it is a status code, else as a
    /// server error.
    fn into_http_response(self) -> (reply: Reply)
        ensures
            reply.code == reply_code(self.shown_status()),
            reply.body.status == self.shown_status(),
            reply.body.message@ == self.shown_message(),
    ;
}

/// A reply that reports success.
#[derive(Debug)]
pub struct DefaultHttpResponse {
    pub message: String,
    pub status: u16,
}

/// A reply that reports a failure.
#[derive(Debug, Clone)]
pub struct DefaultHttpError {
    pub message: String,
    pub status: u16,
}

impl HttpResponse for DefaultHttpResponse {
    open spec fn shown_status(&self) -> u16 {
        self.status
    }

    open spec fn shown_message(&self) -> Seq<char> {
        self.message@
    }

    fn new(message: &str, status: u16) -> (made: Self) {
        DefaultHttpResponse { message: String::from_str(message), status }
    }

    fn into_http_response(self) -> (reply: Reply) {
        Reply {
            code: code_for(self.status),
            body: Response { status: self.status, message: self.message },
        }
    }
}

impl HttpResponse for DefaultHttpError {
    open spec fn shown_status(&self) -> u16 {
        self.status
    }

    open spec fn shown_message(&self) -> Seq<char> {
        self.message@
    }

    fn new(message: &str, status: u16) -> (made: Self) {
        DefaultHttpError { message: String::from_str(message), status }
    }

    fn into_http_response(self) -> (reply: Reply) {
        Reply {
            code: code_for(self.status),
            body: Response { status: self.status, message: self.message },
        }
    }
}

impl DefaultHttpResponse {
    /// A reply that all went well.
    pub fn ok(message: &str) -> (made: Self)
        ensures
            made.status == 200,
            made.message@ == message@,
    {
        DefaultHttpResponse::new(message, 200)
    }
}

impl DefaultHttpError {
    /// A failure on the side of the service.
    pub fn server_error(message: &str) -> (made: Self)
        ensures
            made.status == 500,
            made.message@ == message@,
    {
        DefaultHttpError::new(message, 500)
    }

    /// A request that cannot be served as it stands.
    pub fn bad_request(message: &str) -> (made: Self)
        ensures
            made.status == 400,
            made.message@ == message@,
    {
        DefaultHttpError::new(message, 400)
    }

    /// A value that must be unique and is taken.
    pub fn unique_constraint_voilation(message: &str) -> (made: Self)
        ensures
            made.status == 409,
            made.message@ == message@,
    {
        DefaultHttpError::new(message, 409)
    }

    /// A request that lacks the right to be served.
    pub fn unauthorized(message: &str) -> (made: Self)
        ensures
            made.status == 401,
            made.message@ == message@,
    {
        DefaultHttpError::new(message, 401)
    }

    /// Something asked for that is not there.
    pub fn not_found(message: &str) -> (made: Self)
        ensures
            made.status == 404,
            made.message@ == message@,
    {
        DefaultHttpError::new(message, 404)
    }

    /// The failure in words.
    pub open spec fn description(self) -> Seq<char> {
        "HttpError: message: "@ + self.message@ + ", status: "@ + decimal(self.status as nat)
    }

    /// The failure in words.
    pub fn to_string(&self) -> (text: String)
        ensures
            text@ == self.description(),
    {
        let mut text = String::new();
        text.append("HttpError: message: ");
        text.append(self.message.as_str());
        text.append(", status: ");
        append_decimal(&mut text, self.status as u64);
        assert(text@ =~= self.description());
        text
    }
}

} // verus!
