//! The request dispatcher's decision logic.
//!
//! A request is described by a verb, a relative path and at most one body
//! (none, JSON or form), and is sent against one fixed origin. What comes
//! back — a transport fault, or a status with a body text — is classified
//! here: a success status passes the raw body through, any other status is
//! read as a structured server error when its body decodes as one, and as
//! a decode fault when it does not.

use vstd::prelude::*;
use vstd::string::*;
use crate::json::{Json, json_of_text, parse_json};
use crate::types::{Error, TetterError, tetter_error_from_json_v};

verus! {

/// The HTTP verbs the API uses.
#[derive(Debug, Clone, Copy, PartialEq, Eq, Structural)]
pub enum Method {
    Get,
    Post,
}

/// At most one body accompanies a request: none, a JSON document, or an
/// URL-encoded form. Holding the choice as one tag makes a request with
/// two bodies unrepresentable.
#[derive(Debug)]
pub enum RequestBody {
    Empty,
    Json(Json),
    Form(Vec<(String, String)>),
}

/// One request to the API: a verb, a path relative to the fixed origin,
/// and at most one body.
#[derive(Debug)]
pub struct Request {
    pub method: Method,
    pub path: String,
    pub body: RequestBody,
}

/// What one HTTP exchange came to: a transport-level fault before any
/// status was observed, carrying its cause; or a response, as its status
/// code and its body text.
#[derive(Debug)]
pub enum HttpOutcome {
    Transport(String),
    Response(u16, String),
}

/// The fixed origin every request goes to.
pub fn base_url() -> (r: &'static str)
    ensures
        r@ == "https://tetter-server.vercel.app"@,
{
    "https://tetter-server.vercel.app"
}

/// The absolute URL of a request path: the fixed origin, a slash, the path.
pub fn request_url(path: &str) -> (r: String)
    ensures
        r@ == "https://tetter-server.vercel.app"@ + "/"@ + path@,
{
    let mut url = base_url().to_owned();
    url.append("/");
    url.append(path);
    url
}

/// The success range of HTTP status codes.
pub open spec fn is_success_status(status: u16) -> bool {
    200 <= status < 300
}

/// How a completed exchange is read, as a function of its status and body:
/// a success status passes the body through; otherwise a body holding a
/// structured server error raises exactly that error, and any other body
/// is a decode fault.
pub open spec fn classified_v(status: u16, body: Seq<char>) -> Result<Seq<char>, Option<
    crate::types::TetterErrorV,
>> {
    if is_success_status(status) {
        Ok(body)
    } else {
        match json_of_text(body) {
            Some(j) => match tetter_error_from_json_v(j) {
                Some(te) => Err(Some(te)),
                None => Err(None),
            },
            None => Err(None),
        }
    }
}

/// Classifies what one HTTP exchange came to, exactly as the dispatcher
/// must: a transport fault is surfaced as such, untouched and without any
/// status ever being read; a success response hands its body through raw;
/// any other response is decoded into the server's structured error when
/// its body holds one, and is a decode fault otherwise.
pub fn classify_response(outcome: HttpOutcome) -> (r: Result<String, Error>)
    ensures
        match outcome {
            HttpOutcome::Transport(m) => r matches Err(Error::Transport(m2)) && m2 == m,
            HttpOutcome::Response(status, body) => match classified_v(status, body@) {
                Ok(_) => r matches Ok(b) && b == body,
                Err(Some(te)) => r matches Err(Error::Tetter(e)) && e@ == te,
                Err(None) => r matches Err(Error::Decode),
            },
        },
{
    match outcome {
        HttpOutcome::Transport(m) => Err(Error::Transport(m)),
        HttpOutcome::Response(status, body) => {
            if 200 <= status && status < 300 {
                Ok(body)
            } else {
                match parse_json(body.as_str()) {
                    Some(j) => match TetterError::from_json(&j) {
                        Some(te) => Err(Error::Tetter(te)),
                        None => Err(Error::Decode),
                    },
                    None => Err(Error::Decode),
                }
            }
        },
    }
}

/// Decides what an operation that returns no value yields from what its
/// HTTP exchange came to: success is acknowledged and the body discarded,
/// every failure is surfaced exactly as classified.
pub fn unit_from_response(outcome: HttpOutcome) -> (r: Result<(), Error>)
    ensures
        match outcome {
            HttpOutcome::Transport(m) => r matches Err(Error::Transport(m2)) && m2 == m,
            HttpOutcome::Response(status, body) => match classified_v(status, body@) {
                Ok(_) => r is Ok,
                Err(Some(te)) => r matches Err(Error::Tetter(e)) && e@ == te,
                Err(None) => r matches Err(Error::Decode),
            },
        },
{
    match classify_response(outcome) {
        Ok(_) => Ok(()),
        Err(e) => Err(e),
    }
}

} // verus!
