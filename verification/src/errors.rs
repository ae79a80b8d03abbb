//! The error taxonomy and the mapping from HTTP status codes to it.

use vstd::prelude::*;
use vstd::string::StringExecFns;
use crate::text::{decimal, decimal_string};

verus! {

/// `reqwest::Error`, carried through untouched: nothing is known of its contents.
#[verifier::external_type_specification]
#[verifier::external_body]
pub struct ExTransportError(reqwest::Error);

/// `serde_json::Error`, carried through untouched: nothing is known of its contents.
#[verifier::external_type_specification]
#[verifier::external_body]
pub struct ExDecodeError(serde_json::Error);

/// Errors returned by the LnBot SDK.
#[derive(Debug)]
pub enum LnBotError {
    /// The server rejected the request as invalid (HTTP 400).
    BadRequest { body: String },
    /// The API key is missing or invalid (HTTP 401).
    Unauthorized { body: String },
    /// The API key lacks permission for this operation (HTTP 403).
    Forbidden { body: String },
    /// The requested resource was not found (HTTP 404).
    NotFound { body: String },
    /// The request conflicted with existing state (HTTP 409).
    Conflict { body: String },
    /// An API error with a status code that has no variant of its own.
    Api { status: u16, body: String },
    /// An HTTP transport error.
    Http(reqwest::Error),
    /// A JSON serialization or deserialization error.
    Json(serde_json::Error),
}

/// The error that a failed response with this status and body stands for.
pub open spec fn classified(status: u16, body: String) -> LnBotError {
    if status == 400 {
        LnBotError::BadRequest { body }
    } else if status == 401 {
        LnBotError::Unauthorized { body }
    } else if status == 403 {
        LnBotError::Forbidden { body }
    } else if status == 404 {
        LnBotError::NotFound { body }
    } else if status == 409 {
        LnBotError::Conflict { body }
    } else {
        LnBotError::Api { status, body }
    }
}

/// Maps the status of a failed response to its error. The body is kept as
/// received; it is not parsed.
pub fn from_status(status: u16, body: String) -> (err: LnBotError)
    requires
        status >= 400,
    ensures
        err == classified(status, body),
{
    match status {
        400 => LnBotError::BadRequest { body },
        401 => LnBotError::Unauthorized { body },
        403 => LnBotError::Forbidden { body },
        404 => LnBotError::NotFound { body },
        409 => LnBotError::Conflict { body },
        _ => LnBotError::Api { status, body },
    }
}

/// Wraps the `Display` of `reqwest::Error`. Nothing is promised of the text.
#[verifier::external_body]
fn transport_detail(error: &reqwest::Error) -> (detail: String) {
    error.to_string()
}

/// Wraps the `Display` of `serde_json::Error`. Nothing is promised of the text.
#[verifier::external_body]
fn decode_detail(error: &serde_json::Error) -> (detail: String) {
    error.to_string()
}

impl LnBotError {
    /// The message of an error that a response's status gave rise to: what
    /// the status means, the status itself, and the body as received.
    pub open spec fn status_message(self) -> Seq<char> {
        match self {
            LnBotError::BadRequest { body } => "Bad Request (400): "@ + body@,
            LnBotError::Unauthorized { body } => "Unauthorized (401): "@ + body@,
            LnBotError::Forbidden { body } => "Forbidden (403): "@ + body@,
            LnBotError::NotFound { body } => "Not Found (404): "@ + body@,
            LnBotError::Conflict { body } => "Conflict (409): "@ + body@,
            LnBotError::Api { status, body } => "API error (HTTP "@ + decimal(status as int)
                + "): "@ + body@,
            _ => Seq::empty(),
        }
    }

    /// The error as a message for people. For a transport or JSON error the
    /// message is a fixed prefix followed by what the underlying error says
    /// of itself.
    pub fn to_string(&self) -> (message: String)
        ensures
            match self {
                LnBotError::Http(_) => "HTTP error: "@.is_prefix_of(message@),
                LnBotError::Json(_) => "JSON error: "@.is_prefix_of(message@),
                _ => message@ == self.status_message(),
            },
    {
        match self {
            LnBotError::BadRequest { body } => "Bad Request (400): ".to_owned().concat(
                body.as_str(),
            ),
            LnBotError::Unauthorized { body } => "Unauthorized (401): ".to_owned().concat(
                body.as_str(),
            ),
            LnBotError::Forbidden { body } => "Forbidden (403): ".to_owned().concat(body.as_str()),
            LnBotError::NotFound { body } => "Not Found (404): ".to_owned().concat(body.as_str()),
            LnBotError::Conflict { body } => "Conflict (409): ".to_owned().concat(body.as_str()),
            LnBotError::Api { status, body } => {
                let mut message = "API error (HTTP ".to_owned();
                message.append(decimal_string(*status as i64).as_str());
                message.append("): ");
                message.append(body.as_str());
                message
            },
            LnBotError::Http(error) => {
                let message = "HTTP error: ".to_owned().concat(transport_detail(error).as_str());
                assert(message@.subrange(0, "HTTP error: "@.len() as int) =~= "HTTP error: "@);
                message
            },
            LnBotError::Json(error) => {
                let message = "JSON error: ".to_owned().concat(decode_detail(error).as_str());
                assert(message@.subrange(0, "JSON error: "@.len() as int) =~= "JSON error: "@);
                message
            },
        }
    }
}

} // verus!
