//! The one error value of a brand API call.
//!
//! Whatever went wrong, the error names the operation, the address it was sent
//! to and, as far as they exist, the body that was sent and the body that came
//! back, both unchanged.

use vstd::prelude::*;
use crate::brand::endpoints::BrandApiEndpoint;
use crate::text::{decimal, decimal_string, opt_text};

verus! {

/// The ways in which a call can fail.
#[derive(Debug, Clone, Copy, PartialEq, Eq, Structural)]
pub enum ErrorKind {
    /// No answer within the configured time.
    Timeout,
    /// The request could not be delivered or no response arrived.
    Transport,
    /// A response arrived but its body could not be read.
    BodyRead,
    /// Status 401 or 403.
    Unauthorized,
    /// Status 400.
    BadRequest,
    /// Status 500.
    ServerError,
    /// Status 503.
    ServiceUnavailable,
    /// Any other status outside 200, 201 and 204.
    UnexpectedStatus,
    /// The response body does not have the shape that the operation returns.
    Deserialize,
}

/// A failed call.
#[derive(Debug, Clone, PartialEq, Eq)]
pub struct Error {
    pub kind: ErrorKind,
    /// The operation that was called.
    pub endpoint: BrandApiEndpoint,
    /// The address the call was sent to.
    pub url: String,
    /// The status of the response, where one arrived.
    pub status: Option<u16>,
    /// The serialized request, where the call had one.
    pub request_body: Option<String>,
    /// The body of the response, where one was read.
    pub response_body: Option<String>,
    /// What the transport reported, for failures below HTTP.
    pub detail: Option<String>,
}

/// Mathematical counterpart of [`Error`].
pub struct ErrorView {
    pub kind: ErrorKind,
    pub endpoint: BrandApiEndpoint,
    pub url: Seq<char>,
    pub status: Option<u16>,
    pub request_body: Option<Seq<char>>,
    pub response_body: Option<Seq<char>>,
    pub detail: Option<Seq<char>>,
}

/// An optional text as it is written in a message: the text itself, or the
/// word `None`.
pub open spec fn text_or_none(text: Option<Seq<char>>) -> Seq<char> {
    match text {
        Some(text) => text,
        None => "None"@,
    }
}

/// An optional status as it is written in a message.
pub open spec fn status_or_none(status: Option<u16>) -> Seq<char> {
    match status {
        Some(code) => decimal(code as nat),
        None => "None"@,
    }
}

impl ErrorView {
    /// The verb and the address of the call, as messages show them.
    pub open spec fn target(self) -> Seq<char> {
        self.endpoint.http_method().name() + " "@ + self.url
    }

    /// The message of the error.
    pub open spec fn message(self) -> Seq<char> {
        match self.kind {
            ErrorKind::Timeout => "Failed "@ + self.endpoint.http_method().name() + " "@
                + self.endpoint.name() + ": Timeout"@,
            ErrorKind::Transport => "FlUrl failed to receive_body: Url: "@ + self.url
                + ". Request: "@ + text_or_none(self.request_body) + ". "@ + text_or_none(
                self.detail,
            ),
            ErrorKind::BodyRead => "FlUrl failed to receive_body: "@ + text_or_none(self.detail),
            ErrorKind::Unauthorized => "Unauthorized or forbidden. Url: "@ + self.target(),
            ErrorKind::BadRequest => "Received bad request status. Url: "@ + self.target()
                + ". Request: "@ + text_or_none(self.request_body) + ". Response: "@
                + text_or_none(self.response_body),
            ErrorKind::ServerError => "Internal Server Error. Url: "@ + self.target(),
            ErrorKind::ServiceUnavailable => "Service Unavailable. Url: "@ + self.target(),
            ErrorKind::UnexpectedStatus => "Received response code: "@ + status_or_none(
                self.status,
            ) + ". Url: "@ + self.target() + ". Request: "@ + text_or_none(self.request_body)
                + " Response: "@ + text_or_none(self.response_body),
            ErrorKind::Deserialize => "Failed to deserialize. Url: "@
                + self.endpoint.http_method().name() + " "@ + self.endpoint.path()
                + ". Request: "@ + text_or_none(self.request_body) + ". Body: "@ + text_or_none(
                self.response_body,
            ),
        }
    }
}

impl View for Error {
    type V = ErrorView;

    open spec fn view(&self) -> ErrorView {
        ErrorView {
            kind: self.kind,
            endpoint: self.endpoint,
            url: self.url@,
            status: self.status,
            request_body: opt_text(self.request_body),
            response_body: opt_text(self.response_body),
            detail: opt_text(self.detail),
        }
    }
}

fn shown(text: &Option<String>) -> (written: &str)
    ensures
        written@ == text_or_none(opt_text(*text)),
{
    match text {
        Some(text) => text.as_str(),
        None => "None",
    }
}

impl Error {
    fn target(&self) -> (text: String)
        ensures
            text@ == self@.target(),
    {
        self.endpoint.get_http_method().as_str().to_owned().concat(" ").concat(self.url.as_str())
    }

    /// Writes the message of the error.
    pub fn to_string(&self) -> (text: String)
        ensures
            text@ == self@.message(),
    {
        let verb = self.endpoint.get_http_method().as_str();
        match self.kind {
            ErrorKind::Timeout => "Failed ".to_owned().concat(verb).concat(" ").concat(
                self.endpoint.as_str(),
            ).concat(": Timeout"),
            ErrorKind::Transport => "FlUrl failed to receive_body: Url: ".to_owned().concat(
                self.url.as_str(),
            ).concat(". Request: ").concat(shown(&self.request_body)).concat(". ").concat(
                shown(&self.detail),
            ),
            ErrorKind::BodyRead => "FlUrl failed to receive_body: ".to_owned().concat(
                shown(&self.detail),
            ),
            ErrorKind::Unauthorized => "Unauthorized or forbidden. Url: ".to_owned().concat(
                self.target().as_str(),
            ),
            ErrorKind::BadRequest => "Received bad request status. Url: ".to_owned().concat(
                self.target().as_str(),
            ).concat(". Request: ").concat(shown(&self.request_body)).concat(
                ". Response: ",
            ).concat(shown(&self.response_body)),
            ErrorKind::ServerError => "Internal Server Error. Url: ".to_owned().concat(
                self.target().as_str(),
            ),
            ErrorKind::ServiceUnavailable => "Service Unavailable. Url: ".to_owned().concat(
                self.target().as_str(),
            ),
            ErrorKind::UnexpectedStatus => {
                let code = match self.status {
                    Some(code) => decimal_string(code as u128),
                    None => "None".to_owned(),
                };
                "Received response code: ".to_owned().concat(code.as_str()).concat(
                    ". Url: ",
                ).concat(self.target().as_str()).concat(". Request: ").concat(
                    shown(&self.request_body),
                ).concat(" Response: ").concat(shown(&self.response_body))
            },
            ErrorKind::Deserialize => "Failed to deserialize. Url: ".to_owned().concat(
                verb,
            ).concat(" ").concat(self.endpoint.to_path().as_str()).concat(
                ". Request: ",
            ).concat(shown(&self.request_body)).concat(". Body: ").concat(
                shown(&self.response_body),
            ),
        }
    }
}

/// Error codes of the webservices API.
#[derive(Debug, Clone, Copy, PartialEq, Eq, Structural)]
pub enum WebservicesErrorCode {
    TraderNotFound,
}

impl WebservicesErrorCode {
    /// The wire spelling of the code.
    pub open spec fn wire_name(self) -> Seq<char> {
        match self {
            WebservicesErrorCode::TraderNotFound => "TRADER_NOT_FOUND"@,
        }
    }

    /// Renders the code as it appears on the wire.
    pub fn to_string(&self) -> (text: String)
        ensures
            text@ == self.wire_name(),
    {
        match self {
            WebservicesErrorCode::TraderNotFound => "TRADER_NOT_FOUND".to_owned(),
        }
    }
}

} // verus!
