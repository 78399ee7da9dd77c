//! The failures of a call against the appliance, and the text shown for each.
//!
//! Every failure belongs to one of five families: configuration, validation,
//! network, HTTP and decoding. None is fatal; each is scoped to the one call
//! that produced it.

use vstd::prelude::*;
use crate::text::{decimal, decimal_string};

verus! {

/// The caller's configuration does not allow a call at all.
#[derive(Debug, Clone, Copy, PartialEq, Eq)]
pub enum ConfigError {
    /// No default connection profile is stored.
    MissingProfile,
}

/// The request was refused before anything was sent.
#[derive(Debug, Clone, Copy, PartialEq, Eq)]
pub enum ValidationError {
    /// The request type is none of `GET`, `POST`, `PATCH`, `PUT`.
    InvalidMethod,
}

/// The request did not get an HTTP response.
#[derive(Debug, Clone, PartialEq, Eq)]
pub enum NetworkError {
    Timeout,
    ConnectionRefused,
    DnsFailure,
    TlsFailure,
    Other { detail: String },
}

/// The appliance answered with a status outside 200..=299.
#[derive(Debug, Clone, PartialEq, Eq)]
pub enum HttpError {
    Unauthorized,
    Forbidden,
    NotFound,
    Other { status: u16, body: String },
}

/// The response arrived but its body is not what the endpoint promises.
#[derive(Debug, Clone, PartialEq, Eq)]
pub enum DecodeError {
    MalformedBody { detail: String },
}

/// Any failure of a call.
#[derive(Debug, Clone, PartialEq, Eq)]
pub enum ApiError {
    Config(ConfigError),
    Validation(ValidationError),
    Network(NetworkError),
    Http(HttpError),
    Decode(DecodeError),
}

/// Mathematical value of a [`NetworkError`].
pub enum NetworkErrorView {
    Timeout,
    ConnectionRefused,
    DnsFailure,
    TlsFailure,
    Other { detail: Seq<char> },
}

/// Mathematical value of an [`HttpError`].
pub enum HttpErrorView {
    Unauthorized,
    Forbidden,
    NotFound,
    Other { status: u16, body: Seq<char> },
}

/// Mathematical value of a [`DecodeError`].
pub enum DecodeErrorView {
    MalformedBody { detail: Seq<char> },
}

/// Mathematical value of an [`ApiError`].
pub enum ApiErrorView {
    Config(ConfigError),
    Validation(ValidationError),
    Network(NetworkErrorView),
    Http(HttpErrorView),
    Decode(DecodeErrorView),
}

impl View for NetworkError {
    type V = NetworkErrorView;

    open spec fn view(&self) -> NetworkErrorView {
        match self {
            NetworkError::Timeout => NetworkErrorView::Timeout,
            NetworkError::ConnectionRefused => NetworkErrorView::ConnectionRefused,
            NetworkError::DnsFailure => NetworkErrorView::DnsFailure,
            NetworkError::TlsFailure => NetworkErrorView::TlsFailure,
            NetworkError::Other { detail } => NetworkErrorView::Other { detail: detail@ },
        }
    }
}

impl View for HttpError {
    type V = HttpErrorView;

    open spec fn view(&self) -> HttpErrorView {
        match self {
            HttpError::Unauthorized => HttpErrorView::Unauthorized,
            HttpError::Forbidden => HttpErrorView::Forbidden,
            HttpError::NotFound => HttpErrorView::NotFound,
            HttpError::Other { status, body } => HttpErrorView::Other {
                status: *status,
                body: body@,
            },
        }
    }
}

impl View for DecodeError {
    type V = DecodeErrorView;

    open spec fn view(&self) -> DecodeErrorView {
        match self {
            DecodeError::MalformedBody { detail } => DecodeErrorView::MalformedBody {
                detail: detail@,
            },
        }
    }
}

impl View for ApiError {
    type V = ApiErrorView;

    open spec fn view(&self) -> ApiErrorView {
        match self {
            ApiError::Config(e) => ApiErrorView::Config(*e),
            ApiError::Validation(e) => ApiErrorView::Validation(*e),
            ApiError::Network(e) => ApiErrorView::Network(e@),
            ApiError::Http(e) => ApiErrorView::Http(e@),
            ApiError::Decode(e) => ApiErrorView::Decode(e@),
        }
    }
}

/// The phrase that `reqwest::StatusCode` prints after the number of a status
/// code from 100 to 999: the code's canonical reason phrase, or a fixed
/// placeholder for a code that has none.
pub uninterp spec fn reason_phrase(code: u16) -> Seq<char>;

/// A status code as shown to the operator: for a code from 100 to 999 the
/// number, a space and the reason phrase (`404 Not Found`); for any other
/// number, which no HTTP response carries, the number alone.
pub open spec fn status_text(code: u16) -> Seq<char> {
    if 100 <= code <= 999 {
        decimal(code as nat) + seq![' '] + reason_phrase(code)
    } else {
        decimal(code as nat)
    }
}

/// Trusted: builds a `reqwest::StatusCode` with `StatusCode::from_u16` and
/// prints it with its `Display` impl. `from_u16` accepts exactly the codes
/// from 100 to 999; `Display` writes the number in decimal, one space, and the
/// canonical reason phrase or `<unknown status code>`.
#[verifier::external_body]
fn status_display(code: u16) -> (text: Option<String>)
    ensures
        text is Some <==> 100 <= code <= 999,
        text matches Some(t) ==> t@ == decimal(code as nat) + seq![' '] + reason_phrase(code),
{
    match reqwest::StatusCode::from_u16(code) {
        Ok(status) => Some(status.to_string()),
        Err(_) => None,
    }
}

/// The status code in the form [`status_text`] describes.
pub fn status_string(code: u16) -> (text: String)
    ensures
        text@ == status_text(code),
{
    match status_display(code) {
        Some(text) => text,
        None => decimal_string(code as u64),
    }
}

/// The text shown for a failure of a call to `url`. Each text names what went
/// wrong and, where the operator can act on it, what to check.
pub open spec fn message_text(error: ApiErrorView, url: Seq<char>) -> Seq<char> {
    match error {
        ApiErrorView::Config(ConfigError::MissingProfile) => "API info not found"@,
        ApiErrorView::Validation(ValidationError::InvalidMethod) => "Invalid request type"@,
        ApiErrorView::Network(NetworkErrorView::Timeout) => "Connection timed out: Server at "@
            + url + " is unreachable or not responding"@,
        ApiErrorView::Network(NetworkErrorView::ConnectionRefused) =>
            "Connection error: Unable to connect to server at "@ + url
            + ". Check your network and firewall settings"@,
        ApiErrorView::Network(NetworkErrorView::DnsFailure) =>
            "DNS resolution error: Could not resolve hostname in URL "@ + url,
        ApiErrorView::Network(NetworkErrorView::TlsFailure) =>
            "SSL/TLS error: There was a problem with the server's security certificate at "@
            + url,
        ApiErrorView::Network(NetworkErrorView::Other { detail }) => "Request to "@ + url
            + " failed: "@ + detail,
        ApiErrorView::Http(HttpErrorView::Unauthorized) =>
            "Authentication failed (HTTP 401): Your API key or secret is incorrect"@,
        ApiErrorView::Http(HttpErrorView::Forbidden) =>
            "Permission denied (HTTP 403): Your API credentials don't have sufficient permissions"@,
        ApiErrorView::Http(HttpErrorView::NotFound) =>
            "API endpoint not found (HTTP 404): Check your firewall URL and port"@,
        ApiErrorView::Http(HttpErrorView::Other { status, body }) => "Request to "@ + url
            + " failed with status "@ + status_text(status) + ": "@ + body,
        ApiErrorView::Decode(DecodeErrorView::MalformedBody { detail }) => detail,
    }
}

impl ApiError {
    /// The text to show the operator for this failure of a call to `url`.
    pub fn message(&self, url: &str) -> (text: String)
        ensures
            text@ == message_text(self@, url@),
    {
        match self {
            ApiError::Config(ConfigError::MissingProfile) => String::from_str("API info not found"),
            ApiError::Validation(ValidationError::InvalidMethod) => String::from_str(
                "Invalid request type",
            ),
            ApiError::Network(NetworkError::Timeout) => {
                let mut text = String::from_str("Connection timed out: Server at ");
                text.append(url);
                text.append(" is unreachable or not responding");
                text
            },
            ApiError::Network(NetworkError::ConnectionRefused) => {
                let mut text = String::from_str("Connection error: Unable to connect to server at ");
                text.append(url);
                text.append(". Check your network and firewall settings");
                text
            },
            ApiError::Network(NetworkError::DnsFailure) => {
                let mut text = String::from_str(
                    "DNS resolution error: Could not resolve hostname in URL ",
                );
                text.append(url);
                text
            },
            ApiError::Network(NetworkError::TlsFailure) => {
                let mut text = String::from_str(
                    "SSL/TLS error: There was a problem with the server's security certificate at ",
                );
                text.append(url);
                text
            },
            ApiError::Network(NetworkError::Other { detail }) => {
                let mut text = String::from_str("Request to ");
                text.append(url);
                text.append(" failed: ");
                text.append(detail.as_str());
                text
            },
            ApiError::Http(HttpError::Unauthorized) => String::from_str(
                "Authentication failed (HTTP 401): Your API key or secret is incorrect",
            ),
            ApiError::Http(HttpError::Forbidden) => String::from_str(
                "Permission denied (HTTP 403): Your API credentials don't have sufficient permissions",
            ),
            ApiError::Http(HttpError::NotFound) => String::from_str(
                "API endpoint not found (HTTP 404): Check your firewall URL and port",
            ),
            ApiError::Http(HttpError::Other { status, body }) => {
                let shown = status_string(*status);
                let mut text = String::from_str("Request to ");
                text.append(url);
                text.append(" failed with status ");
                text.append(shown.as_str());
                text.append(": ");
                text.append(body.as_str());
                text
            },
            ApiError::Decode(DecodeError::MalformedBody { detail }) => detail.clone(),
        }
    }
}

/// The text of a decoding failure: what was being decoded, a colon and a
/// space, then what the decoder reported.
pub open spec fn malformed_text(context: Seq<char>, cause: Seq<char>) -> Seq<char> {
    context + ": "@ + cause
}

/// The failure to report when a response body cannot be decoded. `context`
/// says what was being decoded, `cause` what the decoder reported.
pub fn malformed_body(context: &str, cause: &str) -> (error: ApiError)
    ensures
        error@ == ApiErrorView::Decode(
            DecodeErrorView::MalformedBody { detail: malformed_text(context@, cause@) },
        ),
{
    let mut detail = String::from_str(context);
    detail.append(": ");
    detail.append(cause);
    ApiError::Decode(DecodeError::MalformedBody { detail })
}

} // verus!
