//! What can go wrong with a call: the closed set of error kinds, and the
//! status code by which a server reports its own.

use crate::text::decimal;
use hyper::Error as HttpError;
use hyper_util::client::legacy::Error as HttpClientError;
use serde_json::Error as JsonError;
use serde_url_params::Error as UrlEncodingError;
use vstd::prelude::*;
use vstd::string::*;

verus! {

/// Trusted: the type `hyper::Error`, a failure of the HTTP connection.
/// Nothing is known of what it holds.
#[verifier::external_type_specification]
#[verifier::external_body]
pub struct ExHttpError(HttpError);

/// Trusted: the type `hyper_util::client::legacy::Error`, a failure of the
/// pooled HTTP client. Nothing is known of what it holds.
#[verifier::external_type_specification]
#[verifier::external_body]
pub struct ExHttpClientError(HttpClientError);

/// Trusted: the type `hyper::http::uri::InvalidUri`, the reason why a text
/// is no URI. Nothing is known of what it holds.
#[verifier::external_type_specification]
#[verifier::external_body]
pub struct ExInvalidUri(hyper::http::uri::InvalidUri);

/// Trusted: the type `serde_json::Error`. Nothing is known of what it holds.
#[verifier::external_type_specification]
#[verifier::external_body]
pub struct ExJsonError(JsonError);

/// Trusted: the type `std::str::Utf8Error`. Nothing is known of what it
/// holds.
#[verifier::external_type_specification]
#[verifier::external_body]
pub struct ExUtf8Error(std::str::Utf8Error);

/// Trusted: the type `serde_url_params::Error`. Nothing is known of what it
/// holds.
#[verifier::external_type_specification]
#[verifier::external_body]
pub struct ExUrlEncodingError(UrlEncodingError);

/// An HTTP status code: a number of three digits.
#[derive(Debug, Clone, Copy)]
pub struct StatusCode {
    code: u16,
}

impl View for StatusCode {
    type V = u16;

    closed spec fn view(&self) -> u16 {
        self.code
    }
}

/// The reason phrase that `hyper` prints behind a status code.
pub uninterp spec fn reason_phrase(code: u16) -> Seq<char>;

/// A status code as it is shown: the number, a space, the reason phrase.
pub open spec fn status_text(code: u16) -> Seq<char> {
    decimal(code as nat) + " "@ + reason_phrase(code)
}

/// Trusted: the `Display` of `hyper::StatusCode`, applied to the code that
/// `StatusCode::from_u16` makes of the number. It prints the number in
/// decimal, a space, and the canonical reason phrase of the code, or a
/// placeholder where the code has none. `from_u16` takes every number from
/// 100 to 999.
#[verifier::external_body]
fn status_line(code: u16) -> (text: String)
    requires
        100 <= code <= 999,
    ensures
        text@ == decimal(code as nat) + " "@ + reason_phrase(code),
{
    match hyper::StatusCode::from_u16(code) {
        Ok(status) => status.to_string(),
        Err(_) => String::new(),
    }
}

impl StatusCode {
    #[verifier::type_invariant]
    spec fn three_digits(self) -> bool {
        100 <= self.code <= 999
    }

    /// The status code with the given number, if it has three digits.
    pub fn from_u16(code: u16) -> (status: Option<StatusCode>)
        ensures
            status is Some <==> 100 <= code <= 999,
            status matches Some(s) ==> s@ == code,
    {
        if 100 <= code && code <= 999 {
            Some(StatusCode { code })
        } else {
            None
        }
    }

    /// The number of the status code.
    pub fn as_u16(&self) -> (code: u16)
        ensures
            code == self@,
            100 <= code <= 999,
    {
        proof {
            use_type_invariant(self);
        }
        self.code
    }

    /// Whether the code reports success.
    pub open spec fn success(self) -> bool {
        200 <= self@ <= 299
    }

    /// Check if status is within 200-299.
    pub fn is_success(&self) -> (success: bool)
        ensures
            success == self.success(),
    {
        200 <= self.code && self.code <= 299
    }

    /// The code as it is shown: number and reason phrase.
    pub fn to_text(&self) -> (text: String)
        ensures
            text@ == status_text(self@),
    {
        proof {
            use_type_invariant(self);
        }
        status_line(self.code)
    }
}

/// Different kinds of error which might occur.
#[derive(Debug)]
pub enum Kind {
    /// The connection failed or the protocol was broken.
    Http(HttpError),
    /// The pooled client could not send the request.
    HttpClient(HttpClientError),
    /// The signed URL is no valid URI.
    Uri(hyper::http::uri::InvalidUri),
    /// A body could not be written as JSON or read from it.
    Json(JsonError),
    /// A text was not valid UTF-8.
    Utf8Error(std::str::Utf8Error),
    /// A query could not be written as URL parameters.
    UrlEncoding(UrlEncodingError),
    /// The server answered with a status code outside the success range;
    /// the second field is the body of its response.
    ServerError(StatusCode, String),
}

/// Error type returned by the client.
#[derive(Debug)]
pub struct Error {
    kind: Kind,
    url: Option<String>,
}

/// Result type returned by the client.
pub type Result<T> = std::result::Result<T, Error>;

/// What is shown before the cause of an error: the URL, if one is known.
pub open spec fn url_prefix(url: Option<Seq<char>>) -> Seq<char> {
    match url {
        Some(u) => u + ": "@,
        None => Seq::<char>::empty(),
    }
}

/// How a server error is shown.
pub open spec fn server_error_text(status: u16, response: Seq<char>) -> Seq<char> {
    "Server Error: "@ + status_text(status) + ", Response: "@ + response
}

/// Trusted: the `Display` of `hyper::Error`. Nothing is claimed of the text.
#[verifier::external_body]
fn http_error_text(err: &HttpError) -> String {
    err.to_string()
}

/// Trusted: the `Display` of `hyper_util::client::legacy::Error`. Nothing is
/// claimed of the text.
#[verifier::external_body]
fn http_client_error_text(err: &HttpClientError) -> String {
    err.to_string()
}

/// Trusted: the `Display` of `hyper::http::uri::InvalidUri`. Nothing is
/// claimed of the text.
#[verifier::external_body]
fn invalid_uri_text(err: &hyper::http::uri::InvalidUri) -> String {
    err.to_string()
}

/// Trusted: the `Display` of `serde_json::Error`. Nothing is claimed of the
/// text.
#[verifier::external_body]
fn json_error_text(err: &JsonError) -> String {
    err.to_string()
}

/// Trusted: the `Display` of `std::str::Utf8Error`. Nothing is claimed of
/// the text.
#[verifier::external_body]
fn utf8_error_text(err: &std::str::Utf8Error) -> String {
    err.to_string()
}

/// Trusted: the `Display` of `serde_url_params::Error`. Nothing is claimed
/// of the text.
#[verifier::external_body]
fn url_encoding_error_text(err: &UrlEncodingError) -> String {
    err.to_string()
}

impl Error {
    /// The cause of the error.
    pub closed spec fn kind_view(&self) -> Kind {
        self.kind
    }

    /// The text of the URL for which the error occurred, if any.
    pub closed spec fn url_view(&self) -> Option<Seq<char>> {
        match self.url {
            Some(u) => Some(u@),
            None => None,
        }
    }

    /// The error of the given kind that belongs to no URL.
    pub closed spec fn without_url(kind: Kind) -> Error {
        Error { kind, url: None }
    }

    /// An error of a kind made without a URL has that kind and no URL.
    pub proof fn lemma_without_url(kind: Kind)
        ensures
            Error::without_url(kind).kind_view() == kind,
            Error::without_url(kind).url_view() is None,
    {
    }

    /// The error for a response with a status code outside the success range.
    pub fn server_error(status: StatusCode, resp: String, url: String) -> (error: Error)
        ensures
            error.kind_view() == Kind::ServerError(status, resp),
            error.url_view() == Some(url@),
    {
        Error { kind: Kind::ServerError(status, resp), url: Some(url) }
    }

    /// Returns error kind which is the cause of this error.
    pub fn kind(&self) -> (kind: &Kind)
        ensures
            *kind == self.kind_view(),
    {
        &self.kind
    }

    /// Returns the url (if any) for which the error occurred.
    pub fn url(&self) -> (url: Option<&str>)
        ensures
            url is Some <==> self.url_view() is Some,
            url matches Some(u) ==> self.url_view() == Some(u@),
    {
        match &self.url {
            Some(u) => Some(u.as_str()),
            None => None,
        }
    }

    /// The error as it is shown: the URL and a colon, where a URL is known,
    /// then the cause. A server error shows status and response body; what
    /// the other kinds show is up to the crates they come from.
    pub fn to_text(&self) -> (text: String)
        ensures
            url_prefix(self.url_view()).is_prefix_of(text@),
            self.kind_view() matches Kind::ServerError(status, resp) ==> text@ == url_prefix(
                self.url_view(),
            ) + server_error_text(status@, resp@),
    {
        let mut text = String::new();
        if let Some(url) = &self.url {
            text.append(url.as_str());
            text.append(": ");
        }
        let ghost prefix = text@;
        assert(prefix =~= url_prefix(self.url_view()));
        match &self.kind {
            Kind::Http(e) => {
                let detail = http_error_text(e);
                text.append(detail.as_str());
            },
            Kind::HttpClient(e) => {
                let detail = http_client_error_text(e);
                text.append(detail.as_str());
            },
            Kind::Uri(e) => {
                let detail = invalid_uri_text(e);
                text.append(detail.as_str());
            },
            Kind::Json(e) => {
                let detail = json_error_text(e);
                text.append(detail.as_str());
            },
            Kind::Utf8Error(e) => {
                let detail = utf8_error_text(e);
                text.append(detail.as_str());
            },
            Kind::UrlEncoding(e) => {
                let detail = url_encoding_error_text(e);
                text.append(detail.as_str());
            },
            Kind::ServerError(code, resp) => {
                let status = code.to_text();
                text.append("Server Error: ");
                text.append(status.as_str());
                text.append(", Response: ");
                text.append(resp.as_str());
                assert(text@ =~= prefix + server_error_text(code@, resp@));
            },
        }
        text
    }
}

impl From<hyper::http::uri::InvalidUri> for Error {
    fn from(err: hyper::http::uri::InvalidUri) -> (error: Self)
        ensures
            error.kind_view() == Kind::Uri(err),
            error.url_view() is None,
    {
        Self { kind: Kind::Uri(err), url: None }
    }
}

impl vstd::std_specs::convert::FromSpecImpl<hyper::http::uri::InvalidUri> for Error {
    open spec fn obeys_from_spec() -> bool {
        true
    }

    open spec fn from_spec(err: hyper::http::uri::InvalidUri) -> Error {
        Error::without_url(Kind::Uri(err))
    }
}

impl From<HttpError> for Error {
    fn from(err: HttpError) -> (error: Self)
        ensures
            error.kind_view() == Kind::Http(err),
            error.url_view() is None,
    {
        Self { kind: Kind::Http(err), url: None }
    }
}

impl vstd::std_specs::convert::FromSpecImpl<HttpError> for Error {
    open spec fn obeys_from_spec() -> bool {
        true
    }

    open spec fn from_spec(err: HttpError) -> Error {
        Error::without_url(Kind::Http(err))
    }
}

impl From<HttpClientError> for Error {
    fn from(err: HttpClientError) -> (error: Self)
        ensures
            error.kind_view() == Kind::HttpClient(err),
            error.url_view() is None,
    {
        Self { kind: Kind::HttpClient(err), url: None }
    }
}

impl vstd::std_specs::convert::FromSpecImpl<HttpClientError> for Error {
    open spec fn obeys_from_spec() -> bool {
        true
    }

    open spec fn from_spec(err: HttpClientError) -> Error {
        Error::without_url(Kind::HttpClient(err))
    }
}

impl From<JsonError> for Error {
    fn from(err: JsonError) -> (error: Self)
        ensures
            error.kind_view() == Kind::Json(err),
            error.url_view() is None,
    {
        Self { kind: Kind::Json(err), url: None }
    }
}

impl vstd::std_specs::convert::FromSpecImpl<JsonError> for Error {
    open spec fn obeys_from_spec() -> bool {
        true
    }

    open spec fn from_spec(err: JsonError) -> Error {
        Error::without_url(Kind::Json(err))
    }
}

impl From<std::str::Utf8Error> for Error {
    fn from(err: std::str::Utf8Error) -> (error: Self)
        ensures
            error.kind_view() == Kind::Utf8Error(err),
            error.url_view() is None,
    {
        Self { kind: Kind::Utf8Error(err), url: None }
    }
}

impl vstd::std_specs::convert::FromSpecImpl<std::str::Utf8Error> for Error {
    open spec fn obeys_from_spec() -> bool {
        true
    }

    open spec fn from_spec(err: std::str::Utf8Error) -> Error {
        Error::without_url(Kind::Utf8Error(err))
    }
}

impl From<UrlEncodingError> for Error {
    fn from(err: UrlEncodingError) -> (error: Self)
        ensures
            error.kind_view() == Kind::UrlEncoding(err),
            error.url_view() is None,
    {
        Self { kind: Kind::UrlEncoding(err), url: None }
    }
}

impl vstd::std_specs::convert::FromSpecImpl<UrlEncodingError> for Error {
    open spec fn obeys_from_spec() -> bool {
        true
    }

    open spec fn from_spec(err: UrlEncodingError) -> Error {
        Error::without_url(Kind::UrlEncoding(err))
    }
}

} // verus!
