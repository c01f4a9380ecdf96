//! The ways in which a request can fail, and what the service's error codes
//! mean.

use vstd::prelude::*;
use vstd::string::StringExecFns;

verus! {

/// Why no request address could be assembled.
#[derive(Debug, PartialEq, Eq)]
pub enum UrlError {
    /// The base address is not a URL.
    Parse(url::ParseError),
    /// The base address is a URL, but not a web address that a path and a
    /// query can be added to.
    UnfitBase,
    /// The address would outgrow what a URL can hold.
    TooLong,
}

/// A failed request.
#[derive(Debug, PartialEq, Eq)]
pub enum NewsAPIError {
    /// The request could not be completed; the transport's own account.
    RequestFailed(String),
    /// The body of the answer could not be read to its end.
    FailedResponseToString(String),
    /// The body was read but is no envelope.
    ArticleParseFailed(String),
    /// The request address could not be assembled.
    UrlParsing(UrlError),
    /// The service answered and turned the request down.
    BadRequest(&'static str),
}

/// The reason given for a rejection that carries `code`.
pub open spec fn rejection_reason(code: Option<Seq<char>>) -> Seq<char> {
    if code == Some("apiKeyDisable"@) {
        "Your API key has been disabled"@
    } else {
        "Unknown error"@
    }
}

/// An optional text as the characters it holds.
pub open spec fn text_of(code: Option<String>) -> Option<Seq<char>> {
    match code {
        Some(text) => Some(text@),
        None => None,
    }
}

/// The rejection that stands for an error code of the service.
pub fn map_response_error(code: &Option<String>) -> (error: NewsAPIError)
    ensures
        error matches NewsAPIError::BadRequest(reason) && reason@ == rejection_reason(
            text_of(*code),
        ),
{
    let disabled: String = "apiKeyDisable".to_owned();
    match code {
        Some(text) if text.eq(&disabled) => NewsAPIError::BadRequest(
            "Your API key has been disabled",
        ),
        _ => NewsAPIError::BadRequest("Unknown error"),
    }
}

impl NewsAPIError {
    /// What `message` says of the error.
    pub open spec fn message_text(self) -> Seq<char> {
        match self {
            NewsAPIError::RequestFailed(_) => "Failed fetching articles"@,
            NewsAPIError::FailedResponseToString(_) => "Failed converting response to string"@,
            NewsAPIError::ArticleParseFailed(_) => "Failed parsing articles data"@,
            NewsAPIError::UrlParsing(_) => "Failed parsing url"@,
            NewsAPIError::BadRequest(reason) => "Request failed: "@ + reason@,
        }
    }

    /// One line that says what went wrong.
    pub fn message(&self) -> (line: String)
        ensures
            line@ == self.message_text(),
    {
        match self {
            NewsAPIError::RequestFailed(_) => "Failed fetching articles".to_owned(),
            NewsAPIError::FailedResponseToString(_) => {
                "Failed converting response to string".to_owned()
            },
            NewsAPIError::ArticleParseFailed(_) => "Failed parsing articles data".to_owned(),
            NewsAPIError::UrlParsing(_) => "Failed parsing url".to_owned(),
            NewsAPIError::BadRequest(reason) => "Request failed: ".to_owned().concat(reason),
        }
    }
}

} // verus!
