//! Errors of a fetch.
use vstd::prelude::*;

verus! {

#[verifier::external_type_specification]
#[verifier::external_body]
pub struct ExReqwestError(reqwest::Error);

/// Whether a transport error is a timeout; it depends on the error alone.
pub uninterp spec fn timed_out_of(e: reqwest::Error) -> bool;

/// Whether a transport error is a connection failure; it depends on the error alone.
pub uninterp spec fn connect_failed_of(e: reqwest::Error) -> bool;

/// The message text of a transport error; it depends on the error alone.
pub uninterp spec fn message_of(e: reqwest::Error) -> Seq<char>;

/// Relies on `reqwest::Error::is_timeout`: whether the transport gave up on a timeout.
pub assume_specification[ reqwest::Error::is_timeout ](e: &reqwest::Error) -> (r: bool)
    ensures
        r == timed_out_of(*e),
;

/// Relies on `reqwest::Error::is_connect`: whether the failure was in connecting.
pub assume_specification[ reqwest::Error::is_connect ](e: &reqwest::Error) -> (r: bool)
    ensures
        r == connect_failed_of(*e),
;

/// Relies on `reqwest::Error`'s `Display`: its message text.
#[verifier::external_body]
fn transport_message(e: &reqwest::Error) -> (r: String)
    ensures
        r@ == message_of(*e),
{
    e.to_string()
}

/// Errors that end a fetch without a response.
#[derive(Debug)]
pub enum FetchError {
    /// The URL is empty.
    MissingUrl,
    /// The URL does not start with `http://` or `https://`, or does not parse.
    InvalidUrlScheme,
    /// The method is neither GET nor HEAD.
    InvalidMethod,
    /// The URL is refused by the allow list or the block list.
    BlockedUrl,
    /// The HTTP client could not be built.
    ClientBuildError(reqwest::Error),
    /// No response arrived before the first-byte deadline.
    FirstByteTimeout,
    /// The connection failed.
    ConnectError(reqwest::Error),
    /// Any other transport failure, with its message.
    RequestError(String),
    /// A specialised fetcher failed, with its message.
    FetcherError(String),
}

/// The message of each error, as shown to users.
pub open spec fn error_message(e: &FetchError) -> Seq<char> {
    match e {
        FetchError::MissingUrl => "Missing required parameter: url"@,
        FetchError::InvalidUrlScheme => "Invalid URL: must start with http:// or https://"@,
        FetchError::InvalidMethod => "Invalid method: must be GET or HEAD"@,
        FetchError::BlockedUrl => "Blocked URL: prefix not allowed"@,
        FetchError::ClientBuildError(_) => "Failed to create HTTP client"@,
        FetchError::FirstByteTimeout => "Request timed out: server did not respond within 1 second"@,
        FetchError::ConnectError(_) => "Failed to connect to server"@,
        FetchError::RequestError(m) => "Request failed: "@ + m@,
        FetchError::FetcherError(m) => "Fetcher error: "@ + m@,
    }
}

impl FetchError {
    /// Classifies a transport error: timeouts, then connection failures,
    /// then anything else with its message.
    pub fn from_reqwest(err: reqwest::Error) -> (r: FetchError)
        ensures
            timed_out_of(err) ==> r is FirstByteTimeout,
            !timed_out_of(err) && connect_failed_of(err) ==> r is ConnectError,
            !timed_out_of(err) && !connect_failed_of(err) ==> r is RequestError
                && r->RequestError_0@ == message_of(err),
    {
        if err.is_timeout() {
            FetchError::FirstByteTimeout
        } else if err.is_connect() {
            FetchError::ConnectError(err)
        } else {
            FetchError::RequestError(transport_message(&err))
        }
    }

    /// The error's message.
    pub fn message(&self) -> (r: String)
        ensures
            r@ == error_message(self),
    {
        match self {
            FetchError::MissingUrl => String::from_str("Missing required parameter: url"),
            FetchError::InvalidUrlScheme => String::from_str(
                "Invalid URL: must start with http:// or https://",
            ),
            FetchError::InvalidMethod => String::from_str("Invalid method: must be GET or HEAD"),
            FetchError::BlockedUrl => String::from_str("Blocked URL: prefix not allowed"),
            FetchError::ClientBuildError(_) => String::from_str("Failed to create HTTP client"),
            FetchError::FirstByteTimeout => String::from_str(
                "Request timed out: server did not respond within 1 second",
            ),
            FetchError::ConnectError(_) => String::from_str("Failed to connect to server"),
            FetchError::RequestError(m) => {
                let mut s = String::from_str("Request failed: ");
                s.append(m.as_str());
                s
            },
            FetchError::FetcherError(m) => {
                let mut s = String::from_str("Fetcher error: ");
                s.append(m.as_str());
                s
            },
        }
    }
}

} // verus!
