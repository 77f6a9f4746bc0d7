//! The ways in which building a client or reading a reply can fail.

use crate::outside::{
    header_error_text, json_error_text, json_error_words, transport_error_text,
    transport_error_words,
};
use reqwest::header::InvalidHeaderValue;
use reqwest::Error as TransportError;
use serde_json::Error as JsonError;
use vstd::prelude::*;
use vstd::std_specs::convert::FromSpecImpl;

verus! {

/// Error type for functions in this crate.
#[derive(Debug)]
pub enum Error {
    /// The exchange with the server failed: no connection, a timeout, a
    /// broken transfer. Holds what the transport reported.
    Reqwest(TransportError),
    /// A text that should have been JSON is not.
    Serde(JsonError),
    /// The reply is JSON, but not of the shape that the operation expects.
    UnexpectedShape,
    /// The reply is well formed, but lacks the part that was asked for.
    EmptyPayload,
    /// No API token was provided to the API interface.
    MissingApiToken,
    /// The user agent assembled from the application's name and version
    /// cannot be sent as a header.
    InvalidHeaderValue(InvalidHeaderValue),
    /// The intensity or the duration of a control command is out of bounds.
    InvalidControlParameters,
}

impl From<TransportError> for Error {
    fn from(value: TransportError) -> (error: Self) {
        Error::Reqwest(value)
    }
}

impl FromSpecImpl<TransportError> for Error {
    open spec fn obeys_from_spec() -> bool {
        true
    }

    open spec fn from_spec(value: TransportError) -> Self {
        Error::Reqwest(value)
    }
}

impl From<JsonError> for Error {
    fn from(value: JsonError) -> (error: Self) {
        Error::Serde(value)
    }
}

impl FromSpecImpl<JsonError> for Error {
    open spec fn obeys_from_spec() -> bool {
        true
    }

    open spec fn from_spec(value: JsonError) -> Self {
        Error::Serde(value)
    }
}

impl Error {
    /// Whether the error says that a reply could not be decoded, be it for
    /// its syntax or for its shape.
    pub fn is_decode_error(&self) -> (decode: bool)
        ensures
            decode == (self is Serde || self is UnexpectedShape),
    {
        match self {
            Error::Serde(_) => true,
            Error::UnexpectedShape => true,
            _ => false,
        }
    }

    /// The sentence that [`Error::message`] gives: for an error of the
    /// transport or of the JSON parser what that error prints of itself, for
    /// every other kind a fixed text.
    pub open spec fn message_text(self) -> Seq<char> {
        match self {
            Error::Reqwest(error) => transport_error_words(error),
            Error::Serde(error) => json_error_words(error),
            Error::UnexpectedShape => "the reply does not have the expected shape"@,
            Error::EmptyPayload => "the reply holds no payload"@,
            Error::MissingApiToken => "no API token was provided"@,
            Error::InvalidHeaderValue(_) => "invalid header value for user agent: "@
                + "failed to parse header value"@,
            Error::InvalidControlParameters => "intensity or duration is outside of bounds"@,
        }
    }

    /// A sentence for the person who reads the error.
    pub fn message(&self) -> (text: String)
        ensures
            text@ == self.message_text(),
    {
        match self {
            Error::Reqwest(e) => transport_error_text(e),
            Error::Serde(e) => json_error_text(e),
            Error::UnexpectedShape => String::from_str("the reply does not have the expected shape"),
            Error::EmptyPayload => String::from_str("the reply holds no payload"),
            Error::MissingApiToken => String::from_str("no API token was provided"),
            Error::InvalidHeaderValue(e) => {
                let reason = header_error_text(e);
                String::from_str("invalid header value for user agent: ").concat(reason.as_str())
            },
            Error::InvalidControlParameters => String::from_str(
                "intensity or duration is outside of bounds",
            ),
        }
    }
}

} // verus!
