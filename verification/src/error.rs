//! The error type of the library.

use crate::hex_digits::FromHexError;
use vstd::prelude::*;
use vstd::std_specs::convert::FromSpecImpl;
use vstd::string::to_string_from_display_ensures;

verus! {

/// `core::str::Utf8Error`, carried through unread.
#[verifier::external_type_specification]
#[verifier::external_body]
pub struct ExUtf8Error(core::str::Utf8Error);

/// `serde_json::Error`, carried through unread.
#[verifier::external_type_specification]
#[verifier::external_body]
pub struct ExJsonError(serde_json::Error);

/// `reqwest::Error`, carried through unread.
#[verifier::external_type_specification]
#[verifier::external_body]
pub struct ExReqwestError(reqwest::Error);

/// `url::ParseError`, carried through unread.
#[verifier::external_type_specification]
#[verifier::external_body]
pub struct ExUrlParseError(url::ParseError);

/// `std::io::Error`, carried through unread.
#[verifier::external_type_specification]
#[verifier::external_body]
pub struct ExIoError(std::io::Error);

/// Everything that can go wrong in this library.
#[derive(Debug)]
pub enum SlackError {
    /// The service answered with a status that is no success.
    Slack(String),
    /// A color that has the wrong length or lacks its leading `#`.
    HexColor(String),
    /// An answer of the service that is not valid UTF-8.
    Utf8(core::str::Utf8Error),
    /// The payload could not be written as JSON.
    Serialize(serde_json::Error),
    /// A color whose digits are not hexadecimal.
    FromHex(FromHexError),
    /// A malformed URL, or a failure of the HTTP client.
    Reqwest(reqwest::Error),
    /// A malformed URL.
    Url(url::ParseError),
    /// An input or output failure.
    Io(std::io::Error),
}

/// A [`SlackError`] with its texts as sequences of characters. An error of
/// another crate is held as it is.
pub ghost enum SlackErrorView {
    Slack(Seq<char>),
    HexColor(Seq<char>),
    Utf8(core::str::Utf8Error),
    Serialize(serde_json::Error),
    FromHex(FromHexError),
    Reqwest(reqwest::Error),
    Url(url::ParseError),
    Io(std::io::Error),
}

impl View for SlackError {
    type V = SlackErrorView;

    open spec fn view(&self) -> SlackErrorView {
        match *self {
            SlackError::Slack(text) => SlackErrorView::Slack(text@),
            SlackError::HexColor(text) => SlackErrorView::HexColor(text@),
            SlackError::Utf8(e) => SlackErrorView::Utf8(e),
            SlackError::Serialize(e) => SlackErrorView::Serialize(e),
            SlackError::FromHex(e) => SlackErrorView::FromHex(e),
            SlackError::Reqwest(e) => SlackErrorView::Reqwest(e),
            SlackError::Url(e) => SlackErrorView::Url(e),
            SlackError::Io(e) => SlackErrorView::Io(e),
        }
    }
}

impl SlackError {
    /// The message of the error. The library words its own errors; an error
    /// of another crate speaks for itself.
    pub fn to_string(&self) -> (text: String)
        ensures
            match *self {
                SlackError::Slack(message) => text@ == "slack service error: "@ + message@,
                SlackError::HexColor(message) => text@ == "hex color parsing error: "@ + message@,
                SlackError::Utf8(e) => to_string_from_display_ensures(&e, text),
                SlackError::Serialize(e) => to_string_from_display_ensures(&e, text),
                SlackError::FromHex(e) => text@ == e.message(),
                SlackError::Reqwest(e) => to_string_from_display_ensures(&e, text),
                SlackError::Url(e) => to_string_from_display_ensures(&e, text),
                SlackError::Io(e) => to_string_from_display_ensures(&e, text),
            },
    {
        match self {
            SlackError::Slack(message) => {
                let mut text = String::from_str("slack service error: ");
                text.append(message.as_str());
                text
            },
            SlackError::HexColor(message) => {
                let mut text = String::from_str("hex color parsing error: ");
                text.append(message.as_str());
                text
            },
            SlackError::Utf8(e) => e.to_string(),
            SlackError::Serialize(e) => e.to_string(),
            SlackError::FromHex(e) => e.to_string(),
            SlackError::Reqwest(e) => e.to_string(),
            SlackError::Url(e) => e.to_string(),
            SlackError::Io(e) => e.to_string(),
        }
    }
}

impl From<core::str::Utf8Error> for SlackError {
    fn from(e: core::str::Utf8Error) -> (error: SlackError) {
        SlackError::Utf8(e)
    }
}

impl FromSpecImpl<core::str::Utf8Error> for SlackError {
    open spec fn obeys_from_spec() -> bool {
        true
    }

    open spec fn from_spec(e: core::str::Utf8Error) -> SlackError {
        SlackError::Utf8(e)
    }
}

impl From<serde_json::Error> for SlackError {
    fn from(e: serde_json::Error) -> (error: SlackError) {
        SlackError::Serialize(e)
    }
}

impl FromSpecImpl<serde_json::Error> for SlackError {
    open spec fn obeys_from_spec() -> bool {
        true
    }

    open spec fn from_spec(e: serde_json::Error) -> SlackError {
        SlackError::Serialize(e)
    }
}

impl From<FromHexError> for SlackError {
    fn from(e: FromHexError) -> (error: SlackError) {
        SlackError::FromHex(e)
    }
}

impl FromSpecImpl<FromHexError> for SlackError {
    open spec fn obeys_from_spec() -> bool {
        true
    }

    open spec fn from_spec(e: FromHexError) -> SlackError {
        SlackError::FromHex(e)
    }
}

impl From<reqwest::Error> for SlackError {
    fn from(e: reqwest::Error) -> (error: SlackError) {
        SlackError::Reqwest(e)
    }
}

impl FromSpecImpl<reqwest::Error> for SlackError {
    open spec fn obeys_from_spec() -> bool {
        true
    }

    open spec fn from_spec(e: reqwest::Error) -> SlackError {
        SlackError::Reqwest(e)
    }
}

impl From<url::ParseError> for SlackError {
    fn from(e: url::ParseError) -> (error: SlackError) {
        SlackError::Url(e)
    }
}

impl FromSpecImpl<url::ParseError> for SlackError {
    open spec fn obeys_from_spec() -> bool {
        true
    }

    open spec fn from_spec(e: url::ParseError) -> SlackError {
        SlackError::Url(e)
    }
}

impl From<std::io::Error> for SlackError {
    fn from(e: std::io::Error) -> (error: SlackError) {
        SlackError::Io(e)
    }
}

impl FromSpecImpl<std::io::Error> for SlackError {
    open spec fn obeys_from_spec() -> bool {
        true
    }

    open spec fn from_spec(e: std::io::Error) -> SlackError {
        SlackError::Io(e)
    }
}

} // verus!
