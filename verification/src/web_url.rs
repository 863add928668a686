//! Addresses of web resources, parsed by the HTTP client's own rules.

use crate::error::SlackError;
use vstd::prelude::*;

verus! {

/// What parsing a text as the address of a web resource gives: the address
/// in its normal form, or nothing where the text is no such address.
pub uninterp spec fn parsed_url(text: Seq<char>) -> Option<Seq<char>>;

/// Converts with `reqwest::IntoUrl::into_url`, which parses the text with
/// `url::Url::parse` and then refuses an address without a host. The
/// address comes back as the text that `url::Url` serializes to. The result
/// is a function of the text alone, so it is named. The method stands in a
/// sealed trait that can be reached through a bound only, which is why this
/// function has one; the library hands it a `&str` and nothing else.
#[verifier::external_body]
fn into_url<U: reqwest::IntoUrl + View<V = Seq<char>>>(url: U) -> (converted: Result<
    String,
    reqwest::Error,
>)
    ensures
        match converted {
            Ok(address) => parsed_url(url@) == Some(address@),
            Err(_) => parsed_url(url@) is None,
        },
{
    match url.into_url() {
        Ok(address) => Ok(String::from(address)),
        Err(e) => Err(e),
    }
}

/// The address of a web resource, in the normal form that parsing gives.
#[derive(Debug, Clone, PartialEq)]
pub struct WebUrl(String);

impl View for WebUrl {
    type V = Seq<char>;

    closed spec fn view(&self) -> Seq<char> {
        self.0@
    }
}

impl DeepView for WebUrl {
    type V = Seq<char>;

    open spec fn deep_view(&self) -> Seq<char> {
        self@
    }
}

impl WebUrl {
    /// Parses the text as an address. Text that is no address, or an
    /// address without a host, is refused with the HTTP client's error.
    pub fn parse(text: &str) -> (parsed: Result<WebUrl, SlackError>)
        ensures
            match parsed {
                Ok(url) => parsed_url(text@) == Some(url@),
                Err(e) => parsed_url(text@) is None && e is Reqwest,
            },
    {
        WebUrl::from_parsed(into_url(text))
    }

    /// Keeps an address that was parsed, and wraps the error of one that was
    /// not.
    pub fn from_parsed(converted: Result<String, reqwest::Error>) -> (parsed: Result<
        WebUrl,
        SlackError,
    >)
        ensures
            match converted {
                Ok(address) => parsed matches Ok(url) && url@ == address@,
                Err(e) => parsed matches Err(SlackError::Reqwest(inner)) && inner == e,
            },
    {
        match converted {
            Ok(address) => Ok(WebUrl(address)),
            Err(e) => Err(SlackError::Reqwest(e)),
        }
    }

    /// The address as text.
    pub fn as_str(&self) -> (text: &str)
        ensures
            text@ == self@,
    {
        self.0.as_str()
    }

    /// The address as text, as an owned string.
    pub fn to_string(&self) -> (text: String)
        ensures
            text@ == self@,
    {
        self.0.clone()
    }
}

} // verus!
