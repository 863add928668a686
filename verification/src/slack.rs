//! The hook that messages are posted to: what is sent, and what the answer
//! means. Sending itself is left to an HTTP client.

use crate::error::{SlackError, SlackErrorView};
use crate::json::json_text;
use crate::payload::Payload;
use crate::web_url::{parsed_url, WebUrl};
use vstd::prelude::*;

verus! {

/// The line that the HTTP library prints for a status from 100 to 999: the
/// number, a space, and the usual reason for it.
pub uninterp spec fn status_line(status: u16) -> Seq<char>;

/// The character of a decimal digit.
pub open spec fn digit_char(digit: int) -> char
    recommends
        0 <= digit <= 9,
{
    if digit == 0 {
        '0'
    } else if digit == 1 {
        '1'
    } else if digit == 2 {
        '2'
    } else if digit == 3 {
        '3'
    } else if digit == 4 {
        '4'
    } else if digit == 5 {
        '5'
    } else if digit == 6 {
        '6'
    } else if digit == 7 {
        '7'
    } else if digit == 8 {
        '8'
    } else {
        '9'
    }
}

/// A number in decimal, without leading zeros.
pub open spec fn decimal(n: nat) -> Seq<char>
    decreases n,
{
    if n < 10 {
        seq![digit_char(n as int)]
    } else {
        decimal(n / 10).push(digit_char(n as int % 10))
    }
}

/// The three decimal digits of a status from 100 to 999.
pub open spec fn status_digits(status: u16) -> Seq<char>
    recommends
        100 <= status <= 999,
{
    seq![
        digit_char(status as int / 100),
        digit_char(status as int / 10 % 10),
        digit_char(status as int % 10),
    ]
}

/// A status from 100 to 999 has its three digits as its decimal form.
pub proof fn lemma_status_digits(status: u16)
    requires
        100 <= status <= 999,
    ensures
        decimal(status as nat) == status_digits(status),
{
    let n = status as nat;
    reveal_with_fuel(decimal, 3);
    assert(decimal(n) == decimal(n / 10).push(digit_char(n as int % 10)));
    assert(decimal(n / 10) == decimal(n / 100).push(digit_char((n / 10) as int % 10)));
    assert(decimal(n / 100) == seq![digit_char((n / 100) as int)]);
    assert(decimal(n) =~= status_digits(status));
}

/// Makes a `reqwest::StatusCode` with `from_u16`, which takes the numbers
/// from 100 to 999 and no other, and prints it with its `Display` impl. The
/// text is named. The source shows that it begins with the number in
/// decimal, which has three digits, and that a space follows.
#[verifier::external_body]
fn status_text(status: u16) -> (text: Option<String>)
    ensures
        text is Some <==> 100 <= status <= 999,
        text matches Some(line) ==> line@ == status_line(status) && line@.len() >= 4
            && line@.take(3) == status_digits(status) && line@[3] == ' ',
{
    match reqwest::StatusCode::from_u16(status) {
        Ok(code) => Some(code.to_string()),
        Err(_) => None,
    }
}

/// The character of a decimal digit.
fn digit(d: u16) -> (c: char)
    requires
        d < 10,
    ensures
        c == digit_char(d as int),
{
    if d == 0 {
        '0'
    } else if d == 1 {
        '1'
    } else if d == 2 {
        '2'
    } else if d == 3 {
        '3'
    } else if d == 4 {
        '4'
    } else if d == 5 {
        '5'
    } else if d == 6 {
        '6'
    } else if d == 7 {
        '7'
    } else if d == 8 {
        '8'
    } else {
        '9'
    }
}

/// A number in decimal.
fn decimal_text(n: u16) -> (text: String)
    ensures
        text@ == decimal(n as nat),
    decreases n,
{
    let mut text = if n < 10 {
        String::new()
    } else {
        decimal_text(n / 10)
    };
    text.push(digit(n % 10));
    text
}

/// A status from 200 to 299.
pub open spec fn is_success(status: u16) -> bool {
    200 <= status < 300
}

/// How a status reads in the message of an error: the status line of the
/// HTTP library where the status has one, and else the bare number.
pub open spec fn status_words(status: u16) -> Seq<char> {
    if 100 <= status <= 999 {
        status_line(status)
    } else {
        decimal(status as nat)
    }
}

/// The message of the error for a status that is no success.
pub open spec fn failure_message(status: u16) -> Seq<char> {
    "HTTP error "@ + status_words(status)
}

/// What is posted to the hook: JSON text, to an address.
#[derive(Debug, PartialEq)]
pub struct Post {
    /// The address to post to.
    pub url: String,
    /// The value of the `Content-Type` header.
    pub content_type: String,
    /// The body.
    pub body: String,
}

/// A hook of the service, by its address.
#[derive(Debug, Clone, PartialEq)]
pub struct Slack {
    hook: WebUrl,
}

impl View for Slack {
    type V = Seq<char>;

    closed spec fn view(&self) -> Seq<char> {
        self.hook@
    }
}

impl Slack {
    /// The hook at the given address. Text that is no address of a web
    /// resource is refused.
    pub fn new(hook: &str) -> (made: Result<Slack, SlackError>)
        ensures
            match made {
                Ok(slack) => parsed_url(hook@) == Some(slack@),
                Err(e) => parsed_url(hook@) is None && e is Reqwest,
            },
    {
        Slack::with_hook(WebUrl::parse(hook))
    }

    /// The hook at an address that was parsed, or the error of one that was
    /// not.
    pub fn with_hook(parsed: Result<WebUrl, SlackError>) -> (made: Result<Slack, SlackError>)
        ensures
            match parsed {
                Ok(url) => made matches Ok(slack) && slack@ == url@,
                Err(e) => made matches Err(error) && error@ == e@,
            },
    {
        match parsed {
            Ok(hook) => Ok(Slack { hook }),
            Err(e) => Err(e),
        }
    }

    /// The address of the hook.
    pub fn hook(&self) -> (hook: &WebUrl)
        ensures
            hook@ == self@,
    {
        &self.hook
    }

    /// What to post for a payload: its JSON text, marked as JSON, to the
    /// address of the hook. There is a post for every payload.
    pub fn post(&self, payload: &Payload) -> (post: Result<Post, SlackError>)
        ensures
            post matches Ok(post) && {
                &&& post.url@ == self@
                &&& post.content_type@ == "application/json"@
                &&& post.body@ == json_text(payload@.json())
            },
    {
        match payload.to_json().render() {
            Ok(body) => Ok(
                Post {
                    url: self.hook.to_string(),
                    content_type: "application/json".to_owned(),
                    body,
                },
            ),
            Err(e) => Err(e),
        }
    }

    /// What the answer of the service means: a status from 200 to 299 is
    /// success, and any other is an error of the service. Its message is
    /// `HTTP error ` and then the status: the number in decimal, and for a
    /// status from 100 to 999 a space and the usual reason after it.
    pub fn response(status: u16) -> (outcome: Result<(), SlackError>)
        ensures
            outcome is Ok <==> is_success(status),
            outcome matches Err(e) ==> {
                &&& e@ == SlackErrorView::Slack(failure_message(status))
                &&& failure_message(status).len() >= 11 + decimal(status as nat).len()
                &&& failure_message(status).subrange(11, 11 + decimal(status as nat).len() as int)
                    == decimal(status as nat)
            },
    {
        if 200 <= status && status < 300 {
            Ok(())
        } else {
            let words = match status_text(status) {
                Some(line) => line,
                None => decimal_text(status),
            };
            proof {
                reveal_strlit("HTTP error ");
                if 100 <= status <= 999 {
                    lemma_status_digits(status);
                    assert(failure_message(status).subrange(11, 14) =~= words@.take(3));
                } else {
                    assert(failure_message(status).subrange(11, 11 + words@.len() as int) =~= words@);
                }
            }
            let mut message = String::from_str("HTTP error ");
            message.append(words.as_str());
            Err(SlackError::Slack(message))
        }
    }
}

} // verus!
