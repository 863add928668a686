//! Text as the service displays it: escaped text, links, and texts put
//! together from both.

use crate::escape::{escape, escape_text};
use vstd::prelude::*;
use vstd::std_specs::convert::FromSpecImpl;

verus! {

/// Text sent to the service. Made from plain text, it holds that text with
/// `&`, `<` and `>` escaped; made from parts, it holds them as they are.
#[derive(Debug, PartialEq)]
pub struct SlackText(String);

impl View for SlackText {
    type V = Seq<char>;

    closed spec fn view(&self) -> Seq<char> {
        self.0@
    }
}

impl DeepView for SlackText {
    type V = Seq<char>;

    open spec fn deep_view(&self) -> Seq<char> {
        self@
    }
}

impl SlackText {
    /// Escapes `&`, `<` and `>` in the text and keeps the result.
    pub fn new(text: &str) -> (escaped: SlackText)
        ensures
            escaped@ == escape(text@),
    {
        SlackText(escape_text(text))
    }

    /// Keeps the text as it is.
    pub(crate) fn new_raw(text: String) -> (raw: SlackText)
        ensures
            raw@ == text@,
    {
        SlackText(text)
    }

    /// The text as the service will get it.
    pub fn as_str(&self) -> (text: &str)
        ensures
            text@ == self@,
    {
        self.0.as_str()
    }

    /// The text as the service will get it, as an owned string.
    pub fn to_string(&self) -> (text: String)
        ensures
            text@ == self@,
    {
        self.0.clone()
    }
}

impl Default for SlackText {
    fn default() -> (empty: SlackText)
        ensures
            empty@ == Seq::<char>::empty(),
    {
        SlackText(String::new())
    }
}

impl Clone for SlackText {
    fn clone(&self) -> (copy: SlackText)
        ensures
            copy@ == self@,
    {
        SlackText(self.0.clone())
    }
}

impl<'a> From<&'a str> for SlackText {
    fn from(s: &'a str) -> (escaped: SlackText)
        ensures
            escaped@ == escape(s@),
    {
        SlackText::new(s)
    }
}

/// No text can be made inside a specification, so this conversion is stated
/// in the `ensures` of `from` and not as a specification function.
impl<'a> FromSpecImpl<&'a str> for SlackText {
    open spec fn obeys_from_spec() -> bool {
        false
    }

    open spec fn from_spec(s: &'a str) -> SlackText {
        arbitrary()
    }
}

impl From<String> for SlackText {
    fn from(s: String) -> (escaped: SlackText)
        ensures
            escaped@ == escape(s@),
    {
        SlackText::new(s.as_str())
    }
}

/// No text can be made inside a specification, so this conversion is stated
/// in the `ensures` of `from` and not as a specification function.
impl FromSpecImpl<String> for SlackText {
    open spec fn obeys_from_spec() -> bool {
        false
    }

    open spec fn from_spec(s: String) -> SlackText {
        arbitrary()
    }
}

/// A link as the service displays it: an address and the text shown for it.
#[derive(Debug, Clone, PartialEq)]
pub struct SlackLink {
    /// The address. It is kept as text, since the service takes addresses
    /// that are no URLs.
    pub url: String,
    /// The text shown for the link.
    pub text: SlackText,
}

impl SlackLink {
    /// A link to `url`, shown as `text` with `&`, `<` and `>` escaped.
    pub fn new(url: &str, text: &str) -> (link: SlackLink)
        ensures
            link.url@ == url@,
            link.text@ == escape(text@),
    {
        SlackLink { url: url.to_owned(), text: SlackText::new(text) }
    }

    /// The link in the service's markup: `<`, the address, `|`, the text, `>`.
    pub open spec fn markup(&self) -> Seq<char> {
        seq!['<'] + self.url@ + seq!['|'] + self.text@ + seq!['>']
    }

    /// The link in the service's markup.
    pub fn to_string(&self) -> (text: String)
        ensures
            text@ == self.markup(),
    {
        let mut text = String::new();
        text.push('<');
        text.append(self.url.as_str());
        text.push('|');
        text.append(self.text.as_str());
        text.push('>');
        text
    }
}

/// A mention of a user by id.
#[derive(Debug, Clone, PartialEq, PartialOrd)]
pub struct SlackUserLink {
    /// The id of the user, such as `U1231232123`.
    pub uid: String,
}

impl SlackUserLink {
    /// A mention of the user with this id.
    pub fn new(uid: &str) -> (link: SlackUserLink)
        ensures
            link.uid@ == uid@,
    {
        SlackUserLink { uid: uid.to_owned() }
    }

    /// The mention in the service's markup: the id between `<` and `>`.
    pub open spec fn markup(&self) -> Seq<char> {
        seq!['<'] + self.uid@ + seq!['>']
    }

    /// The mention in the service's markup.
    pub fn to_string(&self) -> (text: String)
        ensures
            text@ == self.markup(),
    {
        let mut text = String::new();
        text.push('<');
        text.append(self.uid.as_str());
        text.push('>');
        text
    }
}

/// One part of a text that mixes plain text, links and mentions.
#[derive(Debug, Clone, PartialEq)]
pub enum SlackTextContent {
    /// Text, already escaped.
    Text(SlackText),
    /// A link.
    Link(SlackLink),
    /// A mention of a user.
    User(SlackUserLink),
}

impl SlackTextContent {
    /// The part as the service will get it.
    pub open spec fn markup(&self) -> Seq<char> {
        match self {
            SlackTextContent::Text(text) => text@,
            SlackTextContent::Link(link) => link.markup(),
            SlackTextContent::User(user) => user.markup(),
        }
    }

    /// The part as the service will get it.
    pub fn to_string(&self) -> (text: String)
        ensures
            text@ == self.markup(),
    {
        match self {
            SlackTextContent::Text(text) => text.to_string(),
            SlackTextContent::Link(link) => link.to_string(),
            SlackTextContent::User(user) => user.to_string(),
        }
    }
}

/// The parts in order, with one space between neighbours.
pub open spec fn join_markup(parts: Seq<SlackTextContent>) -> Seq<char>
    decreases parts.len(),
{
    if parts.len() == 0 {
        Seq::empty()
    } else if parts.len() == 1 {
        parts[0].markup()
    } else {
        join_markup(parts.drop_last()) + seq![' '] + parts.last().markup()
    }
}

impl<'a> From<&'a [SlackTextContent]> for SlackText {
    fn from(v: &'a [SlackTextContent]) -> (joined: SlackText)
        ensures
            joined@ == join_markup(v@),
    {
        let mut st = String::new();
        let mut i: usize = 0;
        while i < v.len()
            invariant
                i <= v.len(),
                st@ == join_markup(v@.take(i as int)),
            decreases v.len() - i,
        {
            proof {
                assert(v@.take(i + 1).drop_last() == v@.take(i as int));
            }
            if i > 0 {
                st.push(' ');
            }
            let part = v[i].to_string();
            st.append(part.as_str());
            i += 1;
        }
        proof {
            assert(v@.take(v.len() as int) == v@);
        }
        SlackText::new_raw(st)
    }
}

/// No text can be made inside a specification, so this conversion is stated
/// in the `ensures` of `from` and not as a specification function.
impl<'a> FromSpecImpl<&'a [SlackTextContent]> for SlackText {
    open spec fn obeys_from_spec() -> bool {
        false
    }

    open spec fn from_spec(v: &'a [SlackTextContent]) -> SlackText {
        arbitrary()
    }
}

} // verus!
