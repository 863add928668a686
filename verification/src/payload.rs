//! The message that is sent to the service.

use crate::attachment::{Attachment, AttachmentView};
use crate::error::{SlackError, SlackErrorView};
use crate::helper::bool_to_u8;
use crate::text::SlackText;
use crate::web_url::{parsed_url, WebUrl};
use vstd::prelude::*;

verus! {

/// How the service treats the text of a message.
#[derive(Eq, PartialEq, Copy, Clone, Debug, Structural)]
pub enum Parse {
    /// Names and addresses in the text are found and linked.
    Full,
    /// The text is taken as it is; the service calls this `none`.
    Nothing,
}

impl DeepView for Parse {
    type V = Parse;

    open spec fn deep_view(&self) -> Parse {
        *self
    }
}

/// A message for the service. Every part is optional; a message should
/// carry a text or attachments, which is left to the caller.
#[derive(Debug)]
pub struct Payload {
    /// The text of the message.
    pub text: Option<SlackText>,
    /// The channel to post in; the hook's own channel where none is given.
    pub channel: Option<String>,
    /// The name to post under.
    pub username: Option<String>,
    /// The address of the image shown as the sender's icon.
    pub icon_url: Option<WebUrl>,
    /// The emoji shown as the sender's icon.
    pub icon_emoji: Option<String>,
    /// The attachments, in order.
    pub attachments: Option<Vec<Attachment>>,
    /// Whether the service fetches links and shows them as attachments.
    pub unfurl_links: Option<bool>,
    /// Whether the service shows media that the text links to.
    pub unfurl_media: Option<bool>,
    /// Whether names of channels and users are linked: 1 or 0.
    pub link_names: Option<u8>,
    /// How the text is treated.
    pub parse: Option<Parse>,
}

/// A [`Payload`] as plain values.
pub ghost struct PayloadView {
    pub text: Option<Seq<char>>,
    pub channel: Option<Seq<char>>,
    pub username: Option<Seq<char>>,
    pub icon_url: Option<Seq<char>>,
    pub icon_emoji: Option<Seq<char>>,
    pub attachments: Option<Seq<AttachmentView>>,
    pub unfurl_links: Option<bool>,
    pub unfurl_media: Option<bool>,
    pub link_names: Option<u8>,
    pub parse: Option<Parse>,
}

/// One step of building a payload, as plain values. An address comes as
/// what parsing gave.
pub ghost enum PayloadStep {
    Text(Seq<char>),
    Channel(Seq<char>),
    Username(Seq<char>),
    IconEmoji(Seq<char>),
    IconUrl(Result<Seq<char>, SlackErrorView>),
    Attachments(Seq<AttachmentView>),
    UnfurlLinks(bool),
    UnfurlMedia(bool),
    LinkNames(bool),
    Parse(Parse),
}

/// A builder is accumulating a payload, or has failed with an error.
pub type PayloadState = Result<PayloadView, SlackErrorView>;

impl PayloadView {
    /// The payload that has no part.
    pub open spec fn empty() -> PayloadView {
        PayloadView {
            text: None,
            channel: None,
            username: None,
            icon_url: None,
            icon_emoji: None,
            attachments: None,
            unfurl_links: None,
            unfurl_media: None,
            link_names: None,
            parse: None,
        }
    }

    /// What one step makes of a payload. Every step sets one part and leaves
    /// the others; only an address that did not parse fails.
    pub open spec fn step(self, step: PayloadStep) -> PayloadState {
        match step {
            PayloadStep::Text(text) => Ok(PayloadView { text: Some(text), ..self }),
            PayloadStep::Channel(channel) => Ok(PayloadView { channel: Some(channel), ..self }),
            PayloadStep::Username(username) => Ok(
                PayloadView { username: Some(username), ..self },
            ),
            PayloadStep::IconEmoji(icon_emoji) => Ok(
                PayloadView { icon_emoji: Some(icon_emoji), ..self },
            ),
            PayloadStep::IconUrl(parsed) => match parsed {
                Ok(url) => Ok(PayloadView { icon_url: Some(url), ..self }),
                Err(e) => Err(e),
            },
            PayloadStep::Attachments(attachments) => Ok(
                PayloadView { attachments: Some(attachments), ..self },
            ),
            PayloadStep::UnfurlLinks(b) => Ok(PayloadView { unfurl_links: Some(b), ..self }),
            PayloadStep::UnfurlMedia(b) => Ok(PayloadView { unfurl_media: Some(b), ..self }),
            PayloadStep::LinkNames(b) => Ok(
                PayloadView {
                    link_names: Some(
                        if b {
                            1u8
                        } else {
                            0u8
                        },
                    ),
                    ..self
                },
            ),
            PayloadStep::Parse(p) => Ok(PayloadView { parse: Some(p), ..self }),
        }
    }
}

impl DeepView for Payload {
    type V = PayloadView;

    open spec fn deep_view(&self) -> PayloadView {
        PayloadView {
            text: self.text.deep_view(),
            channel: self.channel.deep_view(),
            username: self.username.deep_view(),
            icon_url: self.icon_url.deep_view(),
            icon_emoji: self.icon_emoji.deep_view(),
            attachments: self.attachments.deep_view(),
            unfurl_links: self.unfurl_links,
            unfurl_media: self.unfurl_media,
            link_names: self.link_names,
            parse: self.parse,
        }
    }
}

impl View for Payload {
    type V = PayloadView;

    open spec fn view(&self) -> PayloadView {
        self.deep_view()
    }
}

impl Default for Payload {
    fn default() -> (payload: Payload)
        ensures
            payload@ == PayloadView::empty(),
    {
        Payload {
            text: None,
            channel: None,
            username: None,
            icon_url: None,
            icon_emoji: None,
            attachments: None,
            unfurl_links: None,
            unfurl_media: None,
            link_names: None,
            parse: None,
        }
    }
}

/// The state after a step: a builder that accumulates takes the step, and a
/// builder that has failed stays as it is.
pub open spec fn after_step(state: PayloadState, step: PayloadStep) -> PayloadState {
    match state {
        Ok(payload) => payload.step(step),
        Err(e) => Err(e),
    }
}

/// What the step that parses the address of the icon makes of a state.
/// Where the text is an address, the step puts it in its place. Where it is
/// none, a builder that accumulates fails with an error of the HTTP client,
/// and a builder that has failed stays as it is.
pub open spec fn after_address(
    before: PayloadState,
    parsed: Option<Seq<char>>,
    after: PayloadState,
) -> bool {
    match parsed {
        Some(url) => after == after_step(before, PayloadStep::IconUrl(Ok(url))),
        None => match before {
            Ok(_) => after matches Err(SlackErrorView::Reqwest(_)),
            Err(e) => after == Err::<PayloadView, SlackErrorView>(e),
        },
    }
}

/// The state after a run of steps, taken in order.
pub open spec fn after_steps(state: PayloadState, steps: Seq<PayloadStep>) -> PayloadState
    decreases steps.len(),
{
    if steps.len() == 0 {
        state
    } else {
        after_step(after_steps(state, steps.drop_last()), steps.last())
    }
}

/// A builder that has failed stays failed, whatever steps follow.
pub proof fn lemma_failure_is_kept(e: SlackErrorView, steps: Seq<PayloadStep>)
    ensures
        after_steps(Err(e), steps) == Err::<PayloadView, SlackErrorView>(e),
    decreases steps.len(),
{
    if steps.len() > 0 {
        lemma_failure_is_kept(e, steps.drop_last());
    }
}

/// Builds a [`Payload`] step by step. A step that fails leaves the builder
/// failed: the steps after it change nothing, and [`build`] returns the
/// error of the first step that failed.
///
/// [`build`]: PayloadBuilder::build
#[derive(Debug)]
#[must_use]
pub struct PayloadBuilder {
    inner: Result<Payload, SlackError>,
}

impl View for PayloadBuilder {
    type V = PayloadState;

    closed spec fn view(&self) -> PayloadState {
        match self.inner {
            Ok(payload) => Ok(payload@),
            Err(e) => Err(e@),
        }
    }
}

impl Default for PayloadBuilder {
    fn default() -> (builder: PayloadBuilder)
        ensures
            builder@ == Ok::<PayloadView, SlackErrorView>(PayloadView::empty()),
    {
        PayloadBuilder { inner: Ok(Payload::default()) }
    }
}

impl PayloadBuilder {
    /// Starts a payload that has no part.
    pub fn new() -> (builder: PayloadBuilder)
        ensures
            builder@ == Ok::<PayloadView, SlackErrorView>(PayloadView::empty()),
    {
        PayloadBuilder::default()
    }

    /// Sets the text of the message.
    pub fn text(self, text: SlackText) -> (builder: PayloadBuilder)
        ensures
            builder@ == after_step(self@, PayloadStep::Text(text@)),
    {
        let mut builder = self;
        if let Ok(inner) = &mut builder.inner {
            inner.text = Some(text);
        }
        builder
    }

    /// Sets the channel to post in.
    pub fn channel(self, channel: &str) -> (builder: PayloadBuilder)
        ensures
            builder@ == after_step(self@, PayloadStep::Channel(channel@)),
    {
        let mut builder = self;
        if let Ok(inner) = &mut builder.inner {
            inner.channel = Some(channel.to_owned());
        }
        builder
    }

    /// Sets the name to post under.
    pub fn username(self, username: &str) -> (builder: PayloadBuilder)
        ensures
            builder@ == after_step(self@, PayloadStep::Username(username@)),
    {
        let mut builder = self;
        if let Ok(inner) = &mut builder.inner {
            inner.username = Some(username.to_owned());
        }
        builder
    }

    /// Sets the emoji shown as the sender's icon.
    pub fn icon_emoji(self, icon_emoji: &str) -> (builder: PayloadBuilder)
        ensures
            builder@ == after_step(self@, PayloadStep::IconEmoji(icon_emoji@)),
    {
        let mut builder = self;
        if let Ok(inner) = &mut builder.inner {
            inner.icon_emoji = Some(icon_emoji.to_owned());
        }
        builder
    }

    /// Sets the address of the image shown as the sender's icon. Text that
    /// is no address of a web resource fails the builder.
    pub fn icon_url(self, icon_url: &str) -> (builder: PayloadBuilder)
        ensures
            after_address(self@, parsed_url(icon_url@), builder@),
    {
        match self.inner {
            Ok(_) => self.set_icon_url(WebUrl::parse(icon_url)),
            Err(_) => self,
        }
    }

    /// Puts an address that was parsed in its place, or fails the builder
    /// with the error of one that was not.
    pub fn set_icon_url(self, parsed: Result<WebUrl, SlackError>) -> (builder: PayloadBuilder)
        ensures
            builder@ == after_step(
                self@,
                PayloadStep::IconUrl(
                    match parsed {
                        Ok(url) => Ok(url@),
                        Err(e) => Err(e@),
                    },
                ),
            ),
    {
        match self.inner {
            Ok(mut inner) => {
                match parsed {
                    Ok(url) => {
                        inner.icon_url = Some(url);
                        PayloadBuilder { inner: Ok(inner) }
                    },
                    Err(e) => PayloadBuilder { inner: Err(e) },
                }
            },
            _ => self,
        }
    }

    /// Sets the attachments.
    pub fn attachments(self, attachments: Vec<Attachment>) -> (builder: PayloadBuilder)
        ensures
            builder@ == after_step(self@, PayloadStep::Attachments(attachments.deep_view())),
    {
        let mut builder = self;
        if let Ok(inner) = &mut builder.inner {
            inner.attachments = Some(attachments);
        }
        builder
    }

    /// Sets whether the service fetches links and shows them as attachments.
    pub fn unfurl_links(self, b: bool) -> (builder: PayloadBuilder)
        ensures
            builder@ == after_step(self@, PayloadStep::UnfurlLinks(b)),
    {
        let mut builder = self;
        if let Ok(inner) = &mut builder.inner {
            inner.unfurl_links = Some(b);
        }
        builder
    }

    /// Sets whether the service shows media that the text links to.
    pub fn unfurl_media(self, b: bool) -> (builder: PayloadBuilder)
        ensures
            builder@ == after_step(self@, PayloadStep::UnfurlMedia(b)),
    {
        let mut builder = self;
        if let Ok(inner) = &mut builder.inner {
            inner.unfurl_media = Some(b);
        }
        builder
    }

    /// Sets whether names of channels and users are linked. The service
    /// takes any value; the payload holds 1 or 0.
    pub fn link_names(self, b: bool) -> (builder: PayloadBuilder)
        ensures
            builder@ == after_step(self@, PayloadStep::LinkNames(b)),
    {
        let mut builder = self;
        if let Ok(inner) = &mut builder.inner {
            inner.link_names = Some(bool_to_u8(b));
        }
        builder
    }

    /// Sets how the text is treated.
    pub fn parse(self, p: Parse) -> (builder: PayloadBuilder)
        ensures
            builder@ == after_step(self@, PayloadStep::Parse(p)),
    {
        let mut builder = self;
        if let Ok(inner) = &mut builder.inner {
            inner.parse = Some(p);
        }
        builder
    }

    /// Ends the building: the payload as it was built, or the error of the
    /// step that failed the builder.
    pub fn build(self) -> (outcome: Result<Payload, SlackError>)
        ensures
            self@ == match outcome {
                Ok(payload) => Ok::<PayloadView, SlackErrorView>(payload@),
                Err(e) => Err::<PayloadView, SlackErrorView>(e@),
            },
    {
        self.inner
    }
}

} // verus!
