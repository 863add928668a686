//! Attachments: the blocks that a message can carry besides its text.

use crate::color::{check_color, HexColor};
use crate::error::{SlackError, SlackErrorView};
use crate::text::SlackText;
use crate::time::{utc_seconds, SlackTime};
use crate::web_url::{parsed_url, WebUrl};
use vstd::prelude::*;

verus! {

/// The parts of an attachment that can be formatted as markdown.
#[derive(Eq, PartialEq, Copy, Clone, Debug, Structural)]
pub enum Section {
    /// The text above the attachment.
    Pretext,
    /// The text of the attachment.
    Text,
    /// The table of fields.
    Fields,
}

impl DeepView for Section {
    type V = Section;

    open spec fn deep_view(&self) -> Section {
        *self
    }
}

/// A button shown with the message.
#[derive(Debug, Clone, PartialEq)]
pub struct Action {
    /// The kind of action; the service calls it `type`.
    pub action_type: String,
    /// The label of the button.
    pub text: String,
    /// The name that the service reports when the button is used.
    pub name: String,
    /// The style, such as `primary` or `danger`.
    pub style: Option<String>,
    /// The value that the service reports when the button is used.
    pub value: Option<String>,
}

/// An [`Action`] with its texts as sequences of characters.
pub ghost struct ActionView {
    pub action_type: Seq<char>,
    pub text: Seq<char>,
    pub name: Seq<char>,
    pub style: Option<Seq<char>>,
    pub value: Option<Seq<char>>,
}

impl DeepView for Action {
    type V = ActionView;

    open spec fn deep_view(&self) -> ActionView {
        ActionView {
            action_type: self.action_type@,
            text: self.text@,
            name: self.name@,
            style: self.style.deep_view(),
            value: self.value.deep_view(),
        }
    }
}

impl View for Action {
    type V = ActionView;

    open spec fn view(&self) -> ActionView {
        self.deep_view()
    }
}

impl Action {
    /// An action of the given kind, label and name.
    pub fn new(
        action_type: &str,
        text: &str,
        name: &str,
        style: Option<String>,
        value: Option<String>,
    ) -> (action: Action)
        ensures
            action@ == (ActionView {
                action_type: action_type@,
                text: text@,
                name: name@,
                style: style.deep_view(),
                value: value.deep_view(),
            }),
    {
        Action {
            action_type: action_type.to_owned(),
            text: text.to_owned(),
            name: name.to_owned(),
            style,
            value,
        }
    }
}

/// One cell of the table that an attachment can show.
#[derive(Debug, Clone, PartialEq)]
pub struct Field {
    /// The heading, shown in bold above the value. The service escapes it.
    pub title: String,
    /// The value. It may hold markup and may span lines.
    pub value: SlackText,
    /// Whether the value is short enough to stand beside another.
    pub short: Option<bool>,
}

/// A [`Field`] with its texts as sequences of characters.
pub ghost struct FieldView {
    pub title: Seq<char>,
    pub value: Seq<char>,
    pub short: Option<bool>,
}

impl DeepView for Field {
    type V = FieldView;

    open spec fn deep_view(&self) -> FieldView {
        FieldView { title: self.title@, value: self.value@, short: self.short }
    }
}

impl View for Field {
    type V = FieldView;

    open spec fn view(&self) -> FieldView {
        self.deep_view()
    }
}

impl Field {
    /// A field with the given heading and value.
    pub fn new(title: &str, value: SlackText, short: Option<bool>) -> (field: Field)
        ensures
            field@ == (FieldView { title: title@, value: value@, short }),
    {
        Field { title: title.to_owned(), value, short }
    }
}

/// One block of a message: texts, links, images and a table of fields.
/// Only the fallback is required.
#[derive(Debug, Clone, PartialEq)]
pub struct Attachment {
    /// The plain summary, shown where the attachment cannot be displayed.
    pub fallback: SlackText,
    /// The text of the attachment.
    pub text: Option<SlackText>,
    /// The text above the attachment.
    pub pretext: Option<SlackText>,
    /// The color of the bar beside the attachment.
    pub color: Option<HexColor>,
    /// The buttons.
    pub actions: Option<Vec<Action>>,
    /// The table of fields.
    pub fields: Option<Vec<Field>>,
    /// The name of the author, in small print.
    pub author_name: Option<SlackText>,
    /// The address that the author's name links to.
    pub author_link: Option<WebUrl>,
    /// The address of a small image shown beside the author's name.
    pub author_icon: Option<WebUrl>,
    /// The title, in bold above the text.
    pub title: Option<SlackText>,
    /// The address that the title links to.
    pub title_link: Option<WebUrl>,
    /// The address of an image shown in the attachment.
    pub image_url: Option<WebUrl>,
    /// The address of an image shown as a thumbnail beside the text.
    pub thumb_url: Option<WebUrl>,
    /// The text at the bottom of the attachment.
    pub footer: Option<SlackText>,
    /// The address of an image shown beside the footer.
    pub footer_icon: Option<WebUrl>,
    /// The time shown with the attachment.
    pub ts: Option<SlackTime>,
    /// The parts that are formatted as markdown.
    pub mrkdwn_in: Option<Vec<Section>>,
    /// The id that the service reports when a button is used.
    pub callback_id: Option<SlackText>,
}

/// An [`Attachment`] as plain values: texts as sequences of characters, the
/// time as seconds.
pub ghost struct AttachmentView {
    pub fallback: Seq<char>,
    pub text: Option<Seq<char>>,
    pub pretext: Option<Seq<char>>,
    pub color: Option<Seq<char>>,
    pub actions: Option<Seq<ActionView>>,
    pub fields: Option<Seq<FieldView>>,
    pub author_name: Option<Seq<char>>,
    pub author_link: Option<Seq<char>>,
    pub author_icon: Option<Seq<char>>,
    pub title: Option<Seq<char>>,
    pub title_link: Option<Seq<char>>,
    pub image_url: Option<Seq<char>>,
    pub thumb_url: Option<Seq<char>>,
    pub footer: Option<Seq<char>>,
    pub footer_icon: Option<Seq<char>>,
    pub ts: Option<int>,
    pub mrkdwn_in: Option<Seq<Section>>,
    pub callback_id: Option<Seq<char>>,
}

/// The places of an attachment that hold the address of a web resource.
#[derive(Eq, PartialEq, Copy, Clone, Debug, Structural)]
pub enum UrlField {
    /// Where the author's name links to.
    AuthorLink,
    /// The small image beside the author's name.
    AuthorIcon,
    /// Where the title links to.
    TitleLink,
    /// The image shown in the attachment.
    ImageUrl,
    /// The image shown as a thumbnail.
    ThumbUrl,
    /// The image beside the footer.
    FooterIcon,
}

/// One step of building an attachment, as plain values. A color comes as
/// the text that was given for it; an address as what parsing gave.
pub ghost enum AttachmentStep {
    Text(Seq<char>),
    Color(Seq<char>),
    Pretext(Seq<char>),
    Actions(Seq<ActionView>),
    Fields(Seq<FieldView>),
    AuthorName(Seq<char>),
    Title(Seq<char>),
    CallbackId(Seq<char>),
    Footer(Seq<char>),
    Url(UrlField, Result<Seq<char>, SlackErrorView>),
    Ts(int),
    MarkdownIn(Seq<Section>),
}

/// A builder is accumulating an attachment, or has failed with an error.
pub type AttachmentState = Result<AttachmentView, SlackErrorView>;

impl AttachmentView {
    /// The attachment with an address put in one of its places.
    pub open spec fn with_url(self, field: UrlField, url: Seq<char>) -> AttachmentView {
        match field {
            UrlField::AuthorLink => AttachmentView { author_link: Some(url), ..self },
            UrlField::AuthorIcon => AttachmentView { author_icon: Some(url), ..self },
            UrlField::TitleLink => AttachmentView { title_link: Some(url), ..self },
            UrlField::ImageUrl => AttachmentView { image_url: Some(url), ..self },
            UrlField::ThumbUrl => AttachmentView { thumb_url: Some(url), ..self },
            UrlField::FooterIcon => AttachmentView { footer_icon: Some(url), ..self },
        }
    }

    /// What one step makes of an attachment. Every step sets one part and
    /// leaves the others; only a color that is none and an address that did
    /// not parse fail.
    pub open spec fn step(self, step: AttachmentStep) -> AttachmentState {
        match step {
            AttachmentStep::Text(text) => Ok(AttachmentView { text: Some(text), ..self }),
            AttachmentStep::Color(color) => match check_color(color) {
                Ok(_) => Ok(AttachmentView { color: Some(color), ..self }),
                Err(e) => Err(e),
            },
            AttachmentStep::Pretext(pretext) => Ok(
                AttachmentView { pretext: Some(pretext), ..self },
            ),
            AttachmentStep::Actions(actions) => Ok(
                AttachmentView { actions: Some(actions), ..self },
            ),
            AttachmentStep::Fields(fields) => Ok(AttachmentView { fields: Some(fields), ..self }),
            AttachmentStep::AuthorName(author_name) => Ok(
                AttachmentView { author_name: Some(author_name), ..self },
            ),
            AttachmentStep::Title(title) => Ok(AttachmentView { title: Some(title), ..self }),
            AttachmentStep::CallbackId(callback_id) => Ok(
                AttachmentView { callback_id: Some(callback_id), ..self },
            ),
            AttachmentStep::Footer(footer) => Ok(AttachmentView { footer: Some(footer), ..self }),
            AttachmentStep::Url(field, parsed) => match parsed {
                Ok(url) => Ok(self.with_url(field, url)),
                Err(e) => Err(e),
            },
            AttachmentStep::Ts(seconds) => Ok(AttachmentView { ts: Some(seconds), ..self }),
            AttachmentStep::MarkdownIn(sections) => Ok(
                AttachmentView { mrkdwn_in: Some(sections), ..self },
            ),
        }
    }

    /// The attachment with its fallback as its text, where it has no text.
    pub open spec fn with_text_defaulted(self) -> AttachmentView {
        AttachmentView {
            text: Some(
                match self.text {
                    Some(text) => text,
                    None => self.fallback,
                },
            ),
            ..self
        }
    }

    /// The attachment that has the given fallback and nothing else.
    pub open spec fn bare(fallback: Seq<char>) -> AttachmentView {
        AttachmentView {
            fallback,
            text: None,
            pretext: None,
            color: None,
            actions: None,
            fields: None,
            author_name: None,
            author_link: None,
            author_icon: None,
            title: None,
            title_link: None,
            image_url: None,
            thumb_url: None,
            footer: None,
            footer_icon: None,
            ts: None,
            mrkdwn_in: None,
            callback_id: None,
        }
    }
}

impl DeepView for Attachment {
    type V = AttachmentView;

    open spec fn deep_view(&self) -> AttachmentView {
        AttachmentView {
            fallback: self.fallback@,
            text: self.text.deep_view(),
            pretext: self.pretext.deep_view(),
            color: self.color.deep_view(),
            actions: self.actions.deep_view(),
            fields: self.fields.deep_view(),
            author_name: self.author_name.deep_view(),
            author_link: self.author_link.deep_view(),
            author_icon: self.author_icon.deep_view(),
            title: self.title.deep_view(),
            title_link: self.title_link.deep_view(),
            image_url: self.image_url.deep_view(),
            thumb_url: self.thumb_url.deep_view(),
            footer: self.footer.deep_view(),
            footer_icon: self.footer_icon.deep_view(),
            ts: self.ts.deep_view(),
            mrkdwn_in: self.mrkdwn_in.deep_view(),
            callback_id: self.callback_id.deep_view(),
        }
    }
}

impl View for Attachment {
    type V = AttachmentView;

    open spec fn view(&self) -> AttachmentView {
        self.deep_view()
    }
}

impl Default for Attachment {
    fn default() -> (attachment: Attachment)
        ensures
            attachment@ == AttachmentView::bare(Seq::empty()),
    {
        Attachment {
            fallback: SlackText::default(),
            text: None,
            pretext: None,
            color: None,
            actions: None,
            fields: None,
            author_name: None,
            author_link: None,
            author_icon: None,
            title: None,
            title_link: None,
            image_url: None,
            thumb_url: None,
            footer: None,
            footer_icon: None,
            ts: None,
            mrkdwn_in: None,
            callback_id: None,
        }
    }
}

/// Builds an [`Attachment`] step by step. A step that fails leaves the
/// builder failed: the steps after it change nothing, and [`build`] returns
/// the error of the first step that failed.
///
/// [`build`]: AttachmentBuilder::build
#[derive(Debug)]
#[must_use]
pub struct AttachmentBuilder {
    inner: Result<Attachment, SlackError>,
}

impl View for AttachmentBuilder {
    type V = AttachmentState;

    closed spec fn view(&self) -> AttachmentState {
        match self.inner {
            Ok(attachment) => Ok(attachment@),
            Err(e) => Err(e@),
        }
    }
}

/// The state after a step: a builder that accumulates takes the step, and a
/// builder that has failed stays as it is.
pub open spec fn after_step(state: AttachmentState, step: AttachmentStep) -> AttachmentState {
    match state {
        Ok(attachment) => attachment.step(step),
        Err(e) => Err(e),
    }
}

/// What a step that parses an address makes of a state. Where the text is
/// an address, the step puts it in its place. Where it is none, a builder
/// that accumulates fails with an error of the HTTP client, and a builder
/// that has failed stays as it is.
pub open spec fn after_address(
    before: AttachmentState,
    field: UrlField,
    parsed: Option<Seq<char>>,
    after: AttachmentState,
) -> bool {
    match parsed {
        Some(url) => after == after_step(before, AttachmentStep::Url(field, Ok(url))),
        None => match before {
            Ok(_) => after matches Err(SlackErrorView::Reqwest(_)),
            Err(e) => after == Err::<AttachmentView, SlackErrorView>(e),
        },
    }
}

/// The state after a run of steps, taken in order.
pub open spec fn after_steps(state: AttachmentState, steps: Seq<AttachmentStep>) -> AttachmentState
    decreases steps.len(),
{
    if steps.len() == 0 {
        state
    } else {
        after_step(after_steps(state, steps.drop_last()), steps.last())
    }
}

/// What building ends in: the attachment, with its fallback as its text
/// where no text was set, or the error that failed the builder.
pub open spec fn built(state: AttachmentState) -> AttachmentState {
    match state {
        Ok(attachment) => Ok(attachment.with_text_defaulted()),
        Err(e) => Err(e),
    }
}

/// The text of the last step that set one, if any did.
pub open spec fn last_text(steps: Seq<AttachmentStep>) -> Option<Seq<char>>
    decreases steps.len(),
{
    if steps.len() == 0 {
        None
    } else {
        match steps.last() {
            AttachmentStep::Text(text) => Some(text),
            _ => last_text(steps.drop_last()),
        }
    }
}

/// While a builder accumulates, the attachment keeps its fallback, and its
/// text is the one that was set last.
proof fn lemma_steps_keep_fallback(fallback: Seq<char>, steps: Seq<AttachmentStep>)
    ensures
        after_steps(Ok(AttachmentView::bare(fallback)), steps) matches Ok(a) ==> a.fallback
            == fallback && a.text == last_text(steps),
    decreases steps.len(),
{
    if steps.len() > 0 {
        lemma_steps_keep_fallback(fallback, steps.drop_last());
    }
}

/// The text of a built attachment is the text that was set last, and the
/// fallback where no step set a text. So an attachment that is built right
/// after it was started has its fallback as its text, and one whose text was
/// set keeps that text.
pub proof fn lemma_built_text(fallback: Seq<char>, steps: Seq<AttachmentStep>)
    ensures
        built(after_steps(Ok(AttachmentView::bare(fallback)), steps)) matches Ok(a) ==> a.text
            == Some(
            match last_text(steps) {
                Some(text) => text,
                None => fallback,
            },
        ),
        built(Ok(AttachmentView::bare(fallback))) matches Ok(a) && a.text == Some(fallback),
{
    lemma_steps_keep_fallback(fallback, steps);
}

/// A builder that has failed stays failed: whatever steps follow, building
/// ends in the error that failed it.
pub proof fn lemma_failure_is_kept(e: SlackErrorView, steps: Seq<AttachmentStep>)
    ensures
        after_steps(Err(e), steps) == Err::<AttachmentView, SlackErrorView>(e),
        built(after_steps(Err(e), steps)) == Err::<AttachmentView, SlackErrorView>(e),
    decreases steps.len(),
{
    if steps.len() > 0 {
        lemma_failure_is_kept(e, steps.drop_last());
    }
}

/// A text that is no color fails an accumulating builder, and building ends
/// in exactly the error of that color, whatever steps follow it.
pub proof fn lemma_bad_color_fails(
    attachment: AttachmentView,
    color: Seq<char>,
    later: Seq<AttachmentStep>,
)
    requires
        check_color(color) is Err,
    ensures
        built(after_steps(after_step(Ok(attachment), AttachmentStep::Color(color)), later))
            == Err::<AttachmentView, SlackErrorView>(check_color(color)->Err_0),
{
    lemma_failure_is_kept(check_color(color)->Err_0, later);
}

impl AttachmentBuilder {
    /// Starts an attachment with its fallback, the one part that every
    /// attachment has.
    pub fn new(fallback: SlackText) -> (builder: AttachmentBuilder)
        ensures
            builder@ == Ok::<AttachmentView, SlackErrorView>(AttachmentView::bare(fallback@)),
    {
        let mut inner = Attachment::default();
        inner.fallback = fallback;
        AttachmentBuilder { inner: Ok(inner) }
    }

    /// Sets the text of the attachment.
    pub fn text(self, text: SlackText) -> (builder: AttachmentBuilder)
        ensures
            builder@ == after_step(self@, AttachmentStep::Text(text@)),
    {
        let mut builder = self;
        if let Ok(inner) = &mut builder.inner {
            inner.text = Some(text);
        }
        builder
    }

    /// Sets the color of the bar beside the attachment: `good`, `warning`,
    /// `danger`, or a hexadecimal code such as `#b13d41` or `#000`. Anything
    /// else fails the builder.
    pub fn color(self, color: &str) -> (builder: AttachmentBuilder)
        ensures
            builder@ == after_step(self@, AttachmentStep::Color(color@)),
    {
        let mut builder = self;
        if let Ok(inner) = &mut builder.inner {
            match HexColor::from_str(color) {
                Ok(c) => inner.color = Some(c),
                Err(err) => builder.inner = Err(err),
            }
        }
        builder
    }

    /// Sets the text above the attachment.
    pub fn pretext(self, pretext: SlackText) -> (builder: AttachmentBuilder)
        ensures
            builder@ == after_step(self@, AttachmentStep::Pretext(pretext@)),
    {
        let mut builder = self;
        if let Ok(inner) = &mut builder.inner {
            inner.pretext = Some(pretext);
        }
        builder
    }

    /// Sets the buttons.
    pub fn actions(self, actions: Vec<Action>) -> (builder: AttachmentBuilder)
        ensures
            builder@ == after_step(self@, AttachmentStep::Actions(actions.deep_view())),
    {
        let mut builder = self;
        if let Ok(inner) = &mut builder.inner {
            inner.actions = Some(actions);
        }
        builder
    }

    /// Sets the table of fields.
    pub fn fields(self, fields: Vec<Field>) -> (builder: AttachmentBuilder)
        ensures
            builder@ == after_step(self@, AttachmentStep::Fields(fields.deep_view())),
    {
        let mut builder = self;
        if let Ok(inner) = &mut builder.inner {
            inner.fields = Some(fields);
        }
        builder
    }

    /// Sets the name of the author.
    pub fn author_name(self, author_name: SlackText) -> (builder: AttachmentBuilder)
        ensures
            builder@ == after_step(self@, AttachmentStep::AuthorName(author_name@)),
    {
        let mut builder = self;
        if let Ok(inner) = &mut builder.inner {
            inner.author_name = Some(author_name);
        }
        builder
    }

    /// Sets the address that the author's name links to.
    /// Text that is no address of a web resource fails the builder.
    pub fn author_link(self, author_link: &str) -> (builder: AttachmentBuilder)
        ensures
            after_address(self@, UrlField::AuthorLink, parsed_url(author_link@), builder@),
    {
        match self.inner {
            Ok(_) => self.set_url(UrlField::AuthorLink, WebUrl::parse(author_link)),
            Err(_) => self,
        }
    }

    /// Sets the address of the small image beside the author's name.
    /// Text that is no address of a web resource fails the builder.
    pub fn author_icon(self, author_icon: &str) -> (builder: AttachmentBuilder)
        ensures
            after_address(self@, UrlField::AuthorIcon, parsed_url(author_icon@), builder@),
    {
        match self.inner {
            Ok(_) => self.set_url(UrlField::AuthorIcon, WebUrl::parse(author_icon)),
            Err(_) => self,
        }
    }

    /// Sets the title, shown in bold above the text.
    pub fn title(self, title: SlackText) -> (builder: AttachmentBuilder)
        ensures
            builder@ == after_step(self@, AttachmentStep::Title(title@)),
    {
        let mut builder = self;
        if let Ok(inner) = &mut builder.inner {
            inner.title = Some(title);
        }
        builder
    }

    /// Sets the id that the service reports when a button is used.
    pub fn callback_id(self, callback_id: SlackText) -> (builder: AttachmentBuilder)
        ensures
            builder@ == after_step(self@, AttachmentStep::CallbackId(callback_id@)),
    {
        let mut builder = self;
        if let Ok(inner) = &mut builder.inner {
            inner.callback_id = Some(callback_id);
        }
        builder
    }

    /// Sets the address that the title links to.
    /// Text that is no address of a web resource fails the builder.
    pub fn title_link(self, title_link: &str) -> (builder: AttachmentBuilder)
        ensures
            after_address(self@, UrlField::TitleLink, parsed_url(title_link@), builder@),
    {
        match self.inner {
            Ok(_) => self.set_url(UrlField::TitleLink, WebUrl::parse(title_link)),
            Err(_) => self,
        }
    }

    /// Sets the address of the image shown in the attachment.
    /// Text that is no address of a web resource fails the builder.
    pub fn image_url(self, image_url: &str) -> (builder: AttachmentBuilder)
        ensures
            after_address(self@, UrlField::ImageUrl, parsed_url(image_url@), builder@),
    {
        match self.inner {
            Ok(_) => self.set_url(UrlField::ImageUrl, WebUrl::parse(image_url)),
            Err(_) => self,
        }
    }

    /// Sets the address of the image shown as a thumbnail.
    /// Text that is no address of a web resource fails the builder.
    pub fn thumb_url(self, thumb_url: &str) -> (builder: AttachmentBuilder)
        ensures
            after_address(self@, UrlField::ThumbUrl, parsed_url(thumb_url@), builder@),
    {
        match self.inner {
            Ok(_) => self.set_url(UrlField::ThumbUrl, WebUrl::parse(thumb_url)),
            Err(_) => self,
        }
    }

    /// Sets the text at the bottom of the attachment.
    pub fn footer(self, footer: SlackText) -> (builder: AttachmentBuilder)
        ensures
            builder@ == after_step(self@, AttachmentStep::Footer(footer@)),
    {
        let mut builder = self;
        if let Ok(inner) = &mut builder.inner {
            inner.footer = Some(footer);
        }
        builder
    }

    /// Sets the address of the image beside the footer.
    /// Text that is no address of a web resource fails the builder.
    pub fn footer_icon(self, footer_icon: &str) -> (builder: AttachmentBuilder)
        ensures
            after_address(self@, UrlField::FooterIcon, parsed_url(footer_icon@), builder@),
    {
        match self.inner {
            Ok(_) => self.set_url(UrlField::FooterIcon, WebUrl::parse(footer_icon)),
            Err(_) => self,
        }
    }

    /// Puts an address that was parsed in its place, or fails the builder
    /// with the error of one that was not.
    pub fn set_url(self, field: UrlField, parsed: Result<WebUrl, SlackError>) -> (builder:
        AttachmentBuilder)
        ensures
            builder@ == after_step(
                self@,
                AttachmentStep::Url(
                    field,
                    match parsed {
                        Ok(url) => Ok(url@),
                        Err(e) => Err(e@),
                    },
                ),
            ),
    {
        match self.inner {
            Ok(mut inner) => {
                match parsed {
                    Ok(url) => {
                        match field {
                            UrlField::AuthorLink => inner.author_link = Some(url),
                            UrlField::AuthorIcon => inner.author_icon = Some(url),
                            UrlField::TitleLink => inner.title_link = Some(url),
                            UrlField::ImageUrl => inner.image_url = Some(url),
                            UrlField::ThumbUrl => inner.thumb_url = Some(url),
                            UrlField::FooterIcon => inner.footer_icon = Some(url),
                        }
                        AttachmentBuilder { inner: Ok(inner) }
                    },
                    Err(e) => AttachmentBuilder { inner: Err(e) },
                }
            },
            _ => self,
        }
    }

    /// Sets the time shown with the attachment, from a date and time that is
    /// read as UTC.
    pub fn ts(self, time: &chrono::NaiveDateTime) -> (builder: AttachmentBuilder)
        ensures
            builder@ == after_step(self@, AttachmentStep::Ts(utc_seconds(*time))),
    {
        self.ts_time(SlackTime::new(time))
    }

    /// Sets the time shown with the attachment.
    pub fn ts_time(self, time: SlackTime) -> (builder: AttachmentBuilder)
        ensures
            builder@ == after_step(self@, AttachmentStep::Ts(time@)),
    {
        let mut builder = self;
        if let Ok(inner) = &mut builder.inner {
            inner.ts = Some(time);
        }
        builder
    }

    /// Sets the parts that are formatted as markdown.
    pub fn markdown_in(self, sections: &[Section]) -> (builder: AttachmentBuilder)
        ensures
            builder@ == after_step(self@, AttachmentStep::MarkdownIn(sections@)),
    {
        let mut builder = self;
        if let Ok(inner) = &mut builder.inner {
            let mut chosen: Vec<Section> = Vec::new();
            let mut i: usize = 0;
            while i < sections.len()
                invariant
                    i <= sections.len(),
                    chosen@ == sections@.take(i as int),
                decreases sections.len() - i,
            {
                chosen.push(sections[i]);
                i += 1;
            }
            proof {
                assert(sections@.take(sections.len() as int) == sections@);
                assert(chosen.deep_view() == sections@);
            }
            inner.mrkdwn_in = Some(chosen);
        }
        builder
    }

    /// Ends the building. A failed builder gives the error of the step that
    /// failed it. Otherwise the attachment comes out as it was built, but
    /// that an attachment whose text was never set gets its fallback as its
    /// text.
    pub fn build(self) -> (outcome: Result<Attachment, SlackError>)
        ensures
            built(self@) == match outcome {
                Ok(attachment) => Ok::<AttachmentView, SlackErrorView>(attachment@),
                Err(e) => Err::<AttachmentView, SlackErrorView>(e@),
            },
    {
        let mut builder = self;
        // set text to equal fallback if text wasn't specified
        if let Ok(inner) = &mut builder.inner {
            if inner.text.is_none() {
                inner.text = Some(inner.fallback.clone());
            }
        }
        builder.inner
    }
}

} // verus!
