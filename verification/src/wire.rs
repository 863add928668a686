//! The wire format: which JSON object stands for a message and its parts.
//! A part that is absent is left out of its object; nothing is written as
//! `null`.

use crate::attachment::{
    Action, ActionView, Attachment, AttachmentView, Field, FieldView, Section,
};
use crate::json::{items_value, members_value, null_free, Json, JsonValue};
use crate::payload::{Parse, Payload, PayloadView};
use crate::color::HexColor;
use crate::text::{SlackLink, SlackText, SlackUserLink};
use crate::time::SlackTime;
use crate::web_url::WebUrl;
use vstd::prelude::*;

verus! {

/// A member of an object as the wire format lists it: a name, and a value
/// where the part is present.
pub type Entry = (Seq<char>, Option<JsonValue>);

/// The entries that have a value, in order, as members of an object.
pub open spec fn present(entries: Seq<Entry>) -> Seq<(Seq<char>, JsonValue)>
    decreases entries.len(),
{
    if entries.len() == 0 {
        Seq::empty()
    } else {
        match entries.last().1 {
            Some(value) => present(entries.drop_last()).push((entries.last().0, value)),
            None => present(entries.drop_last()),
        }
    }
}

/// A text that may be absent, as a JSON value that may be absent.
pub open spec fn text_json(text: Option<Seq<char>>) -> Option<JsonValue> {
    match text {
        Some(text) => Some(JsonValue::Text(text)),
        None => None,
    }
}

/// A flag that may be absent, as a JSON value that may be absent.
pub open spec fn bool_json(flag: Option<bool>) -> Option<JsonValue> {
    match flag {
        Some(flag) => Some(JsonValue::Bool(flag)),
        None => None,
    }
}

/// A number that may be absent, as a JSON value that may be absent.
pub open spec fn number_json(number: Option<int>) -> Option<JsonValue> {
    match number {
        Some(number) => Some(JsonValue::Number(number)),
        None => None,
    }
}

/// Every value among the entries is free of `null`.
pub open spec fn entries_null_free(entries: Seq<Entry>) -> bool {
    forall|i: int|
        0 <= i < entries.len() ==> ((#[trigger] entries[i]).1 matches Some(value) ==> null_free(
            value,
        ))
}

/// Where no value among the entries holds a `null`, no member that is
/// present holds one.
proof fn lemma_present_members_null_free(entries: Seq<Entry>)
    requires
        entries_null_free(entries),
    ensures
        forall|i: int|
            0 <= i < present(entries).len() ==> null_free((#[trigger] present(entries)[i]).1),
    decreases entries.len(),
{
    if entries.len() > 0 {
        let rest = entries.drop_last();
        let last = entries[entries.len() - 1];
        assert forall|i: int| 0 <= i < rest.len() implies ((#[trigger] rest[i]).1 matches Some(
            value,
        ) ==> null_free(value)) by {
            assert(rest[i] == entries[i]);
        }
        lemma_present_members_null_free(rest);
        assert(entries.last() == last);
        assert forall|i: int| 0 <= i < present(entries).len() implies null_free(
            (#[trigger] present(entries)[i]).1,
        ) by {
            if i < present(rest).len() {
                assert(present(entries)[i] == present(rest)[i]);
            } else {
                assert(present(entries)[i] == (last.0, last.1->Some_0));
            }
        }
    }
}

/// Where no value among the entries holds a `null`, the object made of the
/// entries that are present holds none.
pub proof fn lemma_present_null_free(entries: Seq<Entry>)
    requires
        entries_null_free(entries),
    ensures
        null_free(JsonValue::Object(present(entries))),
{
    lemma_present_members_null_free(entries);
}

/// Adds the entry at position `k` of a table to the members written so far.
fn put(
    members: &mut Vec<(String, Json)>,
    name: &str,
    value: Option<Json>,
    Ghost(table): Ghost<Seq<Entry>>,
    Ghost(k): Ghost<int>,
)
    requires
        0 <= k < table.len(),
        members_value(old(members)@) == present(table.take(k)),
        table[k] == (name@, value.deep_view()),
    ensures
        members_value(final(members)@) == present(table.take(k + 1)),
{
    proof {
        assert(table.take(k + 1).drop_last() == table.take(k));
        assert(table.take(k + 1).last() == table[k]);
    }
    match value {
        Some(value) => {
            members.push((name.to_owned(), value));
            proof {
                assert(members_value(members@) =~= members_value(old(members)@).push(
                    (name@, value@),
                ));
            }
        },
        None => {},
    }
}

/// A text as a JSON value, where there is one.
fn optional_text(text: Option<&str>) -> (json: Option<Json>)
    ensures
        json.deep_view() == text_json(
            match text {
                Some(text) => Some(text@),
                None => None,
            },
        ),
{
    match text {
        Some(text) => Some(Json::text(text)),
        None => None,
    }
}

/// A text of the model as a JSON value, where there is one.
fn optional_string(text: &Option<String>) -> (json: Option<Json>)
    ensures
        json.deep_view() == text_json(text.deep_view()),
{
    match text {
        Some(text) => Some(Json::text(text.as_str())),
        None => None,
    }
}

/// A flag as a JSON value, where there is one.
fn optional_bool(flag: Option<bool>) -> (json: Option<Json>)
    ensures
        json.deep_view() == bool_json(flag),
{
    match flag {
        Some(flag) => Some(Json::Bool(flag)),
        None => None,
    }
}

impl SlackText {
    /// The text as a JSON value.
    pub fn to_json(&self) -> (json: Json)
        ensures
            json@ == JsonValue::Text(self@),
    {
        Json::text(self.as_str())
    }
}

impl SlackLink {
    /// The link as a JSON value: its markup as text.
    pub fn to_json(&self) -> (json: Json)
        ensures
            json@ == JsonValue::Text(self.markup()),
    {
        Json::Text(self.to_string())
    }
}

impl SlackUserLink {
    /// The mention as a JSON value: its markup as text.
    pub fn to_json(&self) -> (json: Json)
        ensures
            json@ == JsonValue::Text(self.markup()),
    {
        Json::Text(self.to_string())
    }
}

impl SlackTime {
    /// The time as a JSON value: the seconds since the start of 1970.
    pub fn to_json(&self) -> (json: Json)
        ensures
            json@ == JsonValue::Number(self@),
    {
        Json::Number(self.timestamp())
    }
}

impl HexColor {
    /// The color as a JSON value: its text as it was given.
    pub fn to_json(&self) -> (json: Json)
        ensures
            json@ == JsonValue::Text(self@),
    {
        Json::Text(self.to_string())
    }
}

impl Section {
    /// The name of the part in the wire format.
    pub open spec fn wire_name(self) -> Seq<char> {
        match self {
            Section::Pretext => "pretext"@,
            Section::Text => "text"@,
            Section::Fields => "fields"@,
        }
    }

    /// The part as a JSON value: its name in lower case.
    pub fn to_json(&self) -> (json: Json)
        ensures
            json@ == JsonValue::Text(self.wire_name()),
    {
        match self {
            Section::Pretext => Json::text("pretext"),
            Section::Text => Json::text("text"),
            Section::Fields => Json::text("fields"),
        }
    }
}

impl FieldView {
    /// The members of the object that stands for a field, in order.
    pub open spec fn entries(self) -> Seq<Entry> {
        seq![
            ("title"@, Some(JsonValue::Text(self.title))),
            ("value"@, Some(JsonValue::Text(self.value))),
            ("short"@, bool_json(self.short)),
        ]
    }

    /// The object that stands for a field.
    pub open spec fn json(self) -> JsonValue {
        JsonValue::Object(present(self.entries()))
    }
}

impl Field {
    /// The object that stands for the field.
    pub fn to_json(&self) -> (json: Json)
        ensures
            json@ == self@.json(),
    {
        let ghost table = self@.entries();
        let mut members: Vec<(String, Json)> = Vec::new();
        proof {
            assert(members_value(members@) =~= present(table.take(0)));
        }
        put(&mut members, "title", Some(Json::text(self.title.as_str())), Ghost(table), Ghost(0));
        put(&mut members, "value", Some(Json::text(self.value.as_str())), Ghost(table), Ghost(1));
        put(&mut members, "short", optional_bool(self.short), Ghost(table), Ghost(2));
        proof {
            assert(table.take(3) == table);
        }
        Json::object(members)
    }
}

impl ActionView {
    /// The members of the object that stands for an action, in order.
    pub open spec fn entries(self) -> Seq<Entry> {
        seq![
            ("type"@, Some(JsonValue::Text(self.action_type))),
            ("text"@, Some(JsonValue::Text(self.text))),
            ("name"@, Some(JsonValue::Text(self.name))),
            ("style"@, text_json(self.style)),
            ("value"@, text_json(self.value)),
        ]
    }

    /// The object that stands for an action.
    pub open spec fn json(self) -> JsonValue {
        JsonValue::Object(present(self.entries()))
    }
}

impl Action {
    /// The object that stands for the action.
    pub fn to_json(&self) -> (json: Json)
        ensures
            json@ == self@.json(),
    {
        let ghost table = self@.entries();
        let mut members: Vec<(String, Json)> = Vec::new();
        proof {
            assert(members_value(members@) =~= present(table.take(0)));
        }
        put(
            &mut members,
            "type",
            Some(Json::text(self.action_type.as_str())),
            Ghost(table),
            Ghost(0),
        );
        put(&mut members, "text", Some(Json::text(self.text.as_str())), Ghost(table), Ghost(1));
        put(&mut members, "name", Some(Json::text(self.name.as_str())), Ghost(table), Ghost(2));
        put(&mut members, "style", optional_string(&self.style), Ghost(table), Ghost(3));
        put(&mut members, "value", optional_string(&self.value), Ghost(table), Ghost(4));
        proof {
            assert(table.take(5) == table);
        }
        Json::object(members)
    }
}

/// The array of the objects that stand for the fields, in order.
pub open spec fn fields_json(fields: Seq<FieldView>) -> JsonValue {
    JsonValue::Array(Seq::new(fields.len(), |i: int| fields[i].json()))
}

/// The array of the objects that stand for the actions, in order.
pub open spec fn actions_json(actions: Seq<ActionView>) -> JsonValue {
    JsonValue::Array(Seq::new(actions.len(), |i: int| actions[i].json()))
}

/// The array of the names of the parts, in order.
pub open spec fn sections_json(sections: Seq<Section>) -> JsonValue {
    JsonValue::Array(Seq::new(sections.len(), |i: int| JsonValue::Text(sections[i].wire_name())))
}

/// The array of the objects that stand for the attachments, in order.
pub open spec fn attachments_json(attachments: Seq<AttachmentView>) -> JsonValue {
    JsonValue::Array(Seq::new(attachments.len(), |i: int| attachments[i].json()))
}

/// The array for the fields.
fn fields_array(fields: &Vec<Field>) -> (json: Json)
    ensures
        json@ == fields_json(fields.deep_view()),
{
    let mut items: Vec<Json> = Vec::new();
    let mut i: usize = 0;
    while i < fields.len()
        invariant
            i <= fields.len(),
            items@.len() == i,
            forall|j: int| 0 <= j < i ==> (#[trigger] items@[j])@ == fields@[j]@.json(),
        decreases fields.len() - i,
    {
        items.push(fields[i].to_json());
        i += 1;
    }
    proof {
        assert(items_value(items@) =~= fields_json(fields.deep_view())->Array_0);
    }
    Json::array(items)
}

/// The array for the actions.
fn actions_array(actions: &Vec<Action>) -> (json: Json)
    ensures
        json@ == actions_json(actions.deep_view()),
{
    let mut items: Vec<Json> = Vec::new();
    let mut i: usize = 0;
    while i < actions.len()
        invariant
            i <= actions.len(),
            items@.len() == i,
            forall|j: int| 0 <= j < i ==> (#[trigger] items@[j])@ == actions@[j]@.json(),
        decreases actions.len() - i,
    {
        items.push(actions[i].to_json());
        i += 1;
    }
    proof {
        assert(items_value(items@) =~= actions_json(actions.deep_view())->Array_0);
    }
    Json::array(items)
}

/// The array for the parts that are formatted as markdown.
fn sections_array(sections: &Vec<Section>) -> (json: Json)
    ensures
        json@ == sections_json(sections.deep_view()),
{
    let mut items: Vec<Json> = Vec::new();
    let mut i: usize = 0;
    while i < sections.len()
        invariant
            i <= sections.len(),
            items@.len() == i,
            forall|j: int|
                0 <= j < i ==> (#[trigger] items@[j])@ == JsonValue::Text(sections@[j].wire_name()),
        decreases sections.len() - i,
    {
        items.push(sections[i].to_json());
        i += 1;
    }
    proof {
        assert(items_value(items@) =~= sections_json(sections.deep_view())->Array_0);
    }
    Json::array(items)
}

impl AttachmentView {
    /// The members of the object that stands for an attachment, in order.
    pub open spec fn entries(self) -> Seq<Entry> {
        seq![
            ("fallback"@, Some(JsonValue::Text(self.fallback))),
            ("text"@, text_json(self.text)),
            ("pretext"@, text_json(self.pretext)),
            ("color"@, text_json(self.color)),
            (
                "actions"@,
                match self.actions {
                    Some(actions) => Some(actions_json(actions)),
                    None => None,
                },
            ),
            (
                "fields"@,
                match self.fields {
                    Some(fields) => Some(fields_json(fields)),
                    None => None,
                },
            ),
            ("author_name"@, text_json(self.author_name)),
            ("author_link"@, text_json(self.author_link)),
            ("author_icon"@, text_json(self.author_icon)),
            ("title"@, text_json(self.title)),
            ("title_link"@, text_json(self.title_link)),
            ("image_url"@, text_json(self.image_url)),
            ("thumb_url"@, text_json(self.thumb_url)),
            ("footer"@, text_json(self.footer)),
            ("footer_icon"@, text_json(self.footer_icon)),
            ("ts"@, number_json(self.ts)),
            (
                "mrkdwn_in"@,
                match self.mrkdwn_in {
                    Some(sections) => Some(sections_json(sections)),
                    None => None,
                },
            ),
            ("callback_id"@, text_json(self.callback_id)),
        ]
    }

    /// The object that stands for an attachment.
    pub open spec fn json(self) -> JsonValue {
        JsonValue::Object(present(self.entries()))
    }
}

/// A text of the service as a JSON value, where there is one.
fn optional_slack_text(text: &Option<SlackText>) -> (json: Option<Json>)
    ensures
        json.deep_view() == text_json(text.deep_view()),
{
    match text {
        Some(text) => Some(Json::text(text.as_str())),
        None => None,
    }
}

/// An address as a JSON value, where there is one.
fn optional_url(url: &Option<WebUrl>) -> (json: Option<Json>)
    ensures
        json.deep_view() == text_json(url.deep_view()),
{
    match url {
        Some(url) => Some(Json::text(url.as_str())),
        None => None,
    }
}

impl Attachment {
    /// The object that stands for the attachment: each part that is present
    /// under its name, in the order of the parts, and no other member.
    pub fn to_json(&self) -> (json: Json)
        ensures
            json@ == self@.json(),
    {
        let ghost table = self@.entries();
        let mut members: Vec<(String, Json)> = Vec::new();
        proof {
            assert(members_value(members@) =~= present(table.take(0)));
        }
        let fallback = Some(Json::text(self.fallback.as_str()));
        put(&mut members, "fallback", fallback, Ghost(table), Ghost(0));
        put(&mut members, "text", optional_slack_text(&self.text), Ghost(table), Ghost(1));
        put(&mut members, "pretext", optional_slack_text(&self.pretext), Ghost(table), Ghost(2));
        let color = match &self.color {
            Some(color) => Some(color.to_json()),
            None => None,
        };
        put(&mut members, "color", color, Ghost(table), Ghost(3));
        let actions = match &self.actions {
            Some(actions) => Some(actions_array(actions)),
            None => None,
        };
        put(&mut members, "actions", actions, Ghost(table), Ghost(4));
        let fields = match &self.fields {
            Some(fields) => Some(fields_array(fields)),
            None => None,
        };
        put(&mut members, "fields", fields, Ghost(table), Ghost(5));
        put(
            &mut members,
            "author_name",
            optional_slack_text(&self.author_name),
            Ghost(table),
            Ghost(6),
        );
        put(&mut members, "author_link", optional_url(&self.author_link), Ghost(table), Ghost(7));
        put(&mut members, "author_icon", optional_url(&self.author_icon), Ghost(table), Ghost(8));
        put(&mut members, "title", optional_slack_text(&self.title), Ghost(table), Ghost(9));
        put(&mut members, "title_link", optional_url(&self.title_link), Ghost(table), Ghost(10));
        put(&mut members, "image_url", optional_url(&self.image_url), Ghost(table), Ghost(11));
        put(&mut members, "thumb_url", optional_url(&self.thumb_url), Ghost(table), Ghost(12));
        put(&mut members, "footer", optional_slack_text(&self.footer), Ghost(table), Ghost(13));
        put(&mut members, "footer_icon", optional_url(&self.footer_icon), Ghost(table), Ghost(14));
        let ts = match &self.ts {
            Some(time) => Some(time.to_json()),
            None => None,
        };
        put(&mut members, "ts", ts, Ghost(table), Ghost(15));
        let mrkdwn_in = match &self.mrkdwn_in {
            Some(sections) => Some(sections_array(sections)),
            None => None,
        };
        put(&mut members, "mrkdwn_in", mrkdwn_in, Ghost(table), Ghost(16));
        put(
            &mut members,
            "callback_id",
            optional_slack_text(&self.callback_id),
            Ghost(table),
            Ghost(17),
        );
        proof {
            assert(table.take(18) == table);
        }
        Json::object(members)
    }
}

/// The array for the attachments.
fn attachments_array(attachments: &Vec<Attachment>) -> (json: Json)
    ensures
        json@ == attachments_json(attachments.deep_view()),
{
    let mut items: Vec<Json> = Vec::new();
    let mut i: usize = 0;
    while i < attachments.len()
        invariant
            i <= attachments.len(),
            items@.len() == i,
            forall|j: int| 0 <= j < i ==> (#[trigger] items@[j])@ == attachments@[j]@.json(),
        decreases attachments.len() - i,
    {
        items.push(attachments[i].to_json());
        i += 1;
    }
    proof {
        assert(items_value(items@) =~= attachments_json(attachments.deep_view())->Array_0);
    }
    Json::array(items)
}

impl Parse {
    /// The name of the mode in the wire format.
    pub open spec fn wire_name(self) -> Seq<char> {
        match self {
            Parse::Full => "full"@,
            Parse::Nothing => "none"@,
        }
    }

    /// The mode as a JSON value: `full` or `none`.
    pub fn to_json(&self) -> (json: Json)
        ensures
            json@ == JsonValue::Text(self.wire_name()),
    {
        match self {
            Parse::Full => Json::text("full"),
            Parse::Nothing => Json::text("none"),
        }
    }
}

impl PayloadView {
    /// The members of the object that stands for a payload, in order.
    pub open spec fn entries(self) -> Seq<Entry> {
        seq![
            ("text"@, text_json(self.text)),
            ("channel"@, text_json(self.channel)),
            ("username"@, text_json(self.username)),
            ("icon_url"@, text_json(self.icon_url)),
            ("icon_emoji"@, text_json(self.icon_emoji)),
            (
                "attachments"@,
                match self.attachments {
                    Some(attachments) => Some(attachments_json(attachments)),
                    None => None,
                },
            ),
            ("unfurl_links"@, bool_json(self.unfurl_links)),
            ("unfurl_media"@, bool_json(self.unfurl_media)),
            (
                "link_names"@,
                match self.link_names {
                    Some(n) => Some(JsonValue::Number(n as int)),
                    None => None,
                },
            ),
            (
                "parse"@,
                match self.parse {
                    Some(mode) => Some(JsonValue::Text(mode.wire_name())),
                    None => None,
                },
            ),
        ]
    }

    /// The object that stands for a payload.
    pub open spec fn json(self) -> JsonValue {
        JsonValue::Object(present(self.entries()))
    }
}

impl Payload {
    /// The object that stands for the payload: each part that is present
    /// under its name, in the order of the parts, and no other member.
    pub fn to_json(&self) -> (json: Json)
        ensures
            json@ == self@.json(),
            null_free(json@),
    {
        let ghost table = self@.entries();
        let mut members: Vec<(String, Json)> = Vec::new();
        proof {
            assert(members_value(members@) =~= present(table.take(0)));
        }
        put(&mut members, "text", optional_slack_text(&self.text), Ghost(table), Ghost(0));
        put(&mut members, "channel", optional_string(&self.channel), Ghost(table), Ghost(1));
        put(&mut members, "username", optional_string(&self.username), Ghost(table), Ghost(2));
        put(&mut members, "icon_url", optional_url(&self.icon_url), Ghost(table), Ghost(3));
        put(&mut members, "icon_emoji", optional_string(&self.icon_emoji), Ghost(table), Ghost(4));
        let attachments = match &self.attachments {
            Some(attachments) => Some(attachments_array(attachments)),
            None => None,
        };
        put(&mut members, "attachments", attachments, Ghost(table), Ghost(5));
        put(&mut members, "unfurl_links", optional_bool(self.unfurl_links), Ghost(table), Ghost(6));
        put(&mut members, "unfurl_media", optional_bool(self.unfurl_media), Ghost(table), Ghost(7));
        let link_names = match self.link_names {
            Some(n) => Some(Json::Number(n as i64)),
            None => None,
        };
        put(&mut members, "link_names", link_names, Ghost(table), Ghost(8));
        let parse = match &self.parse {
            Some(mode) => Some(mode.to_json()),
            None => None,
        };
        put(&mut members, "parse", parse, Ghost(table), Ghost(9));
        proof {
            assert(table.take(10) == table);
            lemma_payload_null_free(self@);
        }
        Json::object(members)
    }
}

/// The object that stands for a field holds no `null`.
pub proof fn lemma_field_null_free(field: FieldView)
    ensures
        null_free(field.json()),
{
    lemma_present_null_free(field.entries());
}

/// The object that stands for an action holds no `null`.
pub proof fn lemma_action_null_free(action: ActionView)
    ensures
        null_free(action.json()),
{
    lemma_present_null_free(action.entries());
}

/// The object that stands for an attachment holds no `null`: a part that
/// is absent is left out.
pub proof fn lemma_attachment_null_free(attachment: AttachmentView)
    ensures
        null_free(attachment.json()),
{
    let entries = attachment.entries();
    if let Some(actions) = attachment.actions {
        assert forall|i: int| 0 <= i < actions.len() implies null_free(
            #[trigger] actions_json(actions)->Array_0[i],
        ) by {
            lemma_action_null_free(actions[i]);
        }
        assert(null_free(actions_json(actions)));
    }
    if let Some(fields) = attachment.fields {
        assert forall|i: int| 0 <= i < fields.len() implies null_free(
            #[trigger] fields_json(fields)->Array_0[i],
        ) by {
            lemma_field_null_free(fields[i]);
        }
        assert(null_free(fields_json(fields)));
    }
    if let Some(sections) = attachment.mrkdwn_in {
        assert forall|i: int| 0 <= i < sections.len() implies null_free(
            #[trigger] sections_json(sections)->Array_0[i],
        ) by {
            assert(sections_json(sections)->Array_0[i] == JsonValue::Text(
                sections[i].wire_name(),
            ));
        }
        assert(null_free(sections_json(sections)));
    }
    assert forall|i: int| 0 <= i < entries.len() implies ((#[trigger] entries[i]).1 matches Some(
        value,
    ) ==> null_free(value)) by {
        if i < 6 {
        } else if i < 12 {
        } else {
        }
    }
    lemma_present_null_free(entries);
}

/// The object that stands for a payload holds no `null`, whatever the
/// payload: a part that is absent is left out.
pub proof fn lemma_payload_null_free(payload: PayloadView)
    ensures
        null_free(payload.json()),
{
    if let Some(attachments) = payload.attachments {
        assert forall|i: int| 0 <= i < attachments.len() implies null_free(
            #[trigger] attachments_json(attachments)->Array_0[i],
        ) by {
            lemma_attachment_null_free(attachments[i]);
        }
    }
    lemma_present_null_free(payload.entries());
}

} // verus!
