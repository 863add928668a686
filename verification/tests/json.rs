use chrono::DateTime;
use slack_hook::json::Json;
use slack_hook::{
    Action, AttachmentBuilder, Field, Parse, Payload, PayloadBuilder, Section, SlackLink,
    SlackText, SlackTime, SlackUserLink,
};

/// The JSON text in the indented form, members in their order.
fn pretty(text: &str) -> String {
    let value: serde_json::Value = serde_json::from_str(text).unwrap();
    serde_json::to_string_pretty(&value).unwrap()
}

fn has_null(value: &serde_json::Value) -> bool {
    match value {
        serde_json::Value::Null => true,
        serde_json::Value::Array(items) => items.iter().any(has_null),
        serde_json::Value::Object(members) => members.values().any(has_null),
        _ => false,
    }
}

#[test]
fn json_slacklink() {
    let s = SlackLink {
        text: SlackText::new("moo <&> moo"),
        url: "http://google.com".to_owned(),
    };
    assert_eq!(
        s.to_json().render().unwrap(),
        r###""<http://google.com|moo &lt;&amp;&gt; moo>""###
    )
}

#[test]
fn json_complete_payload() {
    let a = vec![AttachmentBuilder::new("fallback <&>".into())
        .text("text <&>".into())
        .color("#6800e8")
        .fields(vec![Field::new("title", "value".into(), None)])
        .title_link("https://title_link.com/")
        .ts(&DateTime::from_timestamp(123_456_789, 0)
            .unwrap()
            .naive_utc())
        .build()
        .unwrap()];

    let p = PayloadBuilder::new()
        .text("test message".into())
        .channel("#abc")
        .username("Bot")
        .icon_emoji(":chart_with_upwards_trend:")
        .icon_url("https://example.com")
        .attachments(a)
        .unfurl_links(false)
        .link_names(true)
        .parse(Parse::Full)
        .build()
        .unwrap();

    assert_eq!(
        pretty(&p.to_json().render().unwrap()),
        r###"{
  "text": "test message",
  "channel": "#abc",
  "username": "Bot",
  "icon_url": "https://example.com/",
  "icon_emoji": ":chart_with_upwards_trend:",
  "attachments": [
    {
      "fallback": "fallback &lt;&amp;&gt;",
      "text": "text &lt;&amp;&gt;",
      "color": "#6800e8",
      "fields": [
        {
          "title": "title",
          "value": "value"
        }
      ],
      "title_link": "https://title_link.com/",
      "ts": 123456789
    }
  ],
  "unfurl_links": false,
  "link_names": 1,
  "parse": "full"
}"###
    );
}

#[test]
fn json_message_payload() {
    let p = PayloadBuilder::new()
        .text("test message".into())
        .build()
        .unwrap();

    assert_eq!(
        pretty(&p.to_json().render().unwrap()),
        r###"{
  "text": "test message"
}"###,
    );
}

#[test]
fn compact_text_of_a_payload() {
    let p = PayloadBuilder::new()
        .text("a \"b\"".into())
        .unfurl_media(true)
        .link_names(false)
        .parse(Parse::Nothing)
        .build()
        .unwrap();
    assert_eq!(
        p.to_json().render().unwrap(),
        r###"{"text":"a \"b\"","unfurl_media":true,"link_names":0,"parse":"none"}"###
    );
}

#[test]
fn end_to_end_escapes_and_leaves_absent_parts_out() {
    let attachment = AttachmentBuilder::new("fallback <&>".into())
        .text("text <&>".into())
        .color("#6800e8")
        .fields(vec![Field::new("title", "value".into(), None)])
        .build()
        .unwrap();
    let payload = PayloadBuilder::new()
        .text("test message".into())
        .attachments(vec![attachment])
        .build()
        .unwrap();
    let text = payload.to_json().render().unwrap();
    let value: serde_json::Value = serde_json::from_str(&text).unwrap();
    assert_eq!(value["text"], "test message");
    assert_eq!(value["attachments"][0]["fallback"], "fallback &lt;&amp;&gt;");
    assert_eq!(value["attachments"][0]["text"], "text &lt;&amp;&gt;");
    assert_eq!(value["attachments"][0]["color"], "#6800e8");
    assert_eq!(value["attachments"][0]["fields"][0]["title"], "title");
    assert_eq!(value["attachments"][0]["fields"][0]["value"], "value");
    assert!(!has_null(&value));
    assert!(!text.contains("null"));
    assert_eq!(
        text,
        "{\"text\":\"test message\",\"attachments\":[{\"fallback\":\"fallback &lt;&amp;&gt;\",\
         \"text\":\"text &lt;&amp;&gt;\",\"color\":\"#6800e8\",\
         \"fields\":[{\"title\":\"title\",\"value\":\"value\"}]}]}"
    );
}

#[test]
fn empty_payload_is_an_empty_object() {
    assert_eq!(Payload::default().to_json().render().unwrap(), "{}");
    assert_eq!(
        PayloadBuilder::default()
            .build()
            .unwrap()
            .to_json()
            .render()
            .unwrap(),
        "{}"
    );
}

#[test]
fn every_part_of_an_attachment_has_its_member() {
    let attachment = AttachmentBuilder::new("f".into())
        .text("t".into())
        .pretext("p".into())
        .color("good")
        .actions(vec![
            Action::new("button", "Go", "go", Some("primary".to_owned()), None),
            Action::new("button", "No", "no", None, Some("0".to_owned())),
        ])
        .fields(vec![
            Field::new("a", "1".into(), Some(true)),
            Field::new("b", "2".into(), Some(false)),
        ])
        .author_name("an".into())
        .author_link("https://author.example/x")
        .author_icon("https://author.example/icon.png")
        .title("ti".into())
        .callback_id("cb".into())
        .title_link("https://title.example/")
        .image_url("https://image.example/i.png")
        .thumb_url("https://thumb.example/t.png")
        .footer("fo".into())
        .footer_icon("https://footer.example/f.png")
        .ts_time(SlackTime::from_timestamp(-5))
        .markdown_in(&[Section::Pretext, Section::Text, Section::Fields])
        .build()
        .unwrap();
    assert_eq!(
        attachment.to_json().render().unwrap(),
        "{\"fallback\":\"f\",\"text\":\"t\",\"pretext\":\"p\",\"color\":\"good\",\
         \"actions\":[{\"type\":\"button\",\"text\":\"Go\",\"name\":\"go\",\"style\":\"primary\"},\
         {\"type\":\"button\",\"text\":\"No\",\"name\":\"no\",\"value\":\"0\"}],\
         \"fields\":[{\"title\":\"a\",\"value\":\"1\",\"short\":true},\
         {\"title\":\"b\",\"value\":\"2\",\"short\":false}],\
         \"author_name\":\"an\",\"author_link\":\"https://author.example/x\",\
         \"author_icon\":\"https://author.example/icon.png\",\"title\":\"ti\",\
         \"title_link\":\"https://title.example/\",\"image_url\":\"https://image.example/i.png\",\
         \"thumb_url\":\"https://thumb.example/t.png\",\"footer\":\"fo\",\
         \"footer_icon\":\"https://footer.example/f.png\",\"ts\":-5,\
         \"mrkdwn_in\":[\"pretext\",\"text\",\"fields\"],\"callback_id\":\"cb\"}"
    );
}

#[test]
fn json_of_the_small_types() {
    assert_eq!(
        SlackText::new("a&b").to_json().render().unwrap(),
        "\"a&amp;b\""
    );
    assert_eq!(
        SlackUserLink::new("U1").to_json().render().unwrap(),
        "\"<U1>\""
    );
    assert_eq!(
        SlackTime::from_timestamp(123_456_789)
            .to_json()
            .render()
            .unwrap(),
        "123456789"
    );
    assert_eq!(Section::Fields.to_json().render().unwrap(), "\"fields\"");
    assert_eq!(Parse::Full.to_json().render().unwrap(), "\"full\"");
    assert_eq!(Parse::Nothing.to_json().render().unwrap(), "\"none\"");
}

#[test]
fn documents_are_written_as_they_are_built() {
    let document = Json::object(vec![
        ("z".to_owned(), Json::Null),
        ("a".to_owned(), Json::Bool(true)),
        (
            "list".to_owned(),
            Json::array(vec![Json::Number(-1), Json::text("x\ny"), Json::array(vec![])]),
        ),
        ("o".to_owned(), Json::object(vec![])),
    ]);
    assert_eq!(
        document.render().unwrap(),
        "{\"z\":null,\"a\":true,\"list\":[-1,\"x\\ny\",[]],\"o\":{}}"
    );
    assert_eq!(Json::Number(i64::MIN).render().unwrap(), "-9223372036854775808");
}

#[test]
fn time_of_a_date_is_its_seconds() {
    let date = DateTime::from_timestamp(123_456_789, 999_000_000)
        .unwrap()
        .naive_utc();
    assert_eq!(SlackTime::new(&date).timestamp(), 123_456_789);
    assert_eq!(SlackTime::new(&date), SlackTime::from_timestamp(123_456_789));
    assert!(SlackTime::from_timestamp(1) < SlackTime::from_timestamp(2));
    let before = DateTime::from_timestamp(-1, 0).unwrap().naive_utc();
    assert_eq!(SlackTime::new(&before).timestamp(), -1);
    assert_eq!(SlackTime::new(&before).clone().timestamp(), -1);
}
