use slack_hook::escape::escape_text;
use slack_hook::{SlackLink, SlackText, SlackTextContent, SlackUserLink};

#[test]
fn slack_text() {
    let s = SlackText::new("moo <&> moo");
    assert_eq!(s.to_string(), "moo &lt;&amp;&gt; moo");
}

#[test]
fn slack_link() {
    let s = SlackLink {
        text: SlackText::new("moo <&> moo"),
        url: "http://google.com".to_owned(),
    };
    assert_eq!(s.to_string(), "<http://google.com|moo &lt;&amp;&gt; moo>");
}

#[test]
fn slack_text_content() {
    let message = [
        SlackTextContent::Text("moo <&> moo".into()),
        SlackTextContent::Link(SlackLink::new("@USER", "M<E>")),
        SlackTextContent::Text("wow.".into()),
    ];
    let st = SlackText::from(&message[..]);
    assert_eq!(
        st.to_string(),
        "moo &lt;&amp;&gt; moo <@USER|M&lt;E&gt;> wow."
    );
}

#[test]
fn text_without_reserved_characters_is_kept() {
    for text in ["", "plain", "a b c", "caf\u{e9} \u{1f600}", "amp; lt; gt;", "\"'/\\"] {
        assert_eq!(escape_text(text), text);
        assert_eq!(SlackText::new(text).to_string(), text);
    }
}

#[test]
fn each_reserved_character_has_its_entity() {
    assert_eq!(escape_text("&"), "&amp;");
    assert_eq!(escape_text("<"), "&lt;");
    assert_eq!(escape_text(">"), "&gt;");
    assert_eq!(escape_text("a&b<c>d"), "a&amp;b&lt;c&gt;d");
    assert_eq!(escape_text("<<>>&&"), "&lt;&lt;&gt;&gt;&amp;&amp;");
}

#[test]
fn escaped_text_is_escaped_again() {
    assert_eq!(escape_text("&amp;"), "&amp;amp;");
    assert_eq!(escape_text("&lt;b&gt;"), "&amp;lt;b&amp;gt;");
    let once = SlackText::new("a < b");
    let twice = SlackText::new(once.as_str());
    assert_eq!(twice.to_string(), "a &amp;lt; b");
}

#[test]
fn escaped_text_is_safe() {
    for text in ["<&>", "a&&b", "x<y>z&", "&amp;&lt;&gt;", "<\u{e9}>&\u{1f600}"] {
        let escaped = escape_text(text);
        assert!(!escaped.contains('<'));
        assert!(!escaped.contains('>'));
        for (at, _) in escaped.match_indices('&') {
            let rest = &escaped[at..];
            assert!(
                rest.starts_with("&amp;") || rest.starts_with("&lt;") || rest.starts_with("&gt;")
            );
        }
    }
}

#[test]
fn conversions_into_text_escape() {
    let from_str: SlackText = "a<b".into();
    assert_eq!(from_str.to_string(), "a&lt;b");
    let from_string: SlackText = String::from("a>b").into();
    assert_eq!(from_string.to_string(), "a&gt;b");
    assert_eq!(SlackText::default().to_string(), "");
    assert_eq!(from_str.clone(), from_str);
}

#[test]
fn user_link_markup() {
    let user = SlackUserLink::new("U1231232123");
    assert_eq!(user.uid, "U1231232123");
    assert_eq!(user.to_string(), "<U1231232123>");
}

#[test]
fn link_keeps_its_address_and_escapes_its_text() {
    let link = SlackLink::new("http://a.b/?x=1&y=<2>", "1 < 2");
    assert_eq!(link.url, "http://a.b/?x=1&y=<2>");
    assert_eq!(link.text.to_string(), "1 &lt; 2");
    assert_eq!(link.to_string(), "<http://a.b/?x=1&y=<2>|1 &lt; 2>");
}

#[test]
fn parts_are_joined_with_single_spaces() {
    let none: [SlackTextContent; 0] = [];
    assert_eq!(SlackText::from(&none[..]).to_string(), "");
    let one = [SlackTextContent::User(SlackUserLink::new("U1"))];
    assert_eq!(SlackText::from(&one[..]).to_string(), "<U1>");
    let three = [
        SlackTextContent::Text(SlackText::new("")),
        SlackTextContent::User(SlackUserLink::new("U1")),
        SlackTextContent::Text(SlackText::new("a&b")),
    ];
    assert_eq!(SlackText::from(&three[..]).to_string(), " <U1> a&amp;b");
    assert_eq!(three[1].to_string(), "<U1>");
    assert_eq!(three[2].to_string(), "a&amp;b");
}
