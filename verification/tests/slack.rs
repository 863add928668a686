use slack_hook::{PayloadBuilder, Slack, SlackError, WebUrl};

#[test]
fn slack_incoming_url() {
    let s = Slack::new("https://hooks.slack.com/services/abc/123/45z").unwrap();
    assert_eq!(
        s.hook().to_string(),
        "https://hooks.slack.com/services/abc/123/45z"
    );
}

#[test]
fn address_is_brought_to_its_normal_form() {
    assert_eq!(
        WebUrl::parse("HTTPS://Example.COM").unwrap().as_str(),
        "https://example.com/"
    );
    assert_eq!(
        WebUrl::parse("http://example.com/a b").unwrap().to_string(),
        "http://example.com/a%20b"
    );
}

#[test]
fn text_that_is_no_address_is_refused() {
    for text in ["", "hooks.slack.com/services", "http://", "no address"] {
        assert!(matches!(WebUrl::parse(text), Err(SlackError::Reqwest(_))));
        assert!(matches!(Slack::new(text), Err(SlackError::Reqwest(_))));
    }
}

#[test]
fn address_without_a_host_is_refused() {
    for text in ["mailto:someone@example.com", "data:text/plain,hello"] {
        assert!(matches!(WebUrl::parse(text), Err(SlackError::Reqwest(_))));
    }
}

#[test]
fn address_that_was_parsed_is_kept() {
    let url = WebUrl::from_parsed(Ok("https://example.com/".to_owned())).unwrap();
    assert_eq!(url.as_str(), "https://example.com/");
    let slack = Slack::with_hook(Ok(url.clone())).unwrap();
    assert_eq!(slack.hook(), &url);
    let refused = Slack::with_hook(Err(SlackError::Slack("gone".to_owned())));
    assert!(matches!(refused, Err(SlackError::Slack(_))));
}

#[test]
fn post_holds_the_json_of_the_payload() {
    let slack = Slack::new("https://hooks.slack.com/services/abc/123/45z").unwrap();
    let payload = PayloadBuilder::new()
        .text("test message".into())
        .build()
        .unwrap();
    let post = slack.post(&payload).unwrap();
    assert_eq!(post.url, "https://hooks.slack.com/services/abc/123/45z");
    assert_eq!(post.content_type, "application/json");
    assert_eq!(post.body, "{\"text\":\"test message\"}");
}

#[test]
fn status_200_is_success() {
    assert!(Slack::response(200).is_ok());
}

#[test]
fn status_404_is_an_error_that_holds_the_status() {
    let err = Slack::response(404).unwrap_err();
    assert!(err.to_string().contains("404"));
    assert_eq!(
        err.to_string(),
        "slack service error: HTTP error 404 Not Found"
    );
    match err {
        SlackError::Slack(message) => assert_eq!(message, "HTTP error 404 Not Found"),
        other => panic!("{:?}", other),
    }
}

#[test]
fn success_is_from_200_to_299() {
    for status in 0..=u16::MAX {
        assert_eq!(
            Slack::response(status).is_ok(),
            (200..300).contains(&status)
        );
    }
}

#[test]
fn message_of_a_failure_begins_with_the_status() {
    for status in (100..200u16).chain(300..1000) {
        match Slack::response(status) {
            Err(SlackError::Slack(message)) => {
                assert!(message.starts_with(&format!("HTTP error {} ", status)))
            }
            other => panic!("{:?}", other),
        }
    }
    for status in (0..100u16).chain(1000..=u16::MAX) {
        match Slack::response(status) {
            Err(SlackError::Slack(message)) => {
                assert_eq!(message, format!("HTTP error {}", status))
            }
            other => panic!("{:?}", other),
        }
    }
    match Slack::response(799) {
        Err(SlackError::Slack(message)) => {
            assert_eq!(message, "HTTP error 799 <unknown status code>")
        }
        other => panic!("{:?}", other),
    }
}

#[test]
fn number_that_is_no_status_is_reported_as_it_is() {
    for (status, text) in [
        (0u16, "HTTP error 0"),
        (7, "HTTP error 7"),
        (99, "HTTP error 99"),
        (1000, "HTTP error 1000"),
        (40404, "HTTP error 40404"),
        (65535, "HTTP error 65535"),
    ] {
        match Slack::response(status) {
            Err(SlackError::Slack(message)) => assert_eq!(message, text),
            other => panic!("{:?}", other),
        }
    }
}

#[test]
fn errors_of_other_crates_speak_for_themselves() {
    let json = serde_json::from_str::<serde_json::Value>("{").unwrap_err();
    let text = json.to_string();
    assert_eq!(SlackError::from(json).to_string(), text);
    let url = url::Url::parse("no address").unwrap_err();
    assert_eq!(
        SlackError::from(url).to_string(),
        "relative URL without a base"
    );
    let io = std::io::Error::new(std::io::ErrorKind::Other, "disk");
    assert_eq!(SlackError::from(io).to_string(), "disk");
    let utf8 = std::str::from_utf8(&[0xff]).unwrap_err();
    let text = utf8.to_string();
    assert_eq!(SlackError::from(utf8).to_string(), text);
    assert!(matches!(
        SlackError::from(url::Url::parse("").unwrap_err()),
        SlackError::Url(_)
    ));
}
