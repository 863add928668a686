use slack_hook::{FromHexError, HexColor, SlackColor, SlackError};

#[test]
fn too_short() {
    let err = HexColor::try_from("abc").unwrap_err();
    assert_eq!(
        err.to_string(),
        "hex color parsing error: Must be 4 or 7 characters long (including #): found `abc`"
    );
}

#[test]
fn missing_hash() {
    let err = HexColor::try_from("1234567").unwrap_err();
    assert_eq!(
        err.to_string(),
        "hex color parsing error: No leading #: found `1234567`"
    );
}

#[test]
fn invalid_hex_char() {
    let err = HexColor::try_from("#abc12z").unwrap_err();
    assert_eq!(err.to_string(), "Invalid character 'z' at position 5");
}

#[test]
fn good_variant() {
    let h: HexColor = SlackColor::Good.into();
    assert_eq!(h.to_string(), "good");
}

fn assert_hexcolor_roundtrip(color: &str) {
    let ok: HexColor = HexColor::from_str(color).expect("color should be valid");
    assert_eq!(ok.to_string(), color, "Color should roundtrip");
}

#[test]
fn danger_str() {
    assert_hexcolor_roundtrip("danger");
}

#[test]
fn short_hex() {
    assert_hexcolor_roundtrip("#d18");
}

#[test]
fn upper_hex() {
    assert_hexcolor_roundtrip("#103D18");
}

#[test]
fn lower_hex() {
    assert_hexcolor_roundtrip("#103d18");
}

#[test]
fn test_hex_color_too_short() {
    let err = HexColor::from_str("abc").unwrap_err();
    assert_eq!(
        err.to_string(),
        "hex color parsing error: Must be 4 or 7 characters long (including #): found \
         `abc`"
    );
}

#[test]
fn test_hex_color_missing_hash() {
    let err = HexColor::from_str("1234567").unwrap_err();
    assert_eq!(
        err.to_string(),
        "hex color parsing error: No leading #: found `1234567`"
    );
}

#[test]
fn test_hex_color_invalid_hex_fmt() {
    let err = HexColor::from_str("#abc12z").unwrap_err();
    assert!(err
        .to_string()
        .contains("Invalid character 'z' at position 5"));
}

#[test]
fn test_hex_color_good() {
    let h: HexColor = HexColor::from_str(&SlackColor::Good.to_string()).unwrap();
    assert_eq!(h.to_string(), "good");
}

#[test]
fn test_hex_color_danger_str() {
    let ok = HexColor::from_str("danger").unwrap();
    assert_eq!(ok.to_string(), "danger");
}

#[test]
fn test_hex_color_3_char_hex() {
    let ok = HexColor::from_str("#d18").unwrap();
    assert_eq!(ok.to_string(), "#d18");
}

#[test]
fn test_hex_color_valid_upper_hex() {
    let ok = HexColor::from_str("#103D18").unwrap();
    assert_eq!(ok.to_string(), "#103D18");
}

#[test]
fn test_hex_color_valid_lower_hex() {
    let ok = HexColor::from_str("#103d18").unwrap();
    assert_eq!(ok.to_string(), "#103d18");
}

#[test]
fn names_are_colors_and_kept() {
    for name in ["good", "warning", "danger"] {
        assert_eq!(HexColor::from_str(name).unwrap().to_string(), name);
    }
    assert_eq!(SlackColor::Good.as_ref(), "good");
    assert_eq!(SlackColor::Warning.as_ref(), "warning");
    assert_eq!(SlackColor::Danger.as_ref(), "danger");
    assert_eq!(HexColor::from(SlackColor::Warning).to_string(), "warning");
    assert_eq!(HexColor::from(SlackColor::Danger).to_string(), "danger");
}

#[test]
fn names_are_case_sensitive() {
    // "Good" is neither a name nor 4 or 7 characters with a `#`
    assert!(matches!(
        HexColor::from_str("Good"),
        Err(SlackError::HexColor(_))
    ));
    // 7 characters, no `#`
    let err = HexColor::from_str("WARNING").unwrap_err();
    assert_eq!(
        err.to_string(),
        "hex color parsing error: No leading #: found `WARNING`"
    );
}

#[test]
fn default_color_is_black() {
    assert_eq!(HexColor::default().to_string(), "#000");
}

#[test]
fn mixed_case_digits_are_kept() {
    assert_hexcolor_roundtrip("#aBcDeF");
    assert_hexcolor_roundtrip("#0f9");
    assert_hexcolor_roundtrip("#000000");
    assert_hexcolor_roundtrip("#FFF");
}

#[test]
fn wrong_lengths_are_refused() {
    for text in ["", "#", "#12", "#1234", "#12345", "#1234567", "good "] {
        match HexColor::from_str(text) {
            Err(SlackError::HexColor(message)) => assert_eq!(
                message,
                format!(
                    "Must be 4 or 7 characters long (including #): found `{}`",
                    text
                )
            ),
            other => panic!("{:?} for {:?}", other, text),
        }
    }
}

#[test]
fn invalid_digit_is_reported_with_its_place() {
    match HexColor::from_str("#abc12z") {
        Err(SlackError::FromHex(e)) => {
            assert_eq!(e, FromHexError::InvalidHexCharacter { c: 'z', index: 5 })
        }
        other => panic!("{:?}", other),
    }
    match HexColor::from_str("#g00000") {
        Err(SlackError::FromHex(e)) => {
            assert_eq!(e, FromHexError::InvalidHexCharacter { c: 'g', index: 0 })
        }
        other => panic!("{:?}", other),
    }
}

#[test]
fn invalid_digit_of_a_short_code_is_placed_in_the_long_form() {
    // #d1z is checked as #dd11zz
    match HexColor::from_str("#d1z") {
        Err(SlackError::FromHex(e)) => {
            assert_eq!(e, FromHexError::InvalidHexCharacter { c: 'z', index: 4 });
            assert_eq!(e.to_string(), "Invalid character 'z' at position 4");
        }
        other => panic!("{:?}", other),
    }
}

#[test]
fn characters_beyond_ascii_are_reported_as_they_are() {
    match HexColor::from_str("#abcde\u{e9}") {
        Err(SlackError::FromHex(e)) => {
            assert_eq!(
                e,
                FromHexError::InvalidHexCharacter {
                    c: '\u{e9}',
                    index: 5
                }
            );
            assert_eq!(e.to_string(), "Invalid character '\u{e9}' at position 5");
        }
        other => panic!("{:?}", other),
    }
    match HexColor::from_str("#abcd\u{e9}\u{e9}") {
        Err(SlackError::FromHex(e)) => {
            assert_eq!(
                e,
                FromHexError::InvalidHexCharacter {
                    c: '\u{e9}',
                    index: 4
                }
            )
        }
        other => panic!("{:?}", other),
    }
    // four characters: each is doubled, and the first copy is reported
    match HexColor::from_str("#\u{e9}12") {
        Err(SlackError::FromHex(e)) => {
            assert_eq!(
                e,
                FromHexError::InvalidHexCharacter {
                    c: '\u{e9}',
                    index: 0
                }
            )
        }
        other => panic!("{:?}", other),
    }
    match HexColor::from_str("#1\u{1f600}2") {
        Err(SlackError::FromHex(e)) => {
            assert_eq!(
                e,
                FromHexError::InvalidHexCharacter {
                    c: '\u{1f600}',
                    index: 2
                }
            )
        }
        other => panic!("{:?}", other),
    }
    // the first character that is no digit is reported, also where a
    // later one lies beyond ASCII
    match HexColor::from_str("#1z\u{e9}456") {
        Err(SlackError::FromHex(e)) => {
            assert_eq!(e, FromHexError::InvalidHexCharacter { c: 'z', index: 1 })
        }
        other => panic!("{:?}", other),
    }
}

#[test]
fn every_place_of_an_invalid_digit_is_reported() {
    for at in 0..6usize {
        let mut text: Vec<char> = "#012345".chars().collect();
        text[at + 1] = 'x';
        let text: String = text.into_iter().collect();
        match HexColor::from_str(&text) {
            Err(SlackError::FromHex(e)) => {
                assert_eq!(e, FromHexError::InvalidHexCharacter { c: 'x', index: at })
            }
            other => panic!("{:?}", other),
        }
    }
    for at in 0..3usize {
        let mut text: Vec<char> = "#abc".chars().collect();
        text[at + 1] = ' ';
        let text: String = text.into_iter().collect();
        match HexColor::from_str(&text) {
            Err(SlackError::FromHex(e)) => assert_eq!(
                e,
                FromHexError::InvalidHexCharacter {
                    c: ' ',
                    index: 2 * at
                }
            ),
            other => panic!("{:?}", other),
        }
    }
}

#[test]
fn hex_error_texts() {
    assert_eq!(
        FromHexError::InvalidStringLength.to_string(),
        "Invalid string length"
    );
    assert_eq!(FromHexError::OddLength.to_string(), "Odd number of digits");
    assert_eq!(
        FromHexError::InvalidHexCharacter {
            c: '\n',
            index: 5
        }
        .to_string(),
        "Invalid character '\\n' at position 5"
    );
    assert_eq!(
        SlackError::from(FromHexError::OddLength).to_string(),
        "Odd number of digits"
    );
}
