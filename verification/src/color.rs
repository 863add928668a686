//! Colors of an attachment: three names that the service knows, or a
//! hexadecimal RGB code.

use crate::error::{SlackError, SlackErrorView};
use crate::hex_digits::{
    decode_hex, first_non_hex, is_hex_digit, lemma_first_non_hex, FromHexError,
};
use vstd::prelude::*;
use vstd::slice::slice_subrange;
use vstd::std_specs::convert::FromSpecImpl;
use vstd::utf8::{is_ascii_chars, is_ascii_chars_encode_utf8};

verus! {

/// The colors that the service knows by name.
#[derive(Copy, Clone, Debug, PartialEq, Eq, Structural)]
pub enum SlackColor {
    /// green
    Good,
    /// orange
    Warning,
    /// red
    Danger,
}

impl SlackColor {
    /// The name that the service gives the color.
    pub open spec fn name(self) -> Seq<char> {
        match self {
            SlackColor::Good => "good"@,
            SlackColor::Warning => "warning"@,
            SlackColor::Danger => "danger"@,
        }
    }

    /// The name that the service gives the color.
    pub fn as_ref(&self) -> (name: &'static str)
        ensures
            name@ == self.name(),
    {
        match *self {
            SlackColor::Good => "good",
            SlackColor::Warning => "warning",
            SlackColor::Danger => "danger",
        }
    }

    /// The name that the service gives the color, as an owned string.
    pub fn to_string(&self) -> (name: String)
        ensures
            name@ == self.name(),
    {
        self.as_ref().to_owned()
    }
}

/// One of the three names `good`, `warning` and `danger`, in lower case.
pub open spec fn is_color_name(text: Seq<char>) -> bool {
    text == "good"@ || text == "warning"@ || text == "danger"@
}

/// The six-digit form of a three-digit code: each digit twice.
pub open spec fn expand_shorthand(text: Seq<char>) -> Seq<char>
    recommends
        text.len() == 4,
{
    seq![text[0], text[1], text[1], text[2], text[2], text[3], text[3]]
}

/// The characters that must be hexadecimal digits: those after the first,
/// a three-digit code being expanded first.
pub open spec fn color_digits(text: Seq<char>) -> Seq<char>
    recommends
        text.len() == 4 || text.len() == 7,
{
    if text.len() == 4 {
        expand_shorthand(text).drop_first()
    } else {
        text.drop_first()
    }
}

/// One of `0`-`9`, `a`-`f`, `A`-`F`.
pub open spec fn is_hex_char(c: char) -> bool {
    ||| '0' <= c <= '9'
    ||| 'a' <= c <= 'f'
    ||| 'A' <= c <= 'F'
}

/// The position of the first character that is no hexadecimal digit, or
/// the length where there is none.
pub open spec fn first_other(digits: Seq<char>) -> int
    decreases digits.len(),
{
    if digits.len() == 0 {
        0
    } else if !is_hex_char(digits[0]) {
        0
    } else {
        1 + first_other(digits.drop_first())
    }
}

/// The message for a text that is neither 4 nor 7 characters long.
pub open spec fn wrong_length_message(text: Seq<char>) -> Seq<char> {
    "Must be 4 or 7 characters long (including #): found `"@ + text + "`"@
}

/// The message for a text that does not begin with `#`.
pub open spec fn no_hash_message(text: Seq<char>) -> Seq<char> {
    "No leading #: found `"@ + text + "`"@
}

/// Whether a text is a color, and if not, why. The checks come in this
/// order: a known name, the length in characters, the leading `#`, the
/// digits. A character that is no digit is reported with its position
/// among the six digits, counted from 0.
pub open spec fn check_color(text: Seq<char>) -> Result<(), SlackErrorView> {
    if is_color_name(text) {
        Ok(())
    } else if text.len() != 7 && text.len() != 4 {
        Err(SlackErrorView::HexColor(wrong_length_message(text)))
    } else if text[0] != '#' {
        Err(SlackErrorView::HexColor(no_hash_message(text)))
    } else {
        let digits = color_digits(text);
        let at = first_other(digits);
        if at < digits.len() {
            Err(
                SlackErrorView::FromHex(
                    FromHexError::InvalidHexCharacter { c: digits[at], index: at as usize },
                ),
            )
        } else {
            Ok(())
        }
    }
}

/// A color that the service accepts: `good`, `warning`, `danger`, or a
/// hexadecimal code such as `#b13d41` or `#000`. The text is kept as it was
/// given.
#[derive(Debug, PartialEq)]
pub struct HexColor(String);

impl View for HexColor {
    type V = Seq<char>;

    closed spec fn view(&self) -> Seq<char> {
        self.0@
    }
}

impl DeepView for HexColor {
    type V = Seq<char>;

    open spec fn deep_view(&self) -> Seq<char> {
        self@
    }
}

impl HexColor {
    #[verifier::type_invariant]
    spec fn valid(self) -> bool {
        check_color(self.0@) is Ok
    }

    fn new(text: &str) -> (color: HexColor)
        requires
            check_color(text@) is Ok,
        ensures
            color@ == text@,
    {
        HexColor(text.to_owned())
    }

    /// The color as text.
    pub fn to_string(&self) -> (text: String)
        ensures
            text@ == self@,
            check_color(self@) is Ok,
    {
        proof {
            use_type_invariant(self);
        }
        self.0.clone()
    }

    /// Reads a color. A known name or a well-formed code is kept as it is;
    /// anything else is refused with the first check that fails. A
    /// character that is no hexadecimal digit is reported itself, with its
    /// position among the six digits, counted from 0.
    pub fn from_str(s: &str) -> (parsed: Result<HexColor, SlackError>)
        ensures
            match parsed {
                Ok(color) => check_color(s@) is Ok && color@ == s@,
                Err(e) => check_color(s@) == Err::<(), SlackErrorView>(e@),
            },
    {
        if names_color(s) {
            return Ok(HexColor::new(s));
        }
        let num_chars = s.unicode_len();
        if num_chars != 7 && num_chars != 4 {
            let mut message = String::from_str(
                "Must be 4 or 7 characters long (including #): found `",
            );
            message.append(s);
            message.append("`");
            return Err(SlackError::HexColor(message));
        }
        if s.get_char(0) != '#' {
            let mut message = String::from_str("No leading #: found `");
            message.append(s);
            message.append("`");
            return Err(SlackError::HexColor(message));
        }
        // #d18 -> #dd1188
        let hex = if num_chars == 4 {
            let mut doubled = String::new();
            doubled.push('#');
            let mut i: usize = 1;
            while i < 4
                invariant
                    s@.len() == 4,
                    s@[0] == '#',
                    1 <= i <= 4,
                    doubled@ == expand_shorthand(s@).take(2 * i - 1),
                decreases 4 - i,
            {
                let c = s.get_char(i);
                doubled.push(c);
                doubled.push(c);
                i += 1;
            }
            proof {
                assert(expand_shorthand(s@).take(7) == expand_shorthand(s@));
            }
            doubled
        } else {
            s.to_owned()
        };
        proof {
            assert(hex@.len() == 7);
            assert(color_digits(s@) == hex@.drop_first());
        }
        // see if the remaining part of the string is actually hex: within
        // ASCII a byte is a character, and the digits are decoded; beyond it
        // the character that is no digit is looked for itself
        if hex.as_str().is_ascii() {
            let bytes = hex.as_str().as_bytes();
            proof {
                is_ascii_chars_encode_utf8(hex@);
                lemma_ascii_digits(hex@.drop_first(), bytes@.skip(1));
                lemma_first_non_hex(bytes@.skip(1));
                assert(bytes@.subrange(1, bytes@.len() as int) == bytes@.skip(1));
            }
            match decode_hex(slice_subrange(bytes, 1, bytes.len())) {
                Ok(_) => Ok(HexColor::new(s)),
                Err(e) => Err(SlackError::FromHex(e)),
            }
        } else {
            match find_other(hex.as_str()) {
                Some((index, c)) => Err(
                    SlackError::FromHex(FromHexError::InvalidHexCharacter { c, index }),
                ),
                None => Ok(HexColor::new(s)),
            }
        }
    }

    /// The same as [`HexColor::from_str`].
    pub fn try_from(s: &str) -> (parsed: Result<HexColor, SlackError>)
        ensures
            match parsed {
                Ok(color) => check_color(s@) is Ok && color@ == s@,
                Err(e) => check_color(s@) == Err::<(), SlackErrorView>(e@),
            },
    {
        HexColor::from_str(s)
    }
}

impl Clone for HexColor {
    fn clone(&self) -> (copy: HexColor)
        ensures
            copy@ == self@,
    {
        proof {
            use_type_invariant(self);
        }
        HexColor(self.0.clone())
    }
}

impl From<SlackColor> for HexColor {
    fn from(color: SlackColor) -> (named: HexColor)
        ensures
            named@ == color.name(),
    {
        HexColor::new(color.as_ref())
    }
}

/// No text can be made inside a specification, so this conversion is stated
/// in the `ensures` of `from` and not as a specification function.
impl FromSpecImpl<SlackColor> for HexColor {
    open spec fn obeys_from_spec() -> bool {
        false
    }

    open spec fn from_spec(color: SlackColor) -> HexColor {
        arbitrary()
    }
}

impl Default for HexColor {
    fn default() -> (black: HexColor)
        ensures
            black@ == "#000"@,
    {
        proof {
            reveal_strlit("#000");
            lemma_check_color_ok("#000"@);
        }
        HexColor::new("#000")
    }
}

/// Whether the text is one of the three names.
fn names_color(text: &str) -> (named: bool)
    ensures
        named == is_color_name(text@),
{
    let owned = text.to_owned();
    owned == "good".to_owned() || owned == "warning".to_owned() || owned == "danger".to_owned()
}

/// Whether the character is a hexadecimal digit.
fn is_hex(c: char) -> (hex: bool)
    ensures
        hex == is_hex_char(c),
{
    ('0' <= c && c <= '9') || ('a' <= c && c <= 'f') || ('A' <= c && c <= 'F')
}

/// Looks, among the characters after the first, for the first that is no
/// hexadecimal digit, and gives its position among them with the character.
fn find_other(form: &str) -> (found: Option<(usize, char)>)
    requires
        form@.len() >= 1,
    ensures
        match found {
            Some((at, c)) => at == first_other(form@.drop_first()) && at < form@.len() - 1 && c
                == form@[at + 1],
            None => first_other(form@.drop_first()) == form@.len() - 1,
        },
{
    let ghost digits = form@.drop_first();
    let n = form.unicode_len();
    let mut i: usize = 1;
    while i < n
        invariant
            n == form@.len(),
            1 <= i <= n,
            digits == form@.drop_first(),
            forall|j: int| 0 <= j < i - 1 ==> is_hex_char(#[trigger] digits[j]),
        decreases n - i,
    {
        let c = form.get_char(i);
        if !is_hex(c) {
            proof {
                lemma_first_other_is(digits, i - 1);
            }
            return Some((i - 1, c));
        }
        i += 1;
    }
    proof {
        lemma_first_other_is(digits, n - 1);
    }
    None
}

/// The position at which the first character that is no digit stands: all
/// before it are digits, and it is none or the end.
pub proof fn lemma_first_other_is(digits: Seq<char>, at: int)
    requires
        0 <= at <= digits.len(),
        forall|j: int| 0 <= j < at ==> is_hex_char(#[trigger] digits[j]),
        at < digits.len() ==> !is_hex_char(digits[at]),
    ensures
        first_other(digits) == at,
    decreases digits.len(),
{
    if at > 0 {
        let rest = digits.drop_first();
        assert(is_hex_char(digits[0]));
        assert forall|j: int| 0 <= j < at - 1 implies is_hex_char(#[trigger] rest[j]) by {
            assert(rest[j] == digits[j + 1]);
        }
        lemma_first_other_is(rest, at - 1);
    }
}

/// The first character that is no digit lies within the text exactly when
/// some character is no digit.
pub proof fn lemma_first_other(digits: Seq<char>)
    ensures
        0 <= first_other(digits) <= digits.len(),
        first_other(digits) == digits.len() <==> forall|i: int|
            0 <= i < digits.len() ==> is_hex_char(#[trigger] digits[i]),
        first_other(digits) < digits.len() ==> !is_hex_char(digits[first_other(digits)]),
    decreases digits.len(),
{
    if digits.len() > 0 && is_hex_char(digits[0]) {
        let rest = digits.drop_first();
        lemma_first_other(rest);
        if forall|i: int| 0 <= i < digits.len() ==> is_hex_char(#[trigger] digits[i]) {
            assert forall|i: int| 0 <= i < rest.len() implies is_hex_char(#[trigger] rest[i]) by {
                assert(rest[i] == digits[i + 1]);
            }
        }
        if first_other(rest) == rest.len() {
            assert forall|i: int| 0 <= i < digits.len() implies is_hex_char(
                #[trigger] digits[i],
            ) by {
                if i > 0 {
                    assert(digits[i] == rest[i - 1]);
                }
            }
        }
        if first_other(digits) < digits.len() {
            assert(digits[first_other(digits)] == rest[first_other(rest)]);
        }
    }
}

/// In text within ASCII a character and its byte are the same: the first
/// byte that is no digit is the first character that is none, at the same
/// position.
proof fn lemma_ascii_digits(digits: Seq<char>, bytes: Seq<u8>)
    requires
        is_ascii_chars(digits),
        bytes.len() == digits.len(),
        forall|i: int| 0 <= i < digits.len() ==> #[trigger] bytes[i] == digits[i] as u8,
    ensures
        first_non_hex(bytes) == first_other(digits),
        forall|i: int| 0 <= i < digits.len() ==> (#[trigger] bytes[i]) as char == digits[i],
    decreases digits.len(),
{
    if digits.len() > 0 {
        let c = digits[0];
        assert(bytes[0] == c as u8);
        assert(is_hex_digit(bytes[0]) == is_hex_char(c));
        assert forall|i: int| 0 <= i < digits.len() implies (#[trigger] bytes[i]) as char
            == digits[i] by {
            assert(bytes[i] == digits[i] as u8);
        }
        let rest = digits.drop_first();
        let rest_bytes = bytes.drop_first();
        assert forall|i: int| 0 <= i < rest.len() implies #[trigger] rest_bytes[i]
            == rest[i] as u8 by {
            assert(rest_bytes[i] == bytes[i + 1]);
        }
        assert(is_ascii_chars(rest)) by {
            assert forall|i: int| 0 <= i < rest.len() implies '\0' <= #[trigger] rest[i]
                <= '\u{7f}' by {
                assert(rest[i] == digits[i + 1]);
            }
        }
        lemma_ascii_digits(rest, rest_bytes);
    }
}

/// A `#` and after it three or six hexadecimal digits.
pub open spec fn is_hex_code(text: Seq<char>) -> bool {
    &&& text.len() == 4 || text.len() == 7
    &&& text[0] == '#'
    &&& forall|i: int| 1 <= i < text.len() ==> is_hex_char(#[trigger] text[i])
}

/// A text is accepted as a color exactly when it is one of the three names
/// or a `#` followed by three or six hexadecimal digits.
pub proof fn lemma_check_color_ok(text: Seq<char>)
    ensures
        check_color(text) is Ok <==> is_color_name(text) || is_hex_code(text),
{
    if !is_color_name(text) && (text.len() == 4 || text.len() == 7) && text[0] == '#' {
        let digits = color_digits(text);
        lemma_first_other(digits);
        if is_hex_code(text) {
            assert forall|i: int| 0 <= i < digits.len() implies is_hex_char(
                #[trigger] digits[i],
            ) by {
                if text.len() == 4 {
                    assert(digits[i] == text[i / 2 + 1]);
                } else {
                    assert(digits[i] == text[i + 1]);
                }
            }
        }
        if check_color(text) is Ok {
            assert forall|i: int| 1 <= i < text.len() implies is_hex_char(#[trigger] text[i]) by {
                if text.len() == 4 {
                    assert(digits[2 * (i - 1)] == text[i]);
                } else {
                    assert(digits[i - 1] == text[i]);
                }
            }
        }
    }
}

/// A character that is no hexadecimal digit is reported itself, with its
/// position among the six digits: in a code of seven characters the first
/// such character after the `#`, and in a code of four its first copy.
pub proof fn lemma_other_character_reported(text: Seq<char>, at: int)
    requires
        !is_color_name(text),
        text.len() == 7,
        text[0] == '#',
        1 <= at < 7,
        !is_hex_char(text[at]),
        forall|j: int| 1 <= j < at ==> is_hex_char(#[trigger] text[j]),
    ensures
        check_color(text) == Err::<(), SlackErrorView>(
            SlackErrorView::FromHex(
                FromHexError::InvalidHexCharacter { c: text[at], index: (at - 1) as usize },
            ),
        ),
{
    let digits = color_digits(text);
    assert forall|j: int| 0 <= j < at - 1 implies is_hex_char(#[trigger] digits[j]) by {
        assert(digits[j] == text[j + 1]);
    }
    lemma_first_other_is(digits, at - 1);
}

/// Each of the three names is a color.
pub proof fn lemma_named_color_accepted(color: SlackColor)
    ensures
        check_color(color.name()) is Ok,
{
}

} // verus!
