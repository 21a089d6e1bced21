//! Colors that a user names for the background of exported pages.

use vstd::prelude::*;
use vstd::string::*;

use crate::text::{same, starts_with};

verus! {

/// A color: one that has a name, or one that is given by its components.
#[derive(Debug, Clone, Copy, PartialEq, Eq, Structural)]
pub enum Color {
    Black,
    White,
    Red,
    Green,
    Blue,
    /// Red, green, blue and alpha.
    Rgba(u8, u8, u8, u8),
}

/// Why a text is no color.
#[derive(Debug, PartialEq, Eq)]
pub enum ColorError {
    /// The text after the hash is no hexadecimal color, for this reason.
    Unparsable(String),
    /// The text is neither a name nor begins with a hash.
    Invalid(String),
}

/// What a [`ColorError`] says.
pub enum ColorErrorView {
    Unparsable(Seq<char>),
    Invalid(Seq<char>),
}

impl View for ColorError {
    type V = ColorErrorView;

    open spec fn view(&self) -> ColorErrorView {
        match self {
            ColorError::Unparsable(reason) => ColorErrorView::Unparsable(reason@),
            ColorError::Invalid(fill) => ColorErrorView::Invalid(fill@),
        }
    }
}

impl ColorErrorView {
    /// The message of the error.
    pub open spec fn message(self) -> Seq<char> {
        match self {
            ColorErrorView::Unparsable(_) => "failed to parse color"@,
            ColorErrorView::Invalid(fill) => "invalid color: "@ + fill,
        }
    }
}

impl ColorError {
    /// Writes the message of the error.
    pub fn message(&self) -> (message: String)
        ensures
            message@ == self@.message(),
    {
        match self {
            ColorError::Unparsable(_) => "failed to parse color".to_owned(),
            ColorError::Invalid(fill) => {
                let mut message = "invalid color: ".to_owned();
                message.append(fill.as_str());
                message
            },
        }
    }
}

pub open spec fn is_hex_digit(c: char) -> bool {
    '0' <= c <= '9' || 'a' <= c <= 'f' || 'A' <= c <= 'F'
}

/// The value of a hexadecimal digit.
pub open spec fn hex_value(c: char) -> int {
    if c <= '9' {
        c as int - '0' as int
    } else if c <= 'F' {
        c as int - 'A' as int + 10
    } else {
        c as int - 'a' as int + 10
    }
}

/// A text without one leading hash.
pub open spec fn without_hash(text: Seq<char>) -> Seq<char> {
    if text.len() > 0 && text[0] == '#' {
        text.skip(1)
    } else {
        text
    }
}

/// A component of a hexadecimal color: two digits, or one that stands for two of its kind. It is
/// full where it is left out.
pub open spec fn hex_component(digits: Seq<char>, i: int) -> u8 {
    if digits.len() <= 4 && i < digits.len() {
        (17 * hex_value(digits[i])) as u8
    } else if digits.len() > 4 && 2 * i < digits.len() {
        (16 * hex_value(digits[2 * i]) + hex_value(digits[2 * i + 1])) as u8
    } else {
        255
    }
}

/// The components in a hexadecimal text: three or four digits, or three or four pairs of digits,
/// after an optional hash.
pub open spec fn hex_color(text: Seq<char>) -> Option<(u8, u8, u8, u8)> {
    let digits = without_hash(text);
    if (forall|i: int| 0 <= i < digits.len() ==> is_hex_digit(#[trigger] digits[i])) && (
    digits.len() == 3 || digits.len() == 4 || digits.len() == 6 || digits.len() == 8) {
        Some(
            (
                hex_component(digits, 0),
                hex_component(digits, 1),
                hex_component(digits, 2),
                hex_component(digits, 3),
            ),
        )
    } else {
        None
    }
}

/// Why a text holds no hexadecimal color.
pub open spec fn hex_error(text: Seq<char>) -> Seq<char> {
    let digits = without_hash(text);
    if forall|i: int| 0 <= i < digits.len() ==> is_hex_digit(#[trigger] digits[i]) {
        "color string has wrong length"@
    } else {
        "color string contains non-hexadecimal letters"@
    }
}

/// Calls `typst::visualize::Color::from_str` and takes the components of the color with
/// `to_vec4_u8`.
///
/// The hash is optional, lower and upper case are fine, and a color has three or four components
/// of one or two digits each. Otherwise the reason tells of the first of two faults: a letter that
/// is no digit, a wrong length.
#[verifier::external_body]
fn read_hex_color(text: &str) -> (color: Result<(u8, u8, u8, u8), String>)
    ensures
        match color {
            Ok(components) => hex_color(text@) == Some(components),
            Err(reason) => hex_color(text@) is None && reason@ == hex_error(text@),
        },
{
    let color: typst::visualize::Color = text.parse().map_err(String::from)?;
    let [r, g, b, a] = color.to_vec4_u8();
    Ok((r, g, b, a))
}

/// The color with a name.
pub open spec fn named_color(text: Seq<char>) -> Option<Color> {
    if text == "black"@ {
        Some(Color::Black)
    } else if text == "white"@ {
        Some(Color::White)
    } else if text == "red"@ {
        Some(Color::Red)
    } else if text == "green"@ {
        Some(Color::Green)
    } else if text == "blue"@ {
        Some(Color::Blue)
    } else {
        None
    }
}

/// The color that a text stands for: a name, or a hash and a hexadecimal color.
pub open spec fn parse_color_spec(fill: Seq<char>) -> Result<Color, ColorErrorView> {
    if named_color(fill) is Some {
        Ok(named_color(fill).unwrap())
    } else if "#"@.is_prefix_of(fill) {
        match hex_color(fill.skip(1)) {
            Some((r, g, b, a)) => Ok(Color::Rgba(r, g, b, a)),
            None => Err(ColorErrorView::Unparsable(hex_error(fill.skip(1)))),
        }
    } else {
        Err(ColorErrorView::Invalid(fill))
    }
}

/// Finds the color with a name.
fn find_named_color(text: &str) -> (color: Option<Color>)
    ensures
        color == named_color(text@),
{
    if same(text, "black") {
        Some(Color::Black)
    } else if same(text, "white") {
        Some(Color::White)
    } else if same(text, "red") {
        Some(Color::Red)
    } else if same(text, "green") {
        Some(Color::Green)
    } else if same(text, "blue") {
        Some(Color::Blue)
    } else {
        None
    }
}

/// Reads a color: a name, or a hash and a hexadecimal color.
pub fn parse_color(fill: String) -> (color: Result<Color, ColorError>)
    ensures
        match color {
            Ok(color) => parse_color_spec(fill@) == Ok::<Color, ColorErrorView>(color),
            Err(err) => parse_color_spec(fill@) == Err::<Color, ColorErrorView>(err@),
        },
{
    let text = fill.as_str();
    match find_named_color(text) {
        Some(color) => Ok(color),
        None => {
            if starts_with(text, "#") {
                proof {
                    reveal_strlit("#");
                }
                let rest = text.substring_char(1, text.unicode_len());
                assert(rest@ =~= fill@.skip(1));
                match read_hex_color(rest) {
                    Ok((r, g, b, a)) => Ok(Color::Rgba(r, g, b, a)),
                    Err(reason) => Err(ColorError::Unparsable(reason)),
                }
            } else {
                Err(ColorError::Invalid(fill))
            }
        },
    }
}

/// Five texts are names of colors. A text that begins with a hash is the color that its other
/// characters give, or tells why they give none. Every other text is refused as it is.
pub proof fn lemma_parse_color(fill: Seq<char>)
    ensures
        parse_color_spec(fill) == Ok::<Color, ColorErrorView>(Color::Black) <==> fill == "black"@,
        parse_color_spec(fill) == Ok::<Color, ColorErrorView>(Color::White) <==> fill == "white"@,
        parse_color_spec(fill) == Ok::<Color, ColorErrorView>(Color::Red) <==> fill == "red"@,
        parse_color_spec(fill) == Ok::<Color, ColorErrorView>(Color::Green) <==> fill == "green"@,
        parse_color_spec(fill) == Ok::<Color, ColorErrorView>(Color::Blue) <==> fill == "blue"@,
        fill.len() > 0 && fill[0] == '#' ==> parse_color_spec(fill) == match hex_color(
            fill.skip(1),
        ) {
            Some((r, g, b, a)) => Ok(Color::Rgba(r, g, b, a)),
            None => Err(ColorErrorView::Unparsable(hex_error(fill.skip(1)))),
        },
        (fill.len() == 0 || fill[0] != '#') && fill != "black"@ && fill != "white"@ && fill
            != "red"@ && fill != "green"@ && fill != "blue"@ ==> parse_color_spec(fill) == Err::<
            Color,
            ColorErrorView,
        >(ColorErrorView::Invalid(fill)),
{
    reveal_strlit("black");
    reveal_strlit("white");
    reveal_strlit("red");
    reveal_strlit("green");
    reveal_strlit("blue");
    reveal_strlit("#");
    assert("black"@[0] == 'b' && "black"@[1] == 'l' && "black"@[2] == 'a');
    assert("white"@[0] == 'w');
    assert("red"@[0] == 'r');
    assert("green"@[0] == 'g');
    assert("blue"@[0] == 'b' && "blue"@[1] == 'l' && "blue"@[2] == 'u');
    if fill.len() > 0 && fill[0] == '#' {
        assert("#"@ =~= fill.subrange(0, 1));
    }
    if "#"@.is_prefix_of(fill) {
        assert(fill.subrange(0, 1)[0] == '#');
    }
}

/// The digits of a hexadecimal number are worth what they stand for, small letters as much as
/// capital ones.
pub proof fn lemma_hex_value(c: char)
    ensures
        is_hex_digit(c) <==> {
            ||| '0' <= c <= '9'
            ||| 'a' <= c <= 'f'
            ||| 'A' <= c <= 'F'
        },
        '0' <= c <= '9' ==> hex_value(c) == c as int - '0' as int,
        'a' <= c <= 'f' ==> hex_value(c) == 10 + (c as int - 'a' as int),
        'A' <= c <= 'F' ==> hex_value(c) == 10 + (c as int - 'A' as int),
{
}

/// Two digits give each component of a color. One digit stands for two of its kind, and a color
/// whose alpha is left out is opaque. Digits of any other number, and anything else, give no color.
pub proof fn lemma_hex_color(text: Seq<char>)
    requires
        text.len() > 0 ==> text[0] != '#',
    ensures
        hex_color(text) is Some <==> {
            &&& text.len() == 3 || text.len() == 4 || text.len() == 6 || text.len() == 8
            &&& forall|i: int| 0 <= i < text.len() ==> is_hex_digit(#[trigger] text[i])
        },
        hex_color(seq!['#'] + text) == hex_color(text),
        text.len() == 8 ==> (hex_color(text) matches Some((r, g, b, a)) ==> {
            &&& r == 16 * hex_value(text[0]) + hex_value(text[1])
            &&& g == 16 * hex_value(text[2]) + hex_value(text[3])
            &&& b == 16 * hex_value(text[4]) + hex_value(text[5])
            &&& a == 16 * hex_value(text[6]) + hex_value(text[7])
        }),
        text.len() == 6 ==> hex_color(text) == hex_color(text + seq!['f', 'f']),
        text.len() == 4 ==> hex_color(text) == hex_color(
            seq![text[0], text[0], text[1], text[1], text[2], text[2], text[3], text[3]],
        ),
        text.len() == 3 ==> hex_color(text) == hex_color(
            seq![text[0], text[0], text[1], text[1], text[2], text[2]],
        ),
        hex_error(text) == if forall|i: int|
            0 <= i < text.len() ==> is_hex_digit(#[trigger] text[i]) {
            "color string has wrong length"@
        } else {
            "color string contains non-hexadecimal letters"@
        },
{
    assert((seq!['#'] + text).skip(1) =~= text);
    if text.len() == 6 {
        let full = text + seq!['f', 'f'];
        assert(forall|i: int| 0 <= i < 6 ==> #[trigger] full[i] == text[i]);
        assert(full[6] == 'f' && full[7] == 'f');
        if forall|i: int| 0 <= i < full.len() ==> is_hex_digit(#[trigger] full[i]) {
            assert forall|i: int| 0 <= i < text.len() implies is_hex_digit(#[trigger] text[i]) by {
                assert(full[i] == text[i]);
            }
        }
    }
    if text.len() == 4 {
        let full = seq![text[0], text[0], text[1], text[1], text[2], text[2], text[3], text[3]];
        assert(forall|i: int| 0 <= i < 4 ==> full[2 * i] == #[trigger] text[i]);
        if forall|i: int| 0 <= i < full.len() ==> is_hex_digit(#[trigger] full[i]) {
            assert(is_hex_digit(full[0]) && is_hex_digit(full[2]) && is_hex_digit(full[4])
                && is_hex_digit(full[6]));
        }
    }
    if text.len() == 3 {
        let full = seq![text[0], text[0], text[1], text[1], text[2], text[2]];
        if forall|i: int| 0 <= i < full.len() ==> is_hex_digit(#[trigger] full[i]) {
            assert(is_hex_digit(full[0]) && is_hex_digit(full[2]) && is_hex_digit(full[4]));
        }
    }
}

/// The message of an error on colors tells the text that is no color, or only that it could not be
/// read.
pub proof fn lemma_color_messages(text: Seq<char>)
    ensures
        ColorErrorView::Unparsable(text).message() == "failed to parse color"@,
        ColorErrorView::Invalid(text).message() == "invalid color: "@ + text,
{
}

/// An error on colors says what it holds.
pub proof fn lemma_color_views(err: ColorError)
    ensures
        err@ == match err {
            ColorError::Unparsable(reason) => ColorErrorView::Unparsable(reason@),
            ColorError::Invalid(fill) => ColorErrorView::Invalid(fill@),
        },
{
}

} // verus!
