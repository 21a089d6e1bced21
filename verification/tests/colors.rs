use tinymist::color::{parse_color, Color, ColorError};
use typst::visualize::Color as Paint;

/// The color as the renderer takes it.
fn paint(color: Color) -> Paint {
    match color {
        Color::Black => Paint::BLACK,
        Color::White => Paint::WHITE,
        Color::Red => Paint::RED,
        Color::Green => Paint::GREEN,
        Color::Blue => Paint::BLUE,
        Color::Rgba(r, g, b, a) => Paint::from_u8(r, g, b, a),
    }
}

#[test]
fn test_parse_color() {
    assert_eq!(paint(parse_color("black".to_owned()).unwrap()), Paint::BLACK);
    assert_eq!(paint(parse_color("white".to_owned()).unwrap()), Paint::WHITE);
    assert_eq!(paint(parse_color("red".to_owned()).unwrap()), Paint::RED);
    assert_eq!(paint(parse_color("green".to_owned()).unwrap()), Paint::GREEN);
    assert_eq!(paint(parse_color("blue".to_owned()).unwrap()), Paint::BLUE);
    assert_eq!(
        paint(parse_color("#000000".to_owned()).unwrap()).to_hex(),
        "#000000"
    );
    assert_eq!(
        paint(parse_color("#ffffff".to_owned()).unwrap()).to_hex(),
        "#ffffff"
    );
    assert_eq!(
        paint(parse_color("#000000cc".to_owned()).unwrap()).to_hex(),
        "#000000cc"
    );
    assert!(parse_color("invalid".to_owned()).is_err());
}

#[test]
fn hexadecimal_colors() {
    let cases = [
        ("#102030", Color::Rgba(0x10, 0x20, 0x30, 255)),
        ("#AbCdEf80", Color::Rgba(0xab, 0xcd, 0xef, 0x80)),
        ("#1a9", Color::Rgba(0x11, 0xaa, 0x99, 255)),
        ("#1a9c", Color::Rgba(0x11, 0xaa, 0x99, 0xcc)),
        ("##ffffff", Color::Rgba(255, 255, 255, 255)),
    ];
    for (text, color) in cases {
        assert_eq!(parse_color(text.to_owned()), Ok(color));
    }
}

#[test]
fn every_component_survives() {
    for value in 0..=255u8 {
        let text = format!("#{value:02x}{value:02X}00{value:02x}");
        assert_eq!(parse_color(text), Ok(Color::Rgba(value, value, 0, value)));
    }
}

#[test]
fn texts_that_are_no_colors() {
    let unparsable = |reason: &str| Err(ColorError::Unparsable(reason.to_owned()));
    let wrong_length = "color string has wrong length";
    let not_hex = "color string contains non-hexadecimal letters";
    assert_eq!(parse_color("#".to_owned()), unparsable(wrong_length));
    assert_eq!(parse_color("#12345".to_owned()), unparsable(wrong_length));
    assert_eq!(parse_color("#ggg".to_owned()), unparsable(not_hex));
    assert_eq!(parse_color("###fff".to_owned()), unparsable(not_hex));
    assert_eq!(parse_color("#\u{fc}ab".to_owned()), unparsable(not_hex));
    assert_eq!(
        parse_color("Black".to_owned()),
        Err(ColorError::Invalid("Black".to_owned()))
    );
    assert_eq!(parse_color(String::new()), Err(ColorError::Invalid(String::new())));
}

#[test]
fn color_error_messages() {
    assert_eq!(
        parse_color("pink".to_owned()).unwrap_err().message(),
        "invalid color: pink"
    );
    assert_eq!(
        parse_color("#x".to_owned()).unwrap_err().message(),
        "failed to parse color"
    );
}
