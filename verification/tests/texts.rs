use tinymist::number::is_float;
use tinymist::text::{
    characters, decimal, is_white_space, parse_usize, same, split, starts_with, trim,
};

#[test]
fn fields_between_separators() {
    assert_eq!(split("", ','), vec![""]);
    assert_eq!(split("a", ','), vec!["a"]);
    assert_eq!(split("a,b,,c,", ','), vec!["a", "b", "", "c", ""]);
    let text = "outline-sync,1 2 3,x";
    let expected: Vec<String> = text.split(',').map(str::to_owned).collect();
    assert_eq!(split(text, ','), expected);
}

#[test]
fn white_space_is_that_of_unicode() {
    for code in 0..=0x10ffffu32 {
        if let Some(c) = char::from_u32(code) {
            assert_eq!(is_white_space(c), c.is_whitespace(), "{code:x}");
        }
    }
}

#[test]
fn trimming() {
    for text in ["", " ", "a", " a ", "\t\u{a0}a b\r\n", "\u{3000}x\u{85}", "\u{200b}y"] {
        assert_eq!(trim(text), text.trim());
    }
}

#[test]
fn numbers_in_decimal_notation() {
    for n in [0, 1, 9, 10, 99, 100, 12345, usize::MAX] {
        assert_eq!(decimal(n), n.to_string());
        assert_eq!(parse_usize(&decimal(n)), Some(n));
    }
}

#[test]
fn numbers_are_read_as_the_standard_library_reads_them() {
    let texts = [
        "", "+", "-", "-1", "0", "007", "+7", "++7", "1_000", " 1", "1 ", "1.0", "12a",
        "18446744073709551615", "18446744073709551616", "4294967295", "4294967296",
        "99999999999999999999999", "000000000000000000000000001", "\u{661}",
    ];
    for text in texts {
        assert_eq!(parse_usize(text), text.parse::<usize>().ok(), "{text}");
    }
}

#[test]
fn prefixes() {
    assert!(starts_with("bench_a", "bench"));
    assert!(starts_with("bench", "bench"));
    assert!(starts_with("x", ""));
    assert!(!starts_with("benc", "bench"));
    assert!(!starts_with("abench", "bench"));
}

#[test]
fn equality() {
    assert!(same("ä", "ä"));
    assert!(!same("a", "ab"));
}

#[test]
fn characters_of_a_text() {
    assert_eq!(characters("aä\u{1f600}"), vec!['a', 'ä', '\u{1f600}']);
}

#[test]
fn floats_are_written_as_the_standard_library_reads_them() {
    let texts = [
        "", ".", "+", "-", "e", "1", "+1", "-1", "++1", "1.", ".1", "1.5", "1.5.5", "-.5", "1..5",
        "1e5", "1E5", "1e+5", "1e-5", "1e", "1e+", "1e5.0", "e5", ".e5", "1.e5", ".5e5", "1e5e5",
        "inf", "INF", "+inf", "-Infinity", "infinit", "infinityy", "nan", "NaN", "-nan", "nane1",
        " 1", "1 ", "1,5", "0x10", "1f", "1_0", "\u{661}",
        "10000000000000000000000000000000000000000",
    ];
    for text in texts {
        assert_eq!(is_float(text), text.parse::<f32>().is_ok(), "{text}");
    }
    for number in [0.0f32, -0.0, 1.5, 1e-30, f32::MAX, f32::INFINITY, f32::NAN] {
        assert!(is_float(&number.to_string()));
    }
}
