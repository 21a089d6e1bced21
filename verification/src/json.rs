//! The notation of strings in JSON.

use vstd::prelude::*;

use crate::color::{hex_value, is_hex_digit};

verus! {

/// A digit of a hexadecimal number, in small letters.
pub open spec fn hex_digit(value: int) -> char {
    if value < 10 {
        ('0' as int + value) as char
    } else {
        ('a' as int + value - 10) as char
    }
}

/// How a character is written in a string.
pub open spec fn escape_spec(c: char) -> Seq<char> {
    if c == '"' || c == '\\' {
        seq!['\\', c]
    } else if c == '\u{8}' {
        seq!['\\', 'b']
    } else if c == '\t' {
        seq!['\\', 't']
    } else if c == '\n' {
        seq!['\\', 'n']
    } else if c == '\u{c}' {
        seq!['\\', 'f']
    } else if c == '\r' {
        seq!['\\', 'r']
    } else if (c as int) < 32 {
        seq!['\\', 'u', '0', '0', hex_digit(c as int / 16), hex_digit(c as int % 16)]
    } else {
        seq![c]
    }
}

/// How the characters of a text are written in a string.
pub open spec fn escaped(text: Seq<char>) -> Seq<char>
    decreases text.len(),
{
    if text.len() == 0 {
        Seq::empty()
    } else {
        escape_spec(text[0]) + escaped(text.skip(1))
    }
}

/// A text as a string in JSON.
pub open spec fn quoted(text: Seq<char>) -> Seq<char> {
    seq!['"'] + escaped(text) + seq!['"']
}

/// The character that a letter after a backslash stands for.
pub open spec fn letter_meaning(letter: char) -> Option<char> {
    if letter == '"' || letter == '\\' || letter == '/' {
        Some(letter)
    } else if letter == 'b' {
        Some('\u{8}')
    } else if letter == 't' {
        Some('\t')
    } else if letter == 'n' {
        Some('\n')
    } else if letter == 'f' {
        Some('\u{c}')
    } else if letter == 'r' {
        Some('\r')
    } else {
        None
    }
}

/// The number of four hexadecimal digits from an index on.
pub open spec fn code_at(text: Seq<char>, i: int) -> int {
    hex_value(text[i]) * 4096 + hex_value(text[i + 1]) * 256 + hex_value(text[i + 2]) * 16
        + hex_value(text[i + 3])
}

/// The first character that is written in a string, and how many characters it takes. Halves of
/// surrogate pairs are no characters.
pub open spec fn read_char(text: Seq<char>) -> Option<(char, int)> {
    if text.len() == 0 || text[0] == '"' || (text[0] as int) < 32 {
        None
    } else if text[0] != '\\' {
        Some((text[0], 1))
    } else if text.len() >= 2 && letter_meaning(text[1]) is Some {
        Some((letter_meaning(text[1]).unwrap(), 2))
    } else if text.len() >= 6 && text[1] == 'u' && is_hex_digit(text[2]) && is_hex_digit(text[3])
        && is_hex_digit(text[4]) && is_hex_digit(text[5]) && !(0xd800 <= code_at(text, 2)
        <= 0xdfff) {
        Some((code_at(text, 2) as char, 6))
    } else {
        None
    }
}

/// The characters that are written in a string.
pub open spec fn read_chars(text: Seq<char>) -> Option<Seq<char>>
    decreases text.len(),
{
    if text.len() == 0 {
        Some(Seq::empty())
    } else {
        match read_char(text) {
            Some((c, n)) => match read_chars(text.skip(n)) {
                Some(rest) => Some(seq![c] + rest),
                None => None,
            },
            None => None,
        }
    }
}

/// The text that a string in JSON stands for.
pub open spec fn read_string(text: Seq<char>) -> Option<Seq<char>> {
    if text.len() >= 2 && text[0] == '"' && text.last() == '"' {
        read_chars(text.subrange(1, text.len() - 1))
    } else {
        None
    }
}

/// Every character is read as it was written, whatever follows it.
proof fn lemma_read_char(c: char, rest: Seq<char>)
    ensures
        read_char(escape_spec(c) + rest) == Some((c, escape_spec(c).len() as int)),
{
    let text = escape_spec(c) + rest;
    assert(forall|i: int| 0 <= i < escape_spec(c).len() ==> text[i] == escape_spec(c)[i]);
    if escape_spec(c).len() == 6 {
        assert(code_at(text, 2) == c as int);
    }
}

proof fn lemma_read_chars(text: Seq<char>)
    ensures
        read_chars(escaped(text)) == Some(text),
    decreases text.len(),
{
    if text.len() > 0 {
        let first = escape_spec(text[0]);
        let rest = escaped(text.skip(1));
        lemma_read_chars(text.skip(1));
        lemma_read_char(text[0], rest);
        assert((first + rest).skip(first.len() as int) =~= rest);
        assert(seq![text[0]] + text.skip(1) =~= text);
    }
}

/// A text comes back from the string in which it is written.
pub proof fn lemma_json_string(text: Seq<char>)
    ensures
        read_string(quoted(text)) == Some(text),
{
    let string = quoted(text);
    lemma_read_chars(text);
    assert(string.subrange(1, string.len() - 1) =~= escaped(text));
}

} // verus!
