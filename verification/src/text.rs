//! Text as sequences of characters: prefixes, fields, trimming and decimal numbers.

use vstd::prelude::*;
use vstd::string::*;

verus! {

/// `String::push` appends one character at the end.
pub assume_specification[ String::push ](text: &mut String, c: char)
    ensures
        final(text)@ == old(text)@.push(c),
;

/// The characters of each string of a list.
pub open spec fn texts(list: Seq<String>) -> Seq<Seq<char>> {
    list.map_values(|text: String| text@)
}

/// The fields of a text, one more than it has separators.
pub open spec fn split_spec(text: Seq<char>, separator: char) -> Seq<Seq<char>>
    decreases text.len(),
{
    if text.len() == 0 {
        seq![Seq::empty()]
    } else {
        let fields = split_spec(text.drop_last(), separator);
        if text.last() == separator {
            fields.push(Seq::empty())
        } else {
            fields.drop_last().push(fields.last().push(text.last()))
        }
    }
}

/// The parts one after the other, with a separator between neighbours.
pub open spec fn join_spec(parts: Seq<Seq<char>>, separator: char) -> Seq<char>
    decreases parts.len(),
{
    if parts.len() == 0 {
        Seq::empty()
    } else if parts.len() == 1 {
        parts[0]
    } else {
        join_spec(parts.drop_last(), separator).push(separator) + parts.last()
    }
}

/// The characters with the Unicode property White_Space.
pub open spec fn is_white_space_spec(c: char) -> bool {
    ||| '\u{9}' <= c <= '\u{d}'
    ||| c == ' '
    ||| c == '\u{85}'
    ||| c == '\u{a0}'
    ||| c == '\u{1680}'
    ||| '\u{2000}' <= c <= '\u{200a}'
    ||| c == '\u{2028}'
    ||| c == '\u{2029}'
    ||| c == '\u{202f}'
    ||| c == '\u{205f}'
    ||| c == '\u{3000}'
}

/// A text without its leading white space.
pub open spec fn trim_start_spec(text: Seq<char>) -> Seq<char>
    decreases text.len(),
{
    if text.len() > 0 && is_white_space_spec(text[0]) {
        trim_start_spec(text.skip(1))
    } else {
        text
    }
}

/// A text without its trailing white space.
pub open spec fn trim_end_spec(text: Seq<char>) -> Seq<char>
    decreases text.len(),
{
    if text.len() > 0 && is_white_space_spec(text.last()) {
        trim_end_spec(text.drop_last())
    } else {
        text
    }
}

/// A text without its leading and trailing white space.
pub open spec fn trim_spec(text: Seq<char>) -> Seq<char> {
    trim_end_spec(trim_start_spec(text))
}

/// The digit of a number below ten.
pub open spec fn digit(n: nat) -> char {
    (48 + n) as char
}

/// A number in decimal notation, without leading zeros.
pub open spec fn decimal_spec(n: nat) -> Seq<char>
    decreases n,
{
    if n < 10 {
        seq![digit(n)]
    } else {
        decimal_spec(n / 10).push(digit(n % 10))
    }
}

pub open spec fn is_digit_spec(c: char) -> bool {
    '0' <= c <= '9'
}

/// A nonempty run of decimal digits.
pub open spec fn is_number(text: Seq<char>) -> bool {
    &&& text.len() > 0
    &&& forall|i: int| 0 <= i < text.len() ==> is_digit_spec(#[trigger] text[i])
}

/// The number that a run of decimal digits stands for.
pub open spec fn number_value(text: Seq<char>) -> nat
    decreases text.len(),
{
    if text.len() == 0 {
        0
    } else {
        10 * number_value(text.drop_last()) + (text.last() as int - 48) as nat
    }
}

/// A text without one leading plus sign.
pub open spec fn unsigned(text: Seq<char>) -> Seq<char> {
    if text.len() > 0 && text[0] == '+' {
        text.skip(1)
    } else {
        text
    }
}

/// The number in a text: digits, after at most one plus sign, whose value fits.
pub open spec fn parse_usize_spec(text: Seq<char>) -> Option<usize> {
    let digits = unsigned(text);
    if is_number(digits) && number_value(digits) <= usize::MAX {
        Some(number_value(digits) as usize)
    } else {
        None
    }
}

/// The characters of a text, for access by index.
pub fn characters(text: &str) -> (list: Vec<char>)
    ensures
        list@ == text@,
{
    let mut list: Vec<char> = Vec::new();
    for c in it: text.chars()
        invariant
            list@ == it.seq().take(it.index()),
            it.seq() == text@,
    {
        list.push(c);
    }
    list
}

/// Whether two texts hold the same characters.
pub fn same(left: &str, right: &str) -> (yes: bool)
    ensures
        yes == (left@ == right@),
{
    left.to_owned() == right.to_owned()
}

/// Whether a text begins with the characters of another.
pub fn starts_with(text: &str, prefix: &str) -> (yes: bool)
    ensures
        yes == prefix@.is_prefix_of(text@),
{
    let text_chars = characters(text);
    let prefix_chars = characters(prefix);
    if prefix_chars.len() > text_chars.len() {
        return false;
    }
    let mut i: usize = 0;
    while i < prefix_chars.len()
        invariant
            i <= prefix_chars.len() <= text_chars.len(),
            text_chars@ == text@,
            prefix_chars@ == prefix@,
            forall|k: int| 0 <= k < i ==> text@[k] == prefix@[k],
        decreases prefix_chars.len() - i,
    {
        if text_chars[i] != prefix_chars[i] {
            assert(text@.subrange(0, prefix@.len() as int)[i as int] != prefix@[i as int]);
            return false;
        }
        i += 1;
    }
    assert(prefix@ == text@.subrange(0, prefix@.len() as int));
    true
}

/// Splits a text at each separator.
pub fn split(text: &str, separator: char) -> (fields: Vec<String>)
    ensures
        texts(fields@) == split_spec(text@, separator),
        fields@.len() > 0,
{
    let list = characters(text);
    let mut fields: Vec<String> = Vec::new();
    let mut field = String::new();
    let mut i: usize = 0;
    assert(texts(fields@).push(field@) =~= split_spec(list@.take(0), separator));
    while i < list.len()
        invariant
            i <= list.len(),
            list@ == text@,
            texts(fields@).push(field@) == split_spec(list@.take(i as int), separator),
        decreases list.len() - i,
    {
        let c = list[i];
        let ghost done = texts(fields@).push(field@);
        assert(list@.take(i + 1).drop_last() =~= list@.take(i as int));
        if c == separator {
            fields.push(field);
            field = String::new();
            assert(texts(fields@).push(field@) =~= done.push(Seq::empty()));
        } else {
            field.push(c);
            assert(texts(fields@).push(field@) =~= done.drop_last().push(done.last().push(c)));
        }
        i += 1;
    }
    assert(list@.take(i as int) =~= text@);
    let ghost done = texts(fields@).push(field@);
    fields.push(field);
    assert(texts(fields@) =~= done);
    fields
}

/// Whether a character has the Unicode property White_Space.
pub fn is_white_space(c: char) -> (yes: bool)
    ensures
        yes == is_white_space_spec(c),
{
    ('\u{9}' <= c && c <= '\u{d}') || c == ' ' || c == '\u{85}' || c == '\u{a0}' || c == '\u{1680}'
        || ('\u{2000}' <= c && c <= '\u{200a}') || c == '\u{2028}' || c == '\u{2029}'
        || c == '\u{202f}' || c == '\u{205f}' || c == '\u{3000}'
}

/// Removes white space at both ends of a text.
pub fn trim(text: &str) -> (trimmed: String)
    ensures
        trimmed@ == trim_spec(text@),
{
    let list = characters(text);
    let mut start: usize = 0;
    assert(list@.skip(0) =~= list@);
    while start < list.len() && is_white_space(list[start])
        invariant
            start <= list.len(),
            trim_start_spec(list@) == trim_start_spec(list@.skip(start as int)),
        decreases list.len() - start,
    {
        assert(list@.skip(start as int).skip(1) =~= list@.skip(start + 1));
        start += 1;
    }
    let mut end: usize = list.len();
    assert(list@.subrange(start as int, end as int) =~= list@.skip(start as int));
    while end > start && is_white_space(list[end - 1])
        invariant
            start <= end <= list.len(),
            trim_end_spec(list@.skip(start as int)) == trim_end_spec(
                list@.subrange(start as int, end as int),
            ),
        decreases end,
    {
        assert(list@.subrange(start as int, end as int).drop_last() =~= list@.subrange(
            start as int,
            end - 1,
        ));
        end -= 1;
    }
    let mut trimmed = String::new();
    let mut i: usize = start;
    while i < end
        invariant
            start <= i <= end <= list.len(),
            trimmed@ == list@.subrange(start as int, i as int),
        decreases end - i,
    {
        trimmed.push(list[i]);
        i += 1;
    }
    trimmed
}

/// Writes a number in decimal notation.
pub fn decimal(n: usize) -> (text: String)
    ensures
        text@ == decimal_spec(n as nat),
    decreases n,
{
    let last: u8 = (n % 10) as u8;
    let mut text = if n < 10 {
        String::new()
    } else {
        decimal(n / 10)
    };
    text.push((48 + last) as char);
    text
}

/// Whether a character is a decimal digit.
pub fn is_digit(c: char) -> (yes: bool)
    ensures
        yes == is_digit_spec(c),
{
    '0' <= c && c <= '9'
}

/// Reads a number: digits, after at most one plus sign, whose value fits.
pub fn parse_usize(text: &str) -> (number: Option<usize>)
    ensures
        number == parse_usize_spec(text@),
{
    let list = characters(text);
    let ghost digits = unsigned(text@);
    let start: usize = if list.len() > 0 && list[0] == '+' {
        1
    } else {
        0
    };
    assert(digits =~= list@.skip(start as int));
    if start == list.len() {
        return None;
    }
    let mut value: usize = 0;
    let mut i: usize = start;
    while i < list.len()
        invariant
            start <= i <= list.len(),
            digits == list@.skip(start as int),
            digits == unsigned(text@),
            forall|k: int| 0 <= k < i - start ==> is_digit_spec(#[trigger] digits[k]),
            value == number_value(digits.take(i - start)),
        decreases list.len() - i,
    {
        let c = list[i];
        assert(c == digits[i - start]);
        if !is_digit(c) {
            return None;
        }
        let last: usize = (c as u32 - 48) as usize;
        assert(digits.take(i - start + 1).drop_last() =~= digits.take(i - start));
        assert(number_value(digits.take(i - start + 1)) == 10 * value + last);
        if value > (usize::MAX - last) / 10 {
            proof {
                lemma_number_value_grows(digits, i - start + 1);
            }
            return None;
        }
        value = value * 10 + last;
        i += 1;
    }
    assert(digits.take(i - start) =~= digits);
    Some(value)
}

/// A run of digits stands for no less than its beginning does.
proof fn lemma_number_value_grows(text: Seq<char>, n: int)
    requires
        0 <= n <= text.len(),
    ensures
        number_value(text.take(n)) <= number_value(text),
    decreases text.len(),
{
    if n < text.len() {
        lemma_number_value_grows(text.drop_last(), n);
        assert(text.drop_last().take(n) =~= text.take(n));
    } else {
        assert(text.take(n) =~= text);
    }
}

/// Reading back a number that was written in decimal notation gives the number.
pub proof fn lemma_parse_decimal(n: usize)
    ensures
        parse_usize_spec(decimal_spec(n as nat)) == Some(n),
{
    lemma_decimal(n as nat);
}

/// Decimal notation is a run of digits with the value that it was made from.
pub proof fn lemma_decimal(n: nat)
    ensures
        is_number(decimal_spec(n)),
        number_value(decimal_spec(n)) == n,
    decreases n,
{
    if n < 10 {
        reveal_with_fuel(number_value, 2);
        assert(decimal_spec(n).drop_last() =~= Seq::empty());
    } else {
        lemma_decimal(n / 10);
        assert(decimal_spec(n).drop_last() =~= decimal_spec(n / 10));
    }
}

/// A text without separators is one field.
pub proof fn lemma_split_single(text: Seq<char>, separator: char)
    requires
        !text.contains(separator),
    ensures
        split_spec(text, separator) == seq![text],
    decreases text.len(),
{
    if text.len() > 0 {
        assert(text.contains(text.last()));
        assert forall|c: char| text.drop_last().contains(c) implies text.contains(c) by {
            let i = choose|i: int| 0 <= i < text.drop_last().len() && text.drop_last()[i] == c;
            assert(text[i] == c);
        }
        lemma_split_single(text.drop_last(), separator);
        assert(text.drop_last().push(text.last()) =~= text);
        assert(split_spec(text, separator) =~= seq![text]);
    } else {
        assert(text =~= Seq::empty());
    }
}

/// A field without separators that follows a separator is the last field.
pub proof fn lemma_split_last(text: Seq<char>, separator: char, field: Seq<char>)
    requires
        !field.contains(separator),
    ensures
        split_spec(text.push(separator) + field, separator) == split_spec(text, separator).push(
            field,
        ),
    decreases field.len(),
{
    let whole = text.push(separator) + field;
    if field.len() == 0 {
        assert(field =~= Seq::empty());
        assert(whole =~= text.push(separator));
        assert(whole.drop_last() =~= text);
    } else {
        let shorter = field.drop_last();
        assert(field.contains(field.last()));
        assert forall|c: char| shorter.contains(c) implies field.contains(c) by {
            let i = choose|i: int| 0 <= i < shorter.len() && shorter[i] == c;
            assert(field[i] == c);
        }
        lemma_split_last(text, separator, shorter);
        assert(whole.drop_last() =~= text.push(separator) + shorter);
        assert(whole.last() == field.last());
        let fields = split_spec(text, separator).push(shorter);
        assert(fields.drop_last() =~= split_spec(text, separator));
        assert(shorter.push(field.last()) =~= field);
    }
}

/// Splitting what was joined gives the parts back, where no part holds the separator.
pub proof fn lemma_split_join(parts: Seq<Seq<char>>, separator: char)
    requires
        parts.len() > 0,
        forall|i: int| 0 <= i < parts.len() ==> !(#[trigger] parts[i]).contains(separator),
    ensures
        split_spec(join_spec(parts, separator), separator) == parts,
    decreases parts.len(),
{
    if parts.len() == 1 {
        lemma_split_single(parts[0], separator);
        assert(parts =~= seq![parts[0]]);
    } else {
        let shorter = parts.drop_last();
        lemma_split_join(shorter, separator);
        lemma_split_last(join_spec(shorter, separator), separator, parts.last());
        assert(shorter.push(parts.last()) =~= parts);
    }
}

/// The first field of a text is what stands before the first separator, and the other fields are
/// those of what stands after it.
pub proof fn lemma_split_first(first: Seq<char>, separator: char, rest: Seq<char>)
    requires
        !first.contains(separator),
    ensures
        split_spec(first.push(separator) + rest, separator) == seq![first] + split_spec(
            rest,
            separator,
        ),
    decreases rest.len(),
{
    let whole = first.push(separator) + rest;
    if rest.len() == 0 {
        lemma_split_single(first, separator);
        assert(whole.drop_last() =~= first);
        assert(split_spec(whole, separator) =~= seq![first] + split_spec(rest, separator));
    } else {
        let shorter = rest.drop_last();
        lemma_split_first(first, separator, shorter);
        lemma_split_some(shorter, separator);
        assert(whole.drop_last() =~= first.push(separator) + shorter);
        let fields = seq![first] + split_spec(shorter, separator);
        assert(fields.drop_last() =~= seq![first] + split_spec(shorter, separator).drop_last());
        assert(split_spec(whole, separator) =~= seq![first] + split_spec(rest, separator));
    }
}

/// Every text has a field.
proof fn lemma_split_some(text: Seq<char>, separator: char)
    ensures
        split_spec(text, separator).len() > 0,
    decreases text.len(),
{
    if text.len() > 0 {
        lemma_split_some(text.drop_last(), separator);
    }
}

/// Parts that are joined stand one after the other, with one separator between two of them and none
/// at the ends.
pub proof fn lemma_join(first: Seq<char>, rest: Seq<Seq<char>>, separator: char)
    ensures
        join_spec(Seq::empty(), separator) == Seq::<char>::empty(),
        join_spec(seq![first], separator) == first,
        rest.len() > 0 ==> join_spec(seq![first] + rest, separator) == first + seq![separator]
            + join_spec(rest, separator),
    decreases rest.len(),
{
    let parts = seq![first] + rest;
    if rest.len() == 1 {
        assert(parts.drop_last() =~= seq![first]);
        assert(join_spec(seq![first], separator) == first);
        assert(join_spec(parts, separator) =~= first + seq![separator] + rest[0]);
    } else if rest.len() > 1 {
        lemma_join(first, rest.drop_last(), separator);
        assert(parts.drop_last() =~= seq![first] + rest.drop_last());
        assert(join_spec(parts, separator) =~= first + seq![separator] + join_spec(
            rest,
            separator,
        ));
    }
}

/// White space is the tab and the four line ends after it, the space, the next line, the no-break
/// space, and the spaces and separators of other scripts.
pub proof fn lemma_white_space(c: char)
    ensures
        is_white_space_spec(c) <==> {
            let code = c as int;
            ||| 0x9 <= code <= 0xd
            ||| code == 0x20
            ||| code == 0x85
            ||| code == 0xa0
            ||| code == 0x1680
            ||| 0x2000 <= code <= 0x200a
            ||| code == 0x2028
            ||| code == 0x2029
            ||| code == 0x202f
            ||| code == 0x205f
            ||| code == 0x3000
        },
{
}

/// Trimming takes away white space at both ends and nothing else, until there is none at either
/// end.
pub proof fn lemma_trim(text: Seq<char>) -> (range: (int, int))
    ensures
        0 <= range.0 <= range.1 <= text.len(),
        trim_spec(text) == text.subrange(range.0, range.1),
        forall|i: int| 0 <= i < range.0 ==> is_white_space_spec(#[trigger] text[i]),
        forall|i: int| range.1 <= i < text.len() ==> is_white_space_spec(#[trigger] text[i]),
        range.0 < range.1 ==> !is_white_space_spec(text[range.0]),
        range.0 < range.1 ==> !is_white_space_spec(text[range.1 - 1]),
{
    let start = lemma_trim_start(text);
    let rest = text.skip(start);
    let kept = lemma_trim_end(rest);
    assert(rest.take(kept) =~= text.subrange(start, start + kept));
    assert forall|i: int| start + kept <= i < text.len() implies is_white_space_spec(
        #[trigger] text[i],
    ) by {
        assert(text[i] == rest[i - start]);
    }
    (start, start + kept)
}

proof fn lemma_trim_start(text: Seq<char>) -> (start: int)
    ensures
        0 <= start <= text.len(),
        trim_start_spec(text) == text.skip(start),
        forall|i: int| 0 <= i < start ==> is_white_space_spec(#[trigger] text[i]),
        start < text.len() ==> !is_white_space_spec(text[start]),
    decreases text.len(),
{
    if text.len() > 0 && is_white_space_spec(text[0]) {
        let inner = text.skip(1);
        let start = lemma_trim_start(inner);
        assert(inner.skip(start) =~= text.skip(start + 1));
        assert forall|i: int| 0 <= i < start + 1 implies is_white_space_spec(
            #[trigger] text[i],
        ) by {
            if i > 0 {
                assert(text[i] == inner[i - 1]);
            }
        }
        start + 1
    } else {
        assert(text.skip(0) =~= text);
        0
    }
}

proof fn lemma_trim_end(text: Seq<char>) -> (kept: int)
    ensures
        0 <= kept <= text.len(),
        trim_end_spec(text) == text.take(kept),
        forall|i: int| kept <= i < text.len() ==> is_white_space_spec(#[trigger] text[i]),
        kept > 0 ==> !is_white_space_spec(text[kept - 1]),
    decreases text.len(),
{
    if text.len() > 0 && is_white_space_spec(text.last()) {
        let inner = text.drop_last();
        let kept = lemma_trim_end(inner);
        assert(inner.take(kept) =~= text.take(kept));
        assert forall|i: int| kept <= i < text.len() implies is_white_space_spec(
            #[trigger] text[i],
        ) by {
            if i < inner.len() {
                assert(text[i] == inner[i]);
            }
        }
        kept
    } else {
        assert(text.take(text.len() as int) =~= text);
        text.len() as int
    }
}

/// Decimal notation ends with the digit of the ones, before which stands the number of the tens,
/// without zeros at the front.
pub proof fn lemma_decimal_digits(n: nat)
    ensures
        n < 10 ==> decimal_spec(n) == seq![('0' as int + n) as char],
        n >= 10 ==> decimal_spec(n) == decimal_spec(n / 10).push(('0' as int + n % 10) as char),
        n > 0 ==> decimal_spec(n)[0] != '0',
    decreases n,
{
    if n >= 10 {
        lemma_decimal_digits(n / 10);
        assert(decimal_spec(n)[0] == decimal_spec(n / 10)[0]) by {
            lemma_decimal(n / 10);
        }
    }
}

/// A digit after others stands for itself and makes the others stand for ten times as much.
pub proof fn lemma_number_value(digits: Seq<char>, last: char)
    requires
        '0' <= last <= '9',
    ensures
        number_value(Seq::empty()) == 0,
        number_value(digits.push(last)) == 10 * number_value(digits) + (last as int - '0' as int),
{
    assert(digits.push(last).drop_last() =~= digits);
}

/// A number is read from digits whose value fits, after at most one plus sign, and from nothing
/// else.
pub proof fn lemma_parse_usize(text: Seq<char>, digits: Seq<char>)
    requires
        text == seq!['+'] + digits || (text == digits && (digits.len() > 0 ==> digits[0] != '+')),
    ensures
        parse_usize_spec(text) is Some <==> {
            &&& digits.len() > 0
            &&& forall|i: int| 0 <= i < digits.len() ==> '0' <= #[trigger] digits[i] <= '9'
            &&& number_value(digits) <= usize::MAX
        },
        parse_usize_spec(text) matches Some(number) ==> number == number_value(digits),
{
    if text == seq!['+'] + digits {
        assert(text.skip(1) =~= digits);
    }
    assert(unsigned(text) == digits);
}

} // verus!
