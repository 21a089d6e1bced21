//! The notation of floating-point numbers, and how they are displayed.

use vstd::prelude::*;

use crate::text::{characters, is_digit, is_digit_spec, is_number};

verus! {

pub open spec fn all_digits(text: Seq<char>) -> bool {
    forall|i: int| 0 <= i < text.len() ==> is_digit_spec(#[trigger] text[i])
}

/// Digits, with at most one point before, between or after them.
pub open spec fn is_mantissa(text: Seq<char>) -> bool {
    is_number(text) || exists|i: int| #[trigger] is_pointed(text, i)
}

/// Whether a text is digits but for a point at an index.
pub open spec fn is_pointed(text: Seq<char>, i: int) -> bool {
    &&& 0 <= i < text.len()
    &&& text.len() > 1
    &&& text[i] == '.'
    &&& all_digits(text.take(i))
    &&& all_digits(text.skip(i + 1))
}

pub open spec fn is_sign(c: char) -> bool {
    c == '+' || c == '-'
}

/// A text without one leading sign.
pub open spec fn without_sign(text: Seq<char>) -> Seq<char> {
    if text.len() > 0 && is_sign(text[0]) {
        text.skip(1)
    } else {
        text
    }
}

/// Whether a text is a mantissa before an index, an `e` at it, and a number with an optional sign
/// after it.
pub open spec fn is_scaled(text: Seq<char>, i: int) -> bool {
    &&& 0 <= i < text.len()
    &&& text[i] == 'e' || text[i] == 'E'
    &&& is_mantissa(text.take(i))
    &&& is_number(without_sign(text.skip(i + 1)))
}

/// The small letter of a capital letter between A and Z.
pub open spec fn small(c: char) -> char {
    if 'A' <= c <= 'Z' {
        (c as int + 32) as char
    } else {
        c
    }
}

/// A text in small letters.
pub open spec fn in_small_letters(text: Seq<char>) -> Seq<char> {
    text.map_values(|c: char| small(c))
}

/// Whether a text is a name of what is no finite number.
pub open spec fn is_special(text: Seq<char>) -> bool {
    let name = in_small_letters(text);
    name == "inf"@ || name == "infinity"@ || name == "nan"@
}

/// Whether a text is a floating-point number: after an optional sign, a mantissa, a mantissa with
/// an exponent, or the name of infinity or of what is no number.
pub open spec fn is_float_spec(text: Seq<char>) -> bool {
    let body = without_sign(text);
    is_special(body) || is_mantissa(body) || exists|i: int| #[trigger] is_scaled(body, i)
}

/// Whether the characters from one index to another are digits.
fn check_digits(list: &Vec<char>, from: usize, to: usize) -> (yes: bool)
    requires
        from <= to <= list.len(),
    ensures
        yes == all_digits(list@.subrange(from as int, to as int)),
{
    let ghost part = list@.subrange(from as int, to as int);
    let mut i: usize = from;
    while i < to
        invariant
            from <= i <= to <= list.len(),
            part == list@.subrange(from as int, to as int),
            forall|k: int| 0 <= k < i - from ==> is_digit_spec(#[trigger] part[k]),
        decreases to - i,
    {
        assert(part[i - from] == list@[i as int]);
        if !is_digit(list[i]) {
            return false;
        }
        i += 1;
    }
    true
}

/// The first index from one to another at which one of two characters stands, else the last.
fn find(list: &Vec<char>, from: usize, to: usize, first: char, second: char) -> (at: usize)
    requires
        from <= to <= list.len(),
    ensures
        from <= at <= to,
        at < to ==> list@[at as int] == first || list@[at as int] == second,
        forall|k: int| from <= k < at ==> #[trigger] list@[k] != first && list@[k] != second,
{
    let mut i: usize = from;
    while i < to
        invariant
            from <= i <= to <= list.len(),
            forall|k: int| from <= k < i ==> #[trigger] list@[k] != first && list@[k] != second,
        decreases to - i,
    {
        if list[i] == first || list[i] == second {
            return i;
        }
        i += 1;
    }
    to
}

/// Whether the characters from one index to another are a mantissa.
fn check_mantissa(list: &Vec<char>, from: usize, to: usize) -> (yes: bool)
    requires
        from <= to <= list.len(),
    ensures
        yes == is_mantissa(list@.subrange(from as int, to as int)),
{
    let ghost part = list@.subrange(from as int, to as int);
    let point = find(list, from, to, '.', '.');
    let ghost p = point - from;
    assert(forall|k: int| 0 <= k < part.len() ==> part[k] == #[trigger] list@[from + k]);
    if point == to {
        assert forall|i: int| !(#[trigger] is_pointed(part, i)) by {
            if 0 <= i < part.len() {
                assert(list@[from + i] != '.');
            }
        }
        check_digits(list, from, to) && from < to
    } else {
        assert(part[p] == '.');
        assert(!is_number(part)) by {
            assert(!is_digit_spec(part[p]));
        }
        assert(list@.subrange(from as int, point as int) =~= part.take(p));
        assert(list@.subrange(point + 1, to as int) =~= part.skip(p + 1));
        let yes = check_digits(list, from, point) && check_digits(list, point + 1, to) && to - from
            > 1;
        assert(yes == is_pointed(part, p));
        assert forall|i: int| #[trigger] is_pointed(part, i) implies i == p by {
            if i < p {
                assert(list@[from + i] != '.');
            } else if p < i {
                assert(part.take(i)[p] == '.');
            }
        }
        yes
    }
}

/// Whether the characters from one index to another are a mantissa, an `e`, and a number.
fn check_scaled(list: &Vec<char>, from: usize, to: usize) -> (yes: bool)
    requires
        from <= to <= list.len(),
    ensures
        yes == exists|i: int| #[trigger] is_scaled(list@.subrange(from as int, to as int), i),
{
    let ghost part = list@.subrange(from as int, to as int);
    let mark = find(list, from, to, 'e', 'E');
    let ghost m = mark - from;
    assert(forall|k: int| 0 <= k < part.len() ==> part[k] == #[trigger] list@[from + k]);
    assert forall|i: int| #[trigger] is_scaled(part, i) implies i == m by {
        if i < m {
            assert(list@[from + i] != 'e' && list@[from + i] != 'E');
        } else if m < i {
            assert(part.take(i)[m] == part[m]);
            lemma_mantissa(part.take(i), m);
        }
    }
    if mark == to {
        return false;
    }
    assert(part[m] == list@[mark as int]);
    let signed = mark + 1 < to && (list[mark + 1] == '+' || list[mark + 1] == '-');
    let start: usize = if signed {
        mark + 2
    } else {
        mark + 1
    };
    assert(list@.subrange(from as int, mark as int) =~= part.take(m));
    assert(list@.subrange(start as int, to as int) =~= without_sign(part.skip(m + 1)));
    let yes = check_mantissa(list, from, mark) && check_digits(list, start, to) && start < to;
    assert(yes == is_scaled(part, m));
    yes
}

/// A mantissa holds nothing but digits and a point.
proof fn lemma_mantissa(text: Seq<char>, k: int)
    requires
        is_mantissa(text),
        0 <= k < text.len(),
    ensures
        is_digit_spec(text[k]) || text[k] == '.',
{
    if !is_number(text) {
        let i = choose|i: int| #[trigger] is_pointed(text, i);
        if k < i {
            assert(text[k] == text.take(i)[k]);
        } else if i < k {
            assert(text[k] == text.skip(i + 1)[k - i - 1]);
        }
    }
}

/// Gives the small letter of a capital letter between A and Z.
fn to_small(c: char) -> (letter: char)
    ensures
        letter == small(c),
{
    if 'A' <= c && c <= 'Z' {
        (c as u8 + 32) as char
    } else {
        c
    }
}

/// Whether the characters from an index on are a name, in small or capital letters.
fn check_name(list: &Vec<char>, from: usize, name: &str) -> (yes: bool)
    requires
        from <= list.len(),
    ensures
        yes == (in_small_letters(list@.skip(from as int)) == name@),
{
    let letters = characters(name);
    let ghost part = in_small_letters(list@.skip(from as int));
    if list.len() - from != letters.len() {
        assert(part.len() != name@.len());
        return false;
    }
    let mut i: usize = 0;
    while i < letters.len()
        invariant
            i <= letters.len(),
            from + letters.len() == list.len(),
            letters@ == name@,
            part == in_small_letters(list@.skip(from as int)),
            forall|k: int| 0 <= k < i ==> #[trigger] part[k] == name@[k],
        decreases letters.len() - i,
    {
        assert(part[i as int] == small(list@[from + i]));
        if to_small(list[from + i]) != letters[i] {
            return false;
        }
        i += 1;
    }
    assert(part =~= name@);
    true
}

/// Whether a text is a floating-point number.
pub fn is_float(text: &str) -> (yes: bool)
    ensures
        yes == is_float_spec(text@),
{
    let list = characters(text);
    let start: usize = if list.len() > 0 && (list[0] == '+' || list[0] == '-') {
        1
    } else {
        0
    };
    let end: usize = list.len();
    assert(list@.skip(start as int) =~= without_sign(text@));
    assert(list@.subrange(start as int, end as int) =~= without_sign(text@));
    check_name(&list, start, "inf") || check_name(&list, start, "infinity") || check_name(
        &list,
        start,
        "nan",
    ) || check_mantissa(&list, start, end) || check_scaled(&list, start, end)
}

/// A floating-point number holds no space and no comma, so it is always one field of a list.
pub proof fn lemma_float_plain(text: Seq<char>)
    requires
        is_float_spec(text),
    ensures
        !text.contains(' '),
        !text.contains(','),
{
    let body = without_sign(text);
    assert forall|k: int| 0 <= k < body.len() implies body[k] != ' ' && body[k] != ',' by {
        if is_special(body) {
            lemma_special(body, k);
        } else if is_mantissa(body) {
            lemma_mantissa(body, k);
        } else {
            let i = choose|i: int| #[trigger] is_scaled(body, i);
            let exponent = body.skip(i + 1);
            if k < i {
                assert(body[k] == body.take(i)[k]);
                lemma_mantissa(body.take(i), k);
            } else if i < k {
                assert(body[k] == exponent[k - i - 1]);
                if is_sign(exponent[0]) && k > i + 1 {
                    assert(body[k] == without_sign(exponent)[k - i - 2]);
                }
            }
        }
    }
    assert forall|k: int| 0 <= k < text.len() implies text[k] != ' ' && text[k] != ',' by {
        if body.len() == text.len() {
            assert(body[k] == text[k]);
        } else if k > 0 {
            assert(body[k - 1] == text[k]);
        }
    }
}

proof fn lemma_special(text: Seq<char>, k: int)
    requires
        is_special(text),
        0 <= k < text.len(),
    ensures
        text[k] != ' ',
        text[k] != ',',
{
    let name = in_small_letters(text);
    reveal_strlit("inf");
    reveal_strlit("infinity");
    reveal_strlit("nan");
    assert(name[k] == small(text[k]));
    assert(name.len() == text.len());
    assert("inf"@.len() == 3 && "infinity"@.len() == 8 && "nan"@.len() == 3);
    assert(k == 0 || k == 1 || k == 2 || k == 3 || k == 4 || k == 5 || k == 6 || k == 7);
    assert('a' <= name[k] <= 'z');
}

/// The text in which the floating-point number of a text is displayed.
pub uninterp spec fn displayed_float(text: Seq<char>) -> Option<Seq<char>>;

/// Whether a text is that in which a floating-point number is displayed.
pub open spec fn is_displayed(text: Seq<char>) -> bool {
    is_float_spec(text) && displayed_float(text) == Some(text)
}

/// Calls `str::parse` for a coordinate of a `reflexo::debug_loc::DocumentPosition`, a
/// floating-point number of 32 bits, and displays the number.
///
/// The result is a function of the text. There is one exactly if the text is in the notation of
/// floating-point numbers. A number that is displayed can be read again, and is then displayed in
/// the same way.
#[verifier::external_body]
pub(crate) fn display_float(text: &str) -> (shown: Option<String>)
    ensures
        match shown {
            Some(shown) => displayed_float(text@) == Some(shown@),
            None => displayed_float(text@) is None,
        },
        shown is Some <==> is_float_spec(text@),
        shown matches Some(shown) ==> is_displayed(shown@),
{
    let position = reflexo::debug_loc::DocumentPosition {
        page_no: 0,
        x: text.parse().ok()?,
        y: Default::default(),
    };
    Some(position.x.to_string())
}

/// A sign before a text without one makes no difference to whether it is a floating-point number.
pub proof fn lemma_float_sign(body: Seq<char>)
    requires
        body.len() > 0 ==> body[0] != '+' && body[0] != '-',
    ensures
        is_float_spec(seq!['+'] + body) == is_float_spec(body),
        is_float_spec(seq!['-'] + body) == is_float_spec(body),
{
    assert((seq!['+'] + body).skip(1) =~= body);
    assert((seq!['-'] + body).skip(1) =~= body);
    assert(without_sign(body) == body);
}

/// Digits and points are a floating-point number exactly if there is a digit and at most one point,
/// which may stand anywhere.
pub proof fn lemma_float_digits(text: Seq<char>)
    requires
        forall|i: int| 0 <= i < text.len() ==> '0' <= #[trigger] text[i] <= '9' || text[i] == '.',
    ensures
        is_float_spec(text) <==> {
            &&& exists|i: int| 0 <= i < text.len() && '0' <= #[trigger] text[i] <= '9'
            &&& forall|i: int, j: int|
                0 <= i < j < text.len() ==> !(#[trigger] text[i] == '.' && #[trigger] text[j]
                    == '.')
        },
{
    lemma_plain_mantissa(text);
    lemma_mantissa_digits(text);
}

proof fn lemma_plain_mantissa(text: Seq<char>)
    requires
        forall|i: int| 0 <= i < text.len() ==> '0' <= #[trigger] text[i] <= '9' || text[i] == '.',
    ensures
        is_float_spec(text) == is_mantissa(text),
{
    assert(without_sign(text) == text);
    assert(!is_special(text)) by {
        if is_special(text) {
            lemma_special_letters(text);
            assert(text[0] == 'i' || text[0] == 'I' || text[0] == 'n' || text[0] == 'N');
        }
    }
    assert forall|i: int| !(#[trigger] is_scaled(text, i)) by {
        if is_scaled(text, i) {
            assert(text[i] == 'e' || text[i] == 'E');
        }
    }
}

proof fn lemma_mantissa_digits(text: Seq<char>)
    requires
        forall|i: int| 0 <= i < text.len() ==> '0' <= #[trigger] text[i] <= '9' || text[i] == '.',
    ensures
        is_mantissa(text) <==> {
            &&& exists|i: int| 0 <= i < text.len() && '0' <= #[trigger] text[i] <= '9'
            &&& forall|i: int, j: int|
                0 <= i < j < text.len() ==> !(#[trigger] text[i] == '.' && #[trigger] text[j]
                    == '.')
        },
{
    if is_mantissa(text) {
        if is_number(text) {
            assert(is_digit_spec(text[0]));
            assert forall|i: int, j: int| 0 <= i < j < text.len() implies !(#[trigger] text[i]
                == '.' && #[trigger] text[j] == '.') by {
                assert(is_digit_spec(text[i]));
            }
        } else {
            let p = choose|i: int| #[trigger] is_pointed(text, i);
            assert forall|k: int| 0 <= k < text.len() && k != p implies is_digit_spec(
                #[trigger] text[k],
            ) by {
                if k < p {
                    assert(text[k] == text.take(p)[k]);
                } else {
                    assert(text[k] == text.skip(p + 1)[k - p - 1]);
                }
            }
            if p == 0 {
                assert(is_digit_spec(text[1]));
            } else {
                assert(is_digit_spec(text[0]));
            }
        }
    }
    if (exists|i: int| 0 <= i < text.len() && '0' <= #[trigger] text[i] <= '9') && (forall|
        i: int,
        j: int,
    |
        0 <= i < j < text.len() ==> !(#[trigger] text[i] == '.' && #[trigger] text[j] == '.')) {
        if exists|p: int| 0 <= p < text.len() && #[trigger] text[p] == '.' {
            let p = choose|p: int| 0 <= p < text.len() && #[trigger] text[p] == '.';
            let d = choose|i: int| 0 <= i < text.len() && '0' <= #[trigger] text[i] <= '9';
            assert(d != p);
            assert forall|k: int| 0 <= k < p implies is_digit_spec(#[trigger] text.take(p)[k]) by {
                assert(text.take(p)[k] == text[k]);
                assert(!(text[k] == '.' && text[p] == '.'));
            }
            assert forall|k: int| 0 <= k < text.len() - p - 1 implies is_digit_spec(
                #[trigger] text.skip(p + 1)[k],
            ) by {
                assert(text.skip(p + 1)[k] == text[p + 1 + k]);
                assert(!(text[p] == '.' && text[p + 1 + k] == '.'));
            }
            assert(is_pointed(text, p));
        } else {
            assert(is_number(text));
        }
    }
}

/// An exponent makes a floating-point number of one without it, where it is digits after an
/// optional sign. A small letter and a capital one announce it alike.
pub proof fn lemma_float_exponent(
    mantissa: Seq<char>,
    mark: char,
    exponent: Seq<char>,
    digits: Seq<char>,
)
    requires
        forall|i: int|
            0 <= i < mantissa.len() ==> '0' <= #[trigger] mantissa[i] <= '9' || mantissa[i] == '.',
        mark == 'e' || mark == 'E',
        ({
            ||| exponent == seq!['+'] + digits
            ||| exponent == seq!['-'] + digits
            ||| exponent == digits && (digits.len() > 0 ==> digits[0] != '+' && digits[0] != '-')
        }),
    ensures
        is_float_spec(mantissa.push(mark) + exponent) <==> {
            &&& is_float_spec(mantissa)
            &&& digits.len() > 0
            &&& forall|i: int| 0 <= i < digits.len() ==> '0' <= #[trigger] digits[i] <= '9'
        },
{
    let text = mantissa.push(mark) + exponent;
    let m = mantissa.len() as int;
    assert(text[m] == mark);
    assert(forall|i: int| 0 <= i < m ==> #[trigger] text[i] == mantissa[i]);
    assert(without_sign(text) == text);
    assert(without_sign(mantissa) == mantissa);
    lemma_plain_mantissa(mantissa);
    assert(!is_special(text)) by {
        if is_special(text) {
            lemma_special_letters(text);
        }
    }
    assert(!is_mantissa(text)) by {
        if is_mantissa(text) {
            lemma_mantissa(text, m);
        }
    }
    assert(text.take(m) =~= mantissa);
    assert(text.skip(m + 1) =~= exponent);
    assert forall|i: int| #[trigger] is_scaled(text, i) implies i == m by {
        if i < m {
            assert(text[i] == mantissa[i]);
        } else if m < i {
            assert(text.take(i)[m] == mark);
            lemma_mantissa(text.take(i), m);
        }
    }
    assert(is_float_spec(text) == is_scaled(text, m));
    assert(without_sign(exponent) =~= digits);
    assert(is_scaled(text, m) == (is_mantissa(mantissa) && is_number(digits)));
    assert(is_number(digits) == (digits.len() > 0 && forall|i: int|
        0 <= i < digits.len() ==> '0' <= #[trigger] digits[i] <= '9'));
}

/// The names of infinity and of what is no number are floating-point numbers in any mixture of
/// small and capital letters.
pub proof fn lemma_float_names(text: Seq<char>)
    ensures
        text.len() == 3 && (text[0] == 'i' || text[0] == 'I') && (text[1] == 'n' || text[1] == 'N')
            && (text[2] == 'f' || text[2] == 'F') ==> is_float_spec(text),
        text.len() == 3 && (text[0] == 'n' || text[0] == 'N') && (text[1] == 'a' || text[1] == 'A')
            && (text[2] == 'n' || text[2] == 'N') ==> is_float_spec(text),
        text.len() == 8 && (text[0] == 'i' || text[0] == 'I') && (text[1] == 'n' || text[1] == 'N')
            && (text[2] == 'f' || text[2] == 'F') && (text[3] == 'i' || text[3] == 'I') && (text[4]
            == 'n' || text[4] == 'N') && (text[5] == 'i' || text[5] == 'I') && (text[6] == 't'
            || text[6] == 'T') && (text[7] == 'y' || text[7] == 'Y') ==> is_float_spec(text),
{
    reveal_strlit("inf");
    reveal_strlit("infinity");
    reveal_strlit("nan");
    let name = in_small_letters(text);
    if text.len() == 3 && (text[0] == 'i' || text[0] == 'I') && (text[1] == 'n' || text[1] == 'N')
        && (text[2] == 'f' || text[2] == 'F') {
        assert(name =~= "inf"@);
    }
    if text.len() == 3 && (text[0] == 'n' || text[0] == 'N') && (text[1] == 'a' || text[1] == 'A')
        && (text[2] == 'n' || text[2] == 'N') {
        assert(name =~= "nan"@);
    }
    if text.len() == 8 && (text[0] == 'i' || text[0] == 'I') && (text[1] == 'n' || text[1] == 'N')
        && (text[2] == 'f' || text[2] == 'F') && (text[3] == 'i' || text[3] == 'I') && (text[4]
        == 'n' || text[4] == 'N') && (text[5] == 'i' || text[5] == 'I') && (text[6] == 't'
        || text[6] == 'T') && (text[7] == 'y' || text[7] == 'Y') {
        assert(name =~= "infinity"@);
    }
}

proof fn lemma_special_letters(text: Seq<char>)
    requires
        is_special(text),
    ensures
        text.len() >= 3,
        text[0] == 'i' || text[0] == 'I' || text[0] == 'n' || text[0] == 'N',
{
    reveal_strlit("inf");
    reveal_strlit("infinity");
    reveal_strlit("nan");
    let name = in_small_letters(text);
    assert(name.len() == text.len());
    assert("inf"@.len() == 3 && "infinity"@.len() == 8 && "nan"@.len() == 3);
    assert(name[0] == 'i' || name[0] == 'n');
    assert(name[0] == small(text[0]));
}

/// A floating-point number that begins, after its sign, with neither a digit nor a point is one of
/// the names of infinity or of what is no number. There is none without characters.
pub proof fn lemma_float_start(text: Seq<char>)
    requires
        is_float_spec(text),
    ensures
        text.len() > 0,
        ({
            let body = if text[0] == '+' || text[0] == '-' {
                text.skip(1)
            } else {
                text
            };
            &&& body.len() > 0
            &&& {
                ||| '0' <= body[0] <= '9'
                ||| body[0] == '.'
                ||| body.len() == 3 && (body[0] == 'i' || body[0] == 'I' || body[0] == 'n'
                    || body[0] == 'N')
                ||| body.len() == 8 && (body[0] == 'i' || body[0] == 'I')
            }
        }),
{
    let body = without_sign(text);
    if is_special(body) {
        reveal_strlit("inf");
        reveal_strlit("infinity");
        reveal_strlit("nan");
        lemma_special_letters(body);
        let name = in_small_letters(body);
        assert(name.len() == body.len());
        assert("inf"@.len() == 3 && "infinity"@.len() == 8 && "nan"@.len() == 3);
        assert("infinity"@[0] == 'i');
        assert(name[0] == small(body[0]));
    } else if is_mantissa(body) {
        lemma_mantissa(body, 0);
    } else {
        let i = choose|i: int| #[trigger] is_scaled(body, i);
        assert(body.take(i).len() > 0) by {
            if i == 0 {
                assert(is_mantissa(body.take(0)));
            }
        }
        assert(body[0] == body.take(i)[0]);
        lemma_mantissa(body.take(i), 0);
    }
}

} // verus!
