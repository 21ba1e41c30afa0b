//! Text helpers shared by the controllers: comparison, search, trimming, and the reading
//! and writing of numbers.

use vstd::prelude::*;
use vstd::string::{is_ascii_spec_bytes, StrSliceExecFns, StringExecFns};

verus! {

/// `str`'s equality (`<str as PartialEq>::eq`): two string slices are equal exactly when
/// they hold the same characters in the same order.
pub assume_specification[ <str as PartialEq>::eq ](a: &str, b: &str) -> (res: bool)
    ensures
        res == (a@ == b@),
;

/// `needle` occurs in `haystack` as a contiguous run of characters.
pub open spec fn occurs_in(haystack: Seq<char>, needle: Seq<char>) -> bool {
    exists|i: int|
        0 <= i && i + needle.len() <= haystack.len() && #[trigger] haystack.subrange(
            i,
            i + needle.len(),
        ) == needle
}

/// `str::contains` with a string as the pattern: whether the pattern occurs in the string
/// as a contiguous run of characters.
#[verifier::external_body]
pub(crate) fn contains(haystack: &str, needle: &str) -> (found: bool)
    ensures
        found == occurs_in(haystack@, needle@),
{
    haystack.contains(needle)
}

/// White space: the characters with the Unicode property White_Space. These are the
/// controls from tab to carriage return, the space, next line, the no-break space, the
/// ogham space mark, the spaces from en quad to hair space, the line and the paragraph
/// separator, the narrow no-break space, the medium mathematical space and the
/// ideographic space.
pub open spec fn is_white_space(c: char) -> bool {
    let code = c as u32;
    ||| 0x09 <= code <= 0x0D
    ||| code == 0x20
    ||| code == 0x85
    ||| code == 0xA0
    ||| code == 0x1680
    ||| 0x2000 <= code <= 0x200A
    ||| code == 0x2028
    ||| code == 0x2029
    ||| code == 0x202F
    ||| code == 0x205F
    ||| code == 0x3000
}

/// Whether a character is white space.
pub fn white_space(c: char) -> (white: bool)
    ensures
        white == is_white_space(c),
{
    let code: u32 = c as u32;
    (0x09 <= code && code <= 0x0D) || code == 0x20 || code == 0x85 || code == 0xA0 || code
        == 0x1680 || (0x2000 <= code && code <= 0x200A) || code == 0x2028 || code == 0x2029
        || code == 0x202F || code == 0x205F || code == 0x3000
}

/// A text without the white space that it begins with.
pub open spec fn trimmed_start(text: Seq<char>) -> Seq<char>
    decreases text.len(),
{
    if text.len() > 0 && is_white_space(text[0]) {
        trimmed_start(text.drop_first())
    } else {
        text
    }
}

/// A text without the white space that it ends with.
pub open spec fn trimmed_end(text: Seq<char>) -> Seq<char>
    decreases text.len(),
{
    if text.len() > 0 && is_white_space(text.last()) {
        trimmed_end(text.drop_last())
    } else {
        text
    }
}

/// A text without the white space that it begins and ends with.
pub open spec fn trimmed(text: Seq<char>) -> Seq<char> {
    trimmed_end(trimmed_start(text))
}

/// `str::trim`: the slice without its leading and trailing white space, where white space
/// is what the Unicode property White_Space says.
#[verifier::external_body]
pub(crate) fn trim(text: &str) -> (inner: &str)
    ensures
        inner@ == trimmed(text@),
{
    text.trim()
}

/// `i` is the first position of `delimiter` in `text`.
pub open spec fn first_at(text: Seq<char>, delimiter: char, i: int) -> bool {
    &&& 0 <= i < text.len()
    &&& text[i] == delimiter
    &&& forall|j: int| 0 <= j < i ==> text[j] != delimiter
}

/// A text split at the first `delimiter`: what stands before it and what stands after
/// it; nothing where the text holds no `delimiter`.
pub open spec fn split_once_of(text: Seq<char>, delimiter: char) -> Option<(Seq<char>, Seq<char>)> {
    if exists|i: int| first_at(text, delimiter, i) {
        let i = choose|i: int| first_at(text, delimiter, i);
        Some((text.take(i), text.skip(i + 1)))
    } else {
        None
    }
}

/// `str::split_once` with a character as the delimiter: the parts before and after the
/// first occurrence of the delimiter, or nothing where there is none.
#[verifier::external_body]
pub(crate) fn split_once(text: &str, delimiter: char) -> (parts: Option<(&str, &str)>)
    ensures
        match parts {
            Some((before, after)) => split_once_of(text@, delimiter) == Some((before@, after@)),
            None => split_once_of(text@, delimiter) is None,
        },
{
    text.split_once(delimiter)
}

/// A line without the carriage return that ended it, if one did.
pub open spec fn without_return(line: Seq<char>) -> Seq<char> {
    if line.len() > 0 && line.last() == '\r' {
        line.drop_last()
    } else {
        line
    }
}

/// The lines of a text. A line ends at a line feed, or at a carriage return and the line
/// feed that follows it; neither belongs to the line. What follows the last line feed is
/// a line of its own, as it stands, unless it is empty.
pub open spec fn lines_of(text: Seq<char>) -> Seq<Seq<char>>
    decreases text.len(),
{
    if text.len() == 0 {
        Seq::empty()
    } else {
        match split_once_of(text, '\n') {
            Some((line, rest)) => if rest.len() < text.len() {
                seq![without_return(line)] + lines_of(rest)
            } else {
                Seq::empty()
            },
            None => seq![text],
        }
    }
}

/// `str::lines`: the lines of the text, each as a string of its own.
#[verifier::external_body]
pub(crate) fn lines(text: &str) -> (lines: Vec<String>)
    ensures
        lines.deep_view() == lines_of(text@),
{
    text.lines().map(String::from).collect()
}

/// A decimal digit.
pub open spec fn is_digit(c: char) -> bool {
    '0' <= c && c <= '9'
}

/// The value of a decimal digit.
pub open spec fn digit_of(c: char) -> int {
    c as int - '0' as int
}

/// Every character is a decimal digit.
pub open spec fn all_digits(text: Seq<char>) -> bool {
    forall|i: int| 0 <= i < text.len() ==> is_digit(#[trigger] text[i])
}

/// The number that a run of decimal digits writes; leading zeros count for nothing.
pub open spec fn digits_value(text: Seq<char>) -> int
    decreases text.len(),
{
    if text.len() == 0 {
        0
    } else {
        10 * digits_value(text.drop_last()) + digit_of(text.last())
    }
}

/// The integer that a text writes in decimal: an optional sign, `+` or, where `signed`,
/// `-`, and then at least one digit and nothing else. Anything else writes no integer.
pub open spec fn integer_of(text: Seq<char>, signed: bool) -> Option<int> {
    if text.len() == 0 {
        None
    } else {
        let digits = after_sign(text, signed);
        if digits.len() == 0 || !all_digits(digits) {
            None
        } else if signed && text[0] == '-' {
            Some(-digits_value(digits))
        } else {
            Some(digits_value(digits))
        }
    }
}

/// What follows the sign of a text that is not empty: all of it where there is no sign.
pub open spec fn after_sign(text: Seq<char>, signed: bool) -> Seq<char> {
    if text[0] == '+' || (signed && text[0] == '-') {
        text.subrange(1, text.len() as int)
    } else {
        text
    }
}

/// The integer that a text writes, where it lies between `lowest` and `highest`.
pub open spec fn integer_within(text: Seq<char>, signed: bool, lowest: int, highest: int) -> Option<
    int,
> {
    match integer_of(text, signed) {
        Some(value) => if lowest <= value <= highest {
            Some(value)
        } else {
            None
        },
        None => None,
    }
}

/// A run of digits writes at least what any initial part of it writes.
pub proof fn lemma_digits_grow(text: Seq<char>, k: int)
    requires
        all_digits(text),
        0 <= k <= text.len(),
    ensures
        0 <= digits_value(text.take(k)) <= digits_value(text),
    decreases text.len() - k,
{
    if k == text.len() {
        assert(text.take(k) =~= text);
        lemma_digits_nonnegative(text);
    } else {
        lemma_digits_grow(text, k + 1);
        let longer = text.take(k + 1);
        assert(longer.drop_last() =~= text.take(k));
        assert(is_digit(text[k]));
        assert(longer.last() == text[k]);
        assert(all_digits(text.take(k))) by {
            assert forall|i: int| 0 <= i < text.take(k).len() implies is_digit(
                #[trigger] text.take(k)[i],
            ) by {
                assert(text.take(k)[i] == text[i]);
            }
        }
        lemma_digits_nonnegative(text.take(k));
    }
}

/// A run of digits writes no negative number.
pub proof fn lemma_digits_nonnegative(text: Seq<char>)
    requires
        all_digits(text),
    ensures
        0 <= digits_value(text),
    decreases text.len(),
{
    if text.len() > 0 {
        assert(is_digit(text.last()));
        assert(all_digits(text.drop_last())) by {
            assert forall|i: int| 0 <= i < text.drop_last().len() implies is_digit(
                #[trigger] text.drop_last()[i],
            ) by {
                assert(text.drop_last()[i] == text[i]);
            }
        }
        lemma_digits_nonnegative(text.drop_last());
    }
}

/// Reads a decimal integer that lies between `lowest` and `highest`.
pub fn parse_integer(text: &str, signed: bool, lowest: i64, highest: i64) -> (parsed: Option<i64>)
    ensures
        match parsed {
            Some(value) => integer_within(text@, signed, lowest as int, highest as int) == Some(
                value as int,
            ),
            None => integer_within(text@, signed, lowest as int, highest as int) is None,
        },
{
    if !text.is_ascii() {
        proof {
            let i = choose|i: int|
                0 <= i < text@.len() && !('\0' <= #[trigger] text@[i] <= '\u{7f}');
            let digits = after_sign(text@, signed);
            if text@.len() > 0 && digits.len() > 0 && all_digits(digits) {
                if digits.len() == text@.len() {
                    assert(is_digit(digits[i]));
                } else {
                    assert(i > 0);
                    assert(digits[i - 1] == text@[i]);
                    assert(is_digit(digits[i - 1]));
                }
            }
        }
        return None;
    }
    proof {
        is_ascii_spec_bytes(text);
    }
    let length: usize = text.as_bytes().len();
    assert(length == text@.len());
    if length == 0 {
        return None;
    }
    let first: u8 = text.get_ascii(0);
    let negative = signed && first == 45;
    let start: usize = if first == 43 || negative {
        1
    } else {
        0
    };
    let ghost digits = text@.subrange(start as int, length as int);
    assert(negative == (signed && text@[0] == '-'));
    assert((first == 43) == (text@[0] == '+'));
    assert(digits =~= after_sign(text@, signed));
    if start == length {
        return None;
    }
    let limit: i128 = 0x8000_0000_0000_0000;
    let mut total: i128 = 0;
    let mut i: usize = start;
    while i < length
        invariant
            text.is_ascii(),
            length == text@.len(),
            start <= i <= length,
            length > 0,
            digits == text@.subrange(start as int, length as int),
            digits == after_sign(text@, signed),
            all_digits(digits.take(i - start)),
            total == digits_value(digits.take(i - start)),
            0 <= total <= limit,
            limit == 0x8000_0000_0000_0000,
        decreases length - i,
    {
        let byte: u8 = text.get_ascii(i);
        assert(digits[i - start] == text@[i as int]);
        if byte < 48 || byte > 57 {
            assert(!is_digit(digits[i - start]));
            return None;
        }
        let digit: i128 = (byte - 48) as i128;
        let ghost longer = digits.take(i - start + 1);
        proof {
            assert(longer.drop_last() =~= digits.take(i - start));
            assert(longer.last() == digits[i - start]);
            assert(digit == digit_of(digits[i - start]));
            assert(is_digit(digits[i - start]));
            assert(all_digits(longer)) by {
                assert forall|k: int| 0 <= k < longer.len() implies is_digit(
                    #[trigger] longer[k],
                ) by {
                    if k < i - start {
                        assert(longer[k] == digits.take(i - start)[k]);
                    }
                }
            }
        }
        let next: i128 = total * 10 + digit;
        if next > limit {
            proof {
                if all_digits(digits) {
                    lemma_digits_grow(digits, i - start + 1);
                }
            }
            return None;
        }
        total = next;
        i += 1;
    }
    assert(digits.take(length - start) =~= digits);
    let value: i128 = if negative {
        -total
    } else {
        total
    };
    if value < lowest as i128 || value > highest as i128 {
        None
    } else {
        Some(value as i64)
    }
}

/// The character that writes a digit's value.
pub open spec fn digit_char(value: int) -> char {
    if value == 0 {
        '0'
    } else if value == 1 {
        '1'
    } else if value == 2 {
        '2'
    } else if value == 3 {
        '3'
    } else if value == 4 {
        '4'
    } else if value == 5 {
        '5'
    } else if value == 6 {
        '6'
    } else if value == 7 {
        '7'
    } else if value == 8 {
        '8'
    } else if value == 9 {
        '9'
    } else if value == 10 {
        'A'
    } else if value == 11 {
        'B'
    } else if value == 12 {
        'C'
    } else if value == 13 {
        'D'
    } else if value == 14 {
        'E'
    } else {
        'F'
    }
}

/// A natural number in decimal, without leading zeros.
pub open spec fn decimal(value: nat) -> Seq<char>
    decreases value,
{
    if value < 10 {
        seq![digit_char(value as int)]
    } else {
        decimal(value / 10).push(digit_char((value % 10) as int))
    }
}

/// A 16-bit number in the form `0x` and four upper-case hexadecimal digits.
pub open spec fn hex_u16(value: u16) -> Seq<char> {
    seq![
        '0',
        'x',
        digit_char(value as int / 4096),
        digit_char(value as int / 256 % 16),
        digit_char(value as int / 16 % 16),
        digit_char(value as int % 16),
    ]
}

/// The one-character text of a digit below sixteen.
fn digit_text(value: u8) -> (text: &'static str)
    requires
        value < 16,
    ensures
        text@ == seq![digit_char(value as int)],
{
    proof {
        reveal_strlit("0");
        reveal_strlit("1");
        reveal_strlit("2");
        reveal_strlit("3");
        reveal_strlit("4");
        reveal_strlit("5");
        reveal_strlit("6");
        reveal_strlit("7");
        reveal_strlit("8");
        reveal_strlit("9");
        reveal_strlit("A");
        reveal_strlit("B");
        reveal_strlit("C");
        reveal_strlit("D");
        reveal_strlit("E");
        reveal_strlit("F");
    }
    let text = match value {
        0 => "0",
        1 => "1",
        2 => "2",
        3 => "3",
        4 => "4",
        5 => "5",
        6 => "6",
        7 => "7",
        8 => "8",
        9 => "9",
        10 => "A",
        11 => "B",
        12 => "C",
        13 => "D",
        14 => "E",
        _ => "F",
    };
    assert(text@ =~= seq![digit_char(value as int)]);
    text
}

/// Writes a number in decimal.
pub fn to_decimal(value: u64) -> (text: String)
    ensures
        text@ == decimal(value as nat),
    decreases value,
{
    if value < 10 {
        String::from_str(digit_text(value as u8))
    } else {
        let text = to_decimal(value / 10).concat(digit_text((value % 10) as u8));
        assert(text@ =~= decimal(value as nat));
        text
    }
}

/// Writes a 16-bit number as `0x` and four upper-case hexadecimal digits.
pub fn to_hex_u16(value: u16) -> (text: String)
    ensures
        text@ == hex_u16(value),
{
    proof {
        reveal_strlit("0x");
    }
    let text = String::from_str("0x");
    let text = text.concat(digit_text((value / 4096) as u8));
    let text = text.concat(digit_text((value / 256 % 16) as u8));
    let text = text.concat(digit_text((value / 16 % 16) as u8));
    let text = text.concat(digit_text((value % 16) as u8));
    assert(text@ =~= hex_u16(value));
    text
}

} // verus!
