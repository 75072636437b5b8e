//! Reading the key-value store's own report: lines of `name:value`, from
//! which single values are taken.

use crate::text::chars_of;
use vstd::prelude::*;
use vstd::string::*;

verus! {

/// The end of the line that starts at `start`: the position of the next line
/// feed, or the length of the text.
pub open spec fn line_end(text: Seq<char>, start: int) -> int
    decreases text.len() - start,
{
    if 0 <= start < text.len() && text[start] != '\n' {
        line_end(text, start + 1)
    } else {
        start
    }
}

/// The end of the content of the line that starts at `start`: a carriage
/// return just before the line feed belongs to the terminator.
pub open spec fn content_end(text: Seq<char>, start: int) -> int {
    let end = line_end(text, start);
    if end < text.len() && start < end && text[end - 1] == '\r' {
        end - 1
    } else {
        end
    }
}

/// The line that starts at `start`, without its terminator.
pub open spec fn line_at(text: Seq<char>, start: int) -> Seq<char> {
    text.subrange(start, content_end(text, start))
}

/// A line ends at or after its start, inside the text.
pub proof fn lemma_line_end_bounds(text: Seq<char>, start: int)
    requires
        0 <= start <= text.len(),
    ensures
        start <= content_end(text, start) <= line_end(text, start) <= text.len(),
    decreases text.len() - start,
{
    if start < text.len() && text[start] != '\n' {
        lemma_line_end_bounds(text, start + 1);
    }
}

/// A line without its leading repetitions of `key`.
pub open spec fn strip_repeated(line: Seq<char>, key: Seq<char>) -> Seq<char>
    decreases line.len(),
{
    if key.len() > 0 && key.is_prefix_of(line) {
        strip_repeated(line.skip(key.len() as int), key)
    } else {
        line
    }
}

/// The value of the first line, at or after `start`, that begins with
/// `key`: that line without its leading repetitions of `key`.
pub open spec fn value_from(text: Seq<char>, key: Seq<char>, start: int) -> Option<Seq<char>>
    decreases text.len() - start,
{
    if start < 0 || start >= text.len() {
        None
    } else if key.is_prefix_of(line_at(text, start)) {
        Some(strip_repeated(line_at(text, start), key))
    } else if line_end(text, start) >= text.len() {
        None
    } else {
        proof {
            lemma_line_end_bounds(text, start);
        }
        value_from(text, key, line_end(text, start) + 1)
    }
}

/// The value that a report gives under `key`, if it has a line for it.
pub open spec fn info_value(text: Seq<char>, key: Seq<char>) -> Option<Seq<char>> {
    value_from(text, key, 0)
}

/// Whether a character is a decimal digit.
pub open spec fn is_digit(c: char) -> bool {
    '0' <= c && c <= '9'
}

/// The number that a run of decimal digits writes.
pub open spec fn digits_value(digits: Seq<char>) -> nat
    decreases digits.len(),
{
    if digits.len() == 0 {
        0
    } else {
        digits_value(digits.drop_last()) * 10 + ((digits.last() as u32) - ('0' as u32)) as nat
    }
}

/// Every character is a decimal digit.
pub open spec fn all_digits(digits: Seq<char>) -> bool {
    forall|i: int| 0 <= i < digits.len() ==> is_digit(#[trigger] digits[i])
}

/// The digits of a numeral: the text without one leading plus sign.
pub open spec fn numeral_digits(text: Seq<char>) -> Seq<char> {
    if text.len() > 0 && text[0] == '+' {
        text.skip(1)
    } else {
        text
    }
}

/// The number that a text writes: an optional plus sign, then one or more
/// decimal digits, whose value fits 32 bits. Any other text writes none.
pub open spec fn parsed_u32(text: Seq<char>) -> Option<u32> {
    let digits = numeral_digits(text);
    if digits.len() > 0 && all_digits(digits) && digits_value(digits) <= u32::MAX {
        Some(digits_value(digits) as u32)
    } else {
        None
    }
}

/// A run of digits writes at least what any of its prefixes writes.
pub proof fn lemma_digits_value_grows(digits: Seq<char>, i: int)
    requires
        0 <= i <= digits.len(),
        all_digits(digits),
    ensures
        digits_value(digits.take(i)) <= digits_value(digits),
    decreases digits.len() - i,
{
    if i == digits.len() {
        assert(digits.take(i) =~= digits);
    } else {
        lemma_digits_value_grows(digits, i + 1);
        let longer = digits.take(i + 1);
        assert(longer.drop_last() =~= digits.take(i));
        assert(is_digit(digits[i]));
        assert(longer.last() == digits[i]);
    }
}

/// Whether `pattern` stands in `chars` at position `at`.
fn matches_at(chars: &Vec<char>, at: usize, limit: usize, pattern: &Vec<char>) -> (found: bool)
    requires
        at <= limit <= chars.len(),
    ensures
        found == pattern@.is_prefix_of(chars@.subrange(at as int, limit as int)),
{
    if pattern.len() > limit - at {
        return false;
    }
    let mut i: usize = 0;
    while i < pattern.len()
        invariant
            at <= limit <= chars.len(),
            pattern.len() <= limit - at,
            i <= pattern.len(),
            forall|k: int| 0 <= k < i ==> chars[at + k] == pattern[k],
        decreases pattern.len() - i,
    {
        if chars[at + i] != pattern[i] {
            assert(chars@.subrange(at as int, limit as int)[i as int] != pattern@[i as int]);
            return false;
        }
        i = i + 1;
    }
    assert(pattern@ =~= chars@.subrange(at as int, limit as int).subrange(0, pattern.len() as int));
    true
}

/// Looks a value up in a report. The report is read line by line; the first
/// line that begins with `key` gives the value, which is that line without
/// its terminator and without its leading repetitions of `key`.
pub fn find_value(text: &str, key: &str) -> (value: Option<String>)
    ensures
        match value {
            Some(found) => info_value(text@, key@) == Some(found@),
            None => info_value(text@, key@) is None,
        },
{
    let chars = chars_of(text);
    let pattern = chars_of(key);
    let n = chars.len();
    let mut start: usize = 0;
    while start < n
        invariant
            chars@ == text@,
            pattern@ == key@,
            n == chars.len(),
            value_from(text@, key@, start as int) == info_value(text@, key@),
        decreases n - start,
    {
        let mut end: usize = start;
        while end < n && chars[end] != '\n'
            invariant
                chars@ == text@,
                n == chars.len(),
                start <= end <= n,
                line_end(text@, end as int) == line_end(text@, start as int),
            decreases n - end,
        {
            end = end + 1;
        }
        let stop = if end < n && start < end && chars[end - 1] == '\r' {
            end - 1
        } else {
            end
        };
        assert(stop == content_end(text@, start as int));
        if matches_at(&chars, start, stop, &pattern) {
            let mut from: usize = start;
            while pattern.len() > 0 && matches_at(&chars, from, stop, &pattern)
                invariant
                    chars@ == text@,
                    pattern@ == key@,
                    start <= from <= stop <= n,
                    n == chars.len(),
                    strip_repeated(text@.subrange(from as int, stop as int), key@) == strip_repeated(
                        line_at(text@, start as int),
                        key@,
                    ),
                decreases stop - from,
            {
                assert(text@.subrange(from as int, stop as int).skip(pattern.len() as int)
                    =~= text@.subrange(from + pattern.len(), stop as int));
                from = from + pattern.len();
            }
            let piece = text.substring_char(from, stop);
            return Some(String::from_str(piece));
        }
        if end >= n {
            return None;
        }
        start = end + 1;
    }
    None
}

/// Reads a number: see [`parsed_u32`].
pub fn parse_u32(text: &str) -> (number: Option<u32>)
    ensures
        number == parsed_u32(text@),
{
    let chars = chars_of(text);
    let n = chars.len();
    let first: usize = if n > 0 && chars[0] == '+' {
        1
    } else {
        0
    };
    let ghost digits = numeral_digits(text@);
    assert(digits =~= chars@.subrange(first as int, n as int));
    if first >= n {
        return None;
    }
    let mut value: u64 = 0;
    let mut i: usize = first;
    while i < n
        invariant
            chars@ == text@,
            n == chars.len(),
            first <= i <= n,
            digits == chars@.subrange(first as int, n as int),
            digits == numeral_digits(text@),
            value == digits_value(digits.take(i - first)),
            value <= u32::MAX,
            forall|k: int| 0 <= k < i - first ==> is_digit(#[trigger] digits[k]),
        decreases n - i,
    {
        let c = chars[i];
        if c < '0' || c > '9' {
            assert(!is_digit(digits[i - first]));
            return None;
        }
        let digit: u64 = (c as u32 - '0' as u32) as u64;
        let next: u64 = value * 10 + digit;
        proof {
            let longer = digits.take(i + 1 - first);
            assert(longer.drop_last() =~= digits.take(i - first));
            assert(longer.last() == c);
            assert(next == digits_value(longer));
            if next > u32::MAX && all_digits(digits) {
                lemma_digits_value_grows(digits, i + 1 - first);
            }
        }
        if next > 0xffff_ffff {
            return None;
        }
        value = next;
        i = i + 1;
    }
    assert(digits.take(n - first) =~= digits);
    Some(value as u32)
}

} // verus!
