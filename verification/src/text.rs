//! Text helpers: decimal and hexadecimal rendering, whitespace, and slicing by
//! character.

pub mod laws;

use vstd::prelude::*;
use vstd::string::*;

verus! {

/// `String::push` appends one character.
pub assume_specification[ String::push ](s: &mut String, c: char)
    ensures
        final(s)@ == old(s)@.push(c),
;

/// The ten decimal digits as characters.
pub open spec fn digit_char(d: nat) -> char {
    if d == 0 {
        '0'
    } else if d == 1 {
        '1'
    } else if d == 2 {
        '2'
    } else if d == 3 {
        '3'
    } else if d == 4 {
        '4'
    } else if d == 5 {
        '5'
    } else if d == 6 {
        '6'
    } else if d == 7 {
        '7'
    } else if d == 8 {
        '8'
    } else if d == 9 {
        '9'
    } else if d == 10 {
        'a'
    } else if d == 11 {
        'b'
    } else if d == 12 {
        'c'
    } else if d == 13 {
        'd'
    } else if d == 14 {
        'e'
    } else {
        'f'
    }
}

/// The decimal numeral of `n`, without leading zeros.
pub open spec fn decimal(n: nat) -> Seq<char>
    decreases n,
{
    if n < 10 {
        seq![digit_char(n)]
    } else {
        decimal(n / 10).push(digit_char(n % 10))
    }
}

/// The decimal numeral of `n`, with a zero in front where it has one digit.
pub open spec fn two_digits(n: nat) -> Seq<char> {
    if n < 10 {
        seq!['0'] + decimal(n)
    } else {
        decimal(n)
    }
}

/// The characters with the Unicode `White_Space` property.
pub open spec fn is_white_space(c: char) -> bool {
    ||| '\u{9}' <= c <= '\u{d}'
    ||| c == ' '
    ||| c == '\u{85}'
    ||| c == '\u{a0}'
    ||| c == '\u{1680}'
    ||| '\u{2000}' <= c <= '\u{200a}'
    ||| c == '\u{2028}'
    ||| c == '\u{2029}'
    ||| c == '\u{202f}'
    ||| c == '\u{205f}'
    ||| c == '\u{3000}'
}

/// A digit's character, for values up to fifteen.
pub fn digit(d: u8) -> (c: char)
    requires
        d < 16,
    ensures
        c == digit_char(d as nat),
{
    match d {
        0 => '0',
        1 => '1',
        2 => '2',
        3 => '3',
        4 => '4',
        5 => '5',
        6 => '6',
        7 => '7',
        8 => '8',
        9 => '9',
        10 => 'a',
        11 => 'b',
        12 => 'c',
        13 => 'd',
        14 => 'e',
        _ => 'f',
    }
}

/// Append the decimal numeral of `n`.
pub fn push_decimal(out: &mut String, n: u64)
    ensures
        final(out)@ == old(out)@ + decimal(n as nat),
    decreases n,
{
    if n >= 10 {
        push_decimal(out, n / 10);
    }
    out.push(digit((n % 10) as u8));
    assert(out@ =~= old(out)@ + decimal(n as nat));
}

/// Append the decimal numeral of `n`, padded to two digits.
pub fn push_two_digits(out: &mut String, n: u64)
    ensures
        final(out)@ == old(out)@ + two_digits(n as nat),
{
    if n < 10 {
        out.push('0');
    }
    push_decimal(out, n);
    assert(out@ =~= old(out)@ + two_digits(n as nat));
}

/// Whether a character has the Unicode `White_Space` property.
pub fn white_space(c: char) -> (result: bool)
    ensures
        result == is_white_space(c),
{
    ('\u{9}' <= c && c <= '\u{d}') || c == ' ' || c == '\u{85}' || c == '\u{a0}' || c
        == '\u{1680}' || ('\u{2000}' <= c && c <= '\u{200a}') || c == '\u{2028}' || c
        == '\u{2029}' || c == '\u{202f}' || c == '\u{205f}' || c == '\u{3000}'
}

/// A string's characters.
pub fn chars_of(s: &str) -> (result: Vec<char>)
    ensures
        result@ == s@,
{
    let mut result: Vec<char> = Vec::new();
    for c in iter: s.chars()
        invariant
            iter.seq() == s@,
            result@ == iter.seq().take(iter.index() as int),
    {
        result.push(c);
    }
    assert(result@ =~= s@);
    result
}

/// Whether two strings hold the same characters.
pub fn same(a: &str, b: &str) -> (result: bool)
    ensures
        result == (a@ == b@),
{
    a.to_owned() == b.to_owned()
}

/// A sequence without its leading white space.
pub open spec fn trim_start(s: Seq<char>) -> Seq<char>
    decreases s.len(),
{
    if s.len() > 0 && is_white_space(s[0]) {
        trim_start(s.skip(1))
    } else {
        s
    }
}

/// A sequence without its trailing white space.
pub open spec fn trim_end(s: Seq<char>) -> Seq<char>
    decreases s.len(),
{
    if s.len() > 0 && is_white_space(s.last()) {
        trim_end(s.drop_last())
    } else {
        s
    }
}

/// A sequence without its leading and trailing white space.
pub open spec fn trimmed(s: Seq<char>) -> Seq<char> {
    trim_end(trim_start(s))
}

/// Whether a sequence is nothing but white space.
pub open spec fn is_blank(s: Seq<char>) -> bool {
    forall|i: int| 0 <= i < s.len() ==> is_white_space(#[trigger] s[i])
}

/// Trimming leaves nothing exactly where there is nothing but white space.
pub proof fn lemma_blank_is_trimmed_away(s: Seq<char>)
    ensures
        is_blank(s) <==> trimmed(s).len() == 0,
{
    lemma_trim_start_blank(s);
    lemma_trim_end_blank(trim_start(s));
    lemma_trim_start_keeps(s);
}

proof fn lemma_trim_start_blank(s: Seq<char>)
    ensures
        is_blank(s) <==> trim_start(s).len() == 0,
    decreases s.len(),
{
    if s.len() > 0 && is_white_space(s[0]) {
        lemma_trim_start_blank(s.skip(1));
        if is_blank(s.skip(1)) {
            assert forall|i: int| 0 <= i < s.len() implies is_white_space(#[trigger] s[i]) by {
                if i > 0 {
                    assert(s.skip(1)[i - 1] == s[i]);
                }
            }
        }
    }
}

proof fn lemma_trim_end_blank(s: Seq<char>)
    ensures
        is_blank(s) <==> trim_end(s).len() == 0,
    decreases s.len(),
{
    if s.len() > 0 && is_white_space(s.last()) {
        lemma_trim_end_blank(s.drop_last());
        if is_blank(s.drop_last()) {
            assert forall|i: int| 0 <= i < s.len() implies is_white_space(#[trigger] s[i]) by {
                if i < s.len() - 1 {
                    assert(s.drop_last()[i] == s[i]);
                }
            }
        }
    }
}

proof fn lemma_trim_start_keeps(s: Seq<char>)
    ensures
        is_blank(trim_start(s)) ==> trim_start(s).len() == 0,
    decreases s.len(),
{
    if s.len() > 0 && is_white_space(s[0]) {
        lemma_trim_start_keeps(s.skip(1));
    }
}

/// Index of the first character from `start` on that is not white space.
pub fn skip_white_space(chars: &Vec<char>, start: usize, end: usize) -> (result: usize)
    requires
        start <= end <= chars@.len(),
    ensures
        start <= result <= end,
        chars@.subrange(result as int, end as int) == trim_start(
            chars@.subrange(start as int, end as int),
        ),
{
    let mut index: usize = start;
    while index < end && white_space(chars[index])
        invariant
            start <= index <= end <= chars@.len(),
            trim_start(chars@.subrange(index as int, end as int)) == trim_start(
                chars@.subrange(start as int, end as int),
            ),
        decreases end - index,
    {
        assert(chars@.subrange(index as int, end as int).skip(1) =~= chars@.subrange(
            index + 1,
            end as int,
        ));
        index += 1;
    }
    index
}

/// Index behind the last character before `end` that is not white space.
pub fn drop_white_space(chars: &Vec<char>, start: usize, end: usize) -> (result: usize)
    requires
        start <= end <= chars@.len(),
    ensures
        start <= result <= end,
        chars@.subrange(start as int, result as int) == trim_end(
            chars@.subrange(start as int, end as int),
        ),
{
    let mut index: usize = end;
    while index > start && white_space(chars[index - 1])
        invariant
            start <= index <= end <= chars@.len(),
            trim_end(chars@.subrange(start as int, index as int)) == trim_end(
                chars@.subrange(start as int, end as int),
            ),
        decreases index,
    {
        assert(chars@.subrange(start as int, index as int).drop_last() =~= chars@.subrange(
            start as int,
            index - 1,
        ));
        index -= 1;
    }
    index
}

/// A text without its leading and trailing white space.
pub fn trim(text: &str) -> (result: &str)
    ensures
        result@ == trimmed(text@),
{
    let chars = chars_of(text);
    let start: usize = skip_white_space(&chars, 0, chars.len());
    let end: usize = drop_white_space(&chars, start, chars.len());
    assert(chars@.subrange(0, chars@.len() as int) =~= text@);
    text.substring_char(start, end)
}

/// Whether a text is nothing but white space.
pub fn blank(text: &str) -> (result: bool)
    ensures
        result == is_blank(text@),
{
    proof {
        lemma_blank_is_trimmed_away(text@);
    }
    trim(text).is_empty()
}

/// `std::str::from_utf8` accepts exactly the valid UTF-8 encodings, and reads the
/// characters that they encode.
#[verifier::external_body]
pub(crate) fn utf8_text(bytes: &[u8]) -> (result: Option<String>)
    ensures
        match result {
            Some(text) => vstd::utf8::valid_utf8(bytes@) && text@ == vstd::utf8::decode_utf8(
                bytes@,
            ),
            None => !vstd::utf8::valid_utf8(bytes@),
        },
{
    std::str::from_utf8(bytes).ok().map(str::to_owned)
}

/// Whether two byte strings are the same.
pub fn same_bytes(a: &[u8], b: &[u8]) -> (result: bool)
    ensures
        result == (a@ == b@),
{
    if a.len() != b.len() {
        return false;
    }
    let mut index: usize = 0;
    while index < a.len()
        invariant
            index <= a@.len() == b@.len(),
            forall|i: int| 0 <= i < index ==> a@[i] == b@[i],
        decreases a@.len() - index,
    {
        if a[index] != b[index] {
            return false;
        }
        index += 1;
    }
    assert(a@ =~= b@);
    true
}

/// A text of some of the characters.
pub fn text_of(chars: &Vec<char>, start: usize, end: usize) -> (result: String)
    requires
        start <= end <= chars@.len(),
    ensures
        result@ == chars@.subrange(start as int, end as int),
{
    let mut result: String = String::new();
    let mut index: usize = start;
    while index < end
        invariant
            start <= index <= end <= chars@.len(),
            result@ == chars@.subrange(start as int, index as int),
        decreases end - index,
    {
        result.push(chars[index]);
        index += 1;
        assert(result@ =~= chars@.subrange(start as int, index as int));
    }
    result
}

/// Whether a text starts with another one.
pub open spec fn has_prefix(s: Seq<char>, prefix: Seq<char>) -> bool {
    s.len() >= prefix.len() && s.take(prefix.len() as int) == prefix
}

/// A text without a prefix, where it has it.
pub fn strip_prefix(text: &str, prefix: &str) -> (result: Option<String>)
    ensures
        match result {
            Some(rest) => has_prefix(text@, prefix@) && rest@ == text@.skip(prefix@.len() as int),
            None => !has_prefix(text@, prefix@),
        },
{
    let chars = chars_of(text);
    let expected = chars_of(prefix);
    if chars.len() < expected.len() {
        return None;
    }
    let mut index: usize = 0;
    while index < expected.len()
        invariant
            index <= expected@.len() <= chars@.len(),
            chars@ == text@,
            expected@ == prefix@,
            forall|i: int| 0 <= i < index ==> chars@[i] == expected@[i],
        decreases expected@.len() - index,
    {
        if chars[index] != expected[index] {
            proof {
                if has_prefix(text@, prefix@) {
                    assert(text@.take(prefix@.len() as int)[index as int] == prefix@[index as int]);
                }
            }
            return None;
        }
        index += 1;
    }
    assert(text@.take(prefix@.len() as int) =~= prefix@);
    assert(text@.skip(prefix@.len() as int) =~= text@.subrange(index as int, text@.len() as int));
    Some(text_of(&chars, index, chars.len()))
}

/// Index of the first separator from `from` on, or the length.
pub open spec fn separator_index(s: Seq<char>, separator: char, from: nat) -> nat
    decreases s.len() - from,
{
    if from < s.len() && s[from as int] != separator {
        separator_index(s, separator, from + 1)
    } else {
        from
    }
}

/// The pieces of a text between separators; one piece where there is none.
pub open spec fn pieces(s: Seq<char>, separator: char) -> Seq<Seq<char>>
    decreases s.len(),
    via pieces_decreases
{
    let end = separator_index(s, separator, 0) as int;
    if end < s.len() {
        seq![s.take(end)] + pieces(s.skip(end + 1), separator)
    } else {
        seq![s]
    }
}

#[via_fn]
proof fn pieces_decreases(s: Seq<char>, separator: char) {
    lemma_separator_index(s, separator, 0);
}

proof fn lemma_separator_index(s: Seq<char>, separator: char, from: nat)
    requires
        from <= s.len(),
    ensures
        from <= separator_index(s, separator, from) <= s.len(),
    decreases s.len() - from,
{
    if from < s.len() && s[from as int] != separator {
        lemma_separator_index(s, separator, from + 1);
    }
}

/// The index of a separator does not depend on what lies before.
proof fn lemma_separator_index_skip(s: Seq<char>, separator: char, start: nat, from: nat)
    requires
        start <= from <= s.len(),
    ensures
        separator_index(s, separator, from) == start + separator_index(
            s.skip(start as int),
            separator,
            (from - start) as nat,
        ),
    decreases s.len() - from,
{
    if from < s.len() {
        assert(s.skip(start as int)[from - start] == s[from as int]);
        if s[from as int] != separator {
            lemma_separator_index_skip(s, separator, start, from + 1);
        }
    }
}

/// What a list of texts holds.
pub open spec fn texts(list: Seq<String>) -> Seq<Seq<char>> {
    list.map_values(|text: String| text@)
}

/// A line without the carriage return of its end.
pub open spec fn without_return(line: Seq<char>) -> Seq<char> {
    if line.len() > 0 && line.last() == '\r' {
        line.drop_last()
    } else {
        line
    }
}

/// A line without the carriage return of its end.
pub fn drop_return(line: &str) -> (result: String)
    ensures
        result@ == without_return(line@),
{
    let chars = chars_of(line);
    let length: usize = chars.len();
    if length > 0 && chars[length - 1] == '\r' {
        assert(line@.drop_last() =~= line@.subrange(0, length - 1));
        text_of(&chars, 0, length - 1)
    } else {
        line.to_owned()
    }
}

/// The pieces of a text between separators.
pub fn split(text: &str, separator: char) -> (result: Vec<String>)
    ensures
        texts(result@) == pieces(text@, separator),
        result@.len() > 0,
{
    let chars = chars_of(text);
    let length: usize = chars.len();
    let ghost s = text@;
    let mut result: Vec<String> = Vec::new();
    let mut start: usize = 0;
    let mut index: usize = 0;
    assert(s.skip(0) =~= s);
    assert(texts(result@) + pieces(s, separator) =~= pieces(s, separator));
    while index < length
        invariant
            start <= index <= length == chars@.len(),
            chars@ == s,
            separator_index(s, separator, start as nat) == separator_index(
                s,
                separator,
                index as nat,
            ),
            texts(result@) + pieces(s.skip(start as int), separator) == pieces(s, separator),
        decreases length - index,
    {
        if chars[index] == separator {
            let ghost rest = s.skip(start as int);
            proof {
                lemma_separator_index_skip(s, separator, start as nat, start as nat);
                let end = index - start;
                assert(separator_index(rest, separator, 0) == end);
                assert(rest.skip(end + 1) =~= s.skip(index + 1));
                assert(rest.take(end) =~= s.subrange(start as int, index as int));
            }
            let ghost before = texts(result@);
            let piece = text_of(&chars, start, index);
            let ghost view = piece@;
            result.push(piece);
            proof {
                assert(texts(result@) =~= before.push(view));
                assert(texts(result@) + pieces(s.skip(index + 1), separator) =~= before + pieces(
                    rest,
                    separator,
                ));
            }
            start = index + 1;
        }
        index += 1;
    }
    proof {
        lemma_separator_index_skip(s, separator, start as nat, start as nat);
        assert(s.skip(start as int) =~= s.subrange(start as int, length as int));
    }
    let ghost before = texts(result@);
    let piece = text_of(&chars, start, length);
    let ghost view = piece@;
    result.push(piece);
    assert(texts(result@) =~= before.push(view));
    assert(texts(result@) =~= before + seq![view]);
    result
}

/// The value of a digit of the given base, where it is one.
pub open spec fn digit_value(c: char, radix: nat) -> Option<nat> {
    let value = if '0' <= c <= '9' {
        (c as nat - '0' as nat) as int
    } else if 'a' <= c <= 'f' {
        c as nat - 'a' as nat + 10
    } else if 'A' <= c <= 'F' {
        c as nat - 'A' as nat + 10
    } else {
        16
    };
    if value < radix {
        Some(value as nat)
    } else {
        None
    }
}

/// The number that digits of the given base write, where all of them are digits.
pub open spec fn digits_value(s: Seq<char>, radix: nat) -> Option<nat>
    decreases s.len(),
{
    if s.len() == 0 {
        Some(0)
    } else {
        match (digits_value(s.drop_last(), radix), digit_value(s.last(), radix)) {
            (Some(high), Some(low)) => Some(high * radix + low),
            _ => None,
        }
    }
}

/// The number that a numeral of the given base writes, up to a limit: digits, at
/// least one, with a plus sign in front or without.
pub open spec fn numeral(s: Seq<char>, radix: nat, limit: nat) -> Option<nat> {
    let digits = if s.len() > 0 && s[0] == '+' {
        s.skip(1)
    } else {
        s
    };
    match digits_value(digits, radix) {
        Some(value) if digits.len() > 0 && value <= limit => Some(value),
        _ => None,
    }
}

fn digit_of(c: char, radix: u64) -> (result: Option<u64>)
    requires
        2 <= radix <= 16,
    ensures
        match result {
            Some(value) => digit_value(c, radix as nat) == Some(value as nat),
            None => digit_value(c, radix as nat) is None,
        },
{
    let value: u64 = if '0' <= c && c <= '9' {
        c as u64 - '0' as u64
    } else if 'a' <= c && c <= 'f' {
        c as u64 - 'a' as u64 + 10
    } else if 'A' <= c && c <= 'F' {
        c as u64 - 'A' as u64 + 10
    } else {
        16
    };
    if value < radix {
        Some(value)
    } else {
        None
    }
}

proof fn lemma_digits_value_grows(s: Seq<char>, radix: nat, index: nat, limit: nat)
    requires
        radix >= 2,
        index <= s.len(),
        match digits_value(s.take(index as int), radix) {
            Some(value) => value > limit,
            None => true,
        },
    ensures
        match digits_value(s, radix) {
            Some(value) => value > limit,
            None => true,
        },
    decreases s.len() - index,
{
    if index < s.len() {
        let next = s.take(index as int + 1);
        assert(next.drop_last() =~= s.take(index as int));
        match (digits_value(next.drop_last(), radix), digit_value(next.last(), radix)) {
            (Some(high), Some(low)) => {
                assert(high * radix + low > limit) by (nonlinear_arith)
                    requires
                        high > limit,
                        radix >= 2,
                        low >= 0,
                ;
            },
            _ => {},
        }
        lemma_digits_value_grows(s, radix, index + 1, limit);
    } else {
        assert(s.take(index as int) =~= s);
    }
}

/// Read a numeral of the given base, up to a limit.
pub fn parse_numeral(text: &str, radix: u64, limit: u64) -> (result: Option<u64>)
    requires
        2 <= radix <= 16,
    ensures
        match result {
            Some(value) => numeral(text@, radix as nat, limit as nat) == Some(value as nat),
            None => numeral(text@, radix as nat, limit as nat) is None,
        },
{
    let chars = chars_of(text);
    let start: usize = if chars.len() > 0 && chars[0] == '+' {
        1
    } else {
        0
    };
    let ghost digits = text@.skip(start as int);
    assert(start == 0 ==> digits =~= text@);
    if start == chars.len() {
        return None;
    }
    let mut value: u64 = 0;
    let mut index: usize = start;
    assert(digits.take(0) =~= Seq::empty());
    while index < chars.len()
        invariant
            start <= index <= chars@.len(),
            chars@ == text@,
            2 <= radix <= 16,
            digits == text@.skip(start as int),
            start == if text@.len() > 0 && text@[0] == '+' {
                1int
            } else {
                0
            },
            start == 0 ==> digits == text@,
            value <= limit,
            digits_value(digits.take(index - start), radix as nat) == Some(value as nat),
        decreases chars@.len() - index,
    {
        let ghost next = digits.take(index - start + 1);
        assert(next.drop_last() =~= digits.take(index - start));
        assert(next.last() == chars@[index as int]);
        let Some(low) = digit_of(chars[index], radix) else {
            proof {
                lemma_digits_value_grows(
                    digits,
                    radix as nat,
                    (index - start + 1) as nat,
                    limit as nat,
                );
            }
            return None;
        };
        assert(value * radix + low <= u64::MAX as int * 16 + 16) by (nonlinear_arith)
            requires
                value <= u64::MAX,
                radix <= 16,
                low < 16,
        ;
        let wide: u128 = (value as u128) * (radix as u128) + low as u128;
        if wide > limit as u128 {
            proof {
                lemma_digits_value_grows(
                    digits,
                    radix as nat,
                    (index - start + 1) as nat,
                    limit as nat,
                );
            }
            return None;
        }
        value = wide as u64;
        index += 1;
    }
    assert(digits.take(index - start) =~= digits);
    Some(value)
}

} // verus!
