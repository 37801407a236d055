//! What holds of texts, of their parts and of the numbers in them.

use crate::text::{
    decimal, digit_char, digit_value, digits_value, has_prefix, is_white_space, numeral, pieces,
    separator_index, trim_end, trim_start, trimmed, two_digits, without_return,
};
use vstd::prelude::*;

verus! {

/// A digit stands for its value.
pub proof fn digits_stand_for_their_value(d: nat, radix: nat)
    requires
        d < radix <= 16,
    ensures
        digit_value(digit_char(d), radix) == Some(d),
{
}

proof fn lemma_one_digit(d: nat)
    requires
        d < 10,
    ensures
        digits_value(seq![digit_char(d)], 10) == Some(d),
{
    reveal_with_fuel(digits_value, 2);
    let text = seq![digit_char(d)];
    assert(text.drop_last() =~= Seq::empty());
    assert(text.last() == digit_char(d));
    digits_stand_for_their_value(d, 10);
}

/// A number is written with the digits that give it back.
pub proof fn numbers_are_read_back(n: nat)
    ensures
        decimal(n).len() > 0,
        digits_value(decimal(n), 10) == Some(n),
        forall|i: int| 0 <= i < decimal(n).len() ==> '0' <= #[trigger] decimal(n)[i] <= '9',
        n > 0 ==> decimal(n)[0] != '0',
    decreases n,
{
    if n >= 10 {
        numbers_are_read_back(n / 10);
        let front = decimal(n / 10);
        let whole = decimal(n);
        assert(whole.drop_last() =~= front);
        assert(whole.last() == digit_char(n % 10));
        digits_stand_for_their_value(n % 10, 10);
        assert(digits_value(whole, 10) == Some((n / 10) * 10 + n % 10));
        assert(whole[0] == front[0]);
        assert forall|i: int| 0 <= i < whole.len() implies '0' <= #[trigger] whole[i] <= '9' by {
            if i < front.len() {
                assert(whole[i] == front[i]);
            }
        }
    } else {
        lemma_one_digit(n);
    }
}

/// Two numbers are written alike only where they are the same.
pub proof fn numbers_are_told_apart(a: nat, b: nat)
    requires
        decimal(a) == decimal(b),
    ensures
        a == b,
{
    numbers_are_read_back(a);
    numbers_are_read_back(b);
}

/// Numbers below a hundred take two places.
pub proof fn two_digits_take_two_places(n: nat)
    requires
        n < 100,
    ensures
        two_digits(n).len() == 2,
        digits_value(two_digits(n), 10) == Some(n),
{
    numbers_are_read_back(n);
    if n < 10 {
        let text = two_digits(n);
        assert(text.drop_last() =~= seq!['0']);
        assert(seq!['0'].drop_last() =~= Seq::<char>::empty());
        lemma_one_digit(0);
        assert(text.last() == digit_char(n));
        digits_stand_for_their_value(n, 10);
    } else {
        assert(decimal(n / 10).len() == 1);
    }
}

/// A numeral is read up to its limit, with or without a sign, and not beyond.
pub proof fn numerals_are_read_up_to_their_limit(n: nat, limit: nat)
    ensures
        n <= limit ==> numeral(decimal(n), 10, limit) == Some(n) && numeral(
            seq!['+'] + decimal(n),
            10,
            limit,
        ) == Some(n),
        n > limit ==> numeral(decimal(n), 10, limit) is None,
        numeral(Seq::empty(), 10, limit) is None,
        numeral(seq!['+'], 10, limit) is None,
{
    numbers_are_read_back(n);
    let signed = seq!['+'] + decimal(n);
    assert(signed.skip(1) =~= decimal(n));
    assert(decimal(n)[0] != '+');
    assert(seq!['+'].skip(1) =~= Seq::<char>::empty());
}

/// A text with anything but digits in it is no numeral.
pub proof fn other_texts_are_no_numerals(text: Seq<char>, radix: nat, at: int)
    requires
        0 <= at < text.len(),
        digit_value(text[at], radix) is None,
    ensures
        digits_value(text, radix) is None,
    decreases text.len(),
{
    if at < text.len() - 1 {
        assert(text.drop_last()[at] == text[at]);
        other_texts_are_no_numerals(text.drop_last(), radix, at);
    }
}

/// Trimming takes white space away from the ends and nothing else.
pub proof fn trimming_takes_only_the_ends(front: Seq<char>, text: Seq<char>, back: Seq<char>)
    requires
        forall|i: int| 0 <= i < front.len() ==> is_white_space(#[trigger] front[i]),
        forall|i: int| 0 <= i < back.len() ==> is_white_space(#[trigger] back[i]),
        text.len() > 0,
        !is_white_space(text[0]),
        !is_white_space(text.last()),
    ensures
        trimmed(front + text + back) == text,
{
    lemma_trim_start(front, text + back);
    assert(front + text + back =~= front + (text + back));
    lemma_trim_end(text, back);
}

proof fn lemma_trim_start(front: Seq<char>, rest: Seq<char>)
    requires
        forall|i: int| 0 <= i < front.len() ==> is_white_space(#[trigger] front[i]),
        rest.len() > 0,
        !is_white_space(rest[0]),
    ensures
        trim_start(front + rest) == rest,
    decreases front.len(),
{
    let whole = front + rest;
    if front.len() > 0 {
        assert(whole[0] == front[0]);
        assert(whole.skip(1) =~= front.skip(1) + rest);
        assert forall|i: int| 0 <= i < front.skip(1).len() implies is_white_space(
            #[trigger] front.skip(1)[i],
        ) by {
            assert(front.skip(1)[i] == front[i + 1]);
        }
        lemma_trim_start(front.skip(1), rest);
    } else {
        assert(whole =~= rest);
    }
}

proof fn lemma_trim_end(rest: Seq<char>, back: Seq<char>)
    requires
        forall|i: int| 0 <= i < back.len() ==> is_white_space(#[trigger] back[i]),
        rest.len() > 0,
        !is_white_space(rest.last()),
    ensures
        trim_end(rest + back) == rest,
    decreases back.len(),
{
    let whole = rest + back;
    if back.len() > 0 {
        assert(whole.last() == back.last());
        assert(whole.drop_last() =~= rest + back.drop_last());
        assert forall|i: int| 0 <= i < back.drop_last().len() implies is_white_space(
            #[trigger] back.drop_last()[i],
        ) by {
            assert(back.drop_last()[i] == back[i]);
        }
        lemma_trim_end(rest, back.drop_last());
    } else {
        assert(whole =~= rest);
    }
}

proof fn lemma_separator(s: Seq<char>, separator: char, from: nat)
    requires
        from <= s.len(),
    ensures
        from <= separator_index(s, separator, from) <= s.len(),
        forall|i: int| from <= i < separator_index(s, separator, from) ==> s[i] != separator,
        separator_index(s, separator, from) < s.len() ==> s[separator_index(
            s,
            separator,
            from,
        ) as int] == separator,
    decreases s.len() - from,
{
    if from < s.len() && s[from as int] != separator {
        lemma_separator(s, separator, from + 1);
    }
}

/// The pieces of a text, put together again, with the separator between them.
pub open spec fn joined(parts: Seq<Seq<char>>, separator: char) -> Seq<char>
    decreases parts.len(),
{
    if parts.len() == 0 {
        Seq::empty()
    } else if parts.len() == 1 {
        parts[0]
    } else {
        parts[0] + seq![separator] + joined(parts.skip(1), separator)
    }
}

/// A text is its pieces with the separator between them, and no piece holds the separator.
pub proof fn pieces_make_the_text(s: Seq<char>, separator: char)
    ensures
        pieces(s, separator).len() > 0,
        joined(pieces(s, separator), separator) == s,
        forall|i: int, j: int|
            0 <= i < pieces(s, separator).len() && 0 <= j < pieces(s, separator)[i].len()
                ==> #[trigger] pieces(s, separator)[i][j] != separator,
    decreases s.len(),
{
    lemma_separator(s, separator, 0);
    let end = separator_index(s, separator, 0) as int;
    let parts = pieces(s, separator);
    if end < s.len() {
        let rest = s.skip(end + 1);
        let later = pieces(rest, separator);
        pieces_make_the_text(rest, separator);
        assert(parts =~= seq![s.take(end)] + later);
        assert(parts.skip(1) =~= later);
        assert(s =~= s.take(end) + seq![separator] + rest);
        assert forall|i: int, j: int| 0 <= i < parts.len() && 0 <= j < parts[i].len() implies
            #[trigger] parts[i][j] != separator by {
            if i == 0 {
                assert(parts[0][j] == s[j]);
            } else {
                assert(parts[i] == later[i - 1]);
            }
        }
    } else {
        assert(parts =~= seq![s]);
    }
}

/// A text has a prefix exactly where it is that prefix and something more.
pub proof fn prefixed_texts_start_with_it(prefix: Seq<char>, rest: Seq<char>, other: Seq<char>)
    ensures
        has_prefix(prefix + rest, prefix),
        has_prefix(other, prefix) ==> other == prefix + other.skip(prefix.len() as int),
        other.len() < prefix.len() ==> !has_prefix(other, prefix),
{
    assert((prefix + rest).take(prefix.len() as int) =~= prefix);
    if has_prefix(other, prefix) {
        assert(other =~= prefix + other.skip(prefix.len() as int));
    }
}

/// A line loses one return at its end and nothing else.
pub proof fn lines_lose_their_return(line: Seq<char>)
    ensures
        without_return(line.push('\r')) == line,
        line.len() > 0 && line.last() != '\r' ==> without_return(line) == line,
        without_return(Seq::empty()) == Seq::<char>::empty(),
{
    assert(line.push('\r').drop_last() =~= line);
}

/// White space is what separates words: blanks, tabs and ends of lines, and no letter or
/// digit.
pub proof fn letters_are_no_white_space(c: char)
    ensures
        is_white_space(' ') && is_white_space('\t') && is_white_space('\n') && is_white_space(
            '\r',
        ),
        '!' <= c <= '~' ==> !is_white_space(c),
{
}

/// Letters stand for the digits above nine, in either case, and nothing else does.
pub proof fn letters_stand_for_digits(c: char)
    ensures
        'a' <= c <= 'f' ==> digit_value(c, 16) == Some((c as nat - 'a' as nat + 10) as nat),
        'A' <= c <= 'F' ==> digit_value(c, 16) == Some((c as nat - 'A' as nat + 10) as nat),
        '0' <= c <= '9' ==> digit_value(c, 16) == Some((c as nat - '0' as nat) as nat),
        !('a' <= c <= 'f') && !('A' <= c <= 'F') && !('0' <= c <= '9') ==> digit_value(c, 16)
            is None,
        digit_char(0) == '0' && digit_char(1) == '1' && digit_char(2) == '2' && digit_char(3)
            == '3' && digit_char(4) == '4' && digit_char(5) == '5' && digit_char(6) == '6'
            && digit_char(7) == '7' && digit_char(8) == '8' && digit_char(9) == '9',
        digit_char(10) == 'a' && digit_char(11) == 'b' && digit_char(12) == 'c' && digit_char(13)
            == 'd' && digit_char(14) == 'e' && digit_char(15) == 'f',
{
}

} // verus!
