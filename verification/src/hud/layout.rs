//! Line wrapping and the size of the display's words.

use crate::hud::{Caption, CaptionView, SURFACE_WIDTH};
use crate::text::{
    chars_of, drop_white_space, is_white_space, skip_white_space, trim, trim_end, trim_start,
    trimmed, white_space,
};
use vstd::prelude::*;
use vstd::string::*;

verus! {

/// Index of the first line break, or the length where there is none.
pub open spec fn line_break(s: Seq<char>) -> nat
    decreases s.len(),
{
    if s.len() == 0 || s[0] == '\n' {
        0
    } else {
        1 + line_break(s.skip(1))
    }
}

/// Index of the last white space among the first `end` characters, zero where
/// there is none behind the first character.
pub open spec fn last_space(s: Seq<char>, end: nat) -> nat
    decreases end,
{
    if end == 0 || end > s.len() {
        0
    } else if is_white_space(s[end - 1]) {
        (end - 1) as nat
    } else {
        last_space(s, (end - 1) as nat)
    }
}

/// Where a line of at most `max_chars` ends: at a line break, at the end of a text
/// that fits, at the last space that fits, or in the middle of a word that is
/// longer than the line.
pub open spec fn wrap_end(s: Seq<char>, max_chars: nat) -> nat {
    if line_break(s) <= max_chars || s.len() <= max_chars {
        line_break(s)
    } else if last_space(s, max_chars) > 0 {
        last_space(s, max_chars)
    } else {
        max_chars
    }
}

/// The first line of a text and what is left of it. Only a line that was cut for
/// its length loses trailing white space.
pub open spec fn wrapped(s: Seq<char>, max_chars: nat) -> (Seq<char>, Seq<char>) {
    let end = wrap_end(s, max_chars) as int;
    if line_break(s) <= max_chars || s.len() <= max_chars {
        (s.take(end), trim_start(s.skip(end)))
    } else {
        (trim_end(s.take(end)), trim_start(s.skip(end)))
    }
}

proof fn lemma_line_break(s: Seq<char>, index: nat)
    requires
        index <= s.len(),
        forall|i: int| 0 <= i < index ==> s[i] != '\n',
        index == s.len() || s[index as int] == '\n',
    ensures
        line_break(s) == index,
    decreases s.len(),
{
    if index > 0 {
        assert forall|i: int| 0 <= i < index - 1 implies s.skip(1)[i] != '\n' by {
            assert(s.skip(1)[i] == s[i + 1]);
        }
        lemma_line_break(s.skip(1), (index - 1) as nat);
    }
}

proof fn lemma_line_break_beyond(s: Seq<char>, index: nat)
    requires
        index <= s.len(),
        forall|i: int| 0 <= i < index ==> s[i] != '\n',
    ensures
        line_break(s) >= index,
        line_break(s) <= s.len(),
    decreases s.len(),
{
    if s.len() > 0 && s[0] != '\n' {
        if index > 0 {
            assert forall|i: int| 0 <= i < index - 1 implies s.skip(1)[i] != '\n' by {
                assert(s.skip(1)[i] == s[i + 1]);
            }
            lemma_line_break_beyond(s.skip(1), (index - 1) as nat);
        } else {
            lemma_line_break_beyond(s.skip(1), 0);
        }
    }
}

/// Cut the first line off a text.
pub fn wrap_line(text: &str, max_chars: usize) -> (result: (&str, &str))
    ensures
        (result.0@, result.1@) == wrapped(text@, max_chars as nat),
{
    let chars = chars_of(text);
    let length: usize = chars.len();
    let mut space: usize = 0;
    let mut index: usize = 0;
    assert(chars@ == text@);
    while index < length
        invariant
            index <= length == chars@.len(),
            chars@ == text@,
            index <= max_chars,
            space < index || space == 0,
            space == last_space(text@, index as nat),
            forall|i: int| 0 <= i < index ==> chars@[i] != '\n',
        decreases length - index,
    {
        if chars[index] == '\n' {
            proof {
                lemma_line_break(text@, index as nat);
            }
            let rest: usize = skip_white_space(&chars, index, length);
            assert(text@.skip(index as int) =~= text@.subrange(index as int, length as int));
            assert(text@.take(index as int) =~= text@.subrange(0, index as int));
            return (text.substring_char(0, index), text.substring_char(rest, length));
        }
        if index == max_chars {
            proof {
                assert(forall|i: int| 0 <= i < index + 1 ==> text@[i] != '\n');
                lemma_line_break_beyond(text@, (index + 1) as nat);
            }
            let end: usize = if space > 0 {
                space
            } else {
                index
            };
            let line: usize = drop_white_space(&chars, 0, end);
            let rest: usize = skip_white_space(&chars, end, length);
            assert(text@.skip(end as int) =~= text@.subrange(end as int, length as int));
            assert(text@.take(end as int) =~= text@.subrange(0, end as int));
            return (text.substring_char(0, line), text.substring_char(rest, length));
        }
        if white_space(chars[index]) {
            space = index;
        }
        index += 1;
    }
    proof {
        lemma_line_break(text@, length as nat);
        assert(text@.take(length as int) =~= text@);
        assert(text@.skip(length as int) =~= Seq::empty());
        assert(text@.subrange(length as int, length as int) =~= Seq::empty());
    }
    (text, text.substring_char(length, length))
}

/// The lines of a text as they are drawn, `max_lines` at most; the last one ends in
/// an ellipsis where more would follow.
pub open spec fn drawn_lines(s: Seq<char>, max_chars: nat, max_lines: nat) -> Seq<Seq<char>>
    decreases max_lines,
{
    if max_lines == 0 || s.len() == 0 {
        Seq::empty()
    } else {
        let (line, rest) = wrapped(s, max_chars);
        if max_lines == 1 && rest.len() > 0 {
            seq![prefix(line, if max_chars > 0 { (max_chars - 1) as nat } else { 0 }).push('…')]
        } else {
            seq![prefix(line, max_chars)] + drawn_lines(rest, max_chars, (max_lines - 1) as nat)
        }
    }
}

/// At most the first `limit` characters.
pub open spec fn prefix(s: Seq<char>, limit: nat) -> Seq<char> {
    if s.len() <= limit {
        s
    } else {
        s.take(limit as int)
    }
}

/// Lines that a text takes, `max_lines` at most.
pub open spec fn line_count(s: Seq<char>, max_chars: nat, max_lines: nat) -> nat
    decreases max_lines,
{
    if max_lines == 0 || s.len() == 0 {
        0
    } else {
        1 + line_count(wrapped(s, max_chars).1, max_chars, (max_lines - 1) as nat)
    }
}

/// As many lines are drawn as are counted.
pub proof fn drawn_lines_are_counted(s: Seq<char>, max_chars: nat, max_lines: nat)
    ensures
        drawn_lines(s, max_chars, max_lines).len() == line_count(s, max_chars, max_lines),
        line_count(s, max_chars, max_lines) <= max_lines,
    decreases max_lines,
{
    if max_lines > 0 && s.len() > 0 {
        let rest = wrapped(s, max_chars).1;
        drawn_lines_are_counted(rest, max_chars, (max_lines - 1) as nat);
    }
}

/// The lines of a text as they are drawn.
pub fn text_lines(text: &str, max_chars: usize, max_lines: usize) -> (result: Vec<String>)
    ensures
        result@.len() == drawn_lines(trimmed(text@), max_chars as nat, max_lines as nat).len(),
        forall|i: int|
            0 <= i < result@.len() ==> (#[trigger] result@[i])@ == drawn_lines(
                trimmed(text@),
                max_chars as nat,
                max_lines as nat,
            )[i],
{
    let mut remaining: &str = trim(text);
    let mut result: Vec<String> = Vec::new();
    let mut row: usize = 0;
    let ghost goal = drawn_lines(trimmed(text@), max_chars as nat, max_lines as nat);
    proof {
        assert(goal =~= Seq::<Seq<char>>::empty() + goal);
    }
    while row < max_lines && !remaining.is_empty()
        invariant
            row <= max_lines,
            result@.len() == row,
            goal.len() == row + drawn_lines(
                remaining@,
                max_chars as nat,
                (max_lines - row) as nat,
            ).len(),
            forall|i: int| 0 <= i < row ==> (#[trigger] result@[i])@ == goal[i],
            forall|i: int|
                row <= i < goal.len() ==> #[trigger] goal[i] == drawn_lines(
                    remaining@,
                    max_chars as nat,
                    (max_lines - row) as nat,
                )[i - row],
        decreases max_lines - row,
    {
        let (line, rest) = wrap_line(remaining, max_chars);
        let truncated = row + 1 == max_lines && !rest.is_empty();
        let limit: usize = if truncated && max_chars > 0 {
            max_chars - 1
        } else {
            max_chars
        };
        let length: usize = line.unicode_len();
        let mut drawn: String = if length <= limit {
            line.to_owned()
        } else {
            line.substring_char(0, limit).to_owned()
        };
        assert(length > limit ==> line@.subrange(0, limit as int) =~= line@.take(limit as int));
        if truncated {
            drawn.push('…');
        }
        let ghost before = drawn_lines(remaining@, max_chars as nat, (max_lines - row) as nat);
        let ghost after = drawn_lines(rest@, max_chars as nat, (max_lines - row - 1) as nat);
        proof {
            assert(before[0] == drawn@);
            if truncated {
                assert(after =~= Seq::empty());
            }
            assert forall|i: int| row + 1 <= i < goal.len() implies #[trigger] goal[i] == after[i
                - (row + 1)] by {
                assert(goal[i] == before[i - row]);
            }
        }
        result.push(drawn);
        remaining = rest;
        row += 1;
    }
    result
}

/// Lines that a text takes, `max_lines` at most.
pub fn count_lines(text: &str, max_chars: usize, max_lines: usize) -> (result: usize)
    ensures
        result == line_count(trimmed(text@), max_chars as nat, max_lines as nat),
        result <= max_lines,
{
    let mut remaining: &str = trim(text);
    let mut rows: usize = 0;
    while rows < max_lines && !remaining.is_empty()
        invariant
            rows <= max_lines,
            line_count(trimmed(text@), max_chars as nat, max_lines as nat) == rows + line_count(
                remaining@,
                max_chars as nat,
                (max_lines - rows) as nat,
            ),
        decreases max_lines - rows,
    {
        remaining = wrap_line(remaining, max_chars).1;
        rows += 1;
    }
    rows
}

/// Characters that fit on a line of each text size.
#[derive(Clone, Copy, Debug, PartialEq, Eq, Structural)]
pub struct LineCapacity {
    pub title: usize,
    pub detail: usize,
    pub action: usize,
}

/// Height of the words under the track: seventeen rows of pixels to a title's line,
/// sixteen to a detail's, fifteen to an action's, with the gaps between them.
pub open spec fn words_height(
    caption: CaptionView,
    interaction: Option<Seq<char>>,
    capacity: LineCapacity,
) -> nat {
    let title = 17 * line_count(trimmed(caption.title), capacity.title as nat, 3);
    let detail = if caption.detail.len() == 0 {
        0
    } else {
        3 + 16 * line_count(trimmed(caption.detail), capacity.detail as nat, 3)
    };
    let action = if caption.action.len() == 0 {
        0
    } else {
        7 + 15 * line_count(trimmed(caption.action), capacity.action as nat, 4)
    };
    let feedback = match interaction {
        Some(text) => 14 + 16 * line_count(trimmed(text), capacity.detail as nat, 2),
        None => 0,
    };
    let height = title + detail + action + feedback;
    if height > 0 {
        height + 12
    } else {
        0
    }
}

/// Height of the words under the track.
pub fn caption_height(
    caption: &Caption,
    interaction: Option<&str>,
    capacity: LineCapacity,
) -> (result: u32)
    ensures
        result == words_height(
            caption@,
            match interaction {
                Some(text) => Some(text@),
                None => None,
            },
            capacity,
        ),
        result <= 250,
{
    let mut height: u32 = 17 * count_lines(caption.title.as_str(), capacity.title, 3) as u32;
    if !caption.detail.as_str().is_empty() {
        height += 3 + 16 * count_lines(caption.detail.as_str(), capacity.detail, 3) as u32;
    }
    if !caption.action.as_str().is_empty() {
        height += 7 + 15 * count_lines(caption.action.as_str(), capacity.action, 4) as u32;
    }
    if let Some(text) = interaction {
        height += 14 + 16 * count_lines(text, capacity.detail, 2) as u32;
    }
    if height > 0 {
        height += 12;
    }
    height
}

/// The surface's width on an output of the given logical width.
pub open spec fn fitting_width(output_width: Option<i32>) -> u32 {
    match output_width {
        Some(width) => if width < 1 {
            1u32
        } else if width < SURFACE_WIDTH {
            width as u32
        } else {
            SURFACE_WIDTH
        },
        None => SURFACE_WIDTH,
    }
}

/// The surface's width on an output of the given logical width.
pub fn available_width(output_width: Option<i32>) -> (result: u32)
    ensures
        result == fitting_width(output_width),
{
    match output_width {
        Some(width) => {
            if width < 1 {
                1
            } else if (width as u32) < SURFACE_WIDTH {
                width as u32
            } else {
                SURFACE_WIDTH
            }
        },
        None => SURFACE_WIDTH,
    }
}

} // verus!
