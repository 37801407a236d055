//! The actions window: its words for times, durations, stages and recordings, and
//! how its list is browsed.

pub mod laws;
pub mod offers;
pub mod panels;
pub mod service;
pub mod window;

use crate::daemon::{Take, TakeView};
use crate::ipc::{Stage, StageView, StateKind, StateKindView, StatusSnapshot, StatusSnapshotView};
use crate::text::{
    chars_of, decimal, drop_return, pieces, push_decimal, push_two_digits, same, separator_index,
    split, text_of, texts, two_digits, without_return,
};
use vstd::prelude::*;
use vstd::string::*;

verus! {

/// Most output of a command that is kept.
pub const OUTPUT_LIMIT: usize = 32_768;

/// The mark of a state or a recording.
#[derive(Clone, Copy, Debug, PartialEq, Eq, Structural)]
pub enum Stamp {
    Idle,
    Live,
    Attention,
    Rest,
    Partial,
    Complete,
}

/// What the window says first.
#[derive(Debug, PartialEq, Eq)]
pub struct Hero {
    pub stamp: Stamp,
    pub title: String,
    pub elapsed: Option<String>,
    pub sentence: String,
}

/// What a [`Hero`] holds.
pub struct HeroView {
    pub stamp: Stamp,
    pub title: Seq<char>,
    pub elapsed: Option<Seq<char>>,
    pub sentence: Seq<char>,
}

impl View for Hero {
    type V = HeroView;

    open spec fn view(&self) -> HeroView {
        HeroView {
            stamp: self.stamp,
            title: self.title@,
            elapsed: match self.elapsed { Some(inner) => Some(inner@), None => None },
            sentence: self.sentence@,
        }
    }
}

impl Clone for Hero {
    fn clone(&self) -> (result: Self)
        ensures
            result@ == self@,
    {
        Hero {
            stamp: self.stamp,
            title: self.title.clone(),
            elapsed: self.elapsed.clone(),
            sentence: self.sentence.clone(),
        }
    }
}

/// A local time: days and months count from zero, a day of the month from one.
#[derive(Clone, Copy, Debug, PartialEq, Eq, Structural)]
pub struct LocalTime {
    pub year: i32,
    pub year_day: i32,
    pub week_day: i32,
    pub month: i32,
    pub day: i32,
    pub hour: i32,
    pub minute: i32,
    pub second: i32,
}

/// Today's and yesterday's local calendar days, as year and day of the year.
#[derive(Clone, Copy, Debug, PartialEq, Eq)]
pub struct CalendarDays {
    pub today: Option<(i32, i32)>,
    pub yesterday: Option<(i32, i32)>,
}

/// Zeros.
pub open spec fn zeros(count: int) -> Seq<char> {
    if count <= 0 {
        Seq::empty()
    } else {
        Seq::new(count as nat, |i: int| '0')
    }
}

/// A number with zeros in front, its sign first, at least `width` characters.
pub open spec fn padded_integer(n: int, width: int) -> Seq<char> {
    if n >= 0 {
        zeros(width - decimal(n as nat).len()) + decimal(n as nat)
    } else {
        seq!['-'] + zeros(width - 1 - decimal((-n) as nat).len()) + decimal((-n) as nat)
    }
}

fn digits_of(n: u64) -> (result: String)
    ensures
        result@ == decimal(n as nat),
{
    let mut digits: String = String::new();
    push_decimal(&mut digits, n);
    assert(digits@ =~= decimal(n as nat));
    digits
}

fn push_padded(out: &mut String, n: i32, width: usize)
    requires
        width <= 8,
    ensures
        final(out)@ == old(out)@ + padded_integer(n as int, width as int),
{
    let wide: i64 = n as i64;
    let digits = if wide >= 0 {
        digits_of(wide as u64)
    } else {
        digits_of((-wide) as u64)
    };
    let mut room: usize = width;
    if wide < 0 {
        out.push('-');
        room = if width > 0 {
            width - 1
        } else {
            0
        };
    }
    let mut used: usize = digits.as_str().unicode_len();
    let ghost start = out@;
    let ghost first = used;
    assert(start + zeros(0) =~= start);
    while used < room
        invariant
            first <= used,
            used <= room || used == first,
            out@ == start + zeros(used - first),
        decreases room - used,
    {
        out.push('0');
        used += 1;
        assert(zeros(used - first) =~= zeros(used - first - 1).push('0'));
        assert(out@ =~= start + zeros(used - first));
    }
    out.append(digits.as_str());
    assert(zeros(room - first) =~= zeros(used - first));
    assert(out@ =~= old(out)@ + padded_integer(n as int, width as int));
}

/// The name of a day of the week.
pub open spec fn week_day_name(day: i32) -> Seq<char> {
    match day {
        0 => "Sun"@,
        1 => "Mon"@,
        2 => "Tue"@,
        3 => "Wed"@,
        4 => "Thu"@,
        5 => "Fri"@,
        6 => "Sat"@,
        _ => "?"@,
    }
}

/// The name of a month.
pub open spec fn month_name(month: i32) -> Seq<char> {
    match month {
        0 => "Jan"@,
        1 => "Feb"@,
        2 => "Mar"@,
        3 => "Apr"@,
        4 => "May"@,
        5 => "Jun"@,
        6 => "Jul"@,
        7 => "Aug"@,
        8 => "Sep"@,
        9 => "Oct"@,
        10 => "Nov"@,
        11 => "Dec"@,
        _ => "?"@,
    }
}

fn week_day_text(day: i32) -> (result: &'static str)
    ensures
        result@ == week_day_name(day),
{
    match day {
        0 => "Sun",
        1 => "Mon",
        2 => "Tue",
        3 => "Wed",
        4 => "Thu",
        5 => "Fri",
        6 => "Sat",
        _ => "?",
    }
}

fn month_text(month: i32) -> (result: &'static str)
    ensures
        result@ == month_name(month),
{
    match month {
        0 => "Jan",
        1 => "Feb",
        2 => "Mar",
        3 => "Apr",
        4 => "May",
        5 => "Jun",
        6 => "Jul",
        7 => "Aug",
        8 => "Sep",
        9 => "Oct",
        10 => "Nov",
        11 => "Dec",
        _ => "?",
    }
}

impl CalendarDays {
    /// The day of a time: relative where it is today or yesterday, with its year where
    /// that is not this year's.
    pub open spec fn day_words(self, time: LocalTime) -> Seq<char> {
        let day = Some((time.year, time.year_day));
        if day == self.today {
            "Today"@
        } else if day == self.yesterday {
            "Yesterday"@
        } else {
            let date = week_day_name(time.week_day) + " "@ + padded_integer(time.day as int, 1)
                + " "@ + month_name(time.month);
            match self.today {
                Some(today) if today.0 != time.year => date + " "@ + padded_integer(
                    time.year as int,
                    1,
                ),
                _ => date,
            }
        }
    }

    /// The day of a time.
    pub fn label(&self, time: &LocalTime) -> (result: String)
        ensures
            result@ == self.day_words(*time),
    {
        if let Some((year, year_day)) = self.today {
            if year == time.year && year_day == time.year_day {
                return "Today".to_owned();
            }
        }
        if let Some((year, year_day)) = self.yesterday {
            if year == time.year && year_day == time.year_day {
                return "Yesterday".to_owned();
            }
        }
        let mut label: String = week_day_text(time.week_day).to_owned();
        label.append(" ");
        push_padded(&mut label, time.day, 1);
        label.append(" ");
        label.append(month_text(time.month));
        if let Some((year, _)) = self.today {
            if year != time.year {
                label.append(" ");
                push_padded(&mut label, time.year, 1);
            }
        }
        label
    }
}

/// Hours, minutes and seconds.
pub open spec fn clock_words(time: LocalTime) -> Seq<char> {
    padded_integer(time.hour as int, 2) + ":"@ + padded_integer(time.minute as int, 2) + ":"@
        + padded_integer(time.second as int, 2)
}

fn push_clock(out: &mut String, time: &LocalTime)
    ensures
        final(out)@ == old(out)@ + clock_words(*time),
{
    push_padded(out, time.hour, 2);
    out.append(":");
    push_padded(out, time.minute, 2);
    out.append(":");
    push_padded(out, time.second, 2);
    assert(out@ =~= old(out)@ + clock_words(*time));
}

/// A recording's time in the list.
pub open spec fn row_words(time: Option<LocalTime>, days: CalendarDays) -> Seq<char> {
    match time {
        Some(time) => days.day_words(time) + " "@ + clock_words(time),
        None => "Time unavailable"@,
    }
}

/// A recording's time in the list.
pub fn row_time(time: Option<LocalTime>, days: &CalendarDays) -> (result: String)
    ensures
        result@ == row_words(time, *days),
{
    match time {
        Some(time) => {
            let mut words = days.label(&time);
            words.append(" ");
            push_clock(&mut words, &time);
            words
        },
        None => "Time unavailable".to_owned(),
    }
}

/// A recording's time in its details.
pub open spec fn detail_words(time: Option<LocalTime>, days: CalendarDays) -> Seq<char> {
    match time {
        Some(time) => days.day_words(time) + " at "@ + clock_words(time),
        None => "Capture time unavailable"@,
    }
}

/// A recording's time in its details.
pub fn detail_time(time: Option<LocalTime>, days: &CalendarDays) -> (result: String)
    ensures
        result@ == detail_words(time, *days),
{
    match time {
        Some(time) => {
            let mut words = days.label(&time);
            words.append(" at ");
            push_clock(&mut words, &time);
            words
        },
        None => "Capture time unavailable".to_owned(),
    }
}

/// A recording's time in full.
pub open spec fn full_words(time: Option<LocalTime>) -> Seq<char> {
    match time {
        Some(time) => padded_integer(time.year as int, 4) + "-"@ + padded_integer(
            time.month + 1,
            2,
        ) + "-"@ + padded_integer(time.day as int, 2) + " "@ + clock_words(time) + " local"@,
        None => "Capture time unavailable"@,
    }
}

/// A recording's local capture time in full.
pub fn take_time(time: Option<LocalTime>) -> (result: String)
    requires
        time is Some ==> time->0.month < i32::MAX,
    ensures
        result@ == full_words(time),
{
    match time {
        Some(time) => {
            let mut words: String = String::new();
            push_padded(&mut words, time.year, 4);
            words.append("-");
            push_padded(&mut words, time.month + 1, 2);
            words.append("-");
            push_padded(&mut words, time.day, 2);
            words.append(" ");
            push_clock(&mut words, &time);
            words.append(" local");
            assert(words@ =~= full_words(Some(time)));
            words
        },
        None => "Capture time unavailable".to_owned(),
    }
}

/// A short form of a duration.
pub open spec fn short_words(duration_ms: Option<u64>) -> Seq<char> {
    match duration_ms {
        Some(ms) => if ms < 1000 {
            decimal(ms as nat) + " ms"@
        } else {
            decimal((ms / 60_000) as nat) + ":"@ + two_digits((ms / 1000 % 60) as nat)
        },
        None => "—"@,
    }
}

/// A short form of a duration.
pub fn short_duration(duration_ms: Option<u64>) -> (result: String)
    ensures
        result@ == short_words(duration_ms),
{
    match duration_ms {
        Some(ms) => {
            if ms < 1000 {
                let mut words = digits_of(ms);
                words.append(" ms");
                words
            } else {
                let mut words = digits_of(ms / 60_000);
                words.append(":");
                push_two_digits(&mut words, (ms / 1000) % 60);
                words
            }
        },
        None => "—".to_owned(),
    }
}

/// A duration in full.
pub open spec fn duration_words(duration_ms: Option<u64>) -> Seq<char> {
    match duration_ms {
        Some(ms) => if ms < 1000 {
            decimal(ms as nat) + " ms"@
        } else {
            decimal((ms / 60_000) as nat) + "m "@ + two_digits((ms / 1000 % 60) as nat) + "s"@
        },
        None => "duration unknown"@,
    }
}

/// A duration in full.
pub fn take_duration(duration_ms: Option<u64>) -> (result: String)
    ensures
        result@ == duration_words(duration_ms),
{
    match duration_ms {
        Some(ms) => {
            if ms < 1000 {
                let mut words = digits_of(ms);
                words.append(" ms");
                words
            } else {
                let mut words = digits_of(ms / 60_000);
                words.append("m ");
                push_two_digits(&mut words, (ms / 1000) % 60);
                words.append("s");
                words
            }
        },
        None => "duration unknown".to_owned(),
    }
}

/// The title of a stage.
pub open spec fn stage_words(stage: StageView) -> Seq<char> {
    match stage {
        StageView::FinalizingAudio => "Finishing the recording"@,
        StageView::Transcribing { completed, total } => if total > 1 {
            "Transcribing · "@ + decimal(completed as nat) + " of "@ + decimal(total as nat)
        } else {
            "Transcribing"@
        },
        StageView::CleaningUp => "Cleaning up the text"@,
        StageView::Delivering => "Delivering text"@,
        StageView::Cancelling => "Cancelling…"@,
        StageView::RemovingRecording => "Removing saved audio…"@,
        StageView::Unknown(stage) => stage,
    }
}

/// The title of a stage.
pub fn stage_title(stage: &Stage) -> (result: String)
    ensures
        result@ == stage_words(stage@),
{
    match stage {
        Stage::FinalizingAudio => "Finishing the recording".to_owned(),
        Stage::Transcribing { completed, total } => {
            if *total > 1 {
                let mut title: String = "Transcribing · ".to_owned();
                push_decimal(&mut title, *completed as u64);
                title.append(" of ");
                push_decimal(&mut title, *total as u64);
                title
            } else {
                "Transcribing".to_owned()
            }
        },
        Stage::CleaningUp => "Cleaning up the text".to_owned(),
        Stage::Delivering => "Delivering text".to_owned(),
        Stage::Cancelling => "Cancelling…".to_owned(),
        Stage::RemovingRecording => "Removing saved audio…".to_owned(),
        Stage::Unknown(stage) => stage.clone(),
    }
}

/// The mark of a recording.
pub open spec fn stamp_of(take: TakeView) -> Stamp {
    if take.text_available && take.partial {
        Stamp::Partial
    } else if take.text_available {
        Stamp::Complete
    } else if take.audio_available && take.unresolved {
        Stamp::Attention
    } else {
        Stamp::Rest
    }
}

/// The mark of a recording.
pub fn take_stamp(take: &Take) -> (result: Stamp)
    ensures
        result == stamp_of(take@),
{
    if take.text_available && take.partial {
        Stamp::Partial
    } else if take.text_available {
        Stamp::Complete
    } else if take.audio_available && take.unresolved {
        Stamp::Attention
    } else {
        Stamp::Rest
    }
}

/// What is there of a recording.
pub open spec fn facts_words(take: TakeView) -> Seq<char> {
    (if take.partial && take.text_available {
        "Partial text"@
    } else if take.text_available {
        "Complete text"@
    } else {
        "No transcript"@
    }) + " · "@ + (if take.audio_available {
        "audio kept"@
    } else {
        "audio not kept"@
    })
}

/// What is there of a recording.
pub fn take_facts(take: &Take) -> (result: String)
    ensures
        result@ == facts_words(take@),
{
    let mut facts: String = if take.partial && take.text_available {
        "Partial text".to_owned()
    } else if take.text_available {
        "Complete text".to_owned()
    } else {
        "No transcript".to_owned()
    };
    facts.append(" · ");
    facts.append(
        if take.audio_available {
            "audio kept"
        } else {
            "audio not kept"
        },
    );
    facts
}

/// How a recording's row is announced.
pub open spec fn row_announcement(
    take: TakeView,
    time: Option<LocalTime>,
    days: CalendarDays,
    waiting: bool,
) -> Seq<char> {
    row_words(time, days) + ", "@ + facts_words(take) + ", "@ + short_words(take.duration_ms) + (
    if waiting {
        ", waiting"@
    } else {
        Seq::empty()
    })
}

/// A recording's row: its time, facts and duration, whether it shows that it waits,
/// and how it is announced.
#[derive(Debug, PartialEq, Eq)]
pub struct TakeRow {
    pub stamp: Stamp,
    pub time: String,
    pub facts: String,
    pub duration: String,
    pub waiting: bool,
    pub announcement: String,
}

/// A recording's row.
pub fn take_row(
    take: &Take,
    time: Option<LocalTime>,
    days: &CalendarDays,
    show_waiting: bool,
) -> (result: TakeRow)
    ensures
        result.stamp == stamp_of(take@),
        result.time@ == row_words(time, *days),
        result.facts@ == facts_words(take@),
        result.duration@ == short_words(take.duration_ms),
        result.waiting == (show_waiting && take.unresolved),
        result.announcement@ == row_announcement(
            take@,
            time,
            *days,
            show_waiting && take.unresolved,
        ),
{
    let time = row_time(time, days);
    let facts = take_facts(take);
    let duration = short_duration(take.duration_ms);
    let waiting = show_waiting && take.unresolved;
    let mut announcement: String = time.clone();
    announcement.append(", ");
    announcement.append(facts.as_str());
    announcement.append(", ");
    announcement.append(duration.as_str());
    if waiting {
        announcement.append(", waiting");
    }
    proof {
        let plain = time@ + ", "@ + facts@ + ", "@ + duration@;
        assert(plain + Seq::<char>::empty() =~= plain);
    }
    TakeRow { stamp: take_stamp(take), time, facts, duration, waiting, announcement }
}

/// Keys that move in the list of recordings.
#[derive(Clone, Copy, Debug, PartialEq, Eq, Structural)]
pub enum RowKey {
    ArrowDown,
    ArrowUp,
    PageDown,
    PageUp,
    Home,
    End,
    Other,
}

/// The row that a key leads to: never beyond the first or the last one.
pub open spec fn row_after(
    current: Option<usize>,
    count: usize,
    key: RowKey,
    page: usize,
) -> Option<int> {
    let last = count - 1;
    if count == 0 {
        None
    } else {
        match key {
            RowKey::Home => Some(0),
            RowKey::End => Some(last),
            RowKey::ArrowDown => Some(
                match current {
                    Some(row) => lesser(row + 1, last),
                    None => 0,
                },
            ),
            RowKey::ArrowUp => Some(
                match current {
                    Some(row) => greater(row - 1, 0),
                    None => last,
                },
            ),
            RowKey::PageDown => Some(
                match current {
                    Some(row) => lesser(row + page, last),
                    None => 0,
                },
            ),
            RowKey::PageUp => Some(
                match current {
                    Some(row) => greater(row - page, 0),
                    None => last,
                },
            ),
            RowKey::Other => match current {
                Some(row) => Some(lesser(row as int, last)),
                None => None,
            },
        }
    }
}

/// The lesser of two numbers.
pub open spec fn lesser(a: int, b: int) -> int {
    if a <= b {
        a
    } else {
        b
    }
}

/// The greater of two numbers.
pub open spec fn greater(a: int, b: int) -> int {
    if a >= b {
        a
    } else {
        b
    }
}

fn smaller_of(a: usize, b: usize) -> (result: usize)
    ensures
        result == lesser(a as int, b as int),
{
    if a <= b {
        a
    } else {
        b
    }
}

/// The row that a key leads to.
pub fn moved_recording_row(
    current: Option<usize>,
    count: usize,
    key: RowKey,
    page: usize,
) -> (result: Option<usize>)
    ensures
        match result {
            Some(row) => row_after(current, count, key, page) == Some(row as int),
            None => row_after(current, count, key, page) is None,
        },
{
    if count == 0 {
        return None;
    }
    let last: usize = count - 1;
    match key {
        RowKey::Home => Some(0),
        RowKey::End => Some(last),
        RowKey::ArrowDown => match current {
            Some(row) => Some(smaller_of(row.saturating_add(1), last)),
            None => Some(0),
        },
        RowKey::ArrowUp => match current {
            Some(row) => Some(row.saturating_sub(1)),
            None => Some(last),
        },
        RowKey::PageDown => match current {
            Some(row) => Some(smaller_of(row.saturating_add(page), last)),
            None => Some(0),
        },
        RowKey::PageUp => match current {
            Some(row) => Some(row.saturating_sub(page)),
            None => Some(last),
        },
        RowKey::Other => match current {
            Some(row) => Some(smaller_of(row, last)),
            None => None,
        },
    }
}

/// Keys never lead out of the list.
pub proof fn navigation_stays_in_the_list(
    current: Option<usize>,
    count: usize,
    key: RowKey,
    page: usize,
)
    requires
        current is Some ==> current->0 < count,
    ensures
        match row_after(current, count, key, page) {
            Some(row) => 0 <= row < count,
            None => count == 0 || (key == RowKey::Other && current is None),
        },
{
}

/// Keep the first part of a command's output.
pub fn keep_output(kept: &mut Vec<u8>, chunk: &Vec<u8>)
    requires
        old(kept)@.len() <= OUTPUT_LIMIT,
    ensures
        final(kept)@ == (old(kept)@ + chunk@).take(
            lesser((old(kept)@ + chunk@).len() as int, OUTPUT_LIMIT as int),
        ),
{
    let room: usize = OUTPUT_LIMIT - kept.len();
    let keep: usize = smaller_of(chunk.len(), room);
    let ghost before = kept@;
    let mut index: usize = 0;
    assert(before + chunk@.take(0) =~= before);
    while index < keep
        invariant
            index <= keep <= chunk@.len(),
            kept@ == before + chunk@.take(index as int),
        decreases keep - index,
    {
        kept.push(chunk[index]);
        index += 1;
        assert(kept@ =~= before + chunk@.take(index as int));
    }
    assert(kept@ =~= (before + chunk@).take(
        lesser((before + chunk@).len() as int, OUTPUT_LIMIT as int),
    ));
}

/// A line without the carriage return of its end, where it has an end.
pub open spec fn plain_line(line: Seq<char>, ended: bool) -> Seq<char> {
    if ended {
        without_return(line)
    } else {
        line
    }
}

/// A line of a report.
pub open spec fn report_line(lines: Seq<Seq<char>>, index: int) -> Seq<char> {
    plain_line(lines[index], index < lines.len() - 1)
}

/// A line without the carriage return of its end, where it has an end.
pub(crate) fn plain_line_of(line: &str, ended: bool) -> (result: String)
    ensures
        result@ == plain_line(line@, ended),
{
    if ended {
        drop_return(line)
    } else {
        line.to_owned()
    }
}

/// The value that a line gives a property.
pub open spec fn line_value(line: Seq<char>, key: Seq<char>) -> Option<Seq<char>> {
    let at = separator_index(line, '=', 0);
    if at < line.len() && line.take(at as int) == key {
        Some(line.skip(at as int + 1))
    } else {
        None
    }
}

/// The value of a property: that of the first line that gives one.
pub open spec fn property_value(
    lines: Seq<Seq<char>>,
    key: Seq<char>,
    from: nat,
) -> Option<Seq<char>>
    decreases lines.len() - from,
{
    if from >= lines.len() {
        None
    } else {
        match line_value(report_line(lines, from as int), key) {
            Some(value) => Some(value),
            None => property_value(lines, key, from + 1),
        }
    }
}

fn value_in(line: &str, key: &str) -> (result: Option<String>)
    ensures
        match result {
            Some(value) => line_value(line@, key@) == Some(value@),
            None => line_value(line@, key@) is None,
        },
{
    let chars = chars_of(line);
    let mut at: usize = 0;
    while at < chars.len() && chars[at] != '='
        invariant
            at <= chars@.len(),
            chars@ == line@,
            separator_index(line@, '=', 0) == separator_index(line@, '=', at as nat),
        decreases chars@.len() - at,
    {
        at += 1;
    }
    if at == chars.len() {
        return None;
    }
    let name = text_of(&chars, 0, at);
    assert(line@.take(at as int) =~= line@.subrange(0, at as int));
    assert(line@.skip(at + 1) =~= line@.subrange(at + 1, line@.len() as int));
    if same(name.as_str(), key) {
        Some(text_of(&chars, at + 1, chars.len()))
    } else {
        None
    }
}

/// The value of a property in a report.
pub fn property(properties: &str, key: &str) -> (result: Option<String>)
    ensures
        match result {
            Some(value) => property_value(pieces(properties@, '\n'), key@, 0) == Some(value@),
            None => property_value(pieces(properties@, '\n'), key@, 0) is None,
        },
{
    let lines = split(properties, '\n');
    let ghost views = pieces(properties@, '\n');
    let mut index: usize = 0;
    while index < lines.len()
        invariant
            index <= lines@.len() == views.len(),
            texts(lines@) == views,
            views == pieces(properties@, '\n'),
            property_value(views, key@, 0) == property_value(views, key@, index as nat),
        decreases lines@.len() - index,
    {
        assert(texts(lines@)[index as int] == lines@[index as int]@);
        let line = plain_line_of(lines[index].as_str(), index < lines.len() - 1);
        let value = value_in(line.as_str(), key);
        if value.is_some() {
            return value;
        }
        index += 1;
    }
    None
}

/// What the window says first.
pub open spec fn hero_words(
    observed: bool,
    status: Option<StatusSnapshotView>,
) -> HeroView {
    if !observed {
        HeroView {
            stamp: Stamp::Rest,
            title: "Connecting to Cantrip…"@,
            elapsed: None,
            sentence: "Reading live status and saved recordings."@,
        }
    } else {
        match status {
            None => HeroView {
                stamp: Stamp::Attention,
                title: "Cantrip isn't running"@,
                elapsed: None,
                sentence: "Live status is unknown. Saved recordings below are read from disk; actions need Cantrip running."@,
            },
            Some(status) => match status.stage {
                Some(stage) => HeroView {
                    stamp: Stamp::Live,
                    title: stage_words(stage),
                    elapsed: None,
                    sentence: "Cantrip is working on the latest recording."@,
                },
                None => match status.state {
                    StateKindView::Idle => HeroView {
                        stamp: Stamp::Idle,
                        title: "Ready"@,
                        elapsed: None,
                        sentence: if status.pending_recordings == 0 {
                            "Nothing is waiting."@
                        } else if status.pending_recordings == 1 {
                            "1 recording is waiting for a decision."@
                        } else {
                            decimal(status.pending_recordings as nat)
                                + " recordings are waiting for a decision."@
                        },
                    },
                    StateKindView::Recording => if status.signal is None {
                        HeroView {
                            stamp: Stamp::Live,
                            title: "Starting microphone…"@,
                            elapsed: None,
                            sentence: "Recording begins as soon as the microphone answers."@,
                        }
                    } else {
                        HeroView {
                            stamp: Stamp::Live,
                            title: "Recording"@,
                            elapsed: Some(
                                decimal((status.elapsed / 60) as nat) + ":"@ + two_digits(
                                    (status.elapsed % 60) as nat,
                                ),
                            ),
                            sentence: "Stop to transcribe and deliver the text."@,
                        }
                    },
                    StateKindView::Processing => HeroView {
                        stamp: Stamp::Live,
                        title: "Working"@,
                        elapsed: None,
                        sentence: "Cantrip is working on the latest recording."@,
                    },
                    StateKindView::Unknown(_) => HeroView {
                        stamp: Stamp::Attention,
                        title: "State unknown"@,
                        elapsed: None,
                        sentence: "Cantrip reported a state this window doesn't recognise."@,
                    },
                },
            },
        }
    }
}

fn plain_hero(stamp: Stamp, title: &str, sentence: &str) -> (result: Hero)
    ensures
        result@ == (HeroView { stamp, title: title@, elapsed: None, sentence: sentence@ }),
{
    Hero { stamp, title: title.to_owned(), elapsed: None, sentence: sentence.to_owned() }
}

/// What the window says first, given whether anything was observed yet and the status
/// that was.
pub fn hero(observed: bool, status: Option<&StatusSnapshot>) -> (result: Hero)
    ensures
        result@ == hero_words(
            observed,
            match status {
                Some(status) => Some(status@),
                None => None,
            },
        ),
{
    if !observed {
        return plain_hero(
            Stamp::Rest,
            "Connecting to Cantrip…",
            "Reading live status and saved recordings.",
        );
    }
    let Some(status) = status else {
        return plain_hero(
            Stamp::Attention,
            "Cantrip isn't running",
            "Live status is unknown. Saved recordings below are read from disk; actions need Cantrip running.",
        );
    };
    if let Some(stage) = &status.stage {
        return Hero {
            stamp: Stamp::Live,
            title: stage_title(stage),
            elapsed: None,
            sentence: "Cantrip is working on the latest recording.".to_owned(),
        };
    }
    match &status.state {
        StateKind::Idle => {
            let sentence = if status.pending_recordings == 0 {
                "Nothing is waiting.".to_owned()
            } else if status.pending_recordings == 1 {
                "1 recording is waiting for a decision.".to_owned()
            } else {
                let mut sentence = digits_of(status.pending_recordings as u64);
                sentence.append(" recordings are waiting for a decision.");
                sentence
            };
            Hero { stamp: Stamp::Idle, title: "Ready".to_owned(), elapsed: None, sentence }
        },
        StateKind::Recording => {
            if status.signal.is_none() {
                plain_hero(
                    Stamp::Live,
                    "Starting microphone…",
                    "Recording begins as soon as the microphone answers.",
                )
            } else {
                let mut elapsed = digits_of(status.elapsed / 60);
                elapsed.append(":");
                push_two_digits(&mut elapsed, status.elapsed % 60);
                Hero {
                    stamp: Stamp::Live,
                    title: "Recording".to_owned(),
                    elapsed: Some(elapsed),
                    sentence: "Stop to transcribe and deliver the text.".to_owned(),
                }
            }
        },
        StateKind::Processing => plain_hero(
            Stamp::Live,
            "Working",
            "Cantrip is working on the latest recording.",
        ),
        StateKind::Unknown(_) => plain_hero(
            Stamp::Attention,
            "State unknown",
            "Cantrip reported a state this window doesn't recognise.",
        ),
    }
}

} // verus!
