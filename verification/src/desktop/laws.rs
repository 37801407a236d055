//! What holds of delivery permits, of the event stream that revokes them, and of the
//! answers that name a window.

use crate::desktop::events::{
    complete_events, focus_changes, lemma_line_end, line_end, unfinished_event,
};
use crate::desktop::parse::focus_reply;
use crate::desktop::{moved_on, Focus, History, SafetyError, Stamp, OBSERVER_GAP};
use crate::text::{
    digit_char, digit_value, digits_value, numeral, pieces, separator_index, trimmed,
};
use vstd::prelude::*;
use vstd::utf8::*;

verus! {

/// Any change, and fewer than a whole cycle of the counter, revokes every permit
/// that held before.
pub proof fn change_revokes_permits(
    history: History,
    stamp: Stamp,
    changes: nat,
    before: Option<u64>,
    before_suspended: Option<u64>,
    now: Option<u64>,
    suspended: Option<u64>,
)
    requires
        history.permit(stamp, before, before_suspended) is Ok,
        0 < changes < 0x1_0000_0000_0000_0000,
    ensures
        ({
            let later = History { generation: moved_on(history.generation, changes), ..history };
            later.permit(stamp, now, suspended) is Err
        }),
{
}

/// A reconnected observer accepts fresh captures but never an old permit: what held
/// before the connection was lost does not hold after, at whatever time.
pub proof fn reconnection_never_revalidates(
    history: History,
    stamp: Stamp,
    before: Option<u64>,
    before_suspended: Option<u64>,
    connected: u64,
    now: Option<u64>,
    suspended: Option<u64>,
)
    requires
        history.permit(stamp, before, before_suspended) is Ok,
    ensures
        history.invalidated().permit(stamp, now, suspended) is Err,
        (History { alive: true, last_poll: connected, ..history.invalidated() }).permit(
            stamp,
            now,
            suspended,
        ) is Err,
{
}

/// A permit that was just captured holds, and so does no permit without an
/// observer, with a silent one, or after a suspend.
pub proof fn permits_need_an_unbroken_history(
    history: History,
    stamp: Stamp,
    now: Option<u64>,
    suspended: Option<u64>,
)
    ensures
        history.capture(true, now, suspended) == Ok::<Stamp, SafetyError>(stamp)
            ==> history.permit(stamp, now, suspended) is Ok,
        !history.alive ==> history.permit(stamp, now, suspended) is Err,
        now is None || now->0 > history.last_poll + OBSERVER_GAP ==> history.permit(
            stamp,
            now,
            suspended,
        ) is Err,
        history.generation != stamp.generation ==> history.permit(stamp, now, suspended) is Err,
{
}

/// A failed sample revokes the permits that held before it.
pub proof fn failed_sample_revokes_permits(
    history: History,
    stamp: Stamp,
    error: SafetyError,
    before: Option<u64>,
    before_suspended: Option<u64>,
    now: Option<u64>,
    suspended: Option<u64>,
)
    requires
        history.permit(stamp, before, before_suspended) is Ok,
    ensures
        ({
            let later = History {
                generation: moved_on(history.generation, 1),
                cached: Err(error),
                ..history
            };
            later.permit(stamp, now, suspended) is Err && later.capture(true, now, suspended) is Err
        }),
{
}

/// A capture while a sample is being published is refused at once.
pub proof fn capture_never_waits(history: History, now: Option<u64>, suspended: Option<u64>)
    ensures
        history.capture(false, now, suspended) == Err::<Stamp, SafetyError>(SafetyError::Unknown),
{
}

/// More bytes do not move a line end that was found.
proof fn lemma_line_end_stays(first: Seq<u8>, second: Seq<u8>, from: nat)
    requires
        from <= first.len(),
        line_end(first, from) < first.len(),
    ensures
        line_end(first + second, from) == line_end(first, from),
    decreases first.len() - from,
{
    if from < first.len() && first[from as int] != 0x0a {
        lemma_line_end_stays(first, second, from + 1);
    }
}

proof fn lemma_line_end_shifts(bytes: Seq<u8>, start: nat, from: nat)
    requires
        start + from <= bytes.len(),
    ensures
        line_end(bytes, start + from) == start + line_end(bytes.skip(start as int), from),
    decreases bytes.len() - start - from,
{
    let rest = bytes.skip(start as int);
    if from < rest.len() && rest[from as int] != 0x0a {
        lemma_line_end_shifts(bytes, start, from + 1);
    }
}

/// Events do not depend on what came before them.
proof fn lemma_events_shift(bytes: Seq<u8>, start: nat, from: nat)
    requires
        start + from <= bytes.len(),
    ensures
        complete_events(bytes, start + from) == complete_events(bytes.skip(start as int), from),
        unfinished_event(bytes, start + from) == unfinished_event(bytes.skip(start as int), from),
    decreases bytes.len() - start - from,
{
    let rest = bytes.skip(start as int);
    let end = line_end(rest, from);
    lemma_line_end_shifts(bytes, start, from);
    lemma_line_end(rest, from);
    if end < rest.len() {
        lemma_events_shift(bytes, start, end + 1);
        assert(bytes.subrange((start + from) as int, (start + end) as int) =~= rest.subrange(
            from as int,
            end as int,
        ));
    } else {
        assert(bytes.skip((start + from) as int) =~= rest.skip(from as int));
    }
}

proof fn lemma_reads_join_from(first: Seq<u8>, second: Seq<u8>, from: nat)
    requires
        from <= first.len(),
    ensures
        complete_events(first + second, from) == complete_events(first, from) + complete_events(
            unfinished_event(first, from) + second,
            0,
        ),
        unfinished_event(first + second, from) == unfinished_event(
            unfinished_event(first, from) + second,
            0,
        ),
    decreases first.len() - from,
{
    let all = first + second;
    let end = line_end(first, from);
    lemma_line_end(first, from);
    if end < first.len() {
        lemma_line_end_stays(first, second, from);
        lemma_reads_join_from(first, second, end + 1);
        assert(all.subrange(from as int, end as int) =~= first.subrange(from as int, end as int));
    } else {
        lemma_events_shift(all, from, 0);
        assert(all.skip(from as int) =~= first.skip(from as int) + second);
    }
}

proof fn lemma_focus_changes_add_up(first: Seq<Seq<u8>>, second: Seq<Seq<u8>>)
    ensures
        focus_changes(first + second) == focus_changes(first) + focus_changes(second),
    decreases first.len(),
{
    if first.len() == 0 {
        assert(first + second =~= second);
    } else {
        lemma_focus_changes_add_up(first.skip(1), second);
        assert((first + second).skip(1) =~= first.skip(1) + second);
    }
}

/// It does not matter how the event stream is cut into reads: two reads bring the
/// events of both together, leave the same unfinished event, find an awaited event just
/// as well, and move the history on as far.
pub proof fn reads_join(first: Seq<u8>, second: Seq<u8>, awaited: Seq<u8>, generation: u64)
    ensures
        complete_events(first + second, 0) == complete_events(first, 0) + complete_events(
            unfinished_event(first, 0) + second,
            0,
        ),
        unfinished_event(first + second, 0) == unfinished_event(
            unfinished_event(first, 0) + second,
            0,
        ),
        complete_events(first + second, 0).contains(awaited) == (complete_events(first, 0).contains(
            awaited,
        ) || complete_events(unfinished_event(first, 0) + second, 0).contains(awaited)),
        moved_on(generation, focus_changes(complete_events(first + second, 0))) == moved_on(
            moved_on(generation, focus_changes(complete_events(first, 0))),
            focus_changes(complete_events(unfinished_event(first, 0) + second, 0)),
        ),
{
    broadcast use vstd::seq_lib::group_seq_properties;

    lemma_reads_join_from(first, second, 0);
    lemma_focus_changes_add_up(
        complete_events(first, 0),
        complete_events(unfinished_event(first, 0) + second, 0),
    );
}

/// A number in digits of the given base.
pub open spec fn written(n: nat, radix: nat) -> Seq<char>
    decreases n,
{
    if radix < 2 || n < radix {
        seq![digit_char(n)]
    } else {
        proof {
            assert(n / radix < n) by (nonlinear_arith)
                requires
                    2 <= radix <= n,
            ;
        }
        written(n / radix, radix).push(digit_char(n % radix))
    }
}

/// How the compositor names a window.
pub open spec fn focus_text(focus: Focus) -> Seq<char> {
    "focus"@ + seq!['|'] + ("0x"@ + written(focus.address as nat, 16) + seq!['|'] + (written(
        focus.stable_id as nat,
        16,
    ) + seq!['|'] + written(focus.pid as nat, 10)))
}

proof fn lemma_written(n: nat, radix: nat)
    requires
        2 <= radix <= 16,
    ensures
        written(n, radix).len() > 0,
        digits_value(written(n, radix), radix) == Some(n),
        forall|i: int|
            0 <= i < written(n, radix).len() ==> digit_value(
                #[trigger] written(n, radix)[i],
                radix,
            ) is Some,
    decreases n,
{
    let digits = written(n, radix);
    if n < radix {
        assert(digits.drop_last() =~= Seq::<char>::empty());
        assert(digits_value(digits.drop_last(), radix) == Some(0nat));
        assert(digit_value(digit_char(n), radix) == Some(n));
        assert(0 * radix == 0) by (nonlinear_arith);
    } else {
        let high = n / radix;
        let low = n % radix;
        assert(high < n && high * radix + low == n && low < radix) by (nonlinear_arith)
            requires
                2 <= radix <= n,
                high == n / radix,
                low == n % radix,
        ;
        lemma_written(high, radix);
        assert(digits.drop_last() =~= written(high, radix));
        assert(digit_value(digit_char(low), radix) == Some(low));
        assert forall|i: int| 0 <= i < digits.len() implies digit_value(
            #[trigger] digits[i],
            radix,
        ) is Some by {
            if i < digits.len() - 1 {
                assert(digits[i] == written(high, radix)[i]);
            }
        }
    }
}

proof fn lemma_numeral_read_back(n: nat, radix: nat, limit: nat)
    requires
        2 <= radix <= 16,
        n <= limit,
    ensures
        numeral(written(n, radix), radix, limit) == Some(n),
{
    lemma_written(n, radix);
    assert(digit_value(written(n, radix)[0], radix) is Some);
}

proof fn lemma_separator_found(s: Seq<char>, separator: char, from: nat, at: nat)
    requires
        from <= at < s.len(),
        s[at as int] == separator,
        forall|i: int| from <= i < at ==> s[i] != separator,
    ensures
        separator_index(s, separator, from) == at,
    decreases at - from,
{
    if from < at {
        lemma_separator_found(s, separator, from + 1, at);
    }
}

proof fn lemma_separator_missing(s: Seq<char>, separator: char, from: nat)
    requires
        from <= s.len(),
        forall|i: int| from <= i < s.len() ==> s[i] != separator,
    ensures
        separator_index(s, separator, from) == s.len(),
    decreases s.len() - from,
{
    if from < s.len() {
        lemma_separator_missing(s, separator, from + 1);
    }
}

proof fn lemma_first_piece(first: Seq<char>, rest: Seq<char>, separator: char)
    requires
        forall|i: int| 0 <= i < first.len() ==> first[i] != separator,
    ensures
        pieces(first + seq![separator] + rest, separator) == seq![first] + pieces(rest, separator),
{
    let whole = first + seq![separator] + rest;
    assert forall|i: int| 0 <= i < first.len() implies whole[i] != separator by {
        assert(whole[i] == first[i]);
    }
    lemma_separator_found(whole, separator, 0, first.len());
    assert(whole.take(first.len() as int) =~= first);
    assert(whole.skip(first.len() as int + 1) =~= rest);
}

proof fn lemma_digits_hold_no_bar(digits: Seq<char>, radix: nat)
    requires
        radix <= 16,
        forall|i: int| 0 <= i < digits.len() ==> digit_value(#[trigger] digits[i], radix) is Some,
    ensures
        forall|i: int| 0 <= i < digits.len() ==> digits[i] != '|',
{
    assert forall|i: int| 0 <= i < digits.len() implies digits[i] != '|' by {
        assert(digit_value(digits[i], radix) is Some);
    }
}

proof fn lemma_focus_pieces(focus: Focus)
    ensures
        pieces(focus_text(focus), '|') == seq![
            "focus"@,
            "0x"@ + written(focus.address as nat, 16),
            written(focus.stable_id as nat, 16),
            written(focus.pid as nat, 10),
        ],
{
    let address = written(focus.address as nat, 16);
    let stable_id = written(focus.stable_id as nat, 16);
    let pid = written(focus.pid as nat, 10);
    let second = "0x"@ + address;
    let third = stable_id + seq!['|'] + pid;
    lemma_written(focus.address as nat, 16);
    lemma_written(focus.stable_id as nat, 16);
    lemma_written(focus.pid as nat, 10);
    lemma_digits_hold_no_bar(address, 16);
    lemma_digits_hold_no_bar(stable_id, 16);
    lemma_digits_hold_no_bar(pid, 10);
    reveal_strlit("focus");
    reveal_strlit("0x");
    assert forall|i: int| 0 <= i < second.len() implies second[i] != '|' by {
        if i >= 2 {
            assert(second[i] == address[i - 2]);
        }
    }
    lemma_first_piece("focus"@, second + seq!['|'] + third, '|');
    lemma_first_piece(second, third, '|');
    lemma_first_piece(stable_id, pid, '|');
    lemma_separator_missing(pid, '|', 0);
    assert(pieces(pid, '|') == seq![pid]);
    assert(pieces(focus_text(focus), '|') =~= seq!["focus"@, second, stable_id, pid]);
}

proof fn lemma_focus_text(focus: Focus)
    ensures
        focus_text(focus)[0] == 'f',
        trimmed(focus_text(focus)) == focus_text(focus),
{
    let text = focus_text(focus);
    let pid = written(focus.pid as nat, 10);
    reveal_strlit("focus");
    lemma_written(focus.pid as nat, 10);
    assert(text.last() == pid[pid.len() - 1]);
    assert(digit_value(pid[pid.len() - 1], 10) is Some);
}

proof fn lemma_other_answers()
    ensures
        "layer"@[0] == 'l',
        "cantrip"@[0] == 'c',
        "none"@[0] == 'n',
{
    reveal_strlit("layer");
    reveal_strlit("cantrip");
    reveal_strlit("none");
}

/// What the compositor says of a window is read back as that window.
pub proof fn focus_is_read_back(focus: Focus)
    requires
        focus.address > 0,
        focus.stable_id > 0,
        focus.pid > 0,
    ensures
        valid_utf8(encode_utf8(focus_text(focus))),
        focus_reply(trimmed(decode_utf8(encode_utf8(focus_text(focus))))) == Ok::<_, SafetyError>(
            focus,
        ),
{
    let address = written(focus.address as nat, 16);
    let second = "0x"@ + address;
    encode_utf8_valid_utf8(focus_text(focus));
    encode_utf8_decode_utf8(focus_text(focus));
    lemma_other_answers();
    lemma_focus_text(focus);
    lemma_focus_pieces(focus);
    lemma_numeral_read_back(focus.address as nat, 16, u64::MAX as nat);
    lemma_numeral_read_back(focus.stable_id as nat, 16, u64::MAX as nat);
    lemma_numeral_read_back(focus.pid as nat, 10, u32::MAX as nat);
    assert(second.take("0x"@.len() as int) =~= "0x"@);
    assert(second.skip("0x"@.len() as int) =~= address);
}

} // verus!
