//! When text may be sent to a window, and what revokes that.

use crate::desktop::events::{
    complete_events, ends_observation, event_name, events_in, focus_changes, is_focus_event,
    left_of, line_end, observed, revoking_signal, unfinished_event, Drain, DrainStep,
    PropertiesRead, StreamRead,
};
use crate::desktop::parse::{
    diagnostics, direct_desktop, focus_reply, hexadecimal, is_instance, is_session_id, is_trusted,
    is_name_part, is_unique_name, named_controller, named_session, nonce_text, session_check, setting_values,
    socket_place, variable_values, zero_index, SessionFacts, SocketError, SocketFacts, SocketPlace,
};
use crate::desktop::{
    answered, moved_on, time_suspended, Focus, Guard, History, SafetyError, Sample, Stamp,
};
use crate::json::JsonView;
use crate::text::{digit_char, is_white_space, pieces};
use vstd::prelude::*;
use vstd::string::*;

verus! {

/// Text may be sent exactly while the observer is connected and looked at the desktop within
/// a quarter of a second, nothing has changed since the stamp, and the system was not
/// suspended meanwhile.
pub proof fn permit_needs_an_unchanged_desktop(
    history: History,
    stamp: Stamp,
    now: u64,
    suspended: u64,
)
    ensures
        history.permit(stamp, Some(now), Some(suspended)) is Ok <==> {
            &&& history.alive
            &&& now <= history.last_poll + 250_000_000
            &&& history.generation == stamp.generation
            &&& suspended <= stamp.suspend_offset + 10_000_000
            &&& stamp.suspend_offset <= suspended + 10_000_000
        },
        history.permit(stamp, None, Some(suspended)) is Err,
        history.permit(stamp, Some(now), None) is Err,
{
}

/// A refusal says that something changed exactly where it is known that something did.
pub proof fn refusals_tell_changes_from_ignorance(
    history: History,
    stamp: Stamp,
    now: u64,
    suspended: u64,
)
    requires
        history.permit(stamp, Some(now), Some(suspended)) is Err,
    ensures
        ({
            let refusal = history.permit(stamp, Some(now), Some(suspended))->Err_0;
            let watched = history.alive && now <= history.last_poll + 250_000_000;
            &&& refusal == SafetyError::Changed <==> watched
            &&& refusal == SafetyError::Unknown <==> !watched
        }),
{
}

/// A stamp is given out exactly where it is permitted, and it is the one that was sampled
/// last.
pub proof fn only_a_permitted_stamp_is_captured(
    history: History,
    now: Option<u64>,
    suspended: Option<u64>,
)
    ensures
        history.capture(true, now, suspended) is Ok <==> history.cached is Ok && history.permit(
            history.cached->Ok_0,
            now,
            suspended,
        ) is Ok,
        history.capture(true, now, suspended) is Ok ==> history.capture(true, now, suspended)->Ok_0
            == history.cached->Ok_0,
        history.cached is Err ==> history.capture(true, now, suspended) == Err::<
            Stamp,
            SafetyError,
        >(history.cached->Err_0),
{
}

/// A sample is kept as it came; one that failed revokes what was permitted before, one that
/// succeeded does not.
pub proof fn failed_samples_revoke(
    history: History,
    sample: Result<Stamp, SafetyError>,
    stamp: Stamp,
    now: Option<u64>,
    suspended: Option<u64>,
)
    requires
        history.generation == stamp.generation,
    ensures
        ({
            let after = history.published(sample);
            &&& after.cached == sample
            &&& after.alive == history.alive && after.last_poll == history.last_poll
            &&& sample is Err ==> after.permit(stamp, now, suspended) is Err
            &&& sample is Ok ==> after.permit(stamp, now, suspended) == history.permit(
                stamp,
                now,
                suspended,
            )
        }),
{
}

/// A connection that is lost ends every permit, and one that is made brings none back.
pub proof fn lost_connections_end_permits(
    history: History,
    stamp: Stamp,
    connected: u64,
    now: Option<u64>,
    suspended: Option<u64>,
)
    requires
        history.generation == stamp.generation,
    ensures
        history.invalidated().permit(stamp, now, suspended) is Err,
        history.invalidated().reconnected(connected).permit(stamp, now, suspended) is Err,
        history.reconnected(connected).alive,
        history.reconnected(connected).last_poll == connected,
        history.reconnected(connected).generation == history.generation,
        !history.invalidated().alive,
        history.invalidated().requested() is Err,
        history.reconnected(connected).requested() == Ok::<u64, SafetyError>(history.generation),
{
}

/// An observer that was late, or a system that slept, revokes what was permitted; otherwise
/// a look at the clocks keeps it.
pub proof fn gaps_revoke(
    history: History,
    stamp: Stamp,
    now: u64,
    suspended: u64,
    last_suspended: u64,
    then: Option<u64>,
    offset: Option<u64>,
)
    requires
        history.generation == stamp.generation,
    ensures
        ({
            let after = history.ticked(now, suspended, last_suspended);
            let late = history.last_poll != 0 && now > history.last_poll + 250_000_000;
            let slept = suspended > last_suspended + 10_000_000 || last_suspended > suspended
                + 10_000_000;
            &&& after.last_poll == now && after.alive == history.alive && after.cached
                == history.cached
            &&& late || slept ==> after.permit(stamp, then, offset) is Err
            &&& !late && !slept ==> after.generation == history.generation
        }),
{
}

/// A sample is wanted for every change, and again where one was asked for and the time has
/// come.
pub proof fn samples_are_due_after_changes(
    history: History,
    sampled: Option<u64>,
    now: u64,
    refresh_after: u64,
)
    ensures
        sampled is None ==> history.due(sampled, now, refresh_after),
        sampled is Some && sampled->0 != history.generation ==> history.due(
            sampled,
            now,
            refresh_after,
        ),
        sampled == Some(history.generation) ==> (history.due(sampled, now, refresh_after)
            <==> history.refresh_requested && now >= refresh_after),
{
}

/// A sample counts only where nothing changed while it was taken, and then it tells what was
/// seen.
pub proof fn undisturbed_samples_count(
    sample: Sample,
    focus: Focus,
    pending: bool,
    generation: u64,
    suspended: u64,
)
    ensures
        ({
            let outcome = sample.outcome(focus, pending, generation, Some(suspended));
            &&& outcome is Ok <==> !pending && generation == sample.generation && suspended
                <= sample.suspend_offset + 10_000_000 && sample.suspend_offset <= suspended
                + 10_000_000
            &&& outcome is Ok ==> outcome->Ok_0 == (Stamp {
                focus,
                generation: sample.generation,
                suspend_offset: sample.suspend_offset,
                compositor: sample.compositor,
            })
            &&& outcome is Err ==> outcome->Err_0 == SafetyError::Changed
        }),
        sample.outcome(focus, pending, generation, None) is Err,
{
}

/// A sample begins only where no event waits and the clock can be read.
pub proof fn samples_begin_in_quiet(
    pending: bool,
    generation: u64,
    suspended: Option<u64>,
    compositor: i32,
)
    ensures
        ({
            let begun = Sample::begun(pending, generation, suspended, compositor);
            &&& begun is Ok <==> !pending && suspended is Some
            &&& begun is Ok ==> begun->Ok_0.generation == generation
                && begun->Ok_0.suspend_offset == suspended->0 && begun->Ok_0.compositor
                == compositor
        }),
{
}

/// A destination is confirmed exactly where the later sample shows the same window and
/// nothing changed in between.
pub proof fn destination_is_confirmed_by_the_same_window(
    guard: Guard,
    initial: Stamp,
    current: Stamp,
)
    requires
        guard.stamp == Ok::<Stamp, SafetyError>(initial),
    ensures
        guard.confirmed(Ok(current)) is Ok <==> current.focus.address == initial.focus.address
            && current.focus.stable_id == initial.focus.stable_id && current.focus.pid
            == initial.focus.pid && current.generation == initial.generation,
        guard.confirmed(Ok(current)) is Err ==> guard.confirmed(Ok(current))->Err_0
            == SafetyError::Changed,
{
}

/// A guard without a stamp, or a sample that failed, confirms nothing.
pub proof fn nothing_is_confirmed_without_a_sample(
    guard: Guard,
    current: Result<Stamp, SafetyError>,
    error: SafetyError,
    history: History,
    now: Option<u64>,
    suspended: Option<u64>,
)
    ensures
        guard.stamp is Err ==> guard.confirmed(current) == Err::<(), SafetyError>(
            guard.stamp->Err_0,
        ) && guard.holds(history, now, suspended) is Err,
        guard.stamp is Ok ==> guard.confirmed(Err(error)) == Err::<(), SafetyError>(error),
        !guard.observed ==> guard.holds(history, now, suspended) == Err::<(), SafetyError>(
            SafetyError::Unknown,
        ),
        guard.observed && guard.stamp is Ok ==> guard.holds(history, now, suspended)
            == history.permit(guard.stamp->Ok_0, now, suspended),
{
}

/// A request is answered by a sample of the generation that it was made for.
pub proof fn requests_are_answered_by_their_generation(
    generation: u64,
    stamp: Stamp,
    error: SafetyError,
)
    ensures
        stamp.generation == generation ==> answered(generation, Ok(stamp)) == Ok::<
            Stamp,
            SafetyError,
        >(stamp),
        stamp.generation != generation ==> answered(generation, Ok(stamp)) == Err::<
            Stamp,
            SafetyError,
        >(SafetyError::Changed),
        answered(generation, Err(error)) == Err::<Stamp, SafetyError>(error),
{
}

/// The time suspended is what the clock that counts it is ahead of the one that does not.
pub proof fn suspension_is_the_difference_of_clocks(boot: u64, monotonic: u64)
    ensures
        boot >= monotonic ==> time_suspended(Some(boot), Some(monotonic)) == Some(
            (boot - monotonic) as u64,
        ),
        boot < monotonic ==> time_suspended(Some(boot), Some(monotonic)) == Some(0u64),
        time_suspended(None, Some(monotonic)) is None,
        time_suspended(Some(boot), None) is None,
{
}

/// Each refusal has its own words.
pub proof fn refusals_have_words()
    ensures
        SafetyError::Unknown.words()
            == "Desktop safety is unavailable; text was not sent. Use Copy from recordings."@,
        SafetyError::Changed.words()
            == "The destination, lock state, or session changed since stop; text was not sent."@,
        SafetyError::Locked.words()
            == "The desktop is locked or lock safety is unknown; text was not sent."@,
        SafetyError::LayerOpen.words()
            == "A keyboard-interactive desktop layer is open; text was not sent."@,
        SafetyError::OwnWindow.words()
            == "Cantrip's own window is focused; text was saved instead of sent."@,
        SafetyError::NoDestination.words()
            == "There is no verified text destination; text was not sent."@,
        SafetyError::SessionInactive.words()
            == "The local Wayland session is inactive, locked, or unknown; text was not sent."@,
        SafetyError::Sleeping.words() == "The system is preparing to sleep; text was not sent."@,
{
}

/// A session is fit for delivery exactly where it is active, unlocked, local, of the right
/// kind and state, and the system is not about to sleep.
pub proof fn only_an_active_session_is_fit(session: SessionFacts, sleeping: Option<bool>)
    ensures
        session_check(session, sleeping) is Ok <==> {
            &&& session.active == Some(true)
            &&& session.locked == Some(false)
            &&& session.remote == Some(false)
            &&& session.kind is Some && session.kind->0@ == "wayland"@
            &&& session.state is Some && session.state->0@ == "active"@
            &&& sleeping == Some(false)
        },
        session.locked != Some(false) ==> session_check(session, sleeping) == Err::<
            (),
            SafetyError,
        >(SafetyError::SessionInactive),
        session_check(session, sleeping) == Err::<(), SafetyError>(SafetyError::Sleeping)
            ==> sleeping == Some(true),
{
}

/// A desktop is trusted exactly where it drives the screen itself and tells of its layers.
pub proof fn only_a_direct_desktop_is_trusted(status: JsonView)
    ensures
        direct_desktop(status) is Ok <==> status.text_member("backend"@) == Some("drm"@)
            && status.text_member("configProvider"@) == Some("lua"@),
        status.text_member("backend"@) != Some("drm"@) ==> direct_desktop(status) == Err::<
            (),
            SafetyError,
        >(SafetyError::Nested),
{
}

/// A desktop whose configuration has errors, or whose answer is no list of them, is not
/// asked further.
pub proof fn configuration_errors_are_seen(items: Seq<JsonView>, at: int, i: int)
    requires
        0 <= at < items.len(),
    ensures
        !(items[at] is Text) ==> diagnostics(JsonView::Array(items)) == Err::<(), SafetyError>(
            SafetyError::Unknown,
        ),
        (forall|k: int| 0 <= k < items.len() ==> #[trigger] items[k] is Text) && 0 <= i
            < items[at]->Text_0.len() && !is_white_space(items[at]->Text_0[i]) ==> diagnostics(
            JsonView::Array(items),
        ) == Err::<(), SafetyError>(SafetyError::ConfigErrors),
        diagnostics(JsonView::Array(Seq::empty())) is Ok,
{
}

/// A desktop is asked further only where every error that it lists is empty.
pub proof fn listed_errors_must_be_empty(items: Seq<JsonView>, at: int, i: int)
    requires
        diagnostics(JsonView::Array(items)) is Ok,
        0 <= at < items.len(),
    ensures
        items[at] is Text,
        0 <= i < items[at]->Text_0.len() ==> is_white_space(items[at]->Text_0[i]),
{
}

/// Each answer that names no window is refused for its own reason, and any answer that is
/// not understood for want of one.
pub proof fn answers_without_a_window_are_refused(text: Seq<char>)
    ensures
        focus_reply("layer"@) == Err::<Focus, SafetyError>(SafetyError::LayerOpen),
        focus_reply("cantrip"@) == Err::<Focus, SafetyError>(SafetyError::OwnWindow),
        focus_reply("none"@) == Err::<Focus, SafetyError>(SafetyError::NoDestination),
        text != "layer"@ && text != "cantrip"@ && text != "none"@ && pieces(text, '|').len() != 4
            ==> focus_reply(text) == Err::<Focus, SafetyError>(SafetyError::Unknown),
        text != "layer"@ && text != "cantrip"@ && text != "none"@ && pieces(text, '|')[0]
            != "focus"@ ==> focus_reply(text) == Err::<Focus, SafetyError>(SafetyError::Unknown),
        focus_reply(text) is Ok ==> focus_reply(text)->Ok_0.address != 0
            && focus_reply(text)->Ok_0.stable_id != 0 && focus_reply(text)->Ok_0.pid != 0,
{
    reveal_strlit("layer");
    reveal_strlit("cantrip");
    reveal_strlit("none");
    assert("layer"@.len() == 5 && "cantrip"@.len() == 7 && "none"@.len() == 4);
}

/// The compositor is found at its own path or, by a plain name, in the runtime directory;
/// never over a connection that somebody else opened.
pub proof fn compositor_is_found_in_its_place(facts: SocketFacts)
    ensures
        facts.preopened ==> socket_place(facts) == Err::<SocketPlace, SocketError>(
            SocketError::Preopened,
        ),
        socket_place(facts) == Ok::<SocketPlace, SocketError>(SocketPlace::Display)
            <==> !facts.preopened && facts.display && facts.display_absolute,
        socket_place(facts) == Ok::<SocketPlace, SocketError>(SocketPlace::Runtime)
            <==> !facts.preopened && facts.display && !facts.display_absolute && facts.runtime
            && facts.runtime_absolute && facts.display_components == 1,
        !facts.preopened && !facts.display ==> socket_place(facts) == Err::<
            SocketPlace,
            SocketError,
        >(SocketError::NoDisplay),
        !facts.preopened && facts.display && !facts.display_absolute && !facts.runtime
            ==> socket_place(facts) == Err::<SocketPlace, SocketError>(SocketError::NoRuntime),
{
}

/// A file is trusted exactly where the system owns it and neither its group nor anybody else
/// can write it.
pub proof fn only_system_files_are_trusted(kind: bool, owner: u32, mode: u32)
    ensures
        is_trusted(kind, owner, mode) <==> kind && owner == 0 && (mode / 16) % 2 == 0 && (mode / 2)
            % 2 == 0,
{
    assert(mode & 0o022 == 0 <==> (mode / 16) % 2 == 0 && (mode / 2) % 2 == 0) by (bit_vector);
}

/// An instance has a plain name.
pub proof fn instances_have_plain_names(instance: Seq<char>, at: int)
    requires
        is_instance(instance),
        0 <= at < instance.len(),
    ensures
        instance[at] != '/' && instance[at] != '.' && instance[at] != '-' && instance[at] != '\0',
        instance.len() > 0,
{
    assert(crate::archive::is_id_char(instance[at]));
}

proof fn lemma_hexadecimal(a: nat, b: nat)
    ensures
        hexadecimal(a).len() > 0,
        hexadecimal(a) == hexadecimal(b) ==> a == b,
    decreases a,
{
    if a >= 16 {
        lemma_hexadecimal(a / 16, b / 16);
    }
    if b >= 16 {
        lemma_hexadecimal_length(b / 16);
    }
    if hexadecimal(a) == hexadecimal(b) {
        let text = hexadecimal(a);
        if a >= 16 && b >= 16 {
            assert(text.drop_last() =~= hexadecimal(a / 16));
            assert(text.drop_last() =~= hexadecimal(b / 16));
            assert(text.last() == digit_char(a % 16));
            assert(text.last() == digit_char(b % 16));
        } else if a < 16 && b < 16 {
            assert(text[0] == digit_char(a));
            assert(text[0] == digit_char(b));
        } else if a >= 16 {
            assert(text.len() == 1);
        } else {
            assert(text.len() == 1);
        }
    }
}

proof fn lemma_hexadecimal_length(n: nat)
    ensures
        hexadecimal(n).len() > 0,
    decreases n,
{
    if n >= 16 {
        lemma_hexadecimal_length(n / 16);
    }
}

/// A mark that is awaited is not taken for another one of the same process.
pub proof fn marks_are_told_apart(process: nat, boot: nat, serial: nat, other: nat)
    ensures
        nonce_text(process, boot, serial) == nonce_text(process, boot, other) ==> serial == other,
{
    let front = "cantrip-delivery-ready:"@ + crate::text::decimal(process) + ":"@ + hexadecimal(
        boot,
    ) + ":"@;
    let a = nonce_text(process, boot, serial);
    let b = nonce_text(process, boot, other);
    assert(a.skip(front.len() as int) =~= hexadecimal(serial));
    assert(b.skip(front.len() as int) =~= hexadecimal(other));
    lemma_hexadecimal(serial, other);
}

/// An event is known by what stands before its first sign of data.
pub proof fn events_are_known_by_their_name(name: Seq<u8>, data: Seq<u8>)
    requires
        forall|i: int| 0 <= i < name.len() ==> #[trigger] name[i] != 0x3e,
    ensures
        event_name(name + seq![0x3eu8] + data) == name,
        event_name(name) == name,
    decreases name.len(),
{
    let event = name + seq![0x3eu8] + data;
    if name.len() > 0 {
        assert forall|i: int| 0 <= i < name.skip(1).len() implies #[trigger] name.skip(1)[i]
            != 0x3e by {
            assert(name.skip(1)[i] == name[i + 1]);
        }
        events_are_known_by_their_name(name.skip(1), data);
        assert(event.skip(1) =~= name.skip(1) + seq![0x3eu8] + data);
        assert(event[0] == name[0]);
        assert(seq![name[0]] + name.skip(1) =~= name);
    } else {
        assert(event[0] == 0x3e);
        assert(name =~= Seq::empty());
    }
}

/// What changes the focus is another window, layer, workspace, monitor or configuration.
pub proof fn focus_changes_with_these_events(name: Seq<u8>)
    ensures
        is_focus_event("activewindowv2".spec_bytes()),
        is_focus_event("openlayer".spec_bytes()),
        is_focus_event("closelayer".spec_bytes()),
        is_focus_event("workspacev2".spec_bytes()),
        is_focus_event("focusedmonv2".spec_bytes()),
        is_focus_event("activespecial".spec_bytes()),
        is_focus_event("monitorremoved".spec_bytes()),
        is_focus_event("configreloaded".spec_bytes()),
{
}

/// Every event that changes the focus counts once.
pub proof fn focus_changes_are_counted(event: Seq<u8>, later: Seq<Seq<u8>>)
    ensures
        is_focus_event(event_name(event)) ==> focus_changes(seq![event] + later) == focus_changes(
            later,
        ) + 1,
        !is_focus_event(event_name(event)) ==> focus_changes(seq![event] + later)
            == focus_changes(later),
        focus_changes(Seq::empty()) == 0,
{
    assert((seq![event] + later).skip(1) =~= later);
}

proof fn lemma_line(line: Seq<u8>, rest: Seq<u8>, from: nat)
    requires
        from <= line.len(),
        forall|i: int| 0 <= i < line.len() ==> #[trigger] line[i] != 0x0a,
    ensures
        line_end(line + seq![0x0au8] + rest, from) == line.len(),
    decreases line.len() - from,
{
    let bytes = line + seq![0x0au8] + rest;
    if from < line.len() {
        assert(bytes[from as int] == line[from as int]);
        lemma_line(line, rest, from + 1);
    }
}

/// A line is an event once its end has come, and not before.
pub proof fn lines_are_events(line: Seq<u8>)
    requires
        forall|i: int| 0 <= i < line.len() ==> #[trigger] line[i] != 0x0a,
    ensures
        complete_events(line + seq![0x0au8], 0) == seq![line],
        unfinished_event(line + seq![0x0au8], 0).len() == 0,
        complete_events(line, 0).len() == 0,
        unfinished_event(line, 0) == line,
{
    let bytes = line + seq![0x0au8];
    lemma_line(line, Seq::empty(), 0);
    assert(line + seq![0x0au8] + Seq::<u8>::empty() =~= bytes);
    assert(bytes.subrange(0, line.len() as int) =~= line);
    reveal_with_fuel(complete_events, 2);
    reveal_with_fuel(unfinished_event, 2);
    lemma_unfinished(line, 0);
    assert(line.skip(0) =~= line);
    assert(line_end(bytes, bytes.len()) == bytes.len());
    assert(complete_events(bytes, bytes.len()) =~= Seq::empty());
    assert(unfinished_event(bytes, bytes.len()) =~= Seq::empty());
    assert(complete_events(bytes, 0) =~= seq![line]);
}

proof fn lemma_unfinished(line: Seq<u8>, from: nat)
    requires
        from <= line.len(),
        forall|i: int| 0 <= i < line.len() ==> #[trigger] line[i] != 0x0a,
    ensures
        line_end(line, from) == line.len(),
    decreases line.len() - from,
{
    if from < line.len() {
        lemma_unfinished(line, from + 1);
    }
}

/// What is read moves the history on by the changes of focus in it; a stream that pauses
/// inside an event does so too.
pub proof fn reads_move_the_history_on(history: History, read: StreamRead, pending: Seq<u8>)
    ensures
        ({
            let after = observed(history, read, pending);
            &&& read is Data ==> after.generation == moved_on(
                history.generation,
                focus_changes(complete_events(pending + read->Data_0@, 0)),
            )
            &&& read is WouldBlock && pending.len() > 0 ==> after.generation == moved_on(
                history.generation,
                1,
            )
            &&& read is Interrupted || read is Closed || read is Failed || (read is WouldBlock
                && pending.len() == 0) ==> after.generation == history.generation
            &&& after.alive == history.alive && after.last_poll == history.last_poll
                && after.cached == history.cached
            &&& !(read is Data) ==> left_of(read, pending) == pending && events_in(
                read,
                pending,
            ).len() == 0
            &&& read is Data ==> left_of(read, pending) == unfinished_event(
                pending + read->Data_0@,
                0,
            ) && events_in(read, pending) == complete_events(pending + read->Data_0@, 0)
        }),
{
}

/// Reading goes on until nothing more has come; it fails where the stream ends, where an
/// event grows beyond four kibibytes, and after sixty-four rounds.
pub proof fn reading_ends_when_nothing_has_come(drain: Drain, read: StreamRead, left: Seq<u8>)
    ensures
        read is Closed || read is Failed ==> drain.next(read, left) == DrainStep::Failed,
        read is WouldBlock ==> drain.next(read, left) == DrainStep::Done(drain.matched),
        read is Data && left.len() > 4096 ==> drain.next(read, left) == DrainStep::Failed,
        (read is Data || read is Interrupted) && drain.rounds + 1 >= 64 ==> drain.next(read, left)
            == DrainStep::Failed,
        read is Data && left.len() <= 4096 && drain.rounds + 1 < 64 ==> drain.next(read, left)
            == DrainStep::Continue,
        read is Interrupted && drain.rounds + 1 < 64 ==> drain.next(read, left)
            == DrainStep::Continue,
{
}

/// A signal of the system revokes permits where it tells of sleep, of shutdown or of the end
/// of a session, one of the own session where it tells of its lock, its devices or its state,
/// and any other never.
pub proof fn signals_revoke_by_what_they_tell(
    path: Seq<char>,
    member: Seq<char>,
    session_path: Seq<char>,
    interface: String,
    names: Vec<String>,
)
    requires
        session_path != "/org/freedesktop/login1"@,
    ensures
        ({
            let system = "/org/freedesktop/login1"@;
            let unread = PropertiesRead::Unreadable;
            let read = PropertiesRead::Read { interface, names };
            &&& revoking_signal(system, member, session_path, unread) <==> member
                == "PrepareForSleep"@ || member == "PrepareForShutdown"@ || member
                == "SessionRemoved"@
            &&& revoking_signal(session_path, "Lock"@, session_path, read)
            &&& revoking_signal(session_path, "Unlock"@, session_path, read)
            &&& revoking_signal(session_path, "PauseDevice"@, session_path, read)
            &&& revoking_signal(session_path, "ResumeDevice"@, session_path, read)
            &&& revoking_signal(session_path, "PropertiesChanged"@, session_path, unread)
            &&& path != system && path != session_path ==> !revoking_signal(
                path,
                member,
                session_path,
                unread,
            )
        }),
{
}

/// A change of a property that decides on delivery revokes permits exactly where it is one of
/// the session.
pub proof fn session_properties_revoke(
    session_path: Seq<char>,
    interface: String,
    names: Vec<String>,
    at: int,
)
    requires
        session_path != "/org/freedesktop/login1"@,
        0 <= at < names@.len(),
        names@[at]@ == "Active"@ || names@[at]@ == "LockedHint"@ || names@[at]@ == "State"@
            || names@[at]@ == "Type"@ || names@[at]@ == "Remote"@,
    ensures
        revoking_signal(
            session_path,
            "PropertiesChanged"@,
            session_path,
            PropertiesRead::Read { interface, names },
        ) <==> interface@ == "org.freedesktop.login1.Session"@,
{
    reveal_strlit("PropertiesChanged");
    reveal_strlit("Lock");
    reveal_strlit("Unlock");
    reveal_strlit("PauseDevice");
    reveal_strlit("ResumeDevice");
    assert("PropertiesChanged"@.len() == 17 && "Lock"@.len() == 4 && "Unlock"@.len() == 6
        && "PauseDevice"@.len() == 11 && "ResumeDevice"@.len() == 12);
    assert(crate::desktop::events::is_session_property(names@[at]@));
}

/// What is known ends where the session manager or the controller is replaced, or where it
/// is not known which was.
pub proof fn replaced_managers_end_what_is_known(name: Seq<char>, controller: Seq<char>)
    ensures
        ends_observation(None, Some(controller)),
        ends_observation(Some("org.freedesktop.login1"@), Some(controller)),
        ends_observation(Some(controller), Some(controller)),
        name != "org.freedesktop.login1"@ && name != controller ==> !ends_observation(
            Some(name),
            Some(controller),
        ),
        name != "org.freedesktop.login1"@ ==> !ends_observation(Some(name), None),
{
}

/// A setting is named once or not at all: the lines that hold it give its values in their
/// order.
pub proof fn settings_are_read_from_their_lines(
    lines: Seq<Seq<char>>,
    prefix: Seq<char>,
    value: Seq<char>,
    other: Seq<char>,
)
    requires
        value.len() > 0 ==> value.last() != '\r',
        prefix.len() > 0 && prefix.last() != '\r',
        other.len() > 0 ==> other.last() != '\r',
    ensures
        setting_values(lines.push(prefix + value), prefix) == setting_values(lines, prefix).push(
            value,
        ),
        setting_values(lines.push((prefix + value).push('\r')), prefix) == setting_values(
            lines,
            prefix,
        ).push(value),
        other.len() < prefix.len() || other[0] != prefix[0] ==> setting_values(
            lines.push(other),
            prefix,
        ) == setting_values(lines, prefix),
{
    let line = prefix + value;
    assert(lines.push(line).drop_last() =~= lines);
    assert(lines.push(line.push('\r')).drop_last() =~= lines);
    assert(lines.push(other).drop_last() =~= lines);
    assert(line.last() != '\r');
    assert(line.push('\r').drop_last() =~= line);
    assert(line.take(prefix.len() as int) =~= prefix);
    assert(line.skip(prefix.len() as int) =~= value);
    if other.len() >= prefix.len() && other[0] != prefix[0] {
        assert(other.take(prefix.len() as int)[0] != prefix[0]);
    }
}

/// A controller is named by a unique name that stands once, on a whole line.
pub proof fn controllers_have_unique_names(text: Seq<char>)
    requires
        named_controller(text) is Some,
    ensures
        ({
            let name = named_controller(text)->0;
            &&& text.len() > 0 && text.last() == '\n'
            &&& is_unique_name(name)
            &&& setting_values(pieces(text, '\n').drop_last(), "CONTROLLER="@) == seq![name]
            &&& name.len() > 0 && name[0] == ':'
        }),
{
    reveal_strlit(":");
    let values = setting_values(pieces(text, '\n').drop_last(), "CONTROLLER="@);
    assert(values =~= seq![values[0]]);
    let name = values[0];
    assert(name.take(1)[0] == ":"@[0]);
}

/// A session is named by an identifier that stands once among the variables.
pub proof fn sessions_have_plain_names(bytes: Seq<u8>)
    requires
        named_session(bytes) is Some,
    ensures
        ({
            let id = named_session(bytes)->0;
            &&& 0 < id.len() <= 128
            &&& is_session_id(id)
            &&& bytes.len() <= 65_536
            &&& variable_values(bytes, 0, "XDG_SESSION_ID=".spec_bytes()) == seq![id]
            &&& forall|i: int|
                0 <= i < id.len() ==> #[trigger] id[i] != 0 && id[i] != 0x2f && id[i] != 0x2e
        }),
{
    let values = variable_values(bytes, 0, "XDG_SESSION_ID=".spec_bytes());
    assert(values =~= seq![values[0]]);
    let id = values[0];
    assert forall|i: int| 0 <= i < id.len() implies #[trigger] id[i] != 0 && id[i] != 0x2f && id[i]
        != 0x2e by {
        assert(crate::desktop::parse::is_id_byte(id[i]));
    }
}

/// A desktop that cannot be asked is told why.
pub proof fn unfit_desktops_are_told()
    ensures
        SafetyError::Nested.words()
            == "Nested or unknown desktops cannot verify parent focus and lock state; use Copy from recordings."@,
        SafetyError::NoLayerMetadata.words()
            == "This desktop cannot provide the layer metadata required for safe delivery; use Copy from recordings."@,
        SafetyError::ConfigErrors.words()
            == "Desktop configuration has errors; focus safety cannot be checked without clearing them."@,
{
}

/// A session's identifier is up to a hundred and twenty-eight letters, digits, hyphens and
/// underlines, and every such text is one.
pub proof fn session_identifiers_are_plain(id: Seq<u8>)
    ensures
        is_session_id(id) <==> 0 < id.len() <= 128 && forall|i: int|
            0 <= i < id.len() ==> ({
                let c = #[trigger] id[i] as char;
                ('a' <= c <= 'z') || ('A' <= c <= 'Z') || ('0' <= c <= '9') || c == '-' || c == '_'
            }),
{
    assert forall|i: int| 0 <= i < id.len() implies ({
        let c = #[trigger] id[i] as char;
        crate::desktop::parse::is_id_byte(id[i]) <==> ('a' <= c <= 'z') || ('A' <= c <= 'Z') || (
        '0' <= c <= '9') || c == '-' || c == '_'
    }) by {
        assert(id[i] as char == id[i]);
    }
    if is_session_id(id) {
        assert forall|i: int| 0 <= i < id.len() implies ({
            let c = #[trigger] id[i] as char;
            ('a' <= c <= 'z') || ('A' <= c <= 'Z') || ('0' <= c <= '9') || c == '-' || c == '_'
        }) by {
            assert(crate::desktop::parse::is_id_byte(id[i]));
        }
    }
}

/// A controller's name is made of two parts or more behind its colon, none of them empty.
pub proof fn unique_names_have_parts(name: Seq<char>)
    ensures
        is_unique_name(name) <==> name.len() > 0 && name[0] == ':' && pieces(
            name.skip(1),
            '.',
        ).len() > 1 && forall|i: int|
            0 <= i < pieces(name.skip(1), '.').len() ==> is_name_part(
                #[trigger] pieces(name.skip(1), '.')[i],
            ),
        is_name_part(name) ==> name.len() > 0,
{
    reveal_strlit(":");
    assert(":"@.len() == 1);
    if name.len() > 0 && name[0] == ':' {
        assert(name.take(1) =~= ":"@);
    }
    if name.len() > 0 && name.take(1) == ":"@ {
        assert(name.take(1)[0] == name[0]);
    }
}

proof fn lemma_entry(entry: Seq<u8>, rest: Seq<u8>, from: nat)
    requires
        from <= entry.len(),
        forall|i: int| 0 <= i < entry.len() ==> #[trigger] entry[i] != 0,
    ensures
        zero_index(entry + seq![0u8] + rest, from) == entry.len(),
        zero_index(entry, from) == entry.len(),
    decreases entry.len() - from,
{
    let bytes = entry + seq![0u8] + rest;
    if from < entry.len() {
        assert(bytes[from as int] == entry[from as int]);
        lemma_entry(entry, rest, from + 1);
    }
}

/// A variable's value is what follows its name and its sign, up to the next zero.
pub proof fn variables_are_read_up_to_their_end(prefix: Seq<u8>, value: Seq<u8>)
    requires
        forall|i: int| 0 <= i < prefix.len() ==> #[trigger] prefix[i] != 0,
        forall|i: int| 0 <= i < value.len() ==> #[trigger] value[i] != 0,
    ensures
        variable_values(prefix + value, 0, prefix) == seq![value],
{
    let entry = prefix + value;
    assert forall|i: int| 0 <= i < entry.len() implies #[trigger] entry[i] != 0 by {
        if i < prefix.len() {
            assert(entry[i] == prefix[i]);
        } else {
            assert(entry[i] == value[i - prefix.len()]);
        }
    }
    lemma_entry(entry, Seq::empty(), 0);
    assert(entry.subrange(0, entry.len() as int) =~= entry);
    assert(entry.take(prefix.len() as int) =~= prefix);
    assert(entry.skip(prefix.len() as int) =~= value);
    assert(variable_values(entry, 0, prefix) =~= seq![value]);
}

} // verus!
