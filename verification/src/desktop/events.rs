//! Events that revoke delivery permits: the compositor's event stream and logind's
//! signals.

use crate::desktop::{moved_on, History};
use crate::text::{same, same_bytes};
use vstd::prelude::*;
use vstd::string::*;

verus! {

/// Longest part of an event that may be waiting for its end.
pub const PENDING_LIMIT: usize = 4096;

/// Reads that one look at the event stream may take.
pub const READ_ROUNDS: u8 = 64;

/// The name of an event: what comes before the first separator.
pub open spec fn event_name(event: Seq<u8>) -> Seq<u8>
    decreases event.len(),
{
    if event.len() == 0 || event[0] == 0x3e {
        Seq::empty()
    } else {
        seq![event[0]] + event_name(event.skip(1))
    }
}

/// Whether an event's name is one of those that may change the destination.
pub open spec fn is_focus_event(name: Seq<u8>) -> bool {
    ||| name == "activewindowv2".spec_bytes()
    ||| name == "openlayer".spec_bytes()
    ||| name == "closelayer".spec_bytes()
    ||| name == "workspacev2".spec_bytes()
    ||| name == "focusedmonv2".spec_bytes()
    ||| name == "activespecial".spec_bytes()
    ||| name == "monitorremoved".spec_bytes()
    ||| name == "configreloaded".spec_bytes()
}

proof fn lemma_event_name(event: Seq<u8>, length: nat)
    requires
        length <= event.len(),
        forall|i: int| 0 <= i < length ==> event[i] != 0x3e,
        length == event.len() || event[length as int] == 0x3e,
    ensures
        event_name(event) == event.take(length as int),
    decreases length,
{
    if length > 0 {
        let rest = event.skip(1);
        assert forall|i: int| 0 <= i < length - 1 implies rest[i] != 0x3e by {
            assert(rest[i] == event[i + 1]);
        }
        lemma_event_name(rest, (length - 1) as nat);
        assert(event.take(length as int) =~= seq![event[0]] + rest.take(length - 1));
    } else {
        assert(event.take(0) =~= Seq::empty());
    }
}

/// Whether an event may have changed the destination.
pub fn invalidates_focus(event: &[u8]) -> (result: bool)
    ensures
        result == is_focus_event(event_name(event@)),
{
    let mut length: usize = 0;
    while length < event.len() && event[length] != 0x3e
        invariant
            length <= event@.len(),
            forall|i: int| 0 <= i < length ==> event@[i] != 0x3e,
        decreases event@.len() - length,
    {
        length += 1;
    }
    proof {
        lemma_event_name(event@, length as nat);
        assert(event@.take(length as int) =~= event@.subrange(0, length as int));
    }
    let name = vstd::slice::slice_subrange(event, 0, length);
    same_bytes(name, "activewindowv2".as_bytes()) || same_bytes(name, "openlayer".as_bytes())
        || same_bytes(name, "closelayer".as_bytes()) || same_bytes(name, "workspacev2".as_bytes())
        || same_bytes(name, "focusedmonv2".as_bytes()) || same_bytes(
        name,
        "activespecial".as_bytes(),
    ) || same_bytes(name, "monitorremoved".as_bytes()) || same_bytes(
        name,
        "configreloaded".as_bytes(),
    )
}

/// Index of the first line end from `from` on, or the length.
pub open spec fn line_end(bytes: Seq<u8>, from: nat) -> nat
    decreases bytes.len() - from,
{
    if from < bytes.len() && bytes[from as int] != 0x0a {
        line_end(bytes, from + 1)
    } else {
        from
    }
}

pub(crate) proof fn lemma_line_end(bytes: Seq<u8>, from: nat)
    requires
        from <= bytes.len(),
    ensures
        from <= line_end(bytes, from) <= bytes.len(),
    decreases bytes.len() - from,
{
    if from < bytes.len() && bytes[from as int] != 0x0a {
        lemma_line_end(bytes, from + 1);
    }
}

/// The complete events from `from` on.
pub open spec fn complete_events(bytes: Seq<u8>, from: nat) -> Seq<Seq<u8>>
    decreases bytes.len() - from,
    when from <= bytes.len()
    via complete_events_decreases
{
    let end = line_end(bytes, from);
    if end < bytes.len() {
        seq![bytes.subrange(from as int, end as int)] + complete_events(bytes, end + 1)
    } else {
        Seq::empty()
    }
}

#[via_fn]
proof fn complete_events_decreases(bytes: Seq<u8>, from: nat) {
    lemma_line_end(bytes, from);
}

/// The part of an event that waits for its end.
pub open spec fn unfinished_event(bytes: Seq<u8>, from: nat) -> Seq<u8>
    decreases bytes.len() - from,
    when from <= bytes.len()
    via unfinished_event_decreases
{
    let end = line_end(bytes, from);
    if end < bytes.len() {
        unfinished_event(bytes, end + 1)
    } else {
        bytes.skip(from as int)
    }
}

#[via_fn]
proof fn unfinished_event_decreases(bytes: Seq<u8>, from: nat) {
    lemma_line_end(bytes, from);
}

/// How many events may have changed the destination.
pub open spec fn focus_changes(events: Seq<Seq<u8>>) -> nat
    decreases events.len(),
{
    if events.len() == 0 {
        0
    } else {
        focus_changes(events.skip(1)) + if is_focus_event(event_name(events[0])) {
            1nat
        } else {
            0
        }
    }
}

/// What a read of the event stream brought.
pub enum StreamRead {
    /// The stream has ended.
    Closed,
    /// Some bytes.
    Data(Vec<u8>),
    /// Nothing for now.
    WouldBlock,
    /// Nothing, for a signal.
    Interrupted,
    /// An error.
    Failed,
}

/// Where a look at the event stream stands.
#[derive(Clone, Copy, Debug, PartialEq, Eq, Structural)]
pub enum DrainStep {
    /// Read on.
    Continue,
    /// All that has arrived is read; whether the awaited event was among it.
    Done(bool),
    /// The history is no longer known.
    Failed,
}

/// A look at the event stream.
#[derive(Clone, Copy, Debug, PartialEq, Eq, Structural)]
pub struct Drain {
    pub rounds: u8,
    pub matched: bool,
}

/// The events that a read completes.
pub open spec fn events_in(read: StreamRead, pending: Seq<u8>) -> Seq<Seq<u8>> {
    match read {
        StreamRead::Data(data) => complete_events(pending + data@, 0),
        _ => Seq::empty(),
    }
}

/// What a read leaves to be completed.
pub open spec fn left_of(read: StreamRead, pending: Seq<u8>) -> Seq<u8> {
    match read {
        StreamRead::Data(data) => unfinished_event(pending + data@, 0),
        _ => pending,
    }
}

/// The history after a read: it moves on with every event that may change the focus, and
/// where the stream pauses in the middle of an event.
pub open spec fn observed(history: History, read: StreamRead, pending: Seq<u8>) -> History {
    History {
        generation: moved_on(
            history.generation,
            focus_changes(events_in(read, pending)) + if read is WouldBlock && pending.len() > 0 {
                1nat
            } else {
                0
            },
        ),
        ..history
    }
}

impl Drain {
    /// What follows a read that leaves the given bytes.
    pub open spec fn next(self, read: StreamRead, left: Seq<u8>) -> DrainStep {
        let last = self.rounds + 1 >= READ_ROUNDS;
        match read {
            StreamRead::Closed | StreamRead::Failed => DrainStep::Failed,
            StreamRead::WouldBlock => DrainStep::Done(self.matched),
            StreamRead::Data(_) => if left.len() > PENDING_LIMIT || last {
                DrainStep::Failed
            } else {
                DrainStep::Continue
            },
            StreamRead::Interrupted => if last {
                DrainStep::Failed
            } else {
                DrainStep::Continue
            },
        }
    }

    /// A look that has not read yet.
    pub fn new() -> (result: Self)
        ensures
            result == (Drain { rounds: 0, matched: false }),
    {
        Drain { rounds: 0, matched: false }
    }

    /// Take in one read. The event reader keeps what waits for its end; the history
    /// moves on for each event that may have changed the destination, and for a
    /// part of one: a split event is no evidence of an unchanged focus.
    pub fn step(
        &mut self,
        read: StreamRead,
        pending: &mut Vec<u8>,
        history: &mut History,
        awaited: Option<&[u8]>,
    ) -> (step: DrainStep)
        requires
            old(self).rounds < READ_ROUNDS,
        ensures
            final(pending)@ == left_of(read, old(pending)@),
            *final(history) == observed(*old(history), read, old(pending)@),
            final(self).rounds == old(self).rounds + 1,
            final(self).matched == (old(self).matched || (awaited is Some && events_in(
                read,
                old(pending)@,
            ).contains(awaited->0@))),
            step == old(self).next(read, left_of(read, old(pending)@)),
    {
        self.rounds = self.rounds + 1;
        let last = self.rounds >= READ_ROUNDS;
        proof {
            assert(!Seq::<Seq<u8>>::empty().contains(awaited->0@));
        }
        match read {
            StreamRead::Closed => DrainStep::Failed,
            StreamRead::Failed => DrainStep::Failed,
            StreamRead::WouldBlock => {
                if pending.len() > 0 {
                    history.move_on();
                }
                DrainStep::Done(self.matched)
            },
            StreamRead::Interrupted => {
                if last {
                    DrainStep::Failed
                } else {
                    DrainStep::Continue
                }
            },
            StreamRead::Data(data) => {
                let mut data = data;
                pending.append(&mut data);
                let matched = take_events(pending, history, awaited);
                self.matched = self.matched || matched;
                if pending.len() > PENDING_LIMIT || last {
                    DrainStep::Failed
                } else {
                    DrainStep::Continue
                }
            },
        }
    }
}

/// Take the complete events out of what was read.
fn take_events(pending: &mut Vec<u8>, history: &mut History, awaited: Option<&[u8]>) -> (matched:
    bool)
    ensures
        final(pending)@ == unfinished_event(old(pending)@, 0),
        *final(history) == (History {
            generation: moved_on(
                old(history).generation,
                focus_changes(complete_events(old(pending)@, 0)),
            ),
            ..*old(history)
        }),
        matched == (awaited is Some && complete_events(old(pending)@, 0).contains(awaited->0@)),
{
    let ghost bytes = pending@;
    let ghost all = complete_events(bytes, 0);
    let mut matched = false;
    let mut start: usize = 0;
    let mut end: usize = 0;
    let ghost mut changes: nat = 0;
    let generation: u64 = history.generation;
    while end < pending.len()
        invariant
            start <= end <= pending@.len(),
            pending@ == bytes,
            bytes == old(pending)@,
            all == complete_events(bytes, 0),
            line_end(bytes, start as nat) == line_end(bytes, end as nat),
            generation == old(history).generation,
            *history == (History { generation: moved_on(generation, changes), ..*old(history) }),
            focus_changes(all) == changes + focus_changes(complete_events(bytes, start as nat)),
            unfinished_event(bytes, 0) == unfinished_event(bytes, start as nat),
            awaited is None ==> !matched,
            awaited is Some ==> all.contains(awaited->0@) == (matched || complete_events(
                bytes,
                start as nat,
            ).contains(awaited->0@)),
        decreases pending@.len() - end,
    {
        if pending[end] == 0x0a {
            let ghost rest = complete_events(bytes, start as nat);
            let ghost after = complete_events(bytes, (end + 1) as nat);
            let event = vstd::slice::slice_subrange(pending.as_slice(), start, end);
            proof {
                assert(rest =~= seq![event@] + after);
                assert(rest.skip(1) =~= after);
                assert(rest[0] == event@);
                if awaited is Some {
                    let wanted = awaited->0@;
                    if after.contains(wanted) {
                        let i = choose|i: int| 0 <= i < after.len() && after[i] == wanted;
                        assert(rest[i + 1] == wanted);
                    }
                    if rest.contains(wanted) && event@ != wanted {
                        let i = choose|i: int| 0 <= i < rest.len() && rest[i] == wanted;
                        assert(after[i - 1] == wanted);
                    }
                    if event@ == wanted {
                        assert(rest[0] == wanted);
                    }
                }
            }
            if invalidates_focus(event) {
                history.move_on();
                proof {
                    changes = changes + 1;
                }
            }
            if let Some(expected) = awaited {
                if same_bytes(event, expected) {
                    matched = true;
                }
            }
            start = end + 1;
        }
        end += 1;
    }
    let mut rest = pending.split_off(start);
    proof {
        assert(rest@ =~= bytes.skip(start as int));
        assert(complete_events(bytes, start as nat) =~= Seq::empty());
    }
    pending.clear();
    pending.append(&mut rest);
    assert(pending@ =~= bytes.skip(start as int));
    matched
}

/// What a change of properties names.
pub enum PropertiesRead {
    /// The message could not be read.
    Unreadable,
    /// The interface, and the names of changed and of invalidated properties.
    Read { interface: String, names: Vec<String> },
}

/// A property of the session that decides whether text may be sent.
pub open spec fn is_session_property(name: Seq<char>) -> bool {
    ||| name == "Active"@
    ||| name == "LockedHint"@
    ||| name == "State"@
    ||| name == "Type"@
    ||| name == "Remote"@
}

/// Whether a change of properties may have changed the session's state.
pub open spec fn changes_session(properties: PropertiesRead) -> bool {
    match properties {
        PropertiesRead::Unreadable => true,
        PropertiesRead::Read { interface, names } => interface@
            == "org.freedesktop.login1.Session"@ && names_session_property(names@),
    }
}

/// Whether one of the names is that of such a property.
pub open spec fn names_session_property(names: Seq<String>) -> bool {
    exists|i: int| 0 <= i < names.len() && is_session_property((#[trigger] names[i])@)
}

fn session_changed(properties: &PropertiesRead) -> (result: bool)
    ensures
        result == changes_session(*properties),
{
    match properties {
        PropertiesRead::Unreadable => true,
        PropertiesRead::Read { interface, names } => {
            if !same(interface.as_str(), "org.freedesktop.login1.Session") {
                return false;
            }
            let mut index: usize = 0;
            while index < names.len()
                invariant
                    index <= names@.len(),
                    *properties == (PropertiesRead::Read { interface: *interface, names: *names }),
                    interface@ == "org.freedesktop.login1.Session"@,
                    forall|i: int|
                        0 <= i < index ==> !is_session_property((#[trigger] names@[i])@),
                decreases names@.len() - index,
            {
                let name = names[index].as_str();
                if same(name, "Active") || same(name, "LockedHint") || same(name, "State") || same(
                    name,
                    "Type",
                ) || same(name, "Remote") {
                    assert(is_session_property(names@[index as int]@));
                    assert(names_session_property(names@));
                    return true;
                }
                index += 1;
            }
            false
        },
    }
}

/// Whether a signal of logind may have changed whether text may be sent: sleep,
/// shutdown or the end of a session, and locks, devices or properties of the
/// session itself.
pub open spec fn revoking_signal(
    path: Seq<char>,
    member: Seq<char>,
    session_path: Seq<char>,
    properties: PropertiesRead,
) -> bool {
    if path == "/org/freedesktop/login1"@ {
        member == "PrepareForSleep"@ || member == "PrepareForShutdown"@ || member
            == "SessionRemoved"@
    } else if path == session_path {
        member == "Lock"@ || member == "Unlock"@ || member == "PauseDevice"@ || member
            == "ResumeDevice"@ || (member == "PropertiesChanged"@ && changes_session(properties))
    } else {
        false
    }
}

/// Whether a signal of logind may have changed whether text may be sent.
pub fn signal_invalidates(
    path: &str,
    member: &str,
    session_path: &str,
    properties: &PropertiesRead,
) -> (result: bool)
    ensures
        result == revoking_signal(path@, member@, session_path@, *properties),
{
    if same(path, "/org/freedesktop/login1") {
        same(member, "PrepareForSleep") || same(member, "PrepareForShutdown") || same(
            member,
            "SessionRemoved",
        )
    } else if same(path, session_path) {
        if same(member, "Lock") || same(member, "Unlock") || same(member, "PauseDevice") || same(
            member,
            "ResumeDevice",
        ) {
            true
        } else if same(member, "PropertiesChanged") {
            session_changed(properties)
        } else {
            false
        }
    } else {
        false
    }
}

/// Whether a change of a name's owner ends what is known.
pub open spec fn ends_observation(
    name: Option<Seq<char>>,
    controller: Option<Seq<char>>,
) -> bool {
    match name {
        None => true,
        Some(name) => name == "org.freedesktop.login1"@ || controller == Some(name),
    }
}

/// Whether a change of a bus name's owner ends the observation: logind's own, the
/// session controller's, or one that could not be read.
pub fn owner_change_ends(name: Option<&str>, controller: Option<&str>) -> (result: bool)
    ensures
        result == ends_observation(
            match name {
                Some(name) => Some(name@),
                None => None,
            },
            match controller {
                Some(controller) => Some(controller@),
                None => None,
            },
        ),
{
    match name {
        None => true,
        Some(name) => {
            if same(name, "org.freedesktop.login1") {
                return true;
            }
            match controller {
                Some(controller) => same(controller, name),
                None => false,
            }
        },
    }
}

} // verus!
