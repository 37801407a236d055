//! Scripted histories: events and named checkpoints in the order of their time.

use crate::hud::present::{outcome_dwell, present_outcome};
use crate::hud::still::{fixture, fixture_status, preview_snapshot, preview_status, ScreenshotState};
use crate::hud::{
    is_persistent, Visibility, DISCONNECT_DELAY, FRAME_INTERVAL, MILLISECOND, NOTICE_HOLD,
    POLL_INTERVAL, RESULT_FADE, SECOND, SETTLE,
};
use crate::ipc::{
    HudConfig, Stage, StageView, StateKind, StateKindView, StatusSnapshot, StatusSnapshotView,
    TerminalOutcomeView,
};
use vstd::prelude::*;
use vstd::string::*;

verus! {

/// A scripted input. No status is a lost connection; idle is an explicit status.
#[derive(Debug, PartialEq, Eq)]
pub struct Event {
    pub at: u64,
    pub input: Option<StatusSnapshot>,
}

/// What an [`Event`] holds.
pub struct EventView {
    pub at: u64,
    pub input: Option<StatusSnapshotView>,
}

impl View for Event {
    type V = EventView;

    open spec fn view(&self) -> EventView {
        EventView {
            at: self.at,
            input: match self.input {
                Some(inner) => Some(inner@),
                None => None,
            },
        }
    }
}

/// A named moment.
#[derive(Clone, Copy, Debug, PartialEq, Eq)]
pub struct Checkpoint {
    pub at: u64,
    pub label: &'static str,
}

/// What a [`Checkpoint`] holds.
pub struct CheckpointView {
    pub at: u64,
    pub label: Seq<char>,
}

impl View for Checkpoint {
    type V = CheckpointView;

    open spec fn view(&self) -> CheckpointView {
        CheckpointView { at: self.at, label: self.label@ }
    }
}

/// A whole history. `end` and `focus` count frames.
#[derive(Debug, PartialEq, Eq)]
pub struct Timeline {
    pub events: Vec<Event>,
    pub checkpoints: Vec<Checkpoint>,
    pub end: u32,
    pub focus: u32,
}

/// What a [`Timeline`] holds.
pub struct TimelineView {
    pub events: Seq<EventView>,
    pub checkpoints: Seq<CheckpointView>,
    pub end: u32,
    pub focus: u32,
}

impl View for Timeline {
    type V = TimelineView;

    open spec fn view(&self) -> TimelineView {
        TimelineView {
            events: event_views(self.events@),
            checkpoints: checkpoint_views(self.checkpoints@),
            end: self.end,
            focus: self.focus,
        }
    }
}

impl TimelineView {
    /// Events and checkpoints are in the order of time, and what an event shows ends
    /// within the time that can be counted.
    pub open spec fn wf(self) -> bool {
        &&& events_sorted(self.events)
        &&& checkpoints_sorted(self.checkpoints)
        &&& all_playable(self.events)
    }
}

/// Whether what is shown at a moment ends within the time that can be counted.
pub open spec fn playable(at: int) -> bool {
    at + NOTICE_HOLD <= u64::MAX
}

/// Whether what each event shows ends within the time that can be counted.
pub open spec fn all_playable(events: Seq<EventView>) -> bool {
    forall|i: int| 0 <= i < events.len() ==> playable(#[trigger] events[i].at as int)
}

/// What a sequence of events holds.
pub open spec fn event_views(events: Seq<Event>) -> Seq<EventView> {
    events.map_values(|event: Event| event@)
}

/// What a sequence of checkpoints holds.
pub open spec fn checkpoint_views(checkpoints: Seq<Checkpoint>) -> Seq<CheckpointView> {
    checkpoints.map_values(|checkpoint: Checkpoint| checkpoint@)
}

/// Where an event of the given time goes: behind all that are not later.
pub open spec fn event_slot(events: Seq<EventView>, at: u64) -> nat
    decreases events.len(),
{
    if events.len() == 0 || events.last().at <= at {
        events.len()
    } else {
        event_slot(events.drop_last(), at)
    }
}

/// Where a checkpoint of the given time goes: behind all that are not later.
pub open spec fn checkpoint_slot(checkpoints: Seq<CheckpointView>, at: u64) -> nat
    decreases checkpoints.len(),
{
    if checkpoints.len() == 0 || checkpoints.last().at <= at {
        checkpoints.len()
    } else {
        checkpoint_slot(checkpoints.drop_last(), at)
    }
}

/// Whether events are in the order of their time.
pub open spec fn events_sorted(events: Seq<EventView>) -> bool {
    forall|i: int, j: int| 0 <= i <= j < events.len() ==> events[i].at <= events[j].at
}

/// Whether checkpoints are in the order of their time.
pub open spec fn checkpoints_sorted(checkpoints: Seq<CheckpointView>) -> bool {
    forall|i: int, j: int|
        0 <= i <= j < checkpoints.len() ==> checkpoints[i].at <= checkpoints[j].at
}

pub(crate) proof fn lemma_event_slot(events: Seq<EventView>, at: u64)
    requires
        events_sorted(events),
    ensures
        event_slot(events, at) <= events.len(),
        forall|i: int| 0 <= i < event_slot(events, at) ==> events[i].at <= at,
        forall|i: int| event_slot(events, at) <= i < events.len() ==> events[i].at > at,
    decreases events.len(),
{
    if events.len() > 0 && events.last().at > at {
        let rest = events.drop_last();
        assert(forall|i: int| 0 <= i < rest.len() ==> rest[i] == events[i]);
        lemma_event_slot(rest, at);
        assert forall|i: int| event_slot(events, at) <= i < events.len() implies events[i].at
            > at by {
            if i < rest.len() {
                assert(rest[i].at > at);
            }
        }
        assert forall|i: int| 0 <= i < event_slot(events, at) implies events[i].at <= at by {
            assert(rest[i].at <= at);
        }
    }
}

pub(crate) proof fn lemma_checkpoint_slot(checkpoints: Seq<CheckpointView>, at: u64)
    requires
        checkpoints_sorted(checkpoints),
    ensures
        checkpoint_slot(checkpoints, at) <= checkpoints.len(),
        forall|i: int| 0 <= i < checkpoint_slot(checkpoints, at) ==> checkpoints[i].at <= at,
        forall|i: int|
            checkpoint_slot(checkpoints, at) <= i < checkpoints.len() ==> checkpoints[i].at > at,
    decreases checkpoints.len(),
{
    if checkpoints.len() > 0 && checkpoints.last().at > at {
        let rest = checkpoints.drop_last();
        assert(forall|i: int| 0 <= i < rest.len() ==> rest[i] == checkpoints[i]);
        lemma_checkpoint_slot(rest, at);
        assert forall|i: int|
            checkpoint_slot(checkpoints, at) <= i < checkpoints.len() implies checkpoints[i].at
            > at by {
            if i < rest.len() {
                assert(rest[i].at > at);
            }
        }
        assert forall|i: int|
            0 <= i < checkpoint_slot(checkpoints, at) implies checkpoints[i].at <= at by {
            assert(rest[i].at <= at);
        }
    }
}

pub(crate) proof fn lemma_event_inserted(events: Seq<EventView>, event: EventView)
    requires
        events_sorted(events),
    ensures
        events_sorted(events.insert(event_slot(events, event.at) as int, event)),
{
    lemma_event_slot(events, event.at);
    let slot = event_slot(events, event.at) as int;
    let inserted = events.insert(slot, event);
    assert forall|i: int, j: int| 0 <= i <= j < inserted.len() implies inserted[i].at
        <= inserted[j].at by {
        let before = if i < slot {
            i
        } else {
            i - 1
        };
        let behind = if j < slot {
            j
        } else {
            j - 1
        };
        if i != slot && j != slot {
            assert(events[before].at <= events[behind].at);
        }
    }
}

pub(crate) proof fn lemma_checkpoint_inserted(checkpoints: Seq<CheckpointView>, checkpoint: CheckpointView)
    requires
        checkpoints_sorted(checkpoints),
    ensures
        checkpoints_sorted(
            checkpoints.insert(checkpoint_slot(checkpoints, checkpoint.at) as int, checkpoint),
        ),
{
    lemma_checkpoint_slot(checkpoints, checkpoint.at);
    let slot = checkpoint_slot(checkpoints, checkpoint.at) as int;
    let inserted = checkpoints.insert(slot, checkpoint);
    assert forall|i: int, j: int| 0 <= i <= j < inserted.len() implies inserted[i].at
        <= inserted[j].at by {
        let before = if i < slot {
            i
        } else {
            i - 1
        };
        let behind = if j < slot {
            j
        } else {
            j - 1
        };
        if i != slot && j != slot {
            assert(checkpoints[before].at <= checkpoints[behind].at);
        }
    }
}

/// A duration in nanoseconds.
pub fn milliseconds(value: u64) -> (result: u64)
    requires
        value * MILLISECOND <= u64::MAX,
    ensures
        result == value * MILLISECOND,
{
    value * MILLISECOND
}

/// The first frame that is not before a moment, counted modulo the frame counter.
pub open spec fn frame_of(at: u64) -> u32 {
    ((at + FRAME_INTERVAL - 1) / (FRAME_INTERVAL as int) % 0x1_0000_0000) as u32
}

/// The first frame that is not before a moment.
pub fn frame_at(at: u64) -> (result: u32)
    ensures
        result == frame_of(at),
{
    let frames: u64 = ((at as u128 + FRAME_INTERVAL as u128 - 1) / (FRAME_INTERVAL as u128)) as u64;
    (frames % 0x1_0000_0000) as u32
}

/// A history under construction.
pub struct TimelineBuilder {
    pub reduced_motion: bool,
    pub events: Vec<Event>,
    pub checkpoints: Vec<Checkpoint>,
}

/// What a [`TimelineBuilder`] holds.
pub struct TimelineBuilderView {
    pub reduced_motion: bool,
    pub events: Seq<EventView>,
    pub checkpoints: Seq<CheckpointView>,
}

impl View for TimelineBuilder {
    type V = TimelineBuilderView;

    open spec fn view(&self) -> TimelineBuilderView {
        TimelineBuilderView {
            reduced_motion: self.reduced_motion,
            events: event_views(self.events@),
            checkpoints: checkpoint_views(self.checkpoints@),
        }
    }
}

impl TimelineBuilderView {
    /// Both lists are in the order of time.
    pub open spec fn wf(self) -> bool {
        &&& events_sorted(self.events)
        &&& checkpoints_sorted(self.checkpoints)
    }

    /// A history that starts idle.
    pub open spec fn started(reduced_motion: bool) -> TimelineBuilderView {
        TimelineBuilderView {
            reduced_motion,
            events: Seq::empty(),
            checkpoints: Seq::empty(),
        }.status(0, preview_status(StateKindView::Idle), "Idle"@)
    }

    /// With one more input.
    pub open spec fn event(self, at: u64, input: Option<StatusSnapshotView>) -> TimelineBuilderView {
        TimelineBuilderView {
            events: self.events.insert(
                event_slot(self.events, at) as int,
                EventView { at, input },
            ),
            ..self
        }
    }

    /// With one more checkpoint.
    pub open spec fn mark(self, at: u64, label: Seq<char>) -> TimelineBuilderView {
        TimelineBuilderView {
            checkpoints: self.checkpoints.insert(
                checkpoint_slot(self.checkpoints, at) as int,
                CheckpointView { at, label },
            ),
            ..self
        }
    }

    /// With one more status, under a name.
    pub open spec fn status(
        self,
        at: u64,
        snapshot: StatusSnapshotView,
        label: Seq<char>,
    ) -> TimelineBuilderView {
        self.event(at, Some(snapshot)).mark(at, label)
    }

    /// With the status of a still, under a name.
    pub open spec fn state(
        self,
        at: u64,
        state: ScreenshotState,
        label: Seq<char>,
    ) -> TimelineBuilderView {
        self.status(at, fixture_status(state), label)
    }

    /// With a lost connection.
    pub open spec fn disconnected(self, at: u64) -> TimelineBuilderView {
        self.event(at, None).mark(at, "Connection lost; grace interval"@).mark(
            (at + DISCONNECT_DELAY) as u64,
            "Connection warning"@,
        )
    }

    /// With the statuses of a recording from the given sample on: one at each poll,
    /// with a gap in the speech from the eighth to the tenth.
    pub open spec fn samples(self, start: u64, until: u64, sample: nat) -> TimelineBuilderView
        decreases until + POLL_INTERVAL - (start + sample * POLL_INTERVAL),
    {
        let at = (start + sample * POLL_INTERVAL) as u64;
        if start + sample * POLL_INTERVAL >= until {
            self
        } else {
            let measured = fixture_status(ScreenshotState::Recording);
            let snapshot = StatusSnapshotView {
                elapsed: ((at - start) / SECOND as int) as u64,
                signal: if 7 <= sample < 10 {
                    fixture_status(ScreenshotState::NoSignal).signal
                } else {
                    measured.signal
                },
                ..measured
            };
            let marked = if sample == 7 {
                self.mark(at, "Measured speech gap"@)
            } else if sample == 10 {
                self.mark(at, "Measured input returns"@)
            } else {
                self
            };
            marked.event(at, Some(snapshot)).samples(start, until, sample + 1)
        }
    }

    /// With a whole recording.
    pub open spec fn recording(self, start: u64, until: u64) -> TimelineBuilderView {
        self.mark(start, "Recording: measured PCM fixture"@).samples(start, until, 0)
    }

    /// With a report of transcribed chunks.
    pub open spec fn chunks(
        self,
        at: u64,
        completed: u32,
        total: u32,
        label: Seq<char>,
    ) -> TimelineBuilderView {
        self.status(
            at,
            StatusSnapshotView {
                elapsed: 0,
                stage: Some(StageView::Transcribing { completed, total }),
                ..fixture_status(ScreenshotState::Transcribing)
            },
            label,
        )
    }

    /// When an outcome that is shown at a moment is gone again: an outcome that
    /// stays is dismissed after a while, another one expires.
    pub open spec fn outcome_end(self, at: u64, outcome: TerminalOutcomeView) -> u64 {
        if is_persistent(outcome) {
            (at + NOTICE_HOLD) as u64
        } else {
            (at + outcome_dwell(outcome, self.reduced_motion)) as u64
        }
    }

    /// With an outcome and its end.
    pub open spec fn outcome(
        self,
        at: u64,
        snapshot: StatusSnapshotView,
        label: Seq<char>,
    ) -> TimelineBuilderView {
        let shown = StatusSnapshotView {
            hud: HudConfig { reduced_motion: Some(self.reduced_motion), ..snapshot.hud },
            ..snapshot
        };
        let outcome = shown.outcome->0;
        let end = self.outcome_end(at, outcome);
        let told = self.status(at, shown, label);
        if is_persistent(outcome) {
            told.status(
                end,
                StatusSnapshotView {
                    outcome: Some(TerminalOutcomeView { dismissed: true, ..outcome }),
                    ..shown
                },
                "Dismiss outcome; idle"@,
            )
        } else if self.reduced_motion {
            told.mark(end, "Idle: result expired"@)
        } else {
            told.mark((at + SETTLE) as u64, "Result held"@).mark(
                (end - RESULT_FADE) as u64,
                "Result fading"@,
            ).mark(end, "Idle: result expired"@)
        }
    }

    /// The finished history.
    pub open spec fn finish(self, end: u64, focus: u64) -> TimelineView {
        TimelineView {
            events: self.events,
            checkpoints: self.checkpoints,
            end: frame_of(end),
            focus: frame_of(focus),
        }
    }
}

impl TimelineBuilder {
    /// A history that starts idle.
    pub fn new(reduced_motion: bool) -> (result: Self)
        ensures
            result@ == TimelineBuilderView::started(reduced_motion),
            result@.wf(),
            all_playable(result@.events),
    {
        let mut builder = TimelineBuilder {
            reduced_motion,
            events: Vec::new(),
            checkpoints: Vec::new(),
        };
        assert(builder@.events =~= Seq::empty());
        assert(builder@.checkpoints =~= Seq::empty());
        builder.status(0, preview_snapshot(StateKind::Idle), "Idle");
        builder
    }

    /// Add an input.
    pub fn event(&mut self, at: u64, input: Option<StatusSnapshot>)
        requires
            old(self)@.wf(),
        ensures
            final(self)@.wf(),
            all_playable(old(self)@.events) && playable(at as int) ==> all_playable(
                final(self)@.events,
            ),
            final(self)@ == old(self)@.event(
                at,
                match input {
                    Some(inner) => Some(inner@),
                    None => None,
                },
            ),
    {
        let mut slot: usize = self.events.len();
        assert(self@.events.take(slot as int) =~= self@.events);
        while slot > 0 && self.events[slot - 1].at > at
            invariant
                slot <= self.events@.len(),
                *self == *old(self),
                event_slot(self@.events.take(slot as int), at) == event_slot(self@.events, at),
            decreases slot,
        {
            assert(self@.events.take(slot as int).drop_last() =~= self@.events.take(slot - 1));
            assert(self@.events.take(slot as int).last() == self.events@[slot - 1]@);
            slot -= 1;
        }
        proof {
            if slot > 0 {
                assert(self@.events.take(slot as int).last() == self.events@[slot - 1]@);
            }
            lemma_event_slot(self@.events, at);
        }
        let event = Event { at, input };
        let ghost view = event@;
        proof {
            lemma_event_inserted(self@.events, view);
        }
        self.events.insert(slot, event);
        assert(self@.events =~= old(self)@.events.insert(slot as int, view));
    }

    /// Add a checkpoint.
    pub fn mark(&mut self, at: u64, label: &'static str)
        requires
            old(self)@.wf(),
        ensures
            final(self)@.wf(),
            final(self)@ == old(self)@.mark(at, label@),
    {
        let mut slot: usize = self.checkpoints.len();
        assert(self@.checkpoints.take(slot as int) =~= self@.checkpoints);
        while slot > 0 && self.checkpoints[slot - 1].at > at
            invariant
                slot <= self.checkpoints@.len(),
                *self == *old(self),
                checkpoint_slot(self@.checkpoints.take(slot as int), at) == checkpoint_slot(
                    self@.checkpoints,
                    at,
                ),
            decreases slot,
        {
            assert(self@.checkpoints.take(slot as int).drop_last() =~= self@.checkpoints.take(
                slot - 1,
            ));
            assert(self@.checkpoints.take(slot as int).last() == self.checkpoints@[slot - 1]@);
            slot -= 1;
        }
        proof {
            if slot > 0 {
                assert(self@.checkpoints.take(slot as int).last() == self.checkpoints@[slot - 1]@);
            }
            lemma_checkpoint_slot(self@.checkpoints, at);
            lemma_checkpoint_inserted(self@.checkpoints, CheckpointView { at, label: label@ });
        }
        let checkpoint = Checkpoint { at, label };
        self.checkpoints.insert(slot, checkpoint);
        assert(self@.checkpoints =~= old(self)@.checkpoints.insert(slot as int, checkpoint@));
    }

    /// Add a status under a name.
    pub fn status(&mut self, at: u64, snapshot: StatusSnapshot, label: &'static str)
        requires
            old(self)@.wf(),
        ensures
            final(self)@.wf(),
            all_playable(old(self)@.events) && playable(at as int) ==> all_playable(
                final(self)@.events,
            ),
            final(self)@ == old(self)@.status(at, snapshot@, label@),
    {
        self.event(at, Some(snapshot));
        self.mark(at, label);
    }

    /// Add the status of a still under a name.
    pub fn state(&mut self, at: u64, state: ScreenshotState, label: &'static str)
        requires
            old(self)@.wf(),
        ensures
            final(self)@.wf(),
            all_playable(old(self)@.events) && playable(at as int) ==> all_playable(
                final(self)@.events,
            ),
            final(self)@ == old(self)@.state(at, state, label@),
    {
        self.status(at, fixture(state), label);
    }

    /// Add a lost connection.
    pub fn disconnected(&mut self, at: u64)
        requires
            old(self)@.wf(),
            at + DISCONNECT_DELAY <= u64::MAX,
        ensures
            final(self)@.wf(),
            all_playable(old(self)@.events) && playable(at as int) ==> all_playable(
                final(self)@.events,
            ),
            final(self)@ == old(self)@.disconnected(at),
    {
        self.event(at, None);
        self.mark(at, "Connection lost; grace interval");
        self.mark(at + DISCONNECT_DELAY, "Connection warning");
    }

    /// Add a recording: the recorded sample at each poll, with a real zero-input
    /// window between phrases.
    pub fn recording(&mut self, start: u64, until: u64)
        requires
            old(self)@.wf(),
            start <= until,
            until + POLL_INTERVAL <= u64::MAX,
        ensures
            final(self)@.wf(),
            all_playable(old(self)@.events) && playable(until as int) ==> all_playable(
                final(self)@.events,
            ),
            final(self)@ == old(self)@.recording(start, until),
    {
        let measured = fixture(ScreenshotState::Recording);
        let quiet = fixture(ScreenshotState::NoSignal).signal;
        let mut at: u64 = start;
        let mut sample: u64 = 0;
        self.mark(start, "Recording: measured PCM fixture");
        while at < until
            invariant
                self@.wf(),
                start <= until,
                until + POLL_INTERVAL <= u64::MAX,
                all_playable(old(self)@.events) && playable(until as int) ==> all_playable(self@.events),
                at == start + sample * POLL_INTERVAL,
                measured@ == fixture_status(ScreenshotState::Recording),
                quiet == fixture_status(ScreenshotState::NoSignal).signal,
                self@.samples(start, until, sample as nat) == old(self)@.recording(start, until),
            decreases until + POLL_INTERVAL - at,
        {
            let mut snapshot = measured.clone();
            snapshot.elapsed = (at - start) / SECOND;
            if 7 <= sample && sample < 10 {
                snapshot.signal = quiet;
            }
            if sample == 7 {
                self.mark(at, "Measured speech gap");
            } else if sample == 10 {
                self.mark(at, "Measured input returns");
            }
            self.event(at, Some(snapshot));
            sample += 1;
            at += POLL_INTERVAL;
        }
    }

    /// Add a report of transcribed chunks.
    pub fn chunks(&mut self, at: u64, completed: u32, total: u32, label: &'static str)
        requires
            old(self)@.wf(),
        ensures
            final(self)@.wf(),
            all_playable(old(self)@.events) && playable(at as int) ==> all_playable(
                final(self)@.events,
            ),
            final(self)@ == old(self)@.chunks(at, completed, total, label@),
    {
        let mut snapshot = fixture(ScreenshotState::Transcribing);
        snapshot.elapsed = 0;
        snapshot.stage = Some(Stage::Transcribing { completed, total });
        self.status(at, snapshot, label);
    }

    /// Add an outcome and its end, and return the end.
    pub fn outcome(&mut self, at: u64, snapshot: StatusSnapshot, label: &'static str) -> (end: u64)
        requires
            old(self)@.wf(),
            at + NOTICE_HOLD <= u64::MAX,
            snapshot.outcome is Some,
        ensures
            final(self)@.wf(),
            all_playable(old(self)@.events) && playable(at + NOTICE_HOLD) ==> all_playable(
                final(self)@.events,
            ),
            final(self)@ == old(self)@.outcome(at, snapshot@, label@),
            end == old(self)@.outcome_end(at, snapshot@.outcome->0),
    {
        let mut snapshot = snapshot;
        snapshot.hud.reduced_motion = Some(self.reduced_motion);
        let Some(outcome) = &snapshot.outcome else {
            return at;
        };
        let visibility = present_outcome(outcome, &snapshot, at, self.reduced_motion).visibility;
        let mut dismissed = outcome.clone();
        dismissed.dismissed = true;
        let mut cleared = snapshot.clone();
        cleared.outcome = Some(dismissed);
        self.status(at, snapshot, label);
        match visibility {
            Visibility::Persistent => {
                let dismissed_at: u64 = at + NOTICE_HOLD;
                self.status(dismissed_at, cleared, "Dismiss outcome; idle");
                dismissed_at
            },
            Visibility::Until(expires) => {
                if !self.reduced_motion {
                    self.mark(at + SETTLE, "Result held");
                    self.mark(expires - RESULT_FADE, "Result fading");
                }
                self.mark(expires, "Idle: result expired");
                expires
            },
        }
    }

    /// Finish the history.
    pub fn finish(self, end: u64, focus: u64) -> (result: Timeline)
        ensures
            result@ == self@.finish(end, focus),
            self@.wf() && all_playable(self@.events) ==> result@.wf(),
    {
        Timeline {
            events: self.events,
            checkpoints: self.checkpoints,
            end: frame_at(end),
            focus: frame_at(focus),
        }
    }
}

} // verus!
