//! What each story tells, and when.

use crate::gallery::scripts::{
    cancellation_script, connection_script, dictation_script, dismissal_script,
    interruption_script, processing_script, recording_script, sent_status, terminal_script,
};
use crate::gallery::timeline::{
    checkpoint_slot, event_slot, lemma_checkpoint_inserted, lemma_checkpoint_slot,
    lemma_event_inserted, lemma_event_slot, CheckpointView, EventView, TimelineBuilderView,
    TimelineView,
};
use crate::hud::still::{fixture_status, preview_status, shows_processing, ScreenshotState};
use crate::ipc::{HudConfig, StageView, StateKindView, StatusSnapshotView, TerminalOutcomeView};
use vstd::prelude::*;

verus! {

/// Whether a story tells a status at a time, in milliseconds.
pub open spec fn tells(story: TimelineView, ms: int, status: StatusSnapshotView) -> bool {
    story.events.contains(EventView { at: (ms * 1_000_000) as u64, input: Some(status) })
}

/// Whether a story loses its connection at a time, in milliseconds.
pub open spec fn loses(story: TimelineView, ms: int) -> bool {
    story.events.contains(EventView { at: (ms * 1_000_000) as u64, input: None })
}

/// Whether a story has a mark at a time, in milliseconds.
pub open spec fn marks(story: TimelineView, ms: int, label: Seq<char>) -> bool {
    story.checkpoints.contains(CheckpointView { at: (ms * 1_000_000) as u64, label })
}

/// A state that is transcribed, as far as it is reported.
pub open spec fn reported(completed: u32, total: u32) -> StatusSnapshotView {
    StatusSnapshotView {
        elapsed: 0,
        stage: Some(StageView::Transcribing { completed, total }),
        ..fixture_status(ScreenshotState::Transcribing)
    }
}

/// A status in the look of a story.
pub open spec fn dressed(status: StatusSnapshotView, reduced_motion: bool) -> StatusSnapshotView {
    StatusSnapshotView {
        hud: HudConfig { labels: status.hud.labels, reduced_motion: Some(reduced_motion) },
        ..status
    }
}

/// What a builder told is told after another step too.
spec fn grown(before: TimelineBuilderView, after: TimelineBuilderView) -> bool {
    &&& after.wf()
    &&& after.reduced_motion == before.reduced_motion
    &&& forall|event: EventView| #[trigger]
        before.events.contains(event) ==> after.events.contains(event)
    &&& forall|mark: CheckpointView| #[trigger]
        before.checkpoints.contains(mark) ==> after.checkpoints.contains(mark)
}

proof fn lemma_event(builder: TimelineBuilderView, at: u64, input: Option<StatusSnapshotView>)
    requires
        builder.wf(),
    ensures
        grown(builder, builder.event(at, input)),
        builder.event(at, input).events.contains(EventView { at, input }),
{
    let new = EventView { at, input };
    let slot = event_slot(builder.events, at) as int;
    let after = builder.event(at, input).events;
    lemma_event_slot(builder.events, at);
    lemma_event_inserted(builder.events, new);
    assert(after[slot] == new);
    assert forall|event: EventView| #[trigger] builder.events.contains(event) implies
        after.contains(event) by {
        let i = choose|i: int| 0 <= i < builder.events.len() && builder.events[i] == event;
        if i < slot {
            assert(after[i] == event);
        } else {
            assert(after[i + 1] == event);
        }
    }
}

proof fn lemma_mark(builder: TimelineBuilderView, at: u64, label: Seq<char>)
    requires
        builder.wf(),
    ensures
        grown(builder, builder.mark(at, label)),
        builder.mark(at, label).checkpoints.contains(CheckpointView { at, label }),
{
    let new = CheckpointView { at, label };
    let slot = checkpoint_slot(builder.checkpoints, at) as int;
    let after = builder.mark(at, label).checkpoints;
    lemma_checkpoint_slot(builder.checkpoints, at);
    lemma_checkpoint_inserted(builder.checkpoints, new);
    assert(after[slot] == new);
    assert forall|mark: CheckpointView| #[trigger] builder.checkpoints.contains(mark) implies
        after.contains(mark) by {
        let i = choose|i: int| 0 <= i < builder.checkpoints.len() && builder.checkpoints[i] == mark;
        if i < slot {
            assert(after[i] == mark);
        } else {
            assert(after[i + 1] == mark);
        }
    }
}

proof fn lemma_status(
    builder: TimelineBuilderView,
    at: u64,
    status: StatusSnapshotView,
    label: Seq<char>,
)
    requires
        builder.wf(),
    ensures
        grown(builder, builder.status(at, status, label)),
        builder.status(at, status, label).events.contains(EventView { at, input: Some(status) }),
        builder.status(at, status, label).checkpoints.contains(CheckpointView { at, label }),
{
    lemma_event(builder, at, Some(status));
    lemma_mark(builder.event(at, Some(status)), at, label);
}

proof fn lemma_samples(builder: TimelineBuilderView, start: u64, until: u64, sample: nat)
    requires
        builder.wf(),
    ensures
        grown(builder, builder.samples(start, until, sample)),
    decreases until + 100_000_000 - (start + sample * 100_000_000),
{
    if start + sample * 100_000_000 < until {
        let at = (start + sample * 100_000_000) as u64;
        let measured = fixture_status(ScreenshotState::Recording);
        let status = StatusSnapshotView {
            elapsed: ((at - start) / 1_000_000_000) as u64,
            signal: if 7 <= sample < 10 {
                fixture_status(ScreenshotState::NoSignal).signal
            } else {
                measured.signal
            },
            ..measured
        };
        let marked = if sample == 7 {
            builder.mark(at, "Measured speech gap"@)
        } else if sample == 10 {
            builder.mark(at, "Measured input returns"@)
        } else {
            builder
        };
        lemma_mark(builder, at, "Measured speech gap"@);
        lemma_mark(builder, at, "Measured input returns"@);
        lemma_event(marked, at, Some(status));
        lemma_samples(marked.event(at, Some(status)), start, until, sample + 1);
    }
}

proof fn lemma_recording(reduced_motion: bool, start: u64, until: u64)
    requires
        start < until,
        until <= 10_000_000_000,
    ensures
        ({
            let builder = TimelineBuilderView::started(reduced_motion).recording(start, until);
            let measured = fixture_status(ScreenshotState::Recording);
            &&& builder.wf()
            &&& builder.reduced_motion == reduced_motion
            &&& builder.events.contains(
                EventView { at: 0, input: Some(preview_status(StateKindView::Idle)) },
            )
            &&& builder.events.contains(
                EventView {
                    at: start,
                    input: Some(StatusSnapshotView { elapsed: 0, ..measured }),
                },
            )
            &&& builder.checkpoints.contains(
                CheckpointView { at: start, label: "Recording: measured PCM fixture"@ },
            )
        }),
{
    let none = TimelineBuilderView {
        reduced_motion,
        events: Seq::empty(),
        checkpoints: Seq::empty(),
    };
    lemma_status(none, 0, preview_status(StateKindView::Idle), "Idle"@);
    let started = TimelineBuilderView::started(reduced_motion);
    lemma_mark(started, start, "Recording: measured PCM fixture"@);
    let begun = started.mark(start, "Recording: measured PCM fixture"@);
    lemma_samples(begun, start, until, 0);
    crate::gallery::laws::recordings_are_told_in_tenths(begun, start, until, 0, 0);
}

proof fn lemma_outcome(
    builder: TimelineBuilderView,
    at: u64,
    status: StatusSnapshotView,
    label: Seq<char>,
)
    requires
        builder.wf(),
        at + 4_000_000_000 <= u64::MAX,
        status.outcome is Some,
    ensures
        grown(builder, builder.outcome(at, status, label)),
        builder.outcome(at, status, label).events.contains(
            EventView { at, input: Some(dressed(status, builder.reduced_motion)) },
        ),
        builder.outcome(at, status, label).checkpoints.contains(CheckpointView { at, label }),
{
    let shown = dressed(status, builder.reduced_motion);
    let outcome = status.outcome->0;
    let end = builder.outcome_end(at, outcome);
    lemma_status(builder, at, shown, label);
    let told = builder.status(at, shown, label);
    let dismissed = StatusSnapshotView {
        outcome: Some(TerminalOutcomeView { dismissed: true, ..outcome }),
        ..shown
    };
    lemma_status(told, end, dismissed, "Dismiss outcome; idle"@);
    lemma_mark(told, end, "Idle: result expired"@);
    let held_at = (at + 280_000_000) as u64;
    lemma_mark(told, held_at, "Result held"@);
    let held = told.mark(held_at, "Result held"@);
    let fading_at = (end - 140_000_000) as u64;
    lemma_mark(held, fading_at, "Result fading"@);
    lemma_mark(held.mark(fading_at, "Result fading"@), end, "Idle: result expired"@);
}

/// A dictation is recorded, finished, transcribed in chunks, cleaned up, delivered and sent.
pub proof fn dictation_is_told(reduced_motion: bool)
    ensures
        ({
            let story = dictation_script(reduced_motion, false);
            &&& tells(story, 0, preview_status(StateKindView::Idle))
            &&& marks(story, 320, "Recording: measured PCM fixture"@)
            &&& tells(story, 2240, fixture_status(ScreenshotState::FinalizingAudio))
            &&& tells(story, 2720, reported(0, 6)) && tells(story, 3360, reported(1, 6))
            &&& tells(story, 4000, reported(2, 6)) && tells(story, 4640, reported(3, 6))
            &&& tells(story, 5280, reported(4, 6)) && tells(story, 5920, reported(5, 6))
            &&& tells(story, 6560, reported(6, 6))
            &&& tells(story, 6960, fixture_status(ScreenshotState::Cleaning))
            &&& tells(story, 8640, fixture_status(ScreenshotState::Delivering))
            &&& tells(story, 9040, dressed(sent_status(false), reduced_motion))
            &&& marks(story, 2240, "Finalize audio"@) && marks(story, 6960, "Cleanup"@)
            &&& marks(story, 2720, "Reported chunks: 0/6"@) && marks(
                story,
                6560,
                "Reported chunks: 6/6"@,
            )
            &&& marks(story, 8640, "Deliver text"@) && marks(story, 9040, "Success"@)
        }),
{
    lemma_recording(reduced_motion, 320_000_000, 2_240_000_000);
    let a = TimelineBuilderView::started(reduced_motion).recording(320_000_000, 2_240_000_000);
    lemma_status(
        a,
        2_240_000_000,
        fixture_status(ScreenshotState::FinalizingAudio),
        "Finalize audio"@,
    );
    let b = a.state(2_240_000_000, ScreenshotState::FinalizingAudio, "Finalize audio"@);
    lemma_status(b, 2_720_000_000, reported(0, 6), "Reported chunks: 0/6"@);
    let c = b.chunks(2_720_000_000, 0, 6, "Reported chunks: 0/6"@);
    lemma_status(c, 3_360_000_000, reported(1, 6), "Reported chunks: 1/6"@);
    let d = c.chunks(3_360_000_000, 1, 6, "Reported chunks: 1/6"@);
    lemma_status(d, 4_000_000_000, reported(2, 6), "Reported chunks: 2/6"@);
    let e = d.chunks(4_000_000_000, 2, 6, "Reported chunks: 2/6"@);
    lemma_status(e, 4_640_000_000, reported(3, 6), "Reported chunks: 3/6"@);
    let f = e.chunks(4_640_000_000, 3, 6, "Reported chunks: 3/6"@);
    lemma_status(f, 5_280_000_000, reported(4, 6), "Reported chunks: 4/6"@);
    let g = f.chunks(5_280_000_000, 4, 6, "Reported chunks: 4/6"@);
    lemma_status(g, 5_920_000_000, reported(5, 6), "Reported chunks: 5/6"@);
    let h = g.chunks(5_920_000_000, 5, 6, "Reported chunks: 5/6"@);
    lemma_status(h, 6_560_000_000, reported(6, 6), "Reported chunks: 6/6"@);
    let i = h.chunks(6_560_000_000, 6, 6, "Reported chunks: 6/6"@);
    lemma_status(i, 6_960_000_000, fixture_status(ScreenshotState::Cleaning), "Cleanup"@);
    let j = i.state(6_960_000_000, ScreenshotState::Cleaning, "Cleanup"@);
    lemma_status(j, 8_640_000_000, fixture_status(ScreenshotState::Delivering), "Deliver text"@);
    let k = j.state(8_640_000_000, ScreenshotState::Delivering, "Deliver text"@);
    lemma_outcome(k, 9_040_000_000, sent_status(false), "Success"@);
}

/// A single chunk goes on to delivery without a cleanup.
pub proof fn raw_dictation_is_told(reduced_motion: bool)
    ensures
        ({
            let story = dictation_script(reduced_motion, true);
            &&& tells(story, 2240, fixture_status(ScreenshotState::FinalizingAudio))
            &&& tells(story, 2720, reported(0, 1)) && tells(story, 4320, reported(1, 1))
            &&& tells(story, 4640, fixture_status(ScreenshotState::Delivering))
            &&& tells(story, 5040, dressed(sent_status(true), reduced_motion))
            &&& marks(story, 2720, "Single chunk running (0/1)"@)
            &&& marks(story, 4320, "Single chunk reported complete (1/1)"@)
            &&& marks(story, 4640, "Deliver raw text; no cleanup"@)
            &&& marks(story, 5040, "Success"@)
        }),
{
    lemma_recording(reduced_motion, 320_000_000, 2_240_000_000);
    let a = TimelineBuilderView::started(reduced_motion).recording(320_000_000, 2_240_000_000);
    lemma_status(
        a,
        2_240_000_000,
        fixture_status(ScreenshotState::FinalizingAudio),
        "Finalize audio"@,
    );
    let b = a.state(2_240_000_000, ScreenshotState::FinalizingAudio, "Finalize audio"@);
    lemma_status(b, 2_720_000_000, reported(0, 1), "Single chunk running (0/1)"@);
    let c = b.chunks(2_720_000_000, 0, 1, "Single chunk running (0/1)"@);
    lemma_status(c, 4_320_000_000, reported(1, 1), "Single chunk reported complete (1/1)"@);
    let d = c.chunks(4_320_000_000, 1, 1, "Single chunk reported complete (1/1)"@);
    lemma_status(
        d,
        4_640_000_000,
        fixture_status(ScreenshotState::Delivering),
        "Deliver raw text; no cleanup"@,
    );
    let e = d.state(4_640_000_000, ScreenshotState::Delivering, "Deliver raw text; no cleanup"@);
    lemma_outcome(e, 5_040_000_000, sent_status(true), "Success"@);
}

/// A cancellation is asked for while chunks are reported, waits, and ends as one.
pub proof fn cancellation_is_told(reduced_motion: bool)
    ensures
        ({
            let story = cancellation_script(reduced_motion);
            &&& tells(story, 1600, reported(0, 4)) && tells(story, 2240, reported(1, 4))
            &&& tells(story, 2880, fixture_status(ScreenshotState::Cancelling))
            &&& tells(
                story,
                4160,
                dressed(fixture_status(ScreenshotState::Cancelled), reduced_motion),
            )
            &&& marks(story, 1600, "Reported chunks: 0/4"@)
            &&& marks(story, 2240, "Reported chunks: 1/4"@)
            &&& marks(story, 2880, "Cancellation requested; current work finishes"@)
            &&& marks(story, 4160, "Cancelled"@)
        }),
{
    lemma_recording(reduced_motion, 320_000_000, 1_600_000_000);
    let a = TimelineBuilderView::started(reduced_motion).recording(320_000_000, 1_600_000_000);
    lemma_status(a, 1_600_000_000, reported(0, 4), "Reported chunks: 0/4"@);
    let b = a.chunks(1_600_000_000, 0, 4, "Reported chunks: 0/4"@);
    lemma_status(b, 2_240_000_000, reported(1, 4), "Reported chunks: 1/4"@);
    let c = b.chunks(2_240_000_000, 1, 4, "Reported chunks: 1/4"@);
    lemma_status(
        c,
        2_880_000_000,
        fixture_status(ScreenshotState::Cancelling),
        "Cancellation requested; current work finishes"@,
    );
    let d = c.state(
        2_880_000_000,
        ScreenshotState::Cancelling,
        "Cancellation requested; current work finishes"@,
    );
    lemma_outcome(d, 4_160_000_000, fixture_status(ScreenshotState::Cancelled), "Cancelled"@);
}

/// A connection is lost, briefly and then for longer, and the daemon that comes back idle is
/// the same one, or another where it was started again.
pub proof fn outages_are_told(reduced_motion: bool, restart: bool, focus_lost: bool)
    ensures
        ({
            let story = connection_script(reduced_motion, restart, focus_lost);
            let same = preview_status(StateKindView::Idle);
            let other = StatusSnapshotView {
                outcome: None,
                ..fixture_status(ScreenshotState::Reconnected)
            };
            &&& loses(story, 2080)
            &&& !restart ==> loses(story, 1280) && tells(
                story,
                1440,
                fixture_status(ScreenshotState::Recording),
            ) && tells(story, 3520, same)
            &&& restart ==> tells(story, 3520, other)
            &&& !restart ==> marks(story, 1280, "Brief connection loss"@) && marks(
                story,
                1440,
                "Same-epoch connection returns"@,
            ) && marks(story, 3520, "Same epoch returns idle"@)
            &&& restart ==> marks(story, 3520, "New epoch returns idle"@)
            &&& marks(story, 7520, "Idle: connection notice expired"@)
            &&& !reduced_motion ==> marks(story, 7380, "Connection notice fading"@)
            &&& marks(story, 2080, "Connection lost; grace interval"@)
            &&& marks(story, 2530, "Connection warning"@)
        }),
{
    lemma_recording(reduced_motion, 320_000_000, 1_280_000_000);
    let a = TimelineBuilderView::started(reduced_motion).recording(320_000_000, 1_280_000_000);
    lemma_event(a, 1_280_000_000, None);
    let b = a.event(1_280_000_000, None);
    lemma_mark(b, 1_280_000_000, "Brief connection loss"@);
    let c = b.mark(1_280_000_000, "Brief connection loss"@);
    lemma_status(
        c,
        1_440_000_000,
        fixture_status(ScreenshotState::Recording),
        "Same-epoch connection returns"@,
    );
    let d = c.state(
        1_440_000_000,
        ScreenshotState::Recording,
        "Same-epoch connection returns"@,
    );
    let interrupted = if restart {
        a
    } else {
        d
    };
    lemma_event(interrupted, 2_080_000_000, None);
    let e = interrupted.event(2_080_000_000, None);
    lemma_mark(e, 2_080_000_000, "Connection lost; grace interval"@);
    let f = e.mark(2_080_000_000, "Connection lost; grace interval"@);
    lemma_mark(f, 2_530_000_000, "Connection warning"@);
    let lost = f.mark(2_530_000_000, "Connection warning"@);
    assert(lost == interrupted.disconnected(2_080_000_000));
    let idle = StatusSnapshotView {
        outcome: None,
        ..if restart {
            fixture_status(ScreenshotState::Reconnected)
        } else {
            preview_status(StateKindView::Idle)
        }
    };
    let words = if restart {
        "New epoch returns idle"@
    } else {
        "Same epoch returns idle"@
    };
    lemma_status(lost, 3_520_000_000, idle, words);
    let returned = lost.status(3_520_000_000, idle, words);
    lemma_mark(returned, 7_380_000_000, "Connection notice fading"@);
    let fading = if reduced_motion {
        returned
    } else {
        returned.mark(7_380_000_000, "Connection notice fading"@)
    };
    lemma_mark(fading, 7_520_000_000, "Idle: connection notice expired"@);
}

/// A take that succeeded is interrupted by the next one, which succeeds as its own.
pub proof fn interruption_is_told(reduced_motion: bool)
    ensures
        ({
            let story = interruption_script(reduced_motion);
            let next = fixture_status(ScreenshotState::Interrupted);
            &&& tells(story, 1600, reported(0, 1))
            &&& tells(story, 2880, fixture_status(ScreenshotState::Sent))
            &&& tells(story, 3000, next)
            &&& tells(
                story,
                4320,
                StatusSnapshotView {
                    operation_id: next.operation_id,
                    ..fixture_status(ScreenshotState::Transcribing)
                },
            )
            &&& exists|last: StatusSnapshotView| #[trigger]
                tells(story, 5920, last) && last.outcome is Some
                    && last.outcome->0.operation_id == next.operation_id
                    && last.outcome->0.artifacts.take_id == next.operation_id
                    && last.outcome->0.event_id == 2 && last.outcome->0.delivery
                    == fixture_status(ScreenshotState::Sent).outcome->0.delivery
            &&& marks(story, 2880, "First take succeeds"@)
            &&& marks(story, 3000, "Next take interrupts success"@)
            &&& marks(story, 4320, "Next take transcribing"@)
            &&& marks(story, 5920, "Next take succeeds"@)
        }),
{
    let next = fixture_status(ScreenshotState::Interrupted);
    let sent = fixture_status(ScreenshotState::Sent);
    let next_sent = StatusSnapshotView {
        outcome: Some(
            TerminalOutcomeView {
                event_id: 2,
                operation_id: next.operation_id,
                artifacts: crate::ipc::ArtifactsView {
                    take_id: next.operation_id,
                    ..sent.outcome->0.artifacts
                },
                ..sent.outcome->0
            },
        ),
        ..sent
    };
    let processing = StatusSnapshotView {
        operation_id: next.operation_id,
        ..fixture_status(ScreenshotState::Transcribing)
    };
    lemma_recording(reduced_motion, 320_000_000, 1_600_000_000);
    let a = TimelineBuilderView::started(reduced_motion).recording(320_000_000, 1_600_000_000);
    lemma_status(a, 1_600_000_000, reported(0, 1), "First take transcribing"@);
    let b = a.chunks(1_600_000_000, 0, 1, "First take transcribing"@);
    lemma_status(b, 2_880_000_000, sent, "First take succeeds"@);
    let c = b.state(2_880_000_000, ScreenshotState::Sent, "First take succeeds"@);
    lemma_status(c, 3_000_000_000, next, "Next take interrupts success"@);
    let d = c.status(3_000_000_000, next, "Next take interrupts success"@);
    lemma_status(d, 4_320_000_000, processing, "Next take transcribing"@);
    let e = d.status(4_320_000_000, processing, "Next take transcribing"@);
    lemma_outcome(e, 5_920_000_000, next_sent, "Next take succeeds"@);
    assert(tells(interruption_script(reduced_motion), 5920, dressed(next_sent, reduced_motion)));
}

/// A failure is shown until it is dismissed.
pub proof fn dismissal_is_told(reduced_motion: bool)
    ensures
        ({
            let story = dismissal_script(reduced_motion);
            let target = fixture_status(ScreenshotState::Dismissed);
            &&& tells(story, 1600, reported(0, 1))
            &&& tells(
                story,
                2880,
                StatusSnapshotView {
                    outcome: Some(
                        TerminalOutcomeView { dismissed: false, ..target.outcome->0 },
                    ),
                    ..target
                },
            )
            &&& tells(story, 4960, target)
            &&& marks(story, 2880, "Failure remains actionable"@)
            &&& marks(story, 4960, "Dismiss outcome; idle"@)
            &&& story.focus * 16 == 5280
        }),
{
    let target = fixture_status(ScreenshotState::Dismissed);
    let undismissed = StatusSnapshotView {
        outcome: Some(TerminalOutcomeView { dismissed: false, ..target.outcome->0 }),
        ..target
    };
    lemma_recording(reduced_motion, 320_000_000, 1_600_000_000);
    let a = TimelineBuilderView::started(reduced_motion).recording(320_000_000, 1_600_000_000);
    lemma_status(a, 1_600_000_000, reported(0, 1), "Transcribing"@);
    let b = a.chunks(1_600_000_000, 0, 1, "Transcribing"@);
    lemma_status(b, 2_880_000_000, undismissed, "Failure remains actionable"@);
    let c = b.status(2_880_000_000, undismissed, "Failure remains actionable"@);
    lemma_status(c, 4_960_000_000, target, "Dismiss outcome; idle"@);
}

/// A result is recorded, transcribed and shown; one whose delivery did not go well was
/// delivered before.
pub proof fn results_are_told(state: ScreenshotState, reduced_motion: bool)
    requires
        fixture_status(state).outcome is Some,
    ensures
        ({
            let story = terminal_script(state, reduced_motion);
            &&& tells(story, 1600, reported(0, 1))
            &&& tells(story, 2880, dressed(fixture_status(state), reduced_motion))
            &&& state == ScreenshotState::DeliveryFailed || state
                == ScreenshotState::DeliveryUncertain || state == ScreenshotState::Deferred
                ==> tells(story, 2480, fixture_status(ScreenshotState::Delivering)) && marks(
                story,
                2480,
                "Attempt delivery"@,
            )
            &&& marks(story, 2880, "Named terminal fixture"@)
            &&& state != ScreenshotState::SentSettling ==> story.focus * 16 == 3360
            &&& state == ScreenshotState::SentSettling ==> 3080 <= story.focus * 16 < 3096
        }),
{
    let target = fixture_status(state);
    lemma_recording(reduced_motion, 320_000_000, 1_600_000_000);
    let a = TimelineBuilderView::started(reduced_motion).recording(320_000_000, 1_600_000_000);
    lemma_status(a, 1_600_000_000, reported(0, 1), "Transcribing"@);
    let b = a.chunks(1_600_000_000, 0, 1, "Transcribing"@);
    lemma_status(
        b,
        2_480_000_000,
        fixture_status(ScreenshotState::Delivering),
        "Attempt delivery"@,
    );
    let c = b.state(2_480_000_000, ScreenshotState::Delivering, "Attempt delivery"@);
    lemma_outcome(b, 2_880_000_000, target, "Named terminal fixture"@);
    lemma_outcome(c, 2_880_000_000, target, "Named terminal fixture"@);
}

/// Work is shown once it is recorded, and ends as it should: a cancellation cancelled, a
/// recovery copied, any other sent; a removal ends idle.
pub proof fn work_is_told_to_its_end(state: ScreenshotState, reduced_motion: bool)
    requires
        state != ScreenshotState::Busy,
        shows_processing(state),
    ensures
        ({
            let story = processing_script(state, reduced_motion);
            let target = fixture_status(state);
            &&& tells(story, 1600, target)
            &&& marks(story, 1600, "Named processing fixture"@)
            &&& state == ScreenshotState::RemovingRecording ==> tells(
                story,
                4320,
                preview_status(StateKindView::Idle),
            ) && marks(story, 4320, "Removal finished; idle"@)
            &&& state == ScreenshotState::Cancelling ==> tells(
                story,
                4320,
                dressed(fixture_status(ScreenshotState::Cancelled), reduced_motion),
            )
            &&& state == ScreenshotState::Recovery ==> tells(
                story,
                5280,
                dressed(fixture_status(ScreenshotState::Copied), reduced_motion),
            )
            &&& state != ScreenshotState::RemovingRecording && state != ScreenshotState::Cancelling
                && state != ScreenshotState::Recovery ==> tells(
                story,
                5280,
                dressed(fixture_status(ScreenshotState::Sent), reduced_motion),
            )
            &&& state != ScreenshotState::RemovingRecording && state != ScreenshotState::Cancelling
                ==> tells(
                story,
                4960,
                StatusSnapshotView {
                    operation_kind: target.operation_kind,
                    ..fixture_status(ScreenshotState::Delivering)
                },
            ) && marks(story, 4960, "Deliver text"@)
            &&& state == ScreenshotState::FinalizingAudio ==> tells(story, 3680, reported(0, 1))
            &&& state == ScreenshotState::Transcribing || state == ScreenshotState::Recovery
                ==> tells(
                story,
                3680,
                StatusSnapshotView {
                    operation_kind: target.operation_kind,
                    ..fixture_status(ScreenshotState::Cleaning)
                },
            )
            &&& state != ScreenshotState::Settling ==> story.focus * 16 == 2240
        }),
{
    let target = fixture_status(state);
    lemma_recording(reduced_motion, 320_000_000, 1_600_000_000);
    let recorded = TimelineBuilderView::started(reduced_motion).recording(
        320_000_000,
        1_600_000_000,
    );
    lemma_status(recorded, 1_600_000_000, target, "Named processing fixture"@);
    let processing = recorded.status(1_600_000_000, target, "Named processing fixture"@);
    lemma_status(
        processing,
        4_320_000_000,
        preview_status(StateKindView::Idle),
        "Removal finished; idle"@,
    );
    lemma_status(processing, 3_680_000_000, reported(0, 1), "Transcribing"@);
    let cleanup = StatusSnapshotView {
        operation_kind: target.operation_kind,
        ..fixture_status(ScreenshotState::Cleaning)
    };
    lemma_status(processing, 3_680_000_000, cleanup, "Cleanup"@);
    let cleaning = if state == ScreenshotState::FinalizingAudio {
        processing.chunks(3_680_000_000, 0, 1, "Transcribing"@)
    } else if state == ScreenshotState::Cleaning || state == ScreenshotState::ReducedMotionCleaning
        || state == ScreenshotState::Delivering {
        processing
    } else {
        processing.status(3_680_000_000, cleanup, "Cleanup"@)
    };
    let delivery = StatusSnapshotView {
        operation_kind: target.operation_kind,
        ..fixture_status(ScreenshotState::Delivering)
    };
    lemma_status(cleaning, 4_960_000_000, delivery, "Deliver text"@);
    let delivering = if state == ScreenshotState::Cancelling {
        processing
    } else {
        cleaning.status(4_960_000_000, delivery, "Deliver text"@)
    };
    if state == ScreenshotState::Cancelling {
        lemma_outcome(
            delivering,
            4_320_000_000,
            fixture_status(ScreenshotState::Cancelled),
            "Terminal outcome"@,
        );
    } else if state == ScreenshotState::Recovery {
        lemma_outcome(
            delivering,
            5_280_000_000,
            fixture_status(ScreenshotState::Copied),
            "Terminal outcome"@,
        );
    } else {
        lemma_outcome(
            delivering,
            5_280_000_000,
            fixture_status(ScreenshotState::Sent),
            "Terminal outcome"@,
        );
    }
}

/// A recording is shown from its start, measured once it is where it only starts, and ends
/// with its text sent.
pub proof fn recordings_are_told_to_their_end(state: ScreenshotState, reduced_motion: bool)
    requires
        state == ScreenshotState::Recording || state == ScreenshotState::LongRecording || state
            == ScreenshotState::Starting,
    ensures
        ({
            let story = recording_script(state, reduced_motion);
            let starting = state == ScreenshotState::Starting;
            &&& tells(story, 320, fixture_status(state))
            &&& marks(story, 320, "Named recording fixture"@)
            &&& starting ==> tells(story, 1920, fixture_status(ScreenshotState::Recording))
                && marks(story, 1920, "Measured input arrives"@) && tells(
                story,
                2880,
                reported(0, 1),
            ) && tells(
                story,
                4480,
                dressed(fixture_status(ScreenshotState::Sent), reduced_motion),
            )
            &&& !starting ==> tells(story, 3520, reported(0, 1)) && tells(
                story,
                5120,
                dressed(fixture_status(ScreenshotState::Sent), reduced_motion),
            )
            &&& story.focus * 16 == 960
        }),
{
    let target = fixture_status(state);
    let none = TimelineBuilderView {
        reduced_motion,
        events: Seq::empty(),
        checkpoints: Seq::empty(),
    };
    lemma_status(none, 0, preview_status(StateKindView::Idle), "Idle"@);
    let started = TimelineBuilderView::started(reduced_motion);
    lemma_status(started, 320_000_000, target, "Named recording fixture"@);
    let recording = started.status(320_000_000, target, "Named recording fixture"@);
    if state == ScreenshotState::Starting {
        lemma_status(
            recording,
            1_920_000_000,
            fixture_status(ScreenshotState::Recording),
            "Measured input arrives"@,
        );
        let measured = recording.state(
            1_920_000_000,
            ScreenshotState::Recording,
            "Measured input arrives"@,
        );
        lemma_status(measured, 2_880_000_000, reported(0, 1), "Transcribing"@);
        let processing = measured.chunks(2_880_000_000, 0, 1, "Transcribing"@);
        lemma_outcome(
            processing,
            4_480_000_000,
            fixture_status(ScreenshotState::Sent),
            "Terminal outcome"@,
        );
    } else {
        lemma_status(recording, 3_520_000_000, reported(0, 1), "Transcribing"@);
        let processing = recording.chunks(3_520_000_000, 0, 1, "Transcribing"@);
        lemma_outcome(
            processing,
            5_120_000_000,
            fixture_status(ScreenshotState::Sent),
            "Terminal outcome"@,
        );
    }
}

} // verus!
