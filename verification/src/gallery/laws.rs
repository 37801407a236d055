//! What the gallery lists, and how its stories are told.

use crate::gallery::replay::{
    caught_up, clamped, fed, moment_of, next_after, passed_checkpoint, passed_count,
    played_position, starts_reduced, stepped, GalleryKeys, ViewOptions,
};
use crate::gallery::scripts::{
    cancellation_script, connection_script, dictation_script, interruption_script, sent_status,
    source_script,
};
use crate::gallery::timeline::{
    checkpoint_slot, checkpoints_sorted, event_slot, events_sorted, frame_of,
    lemma_checkpoint_slot, lemma_event_slot, CheckpointView, EventView, TimelineBuilderView,
};
use crate::gallery::{catalog_sources, journey_description, journey_title, Journey, Source};
use crate::hud::still::{fixture_status, ScreenshotState};
use crate::hud::ModelView;
use crate::ipc::{
    Cleanup, Completeness, Delivery, HudConfig, StageView, StateKindView, StatusSnapshotView,
    TerminalOutcomeView,
};
use vstd::prelude::*;

verus! {

/// Every story and every state is listed.
pub proof fn everything_is_listed(journey: Journey, state: ScreenshotState)
    ensures
        catalog_sources().len() == 51,
        catalog_sources().contains(Source::Journey(journey)),
        catalog_sources().contains(Source::State(state)),
{
    let list = catalog_sources();
    let at: int = match journey {
        Journey::Measured => 0,
        Journey::Raw => 1,
        Journey::Cancellation => 2,
        Journey::Interruption => 3,
        Journey::Failure => 4,
        Journey::Uncertain => 5,
        Journey::Deferred => 6,
        Journey::Reconnect => 7,
        Journey::Restart => 8,
    };
    assert(list[at] == Source::Journey(journey));
    let place: int = match state {
        ScreenshotState::Idle => 9,
        ScreenshotState::Recording => 10,
        ScreenshotState::LongRecording => 11,
        ScreenshotState::Starting => 12,
        ScreenshotState::MonitoringUnavailable => 13,
        ScreenshotState::NoSignal => 14,
        ScreenshotState::Working => 15,
        ScreenshotState::Transcribing => 16,
        ScreenshotState::ProgressZero => 17,
        ScreenshotState::Progress => 18,
        ScreenshotState::ProgressComplete => 19,
        ScreenshotState::FinalizingAudio => 20,
        ScreenshotState::RemovingRecording => 21,
        ScreenshotState::Cleaning => 22,
        ScreenshotState::Delivering => 23,
        ScreenshotState::Cancelling => 24,
        ScreenshotState::Sent => 25,
        ScreenshotState::SentSettling => 26,
        ScreenshotState::Copied => 27,
        ScreenshotState::CopiedInstead => 28,
        ScreenshotState::CleanupFallback => 29,
        ScreenshotState::Empty => 30,
        ScreenshotState::EmptySaved => 31,
        ScreenshotState::Failed => 32,
        ScreenshotState::StorageFailed => 33,
        ScreenshotState::Partial => 34,
        ScreenshotState::PartialSaved => 35,
        ScreenshotState::DeliveryFailed => 36,
        ScreenshotState::DeliveryUncertain => 37,
        ScreenshotState::Deferred => 38,
        ScreenshotState::Cancelled => 39,
        ScreenshotState::Disconnected => 40,
        ScreenshotState::Reconnected => 41,
        ScreenshotState::SetupMissing => 42,
        ScreenshotState::Busy => 43,
        ScreenshotState::Recovery => 44,
        ScreenshotState::ReducedMotion => 45,
        ScreenshotState::ReducedMotionCleaning => 46,
        ScreenshotState::ReducedMotionSent => 47,
        ScreenshotState::Settling => 48,
        ScreenshotState::Interrupted => 49,
        ScreenshotState::Dismissed => 50,
    };
    assert(list[place] == Source::State(state));
}

/// Nothing is listed twice, and the stories come first.
pub proof fn nothing_is_listed_twice(i: int, j: int)
    requires
        0 <= i < j < catalog_sources().len(),
    ensures
        catalog_sources()[i] != catalog_sources()[j],
        catalog_sources()[i] is Journey <==> i < 9,
{
}

/// Each story has its title.
pub proof fn stories_have_titles()
    ensures
        journey_title(Journey::Measured) == "Measured dictation"@,
        journey_title(Journey::Raw) == "Single chunk, raw text"@,
        journey_title(Journey::Cancellation) == "Cancel during transcription"@,
        journey_title(Journey::Interruption) == "Next take interrupts success"@,
        journey_title(Journey::Failure) == "Failure and dismissal"@,
        journey_title(Journey::Uncertain) == "Uncertain delivery"@,
        journey_title(Journey::Deferred) == "Deferred delivery"@,
        journey_title(Journey::Reconnect) == "Disconnect and reconnect"@,
        journey_title(Journey::Restart) == "Daemon epoch changes"@,
{
}

/// What is listed is called by the title of its story or the name of its state.
pub proof fn sources_are_called_by_their_name(journey: Journey, state: ScreenshotState)
    ensures
        Source::Journey(journey).name() == journey_title(journey),
        Source::State(state).name() == state.label(),
        !starts_reduced(Source::Journey(journey)),
        starts_reduced(Source::State(state)) <==> state == ScreenshotState::ReducedMotion || state
            == ScreenshotState::ReducedMotionCleaning || state
            == ScreenshotState::ReducedMotionSent,
{
}

/// An event takes its place by its time, behind those of the same time, and moves no other.
pub proof fn events_are_told_in_order(
    builder: TimelineBuilderView,
    at: u64,
    input: Option<StatusSnapshotView>,
    i: int,
)
    requires
        events_sorted(builder.events),
        0 <= i < builder.events.len(),
    ensures
        ({
            let after = builder.event(at, input).events;
            let slot = event_slot(builder.events, at) as int;
            &&& after.len() == builder.events.len() + 1
            &&& 0 <= slot < after.len()
            &&& after[slot] == (EventView { at, input })
            &&& builder.events[i].at <= at ==> i < slot && after[i] == builder.events[i]
            &&& builder.events[i].at > at ==> i >= slot && after[i + 1] == builder.events[i]
            &&& builder.event(at, input).checkpoints == builder.checkpoints
        }),
{
    lemma_event_slot(builder.events, at);
}

/// A mark takes its place by its time, behind those of the same time, and moves no other.
pub proof fn marks_are_set_in_order(
    builder: TimelineBuilderView,
    at: u64,
    label: Seq<char>,
    i: int,
)
    requires
        checkpoints_sorted(builder.checkpoints),
        0 <= i < builder.checkpoints.len(),
    ensures
        ({
            let after = builder.mark(at, label).checkpoints;
            let slot = checkpoint_slot(builder.checkpoints, at) as int;
            &&& after.len() == builder.checkpoints.len() + 1
            &&& 0 <= slot < after.len()
            &&& after[slot] == (CheckpointView { at, label })
            &&& builder.checkpoints[i].at <= at ==> i < slot && after[i] == builder.checkpoints[i]
            &&& builder.checkpoints[i].at > at ==> i >= slot && after[i + 1]
                == builder.checkpoints[i]
            &&& builder.mark(at, label).events == builder.events
        }),
{
    lemma_checkpoint_slot(builder.checkpoints, at);
}

proof fn lemma_event_is_there(builder: TimelineBuilderView, at: u64, input: Option<StatusSnapshotView>)
    requires
        events_sorted(builder.events),
    ensures
        builder.event(at, input).events.contains(EventView { at, input }),
{
    lemma_event_slot(builder.events, at);
    let slot = event_slot(builder.events, at) as int;
    assert(builder.event(at, input).events[slot] == (EventView { at, input }));
}

/// A status is told with its mark, a lost connection as one, with a mark for the moment at
/// which it is shown.
pub proof fn statuses_and_losses_are_told(
    builder: TimelineBuilderView,
    at: u64,
    status: StatusSnapshotView,
    label: Seq<char>,
)
    requires
        events_sorted(builder.events),
        checkpoints_sorted(builder.checkpoints),
        at + 450_000_000 <= u64::MAX,
    ensures
        builder.status(at, status, label).events.contains(EventView { at, input: Some(status) }),
        builder.status(at, status, label).checkpoints.contains(CheckpointView { at, label }),
        builder.disconnected(at).events.contains(EventView { at, input: None }),
        builder.disconnected(at).events.len() == builder.events.len() + 1,
        builder.disconnected(at).checkpoints.contains(
            CheckpointView {
                at: (at + 450_000_000) as u64,
                label: "Connection warning"@,
            },
        ),
{
    lemma_event_is_there(builder, at, Some(status));
    lemma_event_is_there(builder, at, None);
    lemma_event_slot(builder.events, at);
    lemma_checkpoint_slot(builder.checkpoints, at);
    let slot = checkpoint_slot(builder.checkpoints, at) as int;
    assert(builder.status(at, status, label).checkpoints[slot] == (CheckpointView { at, label }));
    let first = builder.mark(at, "Connection lost; grace interval"@);
    crate::gallery::timeline::lemma_checkpoint_inserted(
        builder.checkpoints,
        CheckpointView { at, label: "Connection lost; grace interval"@ },
    );
    let later = (at + 450_000_000) as u64;
    lemma_checkpoint_slot(first.checkpoints, later);
    let place = checkpoint_slot(first.checkpoints, later) as int;
    assert(builder.disconnected(at).checkpoints[place] == (CheckpointView {
        at: later,
        label: "Connection warning"@,
    }));
}

/// Chunks are told as they are reported.
pub proof fn chunks_are_told(
    builder: TimelineBuilderView,
    at: u64,
    completed: u32,
    total: u32,
    label: Seq<char>,
)
    requires
        events_sorted(builder.events),
    ensures
        exists|i: int|
            0 <= i < builder.chunks(at, completed, total, label).events.len() && ({
                let event = #[trigger] builder.chunks(at, completed, total, label).events[i];
                &&& event.at == at
                &&& event.input is Some
                &&& event.input->0.state == StateKindView::Processing
                &&& event.input->0.stage == Some(StageView::Transcribing { completed, total })
                &&& event.input->0.elapsed == 0
            }),
{
    let status = StatusSnapshotView {
        elapsed: 0,
        stage: Some(StageView::Transcribing { completed, total }),
        ..fixture_status(ScreenshotState::Transcribing)
    };
    lemma_event_slot(builder.events, at);
    let slot = event_slot(builder.events, at) as int;
    assert(builder.chunks(at, completed, total, label).events[slot] == (EventView {
        at,
        input: Some(status),
    }));
}

/// An outcome that waits for a decision is shown for four seconds and then dismissed; any
/// other is shown as long as the display shows it.
pub proof fn outcomes_are_shown_and_end(
    builder: TimelineBuilderView,
    at: u64,
    status: StatusSnapshotView,
    label: Seq<char>,
)
    requires
        builder.wf(),
        at + 4_000_000_000 <= u64::MAX,
        status.outcome is Some,
    ensures
        ({
            let outcome = status.outcome->0;
            let waits = outcome.completeness == Completeness::Failed || outcome.completeness
                == Completeness::Partial || (outcome.completeness == Completeness::Complete && (
            outcome.delivery == Delivery::Failed || outcome.delivery == Delivery::Deferred
                || outcome.delivery == Delivery::Uncertain));
            let sent = outcome.completeness == Completeness::Complete && (outcome.delivery
                == Delivery::Typed || outcome.delivery == Delivery::Pasted) && outcome.cleanup
                != Cleanup::Failed;
            let end = builder.outcome_end(at, outcome);
            let after = builder.outcome(at, status, label);
            let shown = StatusSnapshotView {
                hud: HudConfig {
                    labels: status.hud.labels,
                    reduced_motion: Some(builder.reduced_motion),
                },
                ..status
            };
            &&& waits || !sent ==> end == at + 4_000_000_000
            &&& sent && builder.reduced_motion ==> end == at + 700_000_000
            &&& sent && !builder.reduced_motion ==> end == at + 1_120_000_000
            &&& after.events.contains(EventView { at, input: Some(shown) })
            &&& waits ==> after.events.len() == builder.events.len() + 2 && after.events.contains(
                EventView {
                    at: end,
                    input: Some(
                        StatusSnapshotView {
                            outcome: Some(TerminalOutcomeView { dismissed: true, ..outcome }),
                            ..shown
                        },
                    ),
                },
            )
            &&& !waits ==> after.events.len() == builder.events.len() + 1
        }),
{
    let outcome = status.outcome->0;
    let shown = StatusSnapshotView {
        hud: HudConfig {
            labels: status.hud.labels,
            reduced_motion: Some(builder.reduced_motion),
        },
        ..status
    };
    let first = builder.status(at, shown, label);
    lemma_event_is_there(builder, at, Some(shown));
    crate::gallery::timeline::lemma_event_inserted(
        builder.events,
        EventView { at, input: Some(shown) },
    );
    let end = (at + 4_000_000_000) as u64;
    let dismissed = StatusSnapshotView {
        outcome: Some(TerminalOutcomeView { dismissed: true, ..outcome }),
        ..shown
    };
    lemma_event_is_there(first, end, Some(dismissed));
    lemma_event_slot(builder.events, at);
    lemma_event_slot(first.events, end);
    let slot = event_slot(builder.events, at) as int;
    let place = event_slot(first.events, end) as int;
    assert(first.events[slot].at <= end);
    assert(slot < place);
    assert(first.event(end, Some(dismissed)).events[slot] == first.events[slot]);
}

/// A recording is told every tenth of a second, with the seconds that have passed, as
/// measured but for a gap of three tenths.
pub proof fn recordings_are_told_in_tenths(
    builder: TimelineBuilderView,
    start: u64,
    until: u64,
    from: nat,
    sample: nat,
)
    requires
        events_sorted(builder.events),
        from <= sample,
        start + sample * 100_000_000 < until,
        until + 100_000_000 <= u64::MAX,
    ensures
        ({
            let at = (start + sample * 100_000_000) as u64;
            let measured = fixture_status(ScreenshotState::Recording);
            builder.samples(start, until, from).events.contains(
                EventView {
                    at,
                    input: Some(
                        StatusSnapshotView {
                            elapsed: (sample / 10) as u64,
                            signal: if sample == 7 || sample == 8 || sample == 9 {
                                fixture_status(ScreenshotState::NoSignal).signal
                            } else {
                                measured.signal
                            },
                            ..measured
                        },
                    ),
                },
            )
        }),
    decreases sample - from,
{
    let at = (start + from * 100_000_000) as u64;
    let measured = fixture_status(ScreenshotState::Recording);
    let status = StatusSnapshotView {
        elapsed: ((at - start) / 1_000_000_000) as u64,
        signal: if 7 <= from < 10 {
            fixture_status(ScreenshotState::NoSignal).signal
        } else {
            measured.signal
        },
        ..measured
    };
    let marked = if from == 7 {
        builder.mark(at, "Measured speech gap"@)
    } else if from == 10 {
        builder.mark(at, "Measured input returns"@)
    } else {
        builder
    };
    let next = marked.event(at, Some(status));
    lemma_event_is_there(marked, at, Some(status));
    crate::gallery::timeline::lemma_event_inserted(
        marked.events,
        EventView { at, input: Some(status) },
    );
    assert(builder.samples(start, until, from) == next.samples(start, until, from + 1));
    assert((from * 100_000_000) / 1_000_000_000 == from / 10);
    if from < sample {
        recordings_are_told_in_tenths(next, start, until, from + 1, sample);
    } else {
        lemma_samples_keep(
            next,
            start,
            until,
            from + 1,
            EventView { at, input: Some(status) },
        );
    }
}

proof fn lemma_samples_keep(
    builder: TimelineBuilderView,
    start: u64,
    until: u64,
    from: nat,
    event: EventView,
)
    requires
        events_sorted(builder.events),
        builder.events.contains(event),
        until + 100_000_000 <= u64::MAX,
    ensures
        builder.samples(start, until, from).events.contains(event),
    decreases until + 100_000_000 - (start + from * 100_000_000),
{
    if start + from * 100_000_000 < until {
        let at = (start + from * 100_000_000) as u64;
        let measured = fixture_status(ScreenshotState::Recording);
        let status = StatusSnapshotView {
            elapsed: ((at - start) / 1_000_000_000) as u64,
            signal: if 7 <= from < 10 {
                fixture_status(ScreenshotState::NoSignal).signal
            } else {
                measured.signal
            },
            ..measured
        };
        let marked = if from == 7 {
            builder.mark(at, "Measured speech gap"@)
        } else if from == 10 {
            builder.mark(at, "Measured input returns"@)
        } else {
            builder
        };
        let next = marked.event(at, Some(status));
        lemma_event_slot(marked.events, at);
        crate::gallery::timeline::lemma_event_inserted(
            marked.events,
            EventView { at, input: Some(status) },
        );
        let i = choose|i: int| 0 <= i < builder.events.len() && builder.events[i] == event;
        let slot = event_slot(marked.events, at) as int;
        if i < slot {
            assert(next.events[i] == event);
        } else {
            assert(next.events[i + 1] == event);
        }
        lemma_samples_keep(next, start, until, from + 1, event);
    }
}

/// A moment is shown by the first frame at or after it.
pub proof fn moments_are_shown_by_the_next_frame(at: u64)
    requires
        at < 60_000_000_000_000_000,
    ensures
        frame_of(at) * 16_000_000 >= at,
        frame_of(at) * 16_000_000 < at + 16_000_000,
        moment_of(frame_of(at) as nat) >= at,
        moment_of(frame_of(at) as nat) == frame_of(at) * 16_000_000,
{
}

/// What has come by a moment is what is told up to it, in the order of the story.
pub proof fn events_come_in_their_time(
    events: Seq<EventView>,
    from: nat,
    moment: u64,
    i: int,
)
    requires
        events_sorted(events),
        from <= i < events.len(),
    ensures
        i < next_after(events, from, moment) <==> events[i].at <= moment,
        from <= next_after(events, from, moment) <= events.len(),
    decreases events.len() - from,
{
    if events[from as int].at <= moment {
        if from < i {
            events_come_in_their_time(events, from + 1, moment, i);
        } else if from + 1 < events.len() {
            events_come_in_their_time(events, from + 1, moment, i + 1);
        }
    }
}

/// The display takes in each event of the story at the event's own time, with the options of
/// the view, and a lost connection as lost.
pub proof fn events_are_taken_in_at_their_time(
    model: ModelView,
    events: Seq<EventView>,
    next: nat,
    moment: u64,
    options: ViewOptions,
)
    requires
        next < events.len(),
    ensures
        ({
            let event = events[next as int];
            let after = match event.input {
                Some(status) => model.applied(
                    StatusSnapshotView {
                        hud: HudConfig {
                            labels: options.labels,
                            reduced_motion: Some(options.reduced_motion),
                        },
                        ..status
                    },
                    event.at,
                ),
                None => model.disconnected(event.at),
            };
            &&& fed(model, event, options) == after
            &&& event.at <= moment ==> caught_up(model, events, next, moment, options)
                == caught_up(after, events, next + 1, moment, options)
            &&& event.at > moment ==> caught_up(model, events, next, moment, options) == model
        }),
{
}

proof fn lemma_passed(checkpoints: Seq<CheckpointView>, from: nat, moment: u64)
    requires
        from <= checkpoints.len(),
    ensures
        from <= passed_count(checkpoints, from, moment) <= checkpoints.len(),
        passed_count(checkpoints, from, moment) > from ==> checkpoints[passed_count(
            checkpoints,
            from,
            moment,
        ) - 1].at <= moment,
        passed_count(checkpoints, from, moment) < checkpoints.len() ==> checkpoints[passed_count(
            checkpoints,
            from,
            moment,
        ) as int].at > moment,
    decreases checkpoints.len() - from,
{
    if from < checkpoints.len() && checkpoints[from as int].at <= moment {
        lemma_passed(checkpoints, from + 1, moment);
    }
}

/// The mark that is shown is the last that has been passed.
pub proof fn last_passed_mark_is_shown(checkpoints: Seq<CheckpointView>, moment: u64)
    requires
        checkpoints_sorted(checkpoints),
        checkpoints.len() > 0,
        checkpoints[0].at <= moment,
    ensures
        ({
            let mark = passed_checkpoint(checkpoints, moment);
            &&& mark < checkpoints.len()
            &&& checkpoints[mark as int].at <= moment
            &&& mark + 1 < checkpoints.len() ==> checkpoints[mark as int + 1].at > moment
        }),
{
    lemma_passed(checkpoints, 0, moment);
    lemma_passed(checkpoints, 1, moment);
    assert(passed_count(checkpoints, 0, moment) == passed_count(checkpoints, 1, moment));
}

/// A step leads to the neighbouring frame and not beyond the ends.
pub proof fn steps_lead_to_the_next_frame(frame: u32, end: u32)
    requires
        frame <= end,
    ensures
        frame < end ==> stepped(frame, end, true) == frame + 1,
        frame == end ==> stepped(frame, end, true) == end,
        frame > 0 ==> stepped(frame, end, false) == frame - 1,
        frame == 0 ==> stepped(frame, end, false) == 0,
        clamped(frame, end) == frame,
        clamped(end, frame) == frame,
{
}

/// A key leads where it says: the ends, a step back or forth, and the start again where a
/// story that has ended is played.
pub proof fn keys_lead_where_they_say(frame: u32, end: u32, playing: bool, keys: GalleryKeys)
    requires
        frame <= end,
    ensures
        ({
            let after = played_position(frame, end, playing, keys);
            &&& after <= end
            &&& keys.end ==> after == end
            &&& keys.home && !keys.end ==> after == 0
            &&& keys.left && !keys.right && !keys.home && !keys.end && !keys.space ==> after == if
            frame > 0 {
                frame - 1
            } else {
                0
            }
            &&& keys.right && !keys.left && !keys.home && !keys.end && !keys.space ==> after == if
            frame < end {
                frame + 1
            } else {
                end as int
            }
            &&& !keys.left && !keys.right && !keys.home && !keys.end && !keys.space ==> after
                == frame
            &&& keys.space && !keys.left && !keys.right && !keys.home && !keys.end ==> after == if
            !playing && frame == end {
                0
            } else {
                frame
            }
        }),
{
}

/// The options of the view replace those of the story, and nothing else.
pub proof fn options_replace_only_the_look(options: ViewOptions, status: StatusSnapshotView)
    ensures
        ({
            let shown = options.shown(status);
            &&& shown.hud.labels == options.labels
            &&& shown.hud.reduced_motion == Some(options.reduced_motion)
            &&& shown == (StatusSnapshotView { hud: shown.hud, ..status })
        }),
{
}

/// Each story shows its own moment first.
pub proof fn stories_open_at_their_moment(reduced_motion: bool)
    ensures
        dictation_script(reduced_motion, false).focus * 16 == 4960,
        dictation_script(reduced_motion, true).focus * 16 == 3360,
        cancellation_script(reduced_motion).focus * 16 == 3360,
        connection_script(reduced_motion, false, false).focus * 16 == 3840,
        connection_script(reduced_motion, true, false).focus * 16 == 3840,
        connection_script(reduced_motion, false, true).focus * 16 == 2880,
        3180 <= interruption_script(reduced_motion).focus * 16 < 3196,
{
}

/// A story that was cleaned up ends with its text sent and says so; a raw one says that it
/// was not.
pub proof fn dictations_end_sent()
    ensures
        sent_status(false).outcome is Some && sent_status(true).outcome is Some,
        sent_status(false).outcome->0.cleanup == Cleanup::Applied,
        sent_status(true).outcome->0.cleanup == Cleanup::Off,
        sent_status(false).outcome->0.completeness == Completeness::Complete,
        sent_status(false).outcome->0.delivery == Delivery::Pasted,
        sent_status(true).outcome->0.completeness == Completeness::Complete,
        sent_status(true).outcome->0.delivery == Delivery::Pasted,
{
}

/// A story is told by its own script, and a state by the one of that state.
pub proof fn stories_are_told_by_their_script(reduced_motion: bool)
    ensures
        source_script(Source::Journey(Journey::Measured), reduced_motion) == dictation_script(
            reduced_motion,
            false,
        ),
        source_script(Source::Journey(Journey::Raw), reduced_motion) == dictation_script(
            reduced_motion,
            true,
        ),
        source_script(Source::Journey(Journey::Cancellation), reduced_motion)
            == cancellation_script(reduced_motion),
        source_script(Source::Journey(Journey::Interruption), reduced_motion)
            == interruption_script(reduced_motion),
        source_script(Source::Journey(Journey::Reconnect), reduced_motion) == connection_script(
            reduced_motion,
            false,
            false,
        ),
        source_script(Source::Journey(Journey::Restart), reduced_motion) == connection_script(
            reduced_motion,
            true,
            false,
        ),
        source_script(Source::Journey(Journey::Failure), reduced_motion) == source_script(
            Source::State(ScreenshotState::Failed),
            reduced_motion,
        ),
        source_script(Source::Journey(Journey::Uncertain), reduced_motion) == source_script(
            Source::State(ScreenshotState::DeliveryUncertain),
            reduced_motion,
        ),
        source_script(Source::Journey(Journey::Deferred), reduced_motion) == source_script(
            Source::State(ScreenshotState::Deferred),
            reduced_motion,
        ),
        source_script(Source::State(ScreenshotState::Disconnected), reduced_motion)
            == connection_script(reduced_motion, false, true),
        source_script(Source::State(ScreenshotState::Reconnected), reduced_motion)
            == connection_script(reduced_motion, true, false),
        source_script(Source::State(ScreenshotState::Interrupted), reduced_motion)
            == interruption_script(reduced_motion),
{
}

/// Each story is described.
pub proof fn stories_are_described()
    ensures
        journey_description(Journey::Measured) == "Recorded PCM fixture, a speech gap, reported chunk completions, cleanup, delivery, success hold, fade, and idle."@,
        journey_description(Journey::Raw) == "One backend chunk stays indeterminate. Its completion goes directly to delivery without cleanup, then success fades to idle."@,
        journey_description(Journey::Cancellation) == "A cancellation request waits for current work, then a cancelled outcome expires. No backend work runs here."@,
        journey_description(Journey::Interruption) == "A new operation arrives during the success transition. The next take owns the instrument immediately and completes independently."@,
        journey_description(Journey::Failure) == "A failed take remains actionable until its fixture outcome is dismissed. Dismissal does not remove the saved-recording metadata."@,
        journey_description(Journey::Uncertain) == "Delivery cannot be confirmed. The production outcome remains visible until the fixture dismisses it; no retry or insertion is attempted."@,
        journey_description(Journey::Deferred) == "Text was not inserted. Review the persistent recovery guidance and its dismissal without touching any real clipboard or recording."@,
        journey_description(Journey::Reconnect) == "A brief outage is coalesced, a longer one becomes visible, then the same epoch returns idle with the previous take's result unknown."@,
        journey_description(Journey::Restart) == "Recording loses its connection. An idle snapshot from a new epoch clears stale event history and presents the production restart notice."@,
{
}

/// Each state is explained by how it is told.
pub proof fn states_are_explained(journey: Journey, state: ScreenshotState)
    ensures
        Source::Journey(journey).explanation() == journey_description(journey),
        state == ScreenshotState::Disconnected || state == ScreenshotState::Reconnected
            ==> Source::State(state).explanation()
            == "Connection events are replayed, not represented by an idle snapshot alone. The fixture includes the grace interval and recovery notice."@,
        Source::State(ScreenshotState::Dismissed).explanation()
            == "The failed outcome is first presented, then dismissed by a later status event. Seek backward to inspect the undismissed result."@,
        Source::State(ScreenshotState::Interrupted).explanation() == journey_description(
            Journey::Interruption,
        ),
        state == ScreenshotState::ReducedMotion || state == ScreenshotState::ReducedMotionCleaning
            || state == ScreenshotState::ReducedMotionSent ==> Source::State(state).explanation()
            == "This fixture starts with reduced motion enabled. Its full history uses the production reduced-motion transitions and outcome lifetime."@,
        Source::State(ScreenshotState::Idle).explanation()
            == "Idle is a transparent production surface. The preview boundary belongs to the gallery, not to the HUD."@,
        Source::State(ScreenshotState::Failed).explanation()
            == "Paused at the named production screenshot fixture. Replay starts earlier and includes its transition history, result lifetime, and return to idle."@,
{
}

} // verus!
