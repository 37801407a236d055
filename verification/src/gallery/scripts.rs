//! The histories that the catalog replays.

use crate::gallery::timeline::{
    all_playable, milliseconds, Timeline, TimelineBuilder, TimelineBuilderView, TimelineView,
};
use crate::gallery::{Journey, Source};
use crate::hud::still::{
    fixture, fixture_status, preview_snapshot, preview_status, shows_processing, shows_recording,
    ScreenshotState,
};
use crate::hud::{INTERACTION_HOLD, MILLISECOND, NOTICE_HOLD, RESULT_FADE};
use crate::ipc::{
    ArtifactsView, Cleanup, StateKind, StateKindView, StatusSnapshot, StatusSnapshotView,
    TerminalOutcomeView,
};
use vstd::prelude::*;

verus! {

/// A moment of a script, in nanoseconds.
pub open spec fn ms(value: int) -> u64 {
    (value * MILLISECOND) as u64
}

/// The status of a delivered take, whose text was cleaned up where it was not raw.
pub open spec fn sent_status(raw: bool) -> StatusSnapshotView {
    let sent = fixture_status(ScreenshotState::Sent);
    StatusSnapshotView {
        outcome: Some(
            TerminalOutcomeView {
                cleanup: if raw {
                    sent.outcome->0.cleanup
                } else {
                    Cleanup::Applied
                },
                ..sent.outcome->0
            },
        ),
        ..sent
    }
}

/// A whole dictation: in measured chunks with cleanup, or in one raw chunk.
pub open spec fn dictation_script(reduced_motion: bool, raw: bool) -> TimelineView {
    let begun = TimelineBuilderView::started(reduced_motion).recording(ms(320), ms(2240)).state(
        ms(2240),
        ScreenshotState::FinalizingAudio,
        "Finalize audio"@,
    );
    if raw {
        let delivering = begun.chunks(ms(2720), 0, 1, "Single chunk running (0/1)"@).chunks(
            ms(4320),
            1,
            1,
            "Single chunk reported complete (1/1)"@,
        ).state(ms(4640), ScreenshotState::Delivering, "Deliver raw text; no cleanup"@);
        let end = delivering.outcome_end(ms(5040), sent_status(raw).outcome->0);
        delivering.outcome(ms(5040), sent_status(raw), "Success"@).finish(
            (end + ms(960)) as u64,
            ms(3360),
        )
    } else {
        let delivering = begun.chunks(ms(2720), 0, 6, "Reported chunks: 0/6"@).chunks(
            ms(3360),
            1,
            6,
            "Reported chunks: 1/6"@,
        ).chunks(ms(4000), 2, 6, "Reported chunks: 2/6"@).chunks(
            ms(4640),
            3,
            6,
            "Reported chunks: 3/6"@,
        ).chunks(ms(5280), 4, 6, "Reported chunks: 4/6"@).chunks(
            ms(5920),
            5,
            6,
            "Reported chunks: 5/6"@,
        ).chunks(ms(6560), 6, 6, "Reported chunks: 6/6"@).state(
            ms(6960),
            ScreenshotState::Cleaning,
            "Cleanup"@,
        ).state(ms(8640), ScreenshotState::Delivering, "Deliver text"@);
        let end = delivering.outcome_end(ms(9040), sent_status(raw).outcome->0);
        delivering.outcome(ms(9040), sent_status(raw), "Success"@).finish(
            (end + ms(960)) as u64,
            ms(4960),
        )
    }
}

/// Script a whole dictation.
pub fn dictation(reduced_motion: bool, raw: bool) -> (result: Timeline)
    ensures
        result@ == dictation_script(reduced_motion, raw),
        result@.wf(),
{
    let mut builder = TimelineBuilder::new(reduced_motion);
    builder.recording(milliseconds(320), milliseconds(2240));
    builder.state(milliseconds(2240), ScreenshotState::FinalizingAudio, "Finalize audio");
    let result_at: u64 = if raw {
        builder.chunks(milliseconds(2720), 0, 1, "Single chunk running (0/1)");
        builder.chunks(milliseconds(4320), 1, 1, "Single chunk reported complete (1/1)");
        builder.state(
            milliseconds(4640),
            ScreenshotState::Delivering,
            "Deliver raw text; no cleanup",
        );
        milliseconds(5040)
    } else {
        builder.chunks(milliseconds(2720), 0, 6, "Reported chunks: 0/6");
        builder.chunks(milliseconds(3360), 1, 6, "Reported chunks: 1/6");
        builder.chunks(milliseconds(4000), 2, 6, "Reported chunks: 2/6");
        builder.chunks(milliseconds(4640), 3, 6, "Reported chunks: 3/6");
        builder.chunks(milliseconds(5280), 4, 6, "Reported chunks: 4/6");
        builder.chunks(milliseconds(5920), 5, 6, "Reported chunks: 5/6");
        builder.chunks(milliseconds(6560), 6, 6, "Reported chunks: 6/6");
        builder.state(milliseconds(6960), ScreenshotState::Cleaning, "Cleanup");
        builder.state(milliseconds(8640), ScreenshotState::Delivering, "Deliver text");
        milliseconds(9040)
    };
    let sent = sent(raw);
    let end: u64 = builder.outcome(result_at, sent, "Success");
    let focus: u64 = if raw {
        milliseconds(3360)
    } else {
        milliseconds(4960)
    };
    builder.finish(end + milliseconds(960), focus)
}

fn sent(raw: bool) -> (result: StatusSnapshot)
    ensures
        result@ == sent_status(raw),
        result.outcome is Some,
{
    let mut sent = fixture(ScreenshotState::Sent);
    let outcome = sent.outcome.take();
    if let Some(mut outcome) = outcome {
        if !raw {
            outcome.cleanup = Cleanup::Applied;
        }
        sent.outcome = Some(outcome);
    }
    sent
}

/// A recording that loses its connection. Without a restart, a brief outage before
/// the long one ends in time to stay unseen.
pub open spec fn connection_script(
    reduced_motion: bool,
    restart: bool,
    focus_lost: bool,
) -> TimelineView {
    let begun = TimelineBuilderView::started(reduced_motion).recording(ms(320), ms(1280));
    let interrupted = if restart {
        begun
    } else {
        begun.event(ms(1280), None).mark(ms(1280), "Brief connection loss"@).state(
            ms(1440),
            ScreenshotState::Recording,
            "Same-epoch connection returns"@,
        )
    };
    let idle = StatusSnapshotView {
        outcome: None,
        ..if restart {
            fixture_status(ScreenshotState::Reconnected)
        } else {
            preview_status(StateKindView::Idle)
        }
    };
    let returned = interrupted.disconnected(ms(2080)).status(
        ms(3520),
        idle,
        if restart {
            "New epoch returns idle"@
        } else {
            "Same epoch returns idle"@
        },
    );
    let end = (ms(3520) + NOTICE_HOLD) as u64;
    let fading = if reduced_motion {
        returned
    } else {
        returned.mark((end - RESULT_FADE) as u64, "Connection notice fading"@)
    };
    fading.mark(end, "Idle: connection notice expired"@).finish(
        (end + ms(960)) as u64,
        if focus_lost {
            ms(2880)
        } else {
            ms(3840)
        },
    )
}

/// Script a recording that loses its connection.
pub fn connection(reduced_motion: bool, restart: bool, focus_lost: bool) -> (result: Timeline)
    ensures
        result@ == connection_script(reduced_motion, restart, focus_lost),
        result@.wf(),
{
    let mut builder = TimelineBuilder::new(reduced_motion);
    builder.recording(milliseconds(320), milliseconds(1280));
    if !restart {
        builder.event(milliseconds(1280), None);
        builder.mark(milliseconds(1280), "Brief connection loss");
        builder.state(
            milliseconds(1440),
            ScreenshotState::Recording,
            "Same-epoch connection returns",
        );
    }
    builder.disconnected(milliseconds(2080));
    let mut idle = if restart {
        fixture(ScreenshotState::Reconnected)
    } else {
        preview_snapshot(StateKind::Idle)
    };
    idle.outcome = None;
    let label: &'static str = if restart {
        "New epoch returns idle"
    } else {
        "Same epoch returns idle"
    };
    builder.status(milliseconds(3520), idle, label);
    let end: u64 = milliseconds(3520) + NOTICE_HOLD;
    if !reduced_motion {
        builder.mark(end - RESULT_FADE, "Connection notice fading");
    }
    builder.mark(end, "Idle: connection notice expired");
    let focus: u64 = if focus_lost {
        milliseconds(2880)
    } else {
        milliseconds(3840)
    };
    builder.finish(end + milliseconds(960), focus)
}

/// A new take that starts while the success of the last one is shown.
pub open spec fn interruption_script(reduced_motion: bool) -> TimelineView {
    let next = fixture_status(ScreenshotState::Interrupted);
    let sent = fixture_status(ScreenshotState::Sent);
    let next_sent = StatusSnapshotView {
        outcome: Some(
            TerminalOutcomeView {
                event_id: 2,
                operation_id: next.operation_id,
                artifacts: ArtifactsView {
                    take_id: next.operation_id,
                    ..sent.outcome->0.artifacts
                },
                ..sent.outcome->0
            },
        ),
        ..sent
    };
    let processing = StatusSnapshotView {
        operation_id: next.operation_id,
        ..fixture_status(ScreenshotState::Transcribing)
    };
    let running = TimelineBuilderView::started(reduced_motion).recording(ms(320), ms(1600)).chunks(
        ms(1600),
        0,
        1,
        "First take transcribing"@,
    ).state(ms(2880), ScreenshotState::Sent, "First take succeeds"@).status(
        ms(3000),
        next,
        "Next take interrupts success"@,
    ).status(ms(4320), processing, "Next take transcribing"@);
    let end = running.outcome_end(ms(5920), next_sent.outcome->0);
    running.outcome(ms(5920), next_sent, "Next take succeeds"@).finish(
        (end + ms(960)) as u64,
        ms(3180),
    )
}

/// Script a new take that starts while the success of the last one is shown.
pub fn interruption(reduced_motion: bool) -> (result: Timeline)
    ensures
        result@ == interruption_script(reduced_motion),
        result@.wf(),
{
    let mut builder = TimelineBuilder::new(reduced_motion);
    builder.recording(milliseconds(320), milliseconds(1600));
    builder.chunks(milliseconds(1600), 0, 1, "First take transcribing");
    builder.state(milliseconds(2880), ScreenshotState::Sent, "First take succeeds");
    let next = fixture(ScreenshotState::Interrupted);
    let operation = next.operation_id.clone();
    let mut processing = fixture(ScreenshotState::Transcribing);
    processing.operation_id = next.operation_id.clone();
    let mut sent = fixture(ScreenshotState::Sent);
    let outcome = sent.outcome.take();
    if let Some(mut outcome) = outcome {
        outcome.event_id = 2;
        outcome.operation_id = next.operation_id.clone();
        outcome.artifacts.take_id = operation;
        sent.outcome = Some(outcome);
    }
    builder.status(milliseconds(3000), next, "Next take interrupts success");
    builder.status(milliseconds(4320), processing, "Next take transcribing");
    let end: u64 = builder.outcome(milliseconds(5920), sent, "Next take succeeds");
    builder.finish(end + milliseconds(960), milliseconds(3180))
}

/// A take that is cancelled while it is transcribed.
pub open spec fn cancellation_script(reduced_motion: bool) -> TimelineView {
    let cancelled = fixture_status(ScreenshotState::Cancelled);
    let cancelling = TimelineBuilderView::started(reduced_motion).recording(
        ms(320),
        ms(1600),
    ).chunks(ms(1600), 0, 4, "Reported chunks: 0/4"@).chunks(
        ms(2240),
        1,
        4,
        "Reported chunks: 1/4"@,
    ).state(
        ms(2880),
        ScreenshotState::Cancelling,
        "Cancellation requested; current work finishes"@,
    );
    let end = cancelling.outcome_end(ms(4160), cancelled.outcome->0);
    cancelling.outcome(ms(4160), cancelled, "Cancelled"@).finish((end + ms(960)) as u64, ms(3360))
}

/// Script a take that is cancelled while it is transcribed.
pub fn cancellation(reduced_motion: bool) -> (result: Timeline)
    ensures
        result@ == cancellation_script(reduced_motion),
        result@.wf(),
{
    let mut builder = TimelineBuilder::new(reduced_motion);
    builder.recording(milliseconds(320), milliseconds(1600));
    builder.chunks(milliseconds(1600), 0, 4, "Reported chunks: 0/4");
    builder.chunks(milliseconds(2240), 1, 4, "Reported chunks: 1/4");
    builder.state(
        milliseconds(2880),
        ScreenshotState::Cancelling,
        "Cancellation requested; current work finishes",
    );
    let end: u64 = builder.outcome(
        milliseconds(4160),
        fixture(ScreenshotState::Cancelled),
        "Cancelled",
    );
    builder.finish(end + milliseconds(960), milliseconds(3360))
}

/// A failure that stays until it is dismissed.
pub open spec fn dismissal_script(reduced_motion: bool) -> TimelineView {
    let target = fixture_status(ScreenshotState::Dismissed);
    let undismissed = StatusSnapshotView {
        outcome: Some(TerminalOutcomeView { dismissed: false, ..target.outcome->0 }),
        ..target
    };
    TimelineBuilderView::started(reduced_motion).recording(ms(320), ms(1600)).chunks(
        ms(1600),
        0,
        1,
        "Transcribing"@,
    ).status(ms(2880), undismissed, "Failure remains actionable"@).status(
        ms(4960),
        target,
        "Dismiss outcome; idle"@,
    ).finish(ms(5920), ms(5280))
}

fn dismissal(reduced_motion: bool) -> (result: Timeline)
    ensures
        result@ == dismissal_script(reduced_motion),
        result@.wf(),
{
    let mut builder = TimelineBuilder::new(reduced_motion);
    let target = fixture(ScreenshotState::Dismissed);
    builder.recording(milliseconds(320), milliseconds(1600));
    builder.chunks(milliseconds(1600), 0, 1, "Transcribing");
    let mut undismissed = target.clone();
    let outcome = undismissed.outcome.take();
    if let Some(mut outcome) = outcome {
        outcome.dismissed = false;
        undismissed.outcome = Some(outcome);
    }
    builder.status(milliseconds(2880), undismissed, "Failure remains actionable");
    builder.status(milliseconds(4960), target, "Dismiss outcome; idle");
    builder.finish(milliseconds(5920), milliseconds(5280))
}

/// With a recording's statuses, one each second, up to the given one.
pub open spec fn startup(
    builder: TimelineBuilderView,
    target: StatusSnapshotView,
    elapsed: nat,
) -> TimelineBuilderView
    decreases elapsed,
{
    if elapsed == 0 {
        builder.status(
            ms(320),
            StatusSnapshotView { elapsed: 0, ..target },
            "Recording begins"@,
        )
    } else {
        startup(builder, target, (elapsed - 1) as nat).event(
            ms(320 + elapsed as int * 1000),
            Some(StatusSnapshotView { elapsed: elapsed as u64, ..target }),
        )
    }
}

/// The history round a still of a recording.
pub open spec fn recording_script(state: ScreenshotState, reduced_motion: bool) -> TimelineView {
    let target = fixture_status(state);
    let long_startup = state == ScreenshotState::NoSignal || state
        == ScreenshotState::MonitoringUnavailable;
    let started = TimelineBuilderView::started(reduced_motion);
    let target_at = if long_startup {
        ms(target.elapsed as int * 1000 + 320)
    } else {
        ms(320)
    };
    let recording = if long_startup {
        startup(started, target, target.elapsed as nat).mark(
            target_at,
            "Named recording fixture"@,
        )
    } else {
        started.status(target_at, target, "Named recording fixture"@)
    };
    let processing_at = (target_at + if state == ScreenshotState::Starting {
        ms(1600)
    } else {
        ms(2240)
    }) as u64;
    let measured = if state == ScreenshotState::Starting {
        recording.state(processing_at, ScreenshotState::Recording, "Measured input arrives"@)
    } else {
        recording
    };
    let processing = measured.chunks((processing_at + ms(960)) as u64, 0, 1, "Transcribing"@);
    let outcome = fixture_status(
        if state == ScreenshotState::NoSignal {
            ScreenshotState::EmptySaved
        } else {
            ScreenshotState::Sent
        },
    );
    let outcome_at = (processing_at + ms(2560)) as u64;
    let end = processing.outcome_end(outcome_at, outcome.outcome->0);
    processing.outcome(outcome_at, outcome, "Terminal outcome"@).finish(
        (end + ms(960)) as u64,
        (target_at + ms(640)) as u64,
    )
}

fn recording_timeline(state: ScreenshotState, reduced_motion: bool) -> (result: Timeline)
    requires
        shows_recording(state),
    ensures
        result@ == recording_script(state, reduced_motion),
        result@.wf(),
{
    let mut builder = TimelineBuilder::new(reduced_motion);
    let target = fixture(state);
    let long_startup = matches!(
        state,
        ScreenshotState::NoSignal | ScreenshotState::MonitoringUnavailable
    );
    let target_at: u64 = if long_startup {
        milliseconds(target.elapsed * 1000 + 320)
    } else {
        milliseconds(320)
    };
    if long_startup {
        let ghost started = builder@;
        let mut initial = target.clone();
        initial.elapsed = 0;
        builder.status(milliseconds(320), initial, "Recording begins");
        let mut elapsed: u64 = 0;
        while elapsed < target.elapsed
            invariant
                elapsed <= target.elapsed <= 12,
                builder@.wf(),
                all_playable(builder@.events),
                builder@ == startup(started, target@, elapsed as nat),
            decreases target.elapsed - elapsed,
        {
            elapsed += 1;
            let mut status = target.clone();
            status.elapsed = elapsed;
            builder.event(milliseconds(320 + elapsed * 1000), Some(status));
        }
        builder.mark(target_at, "Named recording fixture");
    } else {
        builder.status(target_at, target, "Named recording fixture");
    }
    let focus: u64 = target_at + milliseconds(640);
    let processing_at: u64 = target_at + if state == ScreenshotState::Starting {
        milliseconds(1600)
    } else {
        milliseconds(2240)
    };
    if state == ScreenshotState::Starting {
        builder.state(processing_at, ScreenshotState::Recording, "Measured input arrives");
    }
    builder.chunks(processing_at + milliseconds(960), 0, 1, "Transcribing");
    let outcome = if state == ScreenshotState::NoSignal {
        ScreenshotState::EmptySaved
    } else {
        ScreenshotState::Sent
    };
    let end: u64 = builder.outcome(
        processing_at + milliseconds(2560),
        fixture(outcome),
        "Terminal outcome",
    );
    builder.finish(end + milliseconds(960), focus)
}

/// The history round a still of processing.
pub open spec fn processing_script(state: ScreenshotState, reduced_motion: bool) -> TimelineView {
    let target = fixture_status(state);
    let at = ms(1600);
    let focus = (at + if state == ScreenshotState::Settling {
        ms(60)
    } else {
        ms(640)
    }) as u64;
    let recorded = TimelineBuilderView::started(reduced_motion).recording(ms(320), ms(1600));
    let processing = if state == ScreenshotState::Busy {
        recorded.status(
            at,
            StatusSnapshotView { notice: None, ..target },
            "Transcribing"@,
        ).status((at + ms(320)) as u64, target, "Already-working interaction notice"@).mark(
            (at + ms(320) + INTERACTION_HOLD) as u64,
            "Interaction notice expires"@,
        )
    } else {
        recorded.status(at, target, "Named processing fixture"@)
    };
    if state == ScreenshotState::RemovingRecording {
        processing.status(
            ms(4320),
            preview_status(StateKindView::Idle),
            "Removal finished; idle"@,
        ).finish(ms(5280), focus)
    } else {
        let cleaning = if state == ScreenshotState::FinalizingAudio {
            processing.chunks(ms(3680), 0, 1, "Transcribing"@)
        } else if state == ScreenshotState::Cleaning || state
            == ScreenshotState::ReducedMotionCleaning || state == ScreenshotState::Delivering {
            processing
        } else {
            processing.status(
                if state == ScreenshotState::Busy {
                    ms(4320)
                } else {
                    ms(3680)
                },
                StatusSnapshotView {
                    operation_kind: target.operation_kind,
                    ..fixture_status(ScreenshotState::Cleaning)
                },
                "Cleanup"@,
            )
        };
        let delivering = if state == ScreenshotState::Cancelling {
            processing
        } else {
            cleaning.status(
                ms(4960),
                StatusSnapshotView {
                    operation_kind: target.operation_kind,
                    ..fixture_status(ScreenshotState::Delivering)
                },
                "Deliver text"@,
            )
        };
        let result_at = if state == ScreenshotState::Cancelling {
            ms(4320)
        } else {
            ms(5280)
        };
        let outcome = fixture_status(
            match state {
                ScreenshotState::Cancelling => ScreenshotState::Cancelled,
                ScreenshotState::Recovery => ScreenshotState::Copied,
                _ => ScreenshotState::Sent,
            },
        );
        let end = delivering.outcome_end(result_at, outcome.outcome->0);
        delivering.outcome(result_at, outcome, "Terminal outcome"@).finish(
            (end + ms(960)) as u64,
            focus,
        )
    }
}

fn processing_timeline(state: ScreenshotState, reduced_motion: bool) -> (result: Timeline)
    requires
        shows_processing(state),
    ensures
        result@ == processing_script(state, reduced_motion),
        result@.wf(),
{
    let mut builder = TimelineBuilder::new(reduced_motion);
    let target = fixture(state);
    builder.recording(milliseconds(320), milliseconds(1600));
    let at: u64 = milliseconds(1600);
    let focus: u64 = at + if state == ScreenshotState::Settling {
        milliseconds(60)
    } else {
        milliseconds(640)
    };
    let operation_kind = target.operation_kind;
    if state == ScreenshotState::Busy {
        let mut before_notice = target.clone();
        before_notice.notice = None;
        builder.status(at, before_notice, "Transcribing");
        builder.status(at + milliseconds(320), target, "Already-working interaction notice");
        builder.mark(
            at + milliseconds(320) + INTERACTION_HOLD,
            "Interaction notice expires",
        );
    } else {
        builder.status(at, target, "Named processing fixture");
    }
    if state == ScreenshotState::RemovingRecording {
        builder.status(
            milliseconds(4320),
            preview_snapshot(StateKind::Idle),
            "Removal finished; idle",
        );
        return builder.finish(milliseconds(5280), focus);
    }
    let result_at: u64 = if state == ScreenshotState::Cancelling {
        milliseconds(4320)
    } else {
        if state == ScreenshotState::FinalizingAudio {
            builder.chunks(milliseconds(3680), 0, 1, "Transcribing");
        } else if !matches!(
            state,
            ScreenshotState::Cleaning
                | ScreenshotState::ReducedMotionCleaning
                | ScreenshotState::Delivering
        ) {
            let mut cleaning = fixture(ScreenshotState::Cleaning);
            cleaning.operation_kind = operation_kind;
            let cleaning_at: u64 = if state == ScreenshotState::Busy {
                milliseconds(4320)
            } else {
                milliseconds(3680)
            };
            builder.status(cleaning_at, cleaning, "Cleanup");
        }
        let mut delivering = fixture(ScreenshotState::Delivering);
        delivering.operation_kind = operation_kind;
        builder.status(milliseconds(4960), delivering, "Deliver text");
        milliseconds(5280)
    };
    let outcome_state = match state {
        ScreenshotState::Cancelling => ScreenshotState::Cancelled,
        ScreenshotState::Recovery => ScreenshotState::Copied,
        _ => ScreenshotState::Sent,
    };
    let end: u64 = builder.outcome(result_at, fixture(outcome_state), "Terminal outcome");
    builder.finish(end + milliseconds(960), focus)
}

/// The history round a still of a finished operation.
pub open spec fn terminal_script(state: ScreenshotState, reduced_motion: bool) -> TimelineView {
    let target = fixture_status(state);
    let processed = TimelineBuilderView::started(reduced_motion).recording(
        ms(320),
        ms(1600),
    ).chunks(ms(1600), 0, 1, "Transcribing"@);
    let attempted = if state == ScreenshotState::DeliveryFailed || state
        == ScreenshotState::DeliveryUncertain || state == ScreenshotState::Deferred {
        processed.state(ms(2480), ScreenshotState::Delivering, "Attempt delivery"@)
    } else {
        processed
    };
    let end = attempted.outcome_end(ms(2880), target.outcome->0);
    attempted.outcome(ms(2880), target, "Named terminal fixture"@).finish(
        (end + ms(960)) as u64,
        if state == ScreenshotState::SentSettling {
            ms(3080)
        } else {
            ms(3360)
        },
    )
}

fn terminal_timeline(state: ScreenshotState, reduced_motion: bool) -> (result: Timeline)
    requires
        fixture_status(state).outcome is Some,
    ensures
        result@ == terminal_script(state, reduced_motion),
        result@.wf(),
{
    let mut builder = TimelineBuilder::new(reduced_motion);
    let target = fixture(state);
    builder.recording(milliseconds(320), milliseconds(1600));
    builder.chunks(milliseconds(1600), 0, 1, "Transcribing");
    if matches!(
        state,
        ScreenshotState::DeliveryFailed
            | ScreenshotState::DeliveryUncertain
            | ScreenshotState::Deferred
    ) {
        builder.state(milliseconds(2480), ScreenshotState::Delivering, "Attempt delivery");
    }
    let result_at: u64 = milliseconds(2880);
    let end: u64 = builder.outcome(result_at, target, "Named terminal fixture");
    let focus: u64 = result_at + if state == ScreenshotState::SentSettling {
        milliseconds(200)
    } else {
        milliseconds(480)
    };
    builder.finish(end + milliseconds(960), focus)
}

/// The history round a still.
pub open spec fn catalog_script(state: ScreenshotState, reduced_motion: bool) -> TimelineView {
    match state {
        ScreenshotState::Disconnected => connection_script(reduced_motion, false, true),
        ScreenshotState::Reconnected => connection_script(reduced_motion, true, false),
        ScreenshotState::Interrupted => interruption_script(reduced_motion),
        ScreenshotState::Idle => TimelineBuilderView::started(reduced_motion).finish(
            ms(2400),
            0,
        ),
        ScreenshotState::Dismissed => dismissal_script(reduced_motion),
        _ => if shows_recording(state) {
            recording_script(state, reduced_motion)
        } else if shows_processing(state) {
            processing_script(state, reduced_motion)
        } else {
            terminal_script(state, reduced_motion)
        },
    }
}

/// Script the history round a still.
pub fn catalog_timeline(state: ScreenshotState, reduced_motion: bool) -> (result: Timeline)
    ensures
        result@ == catalog_script(state, reduced_motion),
        result@.wf(),
{
    match state {
        ScreenshotState::Disconnected => return connection(reduced_motion, false, true),
        ScreenshotState::Reconnected => return connection(reduced_motion, true, false),
        ScreenshotState::Interrupted => return interruption(reduced_motion),
        ScreenshotState::Idle => {
            return TimelineBuilder::new(reduced_motion).finish(milliseconds(2400), 0);
        },
        ScreenshotState::Dismissed => return dismissal(reduced_motion),
        _ => {},
    }
    match fixture(state).state {
        StateKind::Recording => recording_timeline(state, reduced_motion),
        StateKind::Processing => processing_timeline(state, reduced_motion),
        _ => terminal_timeline(state, reduced_motion),
    }
}

/// The history that a catalog entry replays.
pub open spec fn source_script(source: Source, reduced_motion: bool) -> TimelineView {
    match source {
        Source::Journey(Journey::Measured) => dictation_script(reduced_motion, false),
        Source::Journey(Journey::Raw) => dictation_script(reduced_motion, true),
        Source::Journey(Journey::Cancellation) => cancellation_script(reduced_motion),
        Source::Journey(Journey::Interruption) => interruption_script(reduced_motion),
        Source::Journey(Journey::Reconnect) => connection_script(reduced_motion, false, false),
        Source::Journey(Journey::Restart) => connection_script(reduced_motion, true, false),
        Source::Journey(Journey::Failure) => catalog_script(
            ScreenshotState::Failed,
            reduced_motion,
        ),
        Source::Journey(Journey::Uncertain) => catalog_script(
            ScreenshotState::DeliveryUncertain,
            reduced_motion,
        ),
        Source::Journey(Journey::Deferred) => catalog_script(
            ScreenshotState::Deferred,
            reduced_motion,
        ),
        Source::State(state) => catalog_script(state, reduced_motion),
    }
}

/// Script the history that a catalog entry replays.
pub fn timeline(source: Source, reduced_motion: bool) -> (result: Timeline)
    ensures
        result@ == source_script(source, reduced_motion),
        result@.wf(),
{
    match source {
        Source::Journey(Journey::Measured) => dictation(reduced_motion, false),
        Source::Journey(Journey::Raw) => dictation(reduced_motion, true),
        Source::Journey(Journey::Cancellation) => cancellation(reduced_motion),
        Source::Journey(Journey::Interruption) => interruption(reduced_motion),
        Source::Journey(Journey::Reconnect) => connection(reduced_motion, false, false),
        Source::Journey(Journey::Restart) => connection(reduced_motion, true, false),
        Source::Journey(Journey::Failure) => catalog_timeline(
            ScreenshotState::Failed,
            reduced_motion,
        ),
        Source::Journey(Journey::Uncertain) => catalog_timeline(
            ScreenshotState::DeliveryUncertain,
            reduced_motion,
        ),
        Source::Journey(Journey::Deferred) => catalog_timeline(
            ScreenshotState::Deferred,
            reduced_motion,
        ),
        Source::State(state) => catalog_timeline(state, reduced_motion),
    }
}

} // verus!
