//! What the fixtures of the display show.

use crate::hud::still::{
    fixture_status, preview_status, straight_byte, straight_channel, DisplayEventView,
    ScreenshotState,
};
use crate::hud::{ModelView, TrackStep};
use crate::ipc::{
    Cleanup, Completeness, Delivery, OperationKind, StageView, StateKindView, StatusSnapshotView,
};
use vstd::prelude::*;

verus! {

/// Each state has its name.
pub proof fn states_have_names()
    ensures
        ScreenshotState::Idle.label() == "idle"@,
        ScreenshotState::Recording.label() == "recording"@,
        ScreenshotState::LongRecording.label() == "long-recording"@,
        ScreenshotState::Starting.label() == "starting"@,
        ScreenshotState::MonitoringUnavailable.label() == "monitoring-unavailable"@,
        ScreenshotState::NoSignal.label() == "no-signal"@,
        ScreenshotState::Working.label() == "working"@,
        ScreenshotState::Transcribing.label() == "transcribing"@,
        ScreenshotState::ProgressZero.label() == "progress-zero"@,
        ScreenshotState::Progress.label() == "progress"@,
        ScreenshotState::ProgressComplete.label() == "progress-complete"@,
        ScreenshotState::FinalizingAudio.label() == "finalizing-audio"@,
        ScreenshotState::RemovingRecording.label() == "removing-recording"@,
        ScreenshotState::Cleaning.label() == "cleaning"@,
        ScreenshotState::Delivering.label() == "delivering"@,
        ScreenshotState::Cancelling.label() == "cancelling"@,
        ScreenshotState::Sent.label() == "sent"@,
        ScreenshotState::SentSettling.label() == "sent-settling"@,
        ScreenshotState::Copied.label() == "copied"@,
        ScreenshotState::CopiedInstead.label() == "copied-instead"@,
        ScreenshotState::CleanupFallback.label() == "cleanup-fallback"@,
        ScreenshotState::Empty.label() == "empty"@,
        ScreenshotState::EmptySaved.label() == "empty-saved"@,
        ScreenshotState::Failed.label() == "failed"@,
        ScreenshotState::StorageFailed.label() == "storage-failed"@,
        ScreenshotState::Partial.label() == "partial"@,
        ScreenshotState::PartialSaved.label() == "partial-saved"@,
        ScreenshotState::DeliveryFailed.label() == "delivery-failed"@,
        ScreenshotState::DeliveryUncertain.label() == "delivery-uncertain"@,
        ScreenshotState::Deferred.label() == "deferred"@,
        ScreenshotState::Cancelled.label() == "cancelled"@,
        ScreenshotState::Disconnected.label() == "disconnected"@,
        ScreenshotState::Reconnected.label() == "reconnected"@,
        ScreenshotState::SetupMissing.label() == "setup-missing"@,
        ScreenshotState::Busy.label() == "busy"@,
        ScreenshotState::Recovery.label() == "recovery"@,
        ScreenshotState::ReducedMotion.label() == "reduced-motion"@,
        ScreenshotState::ReducedMotionCleaning.label() == "reduced-motion-cleaning"@,
        ScreenshotState::ReducedMotionSent.label() == "reduced-motion-sent"@,
        ScreenshotState::Settling.label() == "settling"@,
        ScreenshotState::Interrupted.label() == "interrupted"@,
        ScreenshotState::Dismissed.label() == "dismissed"@,
{
}

/// A recording that is shown is one, measured but where it only starts or is not monitored.
pub proof fn recordings_are_shown()
    ensures
        ({
            let recording = fixture_status(ScreenshotState::Recording);
            let long = fixture_status(ScreenshotState::LongRecording);
            let starting = fixture_status(ScreenshotState::Starting);
            let unmonitored = fixture_status(ScreenshotState::MonitoringUnavailable);
            let silent = fixture_status(ScreenshotState::NoSignal);
            &&& recording.state == StateKindView::Recording && long.state
                == StateKindView::Recording && starting.state == StateKindView::Recording
                && unmonitored.state == StateKindView::Recording && silent.state
                == StateKindView::Recording
            &&& recording.elapsed == 9 && long.elapsed == 888 && starting.elapsed == 1
                && unmonitored.elapsed == 8 && silent.elapsed == 12
            &&& recording.signal is Some && recording.signal->0.level == 94
                && !recording.signal->0.silent
            &&& long.signal == recording.signal
            &&& starting.signal is None && unmonitored.signal is None
            &&& silent.signal is Some && silent.signal->0.level == 0 && silent.signal->0.silent
            &&& fixture_status(ScreenshotState::Disconnected) == recording
        }),
{
}

/// Work that is shown is at its stage, of its kind, and as far as it says.
pub proof fn work_is_shown_at_its_stage()
    ensures
        fixture_status(ScreenshotState::FinalizingAudio).stage == Some(
            StageView::FinalizingAudio,
        ),
        fixture_status(ScreenshotState::RemovingRecording).stage == Some(
            StageView::RemovingRecording,
        ),
        fixture_status(ScreenshotState::Cleaning).stage == Some(StageView::CleaningUp),
        fixture_status(ScreenshotState::ReducedMotionCleaning).stage == Some(
            StageView::CleaningUp,
        ),
        fixture_status(ScreenshotState::Delivering).stage == Some(StageView::Delivering),
        fixture_status(ScreenshotState::Cancelling).stage == Some(StageView::Cancelling),
        fixture_status(ScreenshotState::ProgressZero).stage == Some(
            StageView::Transcribing { completed: 0, total: 30 },
        ),
        fixture_status(ScreenshotState::Progress).stage == Some(
            StageView::Transcribing { completed: 12, total: 30 },
        ),
        fixture_status(ScreenshotState::ProgressComplete).stage == Some(
            StageView::Transcribing { completed: 30, total: 30 },
        ),
        fixture_status(ScreenshotState::Transcribing).stage == Some(
            StageView::Transcribing { completed: 0, total: 1 },
        ),
        fixture_status(ScreenshotState::Recovery).operation_kind == Some(OperationKind::Recovery),
        fixture_status(ScreenshotState::RemovingRecording).operation_kind == Some(
            OperationKind::Forget,
        ),
        fixture_status(ScreenshotState::Progress).operation_kind == Some(
            OperationKind::Dictation,
        ),
        fixture_status(ScreenshotState::Busy).notice is Some,
        fixture_status(ScreenshotState::Progress).notice is None,
        fixture_status(ScreenshotState::ReducedMotion).hud.reduced_motion == Some(true),
        fixture_status(ScreenshotState::Progress).hud.reduced_motion == Some(false),
        fixture_status(ScreenshotState::Working).state == StateKindView::Processing,
{
}

/// A result that is shown ended as its name says, with the files that it says.
pub proof fn results_are_shown_as_named(state: ScreenshotState)
    requires
        fixture_status(state).outcome is Some,
    ensures
        ({
            let outcome = fixture_status(state).outcome->0;
            let failed = state == ScreenshotState::Failed || state
                == ScreenshotState::StorageFailed || state == ScreenshotState::SetupMissing
                || state == ScreenshotState::Dismissed;
            let empty = state == ScreenshotState::Empty || state == ScreenshotState::EmptySaved;
            let partial = state == ScreenshotState::Partial || state
                == ScreenshotState::PartialSaved;
            &&& outcome.completeness == Completeness::Failed <==> failed
            &&& outcome.completeness == Completeness::Empty <==> empty
            &&& outcome.completeness == Completeness::Partial <==> partial
            &&& outcome.completeness == Completeness::Cancelled <==> state
                == ScreenshotState::Cancelled
            &&& outcome.delivery == Delivery::Failed <==> state == ScreenshotState::DeliveryFailed
            &&& outcome.delivery == Delivery::Uncertain <==> state
                == ScreenshotState::DeliveryUncertain
            &&& outcome.delivery == Delivery::Deferred <==> state == ScreenshotState::Deferred
                || state == ScreenshotState::PartialSaved
            &&& outcome.delivery == Delivery::Copied <==> state == ScreenshotState::Copied || state
                == ScreenshotState::CopiedInstead || state == ScreenshotState::Partial
            &&& outcome.delivery == Delivery::Pasted <==> state == ScreenshotState::Sent || state
                == ScreenshotState::SentSettling || state == ScreenshotState::CleanupFallback
                || state == ScreenshotState::ReducedMotionSent
            &&& outcome.cleanup == Cleanup::Failed <==> state == ScreenshotState::CleanupFallback
            &&& outcome.dismissed <==> state == ScreenshotState::Dismissed
            &&& outcome.artifacts.audio <==> state == ScreenshotState::Failed || partial || state
                == ScreenshotState::EmptySaved || state == ScreenshotState::Dismissed
            &&& outcome.artifacts.text <==> partial || state == ScreenshotState::DeliveryFailed
                || state == ScreenshotState::DeliveryUncertain || state
                == ScreenshotState::Deferred
            &&& outcome.artifacts.take_id == Some("preview-take"@)
            &&& fixture_status(state).state == StateKindView::Idle
            &&& fixture_status(state).pending_recordings == if outcome.artifacts.audio
                || outcome.artifacts.text {
                1int
            } else {
                0
            }
            &&& fixture_status(state).capabilities.local_model <==> state
                != ScreenshotState::SetupMissing
        }),
{
}

/// A daemon that was started again has another epoch, and another take another number.
pub proof fn restarts_and_next_takes_are_new()
    ensures
        fixture_status(ScreenshotState::Reconnected).epoch == "preview-restarted"@,
        fixture_status(ScreenshotState::Idle).epoch == "preview-epoch"@,
        fixture_status(ScreenshotState::Interrupted).operation_id == Some("next-preview-take"@),
        fixture_status(ScreenshotState::Interrupted).state == StateKindView::Recording,
        preview_status(StateKindView::Idle).operation_id is None,
        preview_status(StateKindView::Recording).operation_id == Some("preview-take"@),
        fixture_status(ScreenshotState::Idle).state == StateKindView::Idle,
        fixture_status(ScreenshotState::Idle).outcome is None,
{
}

/// A display takes in what is told and what happens, one after the other.
pub proof fn display_takes_in_one_event_after_the_other(
    model: ModelView,
    events: Seq<DisplayEventView>,
    status: StatusSnapshotView,
    at: u64,
)
    ensures
        model.replayed(Seq::empty()) == model,
        model.replayed(events.push(DisplayEventView::Status { status, at })) == model.replayed(
            events,
        ).applied(status, at),
        model.replayed(events.push(DisplayEventView::Lost { at })) == model.replayed(
            events,
        ).disconnected(at),
        model.replayed(events.push(DisplayEventView::Refresh { at })) == model.replayed(
            events,
        ).refreshed(at),
        model.replayed(events.push(DisplayEventView::DateTrack { at })).track == model.replayed(
            events,
        ).track.push(TrackStep::Since { at }),
        model.replayed(events.push(DisplayEventView::PresentTrack { at })).track == model.replayed(
            events,
        ).track.push(TrackStep::PresentTrack { at }),
{
    let told = DisplayEventView::Status { status, at };
    assert(events.push(told).drop_last() =~= events);
    assert(events.push(DisplayEventView::Lost { at }).drop_last() =~= events);
    assert(events.push(DisplayEventView::Refresh { at }).drop_last() =~= events);
    assert(events.push(DisplayEventView::DateTrack { at }).drop_last() =~= events);
    assert(events.push(DisplayEventView::PresentTrack { at }).drop_last() =~= events);
}

/// A picture's colours are taken in another order and freed of their opacity: an opaque one
/// stays as it is, a transparent one is black, and any other is the nearest that gives the
/// colour at that opacity, as far as there is one.
pub proof fn colours_are_freed_of_their_opacity(channel: u8, alpha: u8)
    ensures
        straight_channel(channel, 255) == channel,
        straight_channel(channel, 0) == 0,
        alpha > 0 && channel >= alpha ==> straight_channel(channel, alpha) == 255,
        alpha > 0 && channel <= alpha ==> 2 * straight_channel(channel, alpha) * alpha <= 2 * 255
            * channel + alpha && 2 * 255 * channel + alpha < 2 * (straight_channel(channel, alpha)
            + 1) * alpha,
{
    let c = channel as int;
    assert((510 * c + 255) / 510 == c);
    assert(2 * 255 * c + 255 == 510 * c + 255);
    if alpha > 0 {
        let whole = 2 * 255 * channel as int + alpha as int;
        let double = 2 * alpha as int;
        let rounded = whole / double;
        assert(rounded * double <= whole < (rounded + 1) * double) by (nonlinear_arith)
            requires
                double > 0,
                rounded == whole / double,
        ;
        if channel <= alpha {
            assert(rounded <= 255) by (nonlinear_arith)
                requires
                    rounded * double <= whole,
                    whole == 2 * 255 * channel + alpha,
                    double == 2 * alpha,
                    0 <= channel <= alpha,
                    alpha > 0,
            ;
            assert(2 * rounded * alpha == rounded * double) by (nonlinear_arith)
                requires
                    double == 2 * alpha,
            ;
            assert(2 * (rounded + 1) * alpha == (rounded + 1) * double) by (nonlinear_arith)
                requires
                    double == 2 * alpha,
            ;
        }
        if channel >= alpha {
            assert(rounded >= 255) by (nonlinear_arith)
                requires
                    whole < (rounded + 1) * double,
                    whole == 2 * 255 * channel + alpha,
                    double == 2 * alpha,
                    channel >= alpha > 0,
            ;
        }
    }
}

/// Red, green, blue and opacity are taken from the third, the second, the first and the
/// fourth byte.
pub proof fn colours_are_reordered(bytes: Seq<u8>, pixel: int)
    requires
        pixel >= 0,
    ensures
        straight_byte(bytes, 4 * pixel) == straight_channel(bytes[4 * pixel + 2], bytes[4 * pixel
            + 3]),
        straight_byte(bytes, 4 * pixel + 1) == straight_channel(bytes[4 * pixel + 1], bytes[4
            * pixel + 3]),
        straight_byte(bytes, 4 * pixel + 2) == straight_channel(bytes[4 * pixel], bytes[4 * pixel
            + 3]),
        straight_byte(bytes, 4 * pixel + 3) == bytes[4 * pixel + 3],
{
}

/// What a fixture says is what its state would say.
pub proof fn fixtures_say_what_happened()
    ensures
        fixture_status(ScreenshotState::Busy).notice->0.message
            == "Already working on this take."@,
        fixture_status(ScreenshotState::Copied).outcome->0.message == "Copied. Paste when ready."@,
        fixture_status(ScreenshotState::CopiedInstead).outcome->0.message
            == "Copied instead. Paste when ready."@,
        fixture_status(ScreenshotState::SetupMissing).outcome->0.message
            == "Local speech model unavailable."@,
        fixture_status(ScreenshotState::StorageFailed).outcome->0.message
            == "Transcription failed. Audio could not be saved."@,
        fixture_status(ScreenshotState::Failed).outcome->0.message == "Transcription failed."@,
{
}

} // verus!
