//! What holds of every job: what is delivered, what is settled, and what is told.

use crate::config::{ConfigView, InjectionMode};
use crate::daemon::audio::{
    audio_report, replay_outcome, AudioAction, AudioEventView, AudioJobView,
};
use crate::daemon::delivery::{
    delivery_words, first_step, next_step, reached_user, DeliveryReportView, DeliveryStepView,
    InjectionFailure, InjectionFailureKind, InjectionOutcome,
};
use crate::daemon::worker::{
    artifacts_words, attempt_artifacts, cancelled_outcome, conflict_outcome, forget_outcome,
    found_artifacts, rejected_outcome, resolved_take, storage_warned,
    unfinished_outcome, AudioCheck, PipelineOutcome, PostprocStatus, SaveResult,
    SavedArtifactsView, Source,
};
use crate::daemon::{OperationView, TakeView};
use crate::ipc::{ArtifactsView, Cleanup, Completeness, Delivery, TerminalOutcomeView};
use crate::text::is_white_space;
use vstd::prelude::*;

verus! {

/// Whether a transcription brought anything but white space.
pub open spec fn says_something(pipeline: PipelineOutcome) -> bool {
    pipeline.text is Ok && exists|i: int|
        0 <= i < pipeline.text->Ok_0@.len() && !is_white_space(
            #[trigger] pipeline.text->Ok_0@[i],
        )
}

/// Once a take is saved, its text is delivered exactly where there is one and nothing was
/// cancelled, and the delivery is marked partial exactly where the transcription was. The
/// attempt is saved as incomplete where it was partial or cancelled.
pub proof fn text_is_delivered_as_transcribed(
    pipeline: PipelineOutcome,
    cancelled: bool,
    saved: SavedArtifactsView,
)
    ensures
        ({
            let begun = AudioJobView::begun(pipeline, cancelled);
            let after = begun.after(AudioEventView::Saved(saved));
            let stopped = pipeline.cancelled || cancelled;
            &&& begun.action == (AudioAction::Save { partial: pipeline.partial || stopped })
            &&& after.saved == saved
            &&& says_something(pipeline) && !stopped ==> after.action == (AudioAction::Deliver {
                partial: pipeline.partial,
            })
            &&& !says_something(pipeline) || stopped ==> after.action == AudioAction::Finish
        }),
{
    if says_something(pipeline) {
        let text = pipeline.text->Ok_0@;
        let i = choose|i: int| 0 <= i < text.len() && !is_white_space(#[trigger] text[i]);
        assert(!is_white_space(text[i]));
    }
}

/// A partial transcription is never typed or pasted: whatever is asked for, its delivery
/// only copies it, or holds it back where strict typing was asked for.
pub proof fn partial_transcription_is_held_back(
    pipeline: PipelineOutcome,
    saved: SavedArtifactsView,
    requested: InjectionMode,
)
    requires
        says_something(pipeline),
        pipeline.partial,
        !pipeline.cancelled,
    ensures
        ({
            let action = AudioJobView::begun(pipeline, false).after(
                AudioEventView::Saved(saved),
            ).action;
            &&& action is Deliver
            &&& match first_step(requested, action->Deliver_partial, false) {
                DeliveryStepView::Inject(mode) => requested != InjectionMode::Type && mode
                    == InjectionMode::Clipboard,
                DeliveryStepView::Done(report) => requested == InjectionMode::Type
                    && report.delivery == Delivery::Deferred && report.error == Some(
                    "stt-partial"@,
                ),
            }
        }),
{
    text_is_delivered_as_transcribed(pipeline, false, saved);
}

/// A whole transcription is tried as it was asked for.
pub proof fn whole_transcription_is_tried_as_asked(
    pipeline: PipelineOutcome,
    saved: SavedArtifactsView,
    requested: InjectionMode,
)
    requires
        says_something(pipeline),
        !pipeline.partial,
        !pipeline.cancelled,
    ensures
        ({
            let action = AudioJobView::begun(pipeline, false).after(
                AudioEventView::Saved(saved),
            ).action;
            &&& action is Deliver
            &&& first_step(requested, action->Deliver_partial, false) == DeliveryStepView::Inject(
                requested,
            )
        }),
{
    text_is_delivered_as_transcribed(pipeline, false, saved);
}

/// How much of a take counts as transcribed.
pub proof fn completeness_tells_what_was_transcribed(pipeline: PipelineOutcome, cancelled: bool)
    ensures
        ({
            let stopped = pipeline.cancelled || cancelled;
            let begun = AudioJobView::begun(pipeline, cancelled);
            &&& begun.completeness == Completeness::Cancelled <==> stopped
            &&& begun.completeness == Completeness::Failed <==> !stopped && pipeline.text is Err
            &&& begun.completeness == Completeness::Partial <==> !stopped && pipeline.text is Ok
                && pipeline.partial
            &&& begun.completeness == Completeness::Empty <==> !stopped && pipeline.text is Ok
                && !pipeline.partial && !says_something(pipeline)
            &&& begun.completeness == Completeness::Complete <==> !stopped && !pipeline.partial
                && says_something(pipeline)
            &&& begun.report.delivery == if stopped {
                Delivery::Cancelled
            } else {
                Delivery::Nothing
            }
        }),
{
    if says_something(pipeline) {
        let text = pipeline.text->Ok_0@;
        let i = choose|i: int| 0 <= i < text.len() && !is_white_space(#[trigger] text[i]);
        assert(!is_white_space(text[i]));
    }
}

/// After a delivery the take is settled exactly where a whole text was typed, pasted or
/// copied and its saved copy lasts; a cancelled delivery is saved as incomplete; anything
/// else is told at once.
pub proof fn delivery_decides_what_follows(job: AudioJobView, report: DeliveryReportView)
    requires
        job.action is Deliver,
    ensures
        ({
            let after = job.after(AudioEventView::Delivered(report));
            let arrived = report.delivery == Delivery::Typed || report.delivery == Delivery::Pasted
                || report.delivery == Delivery::Copied;
            &&& after.report == report
            &&& after.saved == job.saved
            &&& after.action == AudioAction::Seal <==> job.completeness == Completeness::Complete
                && arrived && job.saved.durable_text
            &&& after.action == AudioAction::SaveCancelled <==> report.delivery
                == Delivery::Cancelled
            &&& after.action == AudioAction::Seal || after.action == AudioAction::SaveCancelled
                || after.action == AudioAction::Finish
            &&& after.completeness == if report.delivery == Delivery::Cancelled {
                Completeness::Cancelled
            } else {
                job.completeness
            }
        }),
{
}

/// A committed settlement resolves the take, a refused one does not, and a resolution that
/// did not succeed is warned of.
pub proof fn settlement_decides_the_resolution(
    job: AudioJobView,
    sealed: bool,
    resolved: bool,
    saved: SavedArtifactsView,
)
    requires
        job.action == AudioAction::Seal,
    ensures
        ({
            let after = job.after(AudioEventView::Sealed(sealed));
            let ended = after.after(AudioEventView::Resolved { resolved, saved });
            &&& after.action == AudioAction::Resolve <==> sealed
            &&& after.action == AudioAction::Finish <==> !sealed
            &&& after.saved == job.saved && after.report == job.report && after.completeness
                == job.completeness
            &&& sealed ==> ended.action == AudioAction::Finish
            &&& sealed ==> (ended.saved.warning <==> saved.warning || !resolved)
            &&& sealed ==> ended.saved.durable_audio == saved.durable_audio
                && ended.saved.artifacts == saved.artifacts
            &&& sealed ==> ended.report == job.report && ended.completeness == job.completeness
            &&& !sealed ==> ended == after
        }),
{
}

/// A take whose delivery was cancelled ends with what was saved after that.
pub proof fn cancelled_delivery_is_saved_again(job: AudioJobView, saved: SavedArtifactsView)
    requires
        job.action == AudioAction::SaveCancelled,
    ensures
        job.after(AudioEventView::Saved(saved)) == (AudioJobView {
            saved,
            action: AudioAction::Finish,
            ..job
        }),
{
}

/// A finished job waits for nothing.
pub proof fn finished_job_stays_finished(job: AudioJobView, event: AudioEventView)
    requires
        job.action == AudioAction::Finish,
    ensures
        job.after(event) == job,
{
}

/// What is reported of an injection names what it did, and an injection is tried again
/// only as a copy, only where nothing was sent for want of a verified destination.
pub proof fn injection_is_reported_as_it_went(
    mode: InjectionMode,
    result: Result<InjectionOutcome, InjectionFailure>,
    cancelled: bool,
    elapsed_ms: u64,
)
    ensures
        ({
            let step = next_step(mode, result, cancelled, elapsed_ms);
            let unverified = result is Err && result->Err_0.kind == InjectionFailureKind::Deferred;
            let failed = result is Err && result->Err_0.kind == InjectionFailureKind::Failed;
            let stopped = result is Err && result->Err_0.kind == InjectionFailureKind::Cancelled;
            let unknown = result is Err && result->Err_0.kind == InjectionFailureKind::Uncertain;
            &&& step is Inject <==> unverified && !cancelled && (mode == InjectionMode::Auto || mode
                == InjectionMode::Paste)
            &&& step is Inject ==> step->Inject_0 == InjectionMode::Clipboard
            &&& step is Done ==> {
                let report = step->Done_0;
                &&& report.elapsed_ms == Some(elapsed_ms)
                &&& report.delivery == Delivery::Typed <==> result is Ok && result->Ok_0 is Typed
                &&& report.delivery == Delivery::Pasted <==> result is Ok && result->Ok_0 is Pasted
                &&& report.delivery == Delivery::Copied <==> result is Ok
                    && result->Ok_0 is Clipboard
                &&& report.delivery == Delivery::Uncertain <==> unknown
                &&& report.delivery == Delivery::Deferred <==> unverified && !cancelled
                &&& report.delivery == Delivery::Failed <==> failed && !cancelled
                &&& report.delivery == Delivery::Cancelled <==> stopped || (cancelled && (unverified
                    || failed))
                &&& report.delivery != Delivery::Nothing
                &&& report.backend is Some <==> result is Ok
                &&& report.error is Some <==> report.delivery == Delivery::Uncertain
                    || report.delivery == Delivery::Deferred || report.delivery == Delivery::Failed
                &&& report.delivery == Delivery::Typed ==> report.backend == Some("typed-wayland"@)
                &&& report.delivery == Delivery::Pasted ==> report.backend == Some("pasted"@)
                &&& report.delivery == Delivery::Copied ==> report.backend == Some("clipboard"@)
                &&& report.delivery == Delivery::Deferred ==> report.error == Some(
                    "injection-deferred"@,
                )
                &&& report.delivery == Delivery::Failed ==> report.error == Some(
                    "injection-failed"@,
                )
                &&& report.delivery == Delivery::Uncertain ==> report.error == Some(
                    "injection-uncertain"@,
                )
            }
        }),
{
}

/// Text counts as arrived exactly where it was typed, pasted or copied.
pub proof fn only_three_deliveries_arrive(delivery: Delivery)
    ensures
        reached_user(delivery) <==> delivery == Delivery::Typed || delivery == Delivery::Pasted
            || delivery == Delivery::Copied,
{
}

/// What is told of a delivery names it. A copy that was not asked for is told as such.
pub proof fn words_tell_the_delivery(
    completeness: Completeness,
    delivery: Delivery,
    requested: InjectionMode,
)
    ensures
        ({
            let words = delivery_words(completeness, delivery, requested);
            &&& completeness == Completeness::Cancelled ==> words == "Cancelled."@
            &&& completeness == Completeness::Empty ==> words == "No text returned."@
            &&& completeness == Completeness::Failed ==> words == "Transcription failed."@
            &&& completeness == Completeness::Partial && delivery == Delivery::Copied ==> words
                == "Partial text copied. Review before pasting."@
            &&& completeness == Completeness::Partial && delivery == Delivery::Uncertain ==> words
                == "Partial text copy is uncertain."@
            &&& completeness == Completeness::Partial && delivery != Delivery::Copied && delivery
                != Delivery::Uncertain ==> words == "Partial text was not delivered."@
            &&& completeness == Completeness::Complete ==> {
                &&& delivery == Delivery::Typed ==> words == "Typed."@
                &&& delivery == Delivery::Pasted ==> words == "Pasted."@
                &&& delivery == Delivery::Copied && requested == InjectionMode::Clipboard ==> words
                    == "Copied. Paste when ready."@
                &&& delivery == Delivery::Copied && requested != InjectionMode::Clipboard ==> words
                    == "Copied instead. Paste when ready."@
                &&& delivery == Delivery::Uncertain ==> words
                    == "Delivery is uncertain; check the destination before trying again."@
                &&& delivery == Delivery::Deferred ==> words
                    == "Not delivered to the changed or unverified destination."@
                &&& delivery == Delivery::Failed ==> words == "Delivery failed."@
                &&& delivery == Delivery::Nothing || delivery == Delivery::Cancelled ==> words
                    == "No text delivered."@
            }
        }),
{
}

/// An outcome of a transcription is about its operation and tells what was saved, how the
/// cleanup went, and how far the delivery came. A cancellation is told only where nothing
/// arrived or may have arrived.
pub proof fn outcome_tells_the_job(
    job: AudioJobView,
    operation: OperationView,
    requested: InjectionMode,
    pipeline: PipelineOutcome,
    cancelled: bool,
)
    ensures
        ({
            let outcome = job.outcome(operation, requested, pipeline, cancelled);
            let safe = job.report.delivery == Delivery::Typed || job.report.delivery
                == Delivery::Pasted || job.report.delivery == Delivery::Copied
                || job.report.delivery == Delivery::Uncertain;
            &&& outcome.operation_id == Some(operation.identity.operation_id)
            &&& outcome.artifacts == job.saved.artifacts
            &&& !outcome.dismissed
            &&& outcome.event_id == 0
            &&& outcome.cleanup == Cleanup::Off <==> pipeline.postproc is Off
            &&& outcome.cleanup == Cleanup::Applied <==> pipeline.postproc is Applied
            &&& outcome.cleanup == Cleanup::Skipped <==> pipeline.postproc is SkippedShort
            &&& outcome.cleanup == Cleanup::Failed <==> pipeline.postproc is Failed
            &&& cancelled && !safe ==> outcome.completeness == Completeness::Cancelled
                && outcome.delivery == Delivery::Cancelled
            &&& !cancelled || safe ==> outcome.completeness == job.completeness && outcome.delivery
                == job.report.delivery
        }),
{
}

/// The error of an outcome is the gravest thing that went wrong: storage before all, else
/// that of the delivery, of the transcription, of the history, of the cleanup.
pub proof fn outcome_tells_the_gravest_error(
    job: AudioJobView,
    operation: OperationView,
    requested: InjectionMode,
    pipeline: PipelineOutcome,
)
    ensures
        ({
            let error = job.outcome(operation, requested, pipeline, false).error;
            let told = job.report.error;
            &&& job.saved.warning && told is None ==> error == Some("storage-failed"@)
            &&& !job.saved.warning && told is None ==> {
                &&& job.completeness == Completeness::Failed ==> error == Some("stt-failed"@)
                &&& job.completeness == Completeness::Partial ==> error == Some("stt-partial"@)
                &&& job.completeness == Completeness::Complete && pipeline.archive_failed ==> error
                    == Some("history-incomplete"@)
                &&& job.completeness == Completeness::Complete && !pipeline.archive_failed
                    && pipeline.postproc is Failed ==> error == Some("cleanup-failed"@)
                &&& job.completeness == Completeness::Complete && !pipeline.archive_failed && !(
                pipeline.postproc is Failed) ==> error is None
            }
            &&& !job.saved.warning && !pipeline.archive_failed && told is Some ==> error == told
        }),
{
    lemma_error_words();
}

/// After a cancellation that came in time, no error of the delivery is told.
pub proof fn cancelled_job_tells_no_error(
    job: AudioJobView,
    operation: OperationView,
    requested: InjectionMode,
    pipeline: PipelineOutcome,
)
    requires
        !reached_user(job.report.delivery),
        job.report.delivery != Delivery::Uncertain,
        !job.saved.warning,
        !pipeline.archive_failed,
        !(pipeline.postproc is Failed),
    ensures
        job.outcome(operation, requested, pipeline, true).error is None,
{
    only_three_deliveries_arrive(job.report.delivery);
}

proof fn lemma_error_words()
    ensures
        "storage-failed"@ != "cleanup-failed"@,
        "stt-failed"@ != "cleanup-failed"@,
        "stt-failed"@ != "storage-failed"@,
        "stt-partial"@ != "cleanup-failed"@,
        "stt-partial"@ != "storage-failed"@,
{
    reveal_strlit("storage-failed");
    reveal_strlit("cleanup-failed");
    reveal_strlit("stt-failed");
    reveal_strlit("stt-partial");
    assert("storage-failed"@[1] == 't');
    assert("cleanup-failed"@[1] == 'l');
    assert("stt-failed"@.len() == 10);
    assert("stt-partial"@.len() == 11);
    assert("cleanup-failed"@.len() == 14);
    assert("storage-failed"@.len() == 14);
}

/// Storage is warned of exactly where something is missing, once, and nothing else of the
/// outcome changes.
pub proof fn storage_warning_is_told_once(outcome: TerminalOutcomeView, warning: bool)
    ensures
        ({
            let warned = storage_warned(outcome, warning);
            &&& !warning ==> warned == outcome
            &&& warning ==> warned.error == Some("storage-failed"@)
            &&& warning && outcome.error != Some("storage-failed"@) ==> warned.message
                == outcome.message
                + " Recording storage is incomplete; check storage before recording again."@
            &&& storage_warned(warned, warning) == warned
            &&& warned.completeness == outcome.completeness && warned.delivery == outcome.delivery
                && warned.artifacts == outcome.artifacts && warned.cleanup == outcome.cleanup
        }),
{
}

/// What is said of saved files names exactly those that are there.
pub proof fn words_name_the_saved_files(text: bool, audio: bool)
    ensures
        text && audio ==> artifacts_words(text, audio) == " Saved text and audio are available."@,
        text && !audio ==> artifacts_words(text, audio) == " Saved text is available."@,
        !text && audio ==> artifacts_words(text, audio) == " Saved audio is available."@,
        !text && !audio ==> artifacts_words(text, audio).len() == 0,
{
}

/// A replay is cancelled exactly where its delivery was, else as whole as its text; it
/// tells the delivery and the error of the report.
pub proof fn replay_tells_its_delivery(
    operation: OperationView,
    requested: InjectionMode,
    partial: bool,
    report: DeliveryReportView,
    artifacts: ArtifactsView,
)
    ensures
        ({
            let outcome = replay_outcome(operation, requested, partial, report, artifacts);
            &&& outcome.delivery == report.delivery
            &&& outcome.artifacts == artifacts
            &&& outcome.operation_id == Some(operation.identity.operation_id)
            &&& outcome.completeness == Completeness::Cancelled <==> report.delivery
                == Delivery::Cancelled
            &&& outcome.completeness == Completeness::Partial <==> partial && report.delivery
                != Delivery::Cancelled
            &&& outcome.completeness == Completeness::Complete <==> !partial && report.delivery
                != Delivery::Cancelled
            &&& report.error is Some ==> outcome.error == report.error
            &&& report.error is None ==> (outcome.error is Some <==> outcome.completeness
                == Completeness::Partial)
        }),
{
}

/// A recording that was never transcribed fails, or was cancelled, with nothing delivered;
/// it keeps its files and tells why.
pub proof fn untranscribed_recordings_are_told(operation: OperationView, saved: SavedArtifactsView)
    ensures
        ({
            let unfinished = unfinished_outcome(operation, saved);
            let conflict = conflict_outcome(operation, saved);
            let stopped = cancelled_outcome(operation, saved);
            let rejected = rejected_outcome(operation, saved, false);
            let rejected_late = rejected_outcome(operation, saved, true);
            &&& unfinished.completeness == Completeness::Failed && unfinished.delivery
                == Delivery::Nothing && unfinished.artifacts == saved.artifacts
            &&& !saved.warning ==> unfinished.error == Some("capture-failed"@)
            &&& conflict.completeness == Completeness::Failed && conflict.delivery
                == Delivery::Nothing && conflict.artifacts == saved.artifacts && conflict.error
                == Some("storage-failed"@)
            &&& stopped.completeness == Completeness::Cancelled && stopped.delivery
                == Delivery::Cancelled && stopped.artifacts == saved.artifacts
            &&& !saved.warning ==> stopped.error is None
            &&& rejected.completeness == Completeness::Failed && rejected.delivery
                == Delivery::Nothing && rejected.artifacts == saved.artifacts
            &&& !saved.warning ==> rejected.error == Some("worker-failed"@)
            &&& rejected_late.completeness == Completeness::Cancelled && rejected_late.delivery
                == Delivery::Cancelled && rejected_late.artifacts == saved.artifacts
            &&& !saved.warning ==> rejected_late.error is None
            &&& saved.warning ==> unfinished.error == Some("storage-failed"@) && stopped.error
                == Some("storage-failed"@) && rejected.error == Some("storage-failed"@)
        }),
{
}

/// A removal succeeds exactly where the files were removed, and never claims that archived
/// text is gone.
pub proof fn removal_is_told(operation: OperationView, removed: bool, artifacts: ArtifactsView)
    ensures
        ({
            let outcome = forget_outcome(operation, removed, artifacts);
            &&& outcome.completeness == Completeness::Complete <==> removed
            &&& outcome.completeness == Completeness::Failed <==> !removed
            &&& outcome.error is None <==> removed
            &&& !removed ==> outcome.error == Some("forget-failed"@)
            &&& outcome.delivery == Delivery::Nothing
            &&& outcome.artifacts == artifacts
            &&& removed && artifacts.text ==> outcome.message == "Retained recording removed."@
                + " Archived text is unchanged."@
            &&& removed && !artifacts.text ==> outcome.message == "Retained recording removed."@
            &&& !removed ==> outcome.message == "Recording removal did not complete."@
        }),
{
}

/// After a successful write the take's audio lasts where it is listed, and its text where
/// a whole one was written and is listed.
pub proof fn written_take_lasts(
    take_id: Seq<char>,
    saved: SaveResult,
    text: Option<Seq<char>>,
    wants_audio: bool,
    partial: bool,
)
    requires
        saved is Written,
    ensures
        ({
            let take = saved->Written_take@;
            let kept = attempt_artifacts(take_id, saved, text, wants_audio, partial);
            &&& kept.artifacts.take_id == Some(take_id)
            &&& kept.artifacts.audio == take.audio_available
            &&& kept.artifacts.text == take.text_available
            &&& kept.durable_audio == take.audio_available
            &&& kept.durable_text <==> take.text_available && !partial && text is Some && exists|
                i: int,
            |
                0 <= i < text->0.len() && !is_white_space(#[trigger] text->0[i])
            &&& !kept.audio_conflict
            &&& kept.warning <==> wants_audio && !take.audio_available
        }),
{
    if text is Some {
        let words = text->0;
        if exists|i: int| 0 <= i < words.len() && !is_white_space(#[trigger] words[i]) {
            let i = choose|i: int| 0 <= i < words.len() && !is_white_space(#[trigger] words[i]);
            assert(!is_white_space(words[i]));
        }
    }
}

/// After a broken write nothing lasts that was not confirmed: a conflict takes everything,
/// audio that was compared lasts exactly where it is the same and listed, and text only
/// where the whole text was read back.
pub proof fn broken_write_proves_only_what_was_confirmed(
    take_id: Seq<char>,
    saved: SaveResult,
    text: Option<Seq<char>>,
    wants_audio: bool,
    partial: bool,
)
    requires
        saved is Broken,
    ensures
        ({
            let kept = attempt_artifacts(take_id, saved, text, wants_audio, partial);
            let conflict = saved->Broken_mismatch || saved->Broken_audio == Some(
                AudioCheck::Mismatch,
            );
            &&& kept.audio_conflict == conflict
            &&& conflict ==> !kept.durable_audio && !kept.durable_text && kept.warning
            &&& kept.durable_text ==> saved->Broken_confirmed is Some && !partial && text is Some
                && saved->Broken_stored is Some && saved->Broken_stored->0@ == text->0
            &&& saved->Broken_audio is Some && !conflict ==> (kept.durable_audio
                <==> saved->Broken_audio == Some(AudioCheck::Confirmed { available: true }))
            &&& saved->Broken_audio is None && !conflict ==> (kept.durable_audio
                <==> saved->Broken_confirmed is Some
                && saved->Broken_confirmed->0.audio_available)
            &&& saved->Broken_confirmed is None ==> kept.warning
            &&& saved->Broken_audio is Some && !kept.durable_audio ==> kept.warning
        }),
{
}

/// What is found after a write that may have failed lists exactly what the take lists.
pub proof fn found_files_are_those_listed(
    take_id: Seq<char>,
    take: Option<TakeView>,
    durable: bool,
    text: Option<Seq<char>>,
    stored: Option<Seq<char>>,
    wants_audio: bool,
    partial: bool,
)
    ensures
        ({
            let found = found_artifacts(
                take_id,
                take,
                durable,
                text,
                stored,
                wants_audio,
                partial,
            );
            &&& found.artifacts.take_id == Some(take_id)
            &&& found.artifacts.audio <==> take is Some && take->0.audio_available
            &&& found.artifacts.text <==> take is Some && take->0.text_available
            &&& found.durable_audio <==> durable && take is Some && take->0.audio_available
            &&& found.durable_text ==> durable && stored == text && text is Some && !partial
            &&& found.warning <==> !durable || (wants_audio && !found.artifacts.audio) || (!partial
                && text is Some && !found.durable_text && exists|i: int|
                0 <= i < text->0.len() && !is_white_space(#[trigger] text->0[i]))
        }),
{
    if text is Some {
        let words = text->0;
        if exists|i: int| 0 <= i < words.len() && !is_white_space(#[trigger] words[i]) {
            let i = choose|i: int| 0 <= i < words.len() && !is_white_space(#[trigger] words[i]);
            assert(!is_white_space(words[i]));
        }
    }
}

/// A resolved take lasts only as far as it was confirmed after its resolution.
pub proof fn resolved_take_lasts_where_confirmed(
    take_id: Seq<char>,
    confirmed: Option<TakeView>,
    present: Option<TakeView>,
    text: Option<Seq<char>>,
    stored: Option<Seq<char>>,
)
    ensures
        ({
            let kept = resolved_take(take_id, confirmed, present, text, stored);
            let listed = if confirmed is Some {
                confirmed
            } else {
                present
            };
            &&& kept.artifacts.take_id == Some(take_id)
            &&& kept.artifacts.audio <==> listed is Some && listed->0.audio_available
            &&& kept.artifacts.text <==> listed is Some && listed->0.text_available
            &&& kept.durable_audio <==> confirmed is Some && confirmed->0.audio_available
            &&& kept.durable_text ==> confirmed is Some && stored == text
            &&& confirmed is None ==> kept.warning
        }),
{
}

/// A report tells of a text nothing but its length: texts of one length give one report.
pub proof fn report_tells_no_text(
    config: ConfigView,
    source: Source,
    duration_ms: u64,
    first: PipelineOutcome,
    second: PipelineOutcome,
    report: DeliveryReportView,
    outcome: TerminalOutcomeView,
    total_ms: u64,
)
    requires
        first.text is Ok,
        second.text is Ok,
        says_something(first),
        says_something(second),
        first.text->Ok_0@.len() == second.text->Ok_0@.len(),
        first == (PipelineOutcome { text: first.text, ..second }),
    ensures
        audio_report(config, source, duration_ms, first, report, outcome, total_ms)
            == audio_report(config, source, duration_ms, second, report, outcome, total_ms),
{
    let a = first.text->Ok_0@;
    let b = second.text->Ok_0@;
    let i = choose|i: int| 0 <= i < a.len() && !is_white_space(#[trigger] a[i]);
    let j = choose|i: int| 0 <= i < b.len() && !is_white_space(#[trigger] b[i]);
    assert(!is_white_space(a[i]));
    assert(!is_white_space(b[j]));
}

/// A report names the recognition that was used, and counts only what was used.
pub proof fn report_names_what_was_used(
    config: ConfigView,
    source: Source,
    duration_ms: u64,
    pipeline: PipelineOutcome,
    report: DeliveryReportView,
    outcome: TerminalOutcomeView,
    total_ms: u64,
)
    ensures
        ({
            let told = audio_report(
                config,
                source,
                duration_ms,
                pipeline,
                report,
                outcome,
                total_ms,
            );
            &&& told.stt_remote <==> config.stt.endpoint is Some && !pipeline.local_fallback
            &&& pipeline.local_fallback ==> told.stt_model == "parakeet-tdt-0.6b-v3-int8"@
            &&& !pipeline.local_fallback ==> told.stt_model == config.stt.model
            &&& source == Source::Dictation ==> told.capture_ms == duration_ms && told.source
                == "dictation"@
            &&& source == Source::Recover ==> told.capture_ms == 0 && told.source == "recover"@
            &&& told.partial == pipeline.partial
            &&& told.inject_ms == report.elapsed_ms
            &&& told.delivered == report.backend
            &&& told.error_class == outcome.error
            &&& told.total_ms == total_ms
            &&& told.cleanup_model is Some <==> pipeline.postproc is Applied
                || pipeline.postproc is Failed
            &&& told.cleanup_model is Some ==> told.cleanup_model == Some(config.postproc.model)
            &&& told.cleanup_ms is Some <==> told.cleanup_model is Some
            &&& pipeline.postproc is Applied && pipeline.postproc->Applied_ms <= u64::MAX
                ==> told.cleanup_ms == Some(pipeline.postproc->Applied_ms as u64)
            &&& pipeline.postproc is Failed && pipeline.postproc->Failed_ms <= u64::MAX
                ==> told.cleanup_ms == Some(pipeline.postproc->Failed_ms as u64)
            &&& outcome.cleanup == Cleanup::Applied ==> told.cleanup_state == "applied"@
            &&& outcome.cleanup == Cleanup::Failed ==> told.cleanup_state == "failed"@
            &&& outcome.cleanup == Cleanup::Skipped ==> told.cleanup_state == "skipped_short"@
            &&& outcome.cleanup == Cleanup::Off ==> told.cleanup_state == "off"@
            &&& told.tokens_in is Some <==> pipeline.usage is Some
            &&& pipeline.usage is Some ==> told.tokens_in == Some(
                pipeline.usage->0.prompt_tokens,
            ) && told.tokens_out == Some(pipeline.usage->0.completion_tokens) && told.tokens_total
                == Some(pipeline.usage->0.total_tokens)
            &&& pipeline.usage is None ==> told.tokens_out is None && told.tokens_total is None
            &&& pipeline.stt_elapsed_ms <= u64::MAX ==> told.stt_ms == pipeline.stt_elapsed_ms
            &&& !says_something(pipeline) ==> told.chars == 0
        }),
{
}

/// What is told of a transcription starts with its delivery, or with why it failed, and
/// names what was saved wherever the text did not arrive whole.
pub proof fn outcome_starts_with_the_delivery(
    job: AudioJobView,
    operation: OperationView,
    requested: InjectionMode,
    pipeline: PipelineOutcome,
)
    requires
        !pipeline.local_fallback,
        !(pipeline.postproc is Failed),
        !pipeline.archive_failed,
        !job.saved.warning,
    ensures
        ({
            let message = job.outcome(operation, requested, pipeline, false).message;
            let failed = pipeline.text is Err && job.completeness != Completeness::Cancelled;
            let start = if failed {
                pipeline.text->Err_0@ + "."@
            } else {
                delivery_words(job.completeness, job.report.delivery, requested)
            };
            let arrived = job.report.delivery == Delivery::Typed || job.report.delivery
                == Delivery::Pasted || job.report.delivery == Delivery::Copied;
            &&& arrived && job.completeness != Completeness::Partial ==> message == start
            &&& !arrived || job.completeness == Completeness::Partial ==> message == start
                + artifacts_words(job.saved.artifacts.text, job.saved.artifacts.audio)
        }),
{
}

/// A fallback to local recognition, a failed cleanup, missing storage and a missing history
/// are each told in a sentence of their own, in this order.
pub proof fn outcome_tells_each_shortcoming(
    job: AudioJobView,
    operation: OperationView,
    requested: InjectionMode,
    pipeline: PipelineOutcome,
    cleaned: PostprocStatus,
    ms: u128,
)
    requires
        !(cleaned is Failed),
        job.report.error is None,
        job.completeness == Completeness::Complete,
    ensures
        ({
            let plain = PipelineOutcome {
                local_fallback: false,
                archive_failed: false,
                postproc: cleaned,
                ..pipeline
            };
            let fallback = PipelineOutcome { local_fallback: true, ..plain };
            let uncleaned = PipelineOutcome { postproc: PostprocStatus::Failed { ms }, ..plain };
            let unsaved = PipelineOutcome { archive_failed: true, ..plain };
            let sound = AudioJobView {
                saved: SavedArtifactsView { warning: false, ..job.saved },
                ..job
            };
            let unsound = AudioJobView {
                saved: SavedArtifactsView { warning: true, ..job.saved },
                ..job
            };
            let words = sound.outcome(operation, requested, plain, false).message;
            &&& sound.outcome(operation, requested, fallback, false).message == words
                + " Used local transcription after cloud failure."@
            &&& sound.outcome(operation, requested, uncleaned, false).message == words
                + " Cleanup was unavailable; original text was used."@
            &&& sound.outcome(operation, requested, unsaved, false).message == words
                + " Detailed transcript history could not be saved."@
            &&& unsound.outcome(operation, requested, plain, false).message == words
                + " Recording storage is incomplete; check storage before recording again."@
        }),
{
    lemma_error_words();
}

/// A cancellation after a delivery is told beside it.
pub proof fn late_cancellation_is_told(
    job: AudioJobView,
    operation: OperationView,
    requested: InjectionMode,
    pipeline: PipelineOutcome,
)
    requires
        job.report.delivery == Delivery::Typed || job.report.delivery == Delivery::Pasted
            || job.report.delivery == Delivery::Copied,
        job.completeness == Completeness::Complete,
        !pipeline.local_fallback,
        !(pipeline.postproc is Failed),
        !pipeline.archive_failed,
        !job.saved.warning,
    ensures
        job.outcome(operation, requested, pipeline, true).message == job.outcome(
            operation,
            requested,
            pipeline,
            false,
        ).message + " Cancellation arrived after delivery."@,
{
}

/// A job knows of nothing saved before it has saved anything.
pub proof fn nothing_is_saved_at_first(pipeline: PipelineOutcome, cancelled: bool)
    ensures
        ({
            let saved = AudioJobView::begun(pipeline, cancelled).saved;
            &&& !saved.durable_audio && !saved.durable_text && !saved.audio_conflict
                && !saved.warning
            &&& !saved.artifacts.audio && !saved.artifacts.text && saved.artifacts.take_id is None
        }),
{
}

/// Jobs that end early say what became of them.
pub proof fn early_ends_are_told(operation: OperationView, saved: SavedArtifactsView)
    requires
        !saved.warning,
        !saved.artifacts.audio,
        !saved.artifacts.text,
    ensures
        unfinished_outcome(operation, saved).message == "Recording could not be finalized."@,
        rejected_outcome(operation, saved, true).message
            == "Cancelled; transcription did not start."@,
        rejected_outcome(operation, saved, false).message
            == "Worker unavailable; transcription did not start."@,
        cancelled_outcome(operation, saved).message == "Cancelled."@,
{
    let none = Seq::<char>::empty();
    assert("Recording could not be finalized."@ + none =~= "Recording could not be finalized."@);
    assert("Cancelled; transcription did not start."@ + none
        =~= "Cancelled; transcription did not start."@);
    assert("Worker unavailable; transcription did not start."@ + none
        =~= "Worker unavailable; transcription did not start."@);
    assert("Cancelled."@ + none =~= "Cancelled."@);
}

} // verus!
