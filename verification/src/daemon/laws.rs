//! What holds of the daemon whatever it is asked, and of every job.

use crate::config::{ConfigView, InjectionMode};
use crate::daemon::audio::{AudioAction, AudioEventView, AudioJobView};
use crate::daemon::control::{choice, is_choice, Need, Readiness};
use crate::daemon::delivery::{
    first_step, next_step, reached_user, DeliveryReportView, DeliveryStepView, InjectionFailure,
    InjectionOutcome,
};
use crate::daemon::worker::{
    attempt_artifacts, found_artifacts, usable_text, AudioCheck, PipelineOutcome, SaveResult,
    SavedArtifactsView,
};
use crate::daemon::{
    CommandView, Control, DaemonView, IdentityView, Lifecycle, OperationView, TakeView, WorkKind,
};
use crate::ipc::{Completeness, Delivery, OperationKind, StageView, TerminalOutcomeView};
use crate::text::{decimal, digit_char};
use vstd::prelude::*;

verus! {

/// Cancellation and settlement have one order: whichever comes first refuses the
/// other, for good.
pub proof fn cancellation_and_settlement_exclude_each_other(control: Control)
    ensures
        control.cancel_requested().lifecycle != Lifecycle::Open,
        control.cancel_requested().sealed() == control.cancel_requested(),
        control.sealed().cancel_requested() == control.sealed(),
        control.closed().cancel_requested() == control.closed(),
        control.lifecycle == Lifecycle::Open ==> control.cancel_requested().is_cancelled(),
        control.lifecycle == Lifecycle::Open && !control.cancel
            ==> !control.sealed().is_cancelled(),
{
}

/// While an operation is processed, no command but a cancellation or a dismissal
/// changes anything but the feedback.
pub proof fn busy_daemon_keeps_its_operation(
    daemon: DaemonView,
    command: CommandView,
    ready: Readiness,
    now: u64,
)
    requires
        daemon.state is Processing,
        !(command is Cancel),
        !(command is Dismiss),
    ensures
        ({
            let after = daemon.executed(command, ready, now).0;
            &&& after.state == daemon.state
            &&& after.outcome == daemon.outcome
            &&& after.recordings == daemon.recordings
            &&& after.config == daemon.config
            &&& after.operation_sequence == daemon.operation_sequence
            &&& after.controls == daemon.controls
        }),
{
}

/// A refusal leaves everything but the feedback alone, and its number is new.
pub proof fn refusal_changes_only_feedback(
    daemon: DaemonView,
    message: Seq<char>,
    error: Seq<char>,
)
    requires
        daemon.has_numbers(),
    ensures
        ({
            let after = daemon.refusal(message, error).0;
            &&& after == DaemonView {
                notice: after.notice,
                event_sequence: after.event_sequence,
                ..daemon
            }
            &&& after.event_sequence > daemon.event_sequence
            &&& after.notice->0.event_id == after.event_sequence
        }),
{
}

/// A result of an operation that no longer runs changes nothing.
pub proof fn stale_result_changes_nothing(
    daemon: DaemonView,
    identity: IdentityView,
    outcome: TerminalOutcomeView,
    recordings: Option<Seq<TakeView>>,
)
    requires
        !daemon.runs(identity),
    ensures
        daemon.settled(identity, outcome, recordings) == daemon,
{
}

/// A result of the running operation ends it, under a number that is new.
pub proof fn result_ends_the_operation(
    daemon: DaemonView,
    identity: IdentityView,
    outcome: TerminalOutcomeView,
    recordings: Option<Seq<TakeView>>,
)
    requires
        daemon.has_numbers(),
        daemon.runs(identity),
    ensures
        ({
            let after = daemon.settled(identity, outcome, recordings);
            &&& after.state is Idle
            &&& after.outcome is Some
            &&& after.outcome->0.event_id > daemon.event_sequence
            &&& after.outcome->0 == TerminalOutcomeView {
                event_id: after.outcome->0.event_id,
                ..outcome
            }
        }),
{
}

/// A stage of another operation, and any stage after a cancellation, changes
/// nothing; progress within a phase keeps the phase's time.
pub proof fn stages_follow_the_running_operation(
    daemon: DaemonView,
    identity: IdentityView,
    reached: StageView,
    now: u64,
)
    ensures
        !daemon.runs(identity) ==> daemon.stage_reached(identity, reached, now) == daemon,
        daemon.state.reached() == Some(StageView::Cancelling) ==> daemon.stage_reached(
            identity,
            reached,
            now,
        ) == daemon,
        daemon.state.reached() is Some && daemon.state.reached()->0 is Transcribing
            && reached is Transcribing ==> daemon.stage_reached(
            identity,
            reached,
            now,
        ).state->Processing_phase_started == daemon.state->Processing_phase_started,
{
}

/// A dismissal of one event leaves the other one, the recordings and what was saved
/// of a take alone.
pub proof fn dismissal_is_targeted(daemon: DaemonView, event_id: u64)
    requires
        daemon.notice is Some,
        daemon.outcome is Some,
        daemon.notice->0.event_id != daemon.outcome->0.event_id,
    ensures
        event_id == daemon.outcome->0.event_id ==> daemon.dismissed(Some(event_id)).0.notice
            == daemon.notice,
        event_id == daemon.notice->0.event_id ==> daemon.dismissed(Some(event_id)).0.outcome
            == daemon.outcome,
        daemon.dismissed(Some(event_id)).0.recordings == daemon.recordings,
        daemon.dismissed(Some(event_id)).0.state == daemon.state,
        daemon.dismissed(Some(event_id)).0.outcome is Some,
        daemon.dismissed(Some(event_id)).0.outcome->0.artifacts == daemon.outcome->0.artifacts,
{
}

/// A named recording is never replaced by another one: what is chosen has its name,
/// and where none has, nothing is started.
pub proof fn choice_is_never_retargeted(takes: Seq<TakeView>, id: Seq<char>, need: Need, from: nat)
    ensures
        match choice(takes, Some(id), need, from) {
            Some(take) => take.id == id && is_choice(take, Some(id), need) && takes.contains(
                take,
            ),
            None => forall|i: int|
                from <= i < takes.len() ==> !is_choice(#[trigger] takes[i], Some(id), need),
        },
    decreases takes.len() - from,
{
    if from < takes.len() && !is_choice(takes[from as int], Some(id), need) {
        choice_is_never_retargeted(takes, id, need, from + 1);
    }
}

/// A copy never sends keys: whatever it starts only asks for the clipboard, and asks
/// once.
pub proof fn copy_never_sends_keys(
    daemon: DaemonView,
    id: Seq<char>,
    ready: Readiness,
    now: u64,
    partial: bool,
    cancelled: bool,
    result: Result<InjectionOutcome, InjectionFailure>,
    later: bool,
    elapsed_ms: u64,
)
    requires
        daemon.executed(CommandView::Copy { id }, ready, now).1 is Dispatch,
    ensures
        ({
            let job = daemon.executed(CommandView::Copy { id }, ready, now).1->Dispatch_0;
            let mode = job.config.injection;
            &&& job.operation.identity.take_id == id
            &&& match first_step(mode, partial, cancelled) {
                DeliveryStepView::Inject(injected) => injected == InjectionMode::Clipboard,
                DeliveryStepView::Done(_) => true,
            }
            &&& next_step(mode, result, later, elapsed_ms) is Done
        }),
{
    choice_is_never_retargeted(daemon.recordings, id, Need::Text, 0);
}

/// Numbers only grow, and whatever a command tells anew has a number that was not
/// given before: an outcome that stays differs at most in its dismissal.
pub proof fn numbers_only_grow(
    daemon: DaemonView,
    command: CommandView,
    ready: Readiness,
    now: u64,
)
    requires
        daemon.has_numbers(),
    ensures
        ({
            let after = daemon.executed(command, ready, now).0;
            &&& after.event_sequence >= daemon.event_sequence
            &&& after.operation_sequence >= daemon.operation_sequence
            &&& after.notice is Some && after.notice != daemon.notice ==> daemon.event_sequence
                < after.notice->0.event_id <= after.event_sequence
            &&& after.outcome is Some && after.outcome != daemon.outcome ==> {
                ||| daemon.event_sequence < after.outcome->0.event_id <= after.event_sequence
                ||| daemon.outcome is Some && after.outcome->0 == (TerminalOutcomeView {
                    dismissed: true,
                    ..daemon.outcome->0
                })
            }
        }),
{
}

/// A request for a recording that is not there starts nothing.
pub proof fn unknown_recording_starts_nothing(
    daemon: DaemonView,
    id: Seq<char>,
    local: bool,
    clipboard: bool,
    ready: Readiness,
    now: u64,
)
    requires
        daemon.state is Idle,
        forall|i: int|
            0 <= i < daemon.recordings.len() ==> (#[trigger] daemon.recordings[i]).id != id,
    ensures
        ({
            let (after, step) = daemon.executed(
                CommandView::Recover { id: Some(id), local, clipboard },
                ready,
                now,
            );
            &&& step is Reply
            &&& !step->Reply_0.ok
            &&& after.state is Idle
            &&& after.operation_sequence == daemon.operation_sequence
            &&& after.outcome == daemon.outcome
        }),
{
    choice_is_never_retargeted(daemon.recordings, id, Need::Audio, 0);
}

/// What runs keeps the configuration and the display preferences with which it
/// started, whatever is loaded meanwhile.
pub proof fn reload_leaves_the_operation_alone(
    daemon: DaemonView,
    config: Option<ConfigView>,
    local_model: bool,
    now: u64,
)
    requires
        !(daemon.state is Idle),
    ensures
        daemon.reloaded(config, local_model).0.state == daemon.state,
        daemon.reloaded(config, local_model).0.status(now).hud == daemon.status(now).hud,
        daemon.state is Recording ==> daemon.reloaded(config, local_model).0.stopped(
            false,
            now,
        ).1->Dispatch_0.config == daemon.state->Recording_config,
{
}

/// A status costs the same whatever the length of the history: it tells of the
/// recordings only what was counted before.
pub proof fn status_does_not_walk_the_history(
    daemon: DaemonView,
    recordings: Seq<TakeView>,
    now: u64,
)
    ensures
        (DaemonView { recordings, ..daemon }).status(now) == daemon.status(now),
{
}

/// A recording without a sample is not told as measured.
pub proof fn unmeasured_recording_has_no_signal(daemon: DaemonView, now: u64)
    requires
        daemon.state is Recording,
        daemon.state->Recording_signal is None,
    ensures
        daemon.status(now).signal is None,
{
}

/// A cancelled recording gets no permit for any destination, and its operation is
/// cancelled before the recording is finished.
pub proof fn cancelled_recording_has_no_permit(daemon: DaemonView, now: u64)
    requires
        daemon.state is Recording,
        daemon.control(daemon.state->Recording_operation).lifecycle == Lifecycle::Open,
    ensures
        ({
            let (after, step) = daemon.cancel_asked(now);
            &&& step is Dispatch
            &&& !step->Dispatch_0.guarded
            &&& after.control(step->Dispatch_0.operation).is_cancelled()
            &&& after.state.running() == Some(step->Dispatch_0.operation)
            &&& after.state.reached() == Some(StageView::Cancelling)
        }),
{
}

/// A cancellation of what is processed is acknowledged without settling it, and only
/// once.
pub proof fn cancellation_is_acknowledged_once(daemon: DaemonView, now: u64, later: u64)
    requires
        daemon.state is Processing,
        daemon.state->Processing_kind == WorkKind::Transcription || daemon.state->Processing_kind
            == WorkKind::Delivery,
        daemon.control(daemon.state->Processing_operation).lifecycle == Lifecycle::Open,
    ensures
        ({
            let (after, step) = daemon.cancel_asked(now);
            &&& step is Reply
            &&& step->Reply_0.ok
            &&& after.state is Processing
            &&& after.outcome == daemon.outcome
            &&& after.control(daemon.state->Processing_operation).is_cancelled()
            &&& !after.cancel_asked(later).1->Reply_0.ok
            &&& after.cancel_asked(later).0.state == after.state
            &&& after.cancel_asked(later).0.controls == after.controls
        }),
{
}

/// Digits of different values differ.
proof fn lemma_digit_char_injective(a: nat, b: nat)
    requires
        a < 10,
        b < 10,
        digit_char(a) == digit_char(b),
    ensures
        a == b,
{
}

/// Different numbers have different numerals.
pub proof fn numerals_are_unique(a: nat, b: nat)
    requires
        decimal(a) == decimal(b),
    ensures
        a == b,
    decreases a,
{
    if a < 10 && b < 10 {
        assert(decimal(a)[0] == digit_char(a));
        assert(decimal(b)[0] == digit_char(b));
        lemma_digit_char_injective(a, b);
    } else if a < 10 {
        lemma_numeral_not_empty(b / 10);
        assert(decimal(b).len() >= 2);
    } else if b < 10 {
        lemma_numeral_not_empty(a / 10);
        assert(decimal(a).len() >= 2);
    } else {
        let high_a = decimal(a / 10);
        let high_b = decimal(b / 10);
        assert(decimal(a).drop_last() =~= high_a);
        assert(decimal(b).drop_last() =~= high_b);
        assert(decimal(a).last() == digit_char(a % 10));
        assert(decimal(b).last() == digit_char(b % 10));
        numerals_are_unique(a / 10, b / 10);
        lemma_digit_char_injective(a % 10, b % 10);
    }
}

proof fn lemma_numeral_not_empty(n: nat)
    ensures
        decimal(n).len() > 0,
    decreases n,
{
    if n >= 10 {
        lemma_numeral_not_empty(n / 10);
    }
}

/// Operations that were counted at different times have different identities.
pub proof fn operations_are_told_apart(
    a: DaemonView,
    b: DaemonView,
    take_a: Seq<char>,
    take_b: Seq<char>,
    kind_a: Option<OperationKind>,
    kind_b: Option<OperationKind>,
    now_a: u64,
    now_b: u64,
)
    requires
        a.epoch == b.epoch,
        a.operation_sequence != b.operation_sequence,
    ensures
        a.next_operation(take_a, kind_a, now_a).identity.operation_id != b.next_operation(
            take_b,
            kind_b,
            now_b,
        ).identity.operation_id,
{
    let prefix = a.epoch + "-"@;
    let numeral_a = decimal((a.operation_sequence + 1) as nat);
    let numeral_b = decimal((b.operation_sequence + 1) as nat);
    if prefix + numeral_a == prefix + numeral_b {
        assert((prefix + numeral_a).skip(prefix.len() as int) =~= numeral_a);
        assert((prefix + numeral_b).skip(prefix.len() as int) =~= numeral_b);
        numerals_are_unique(
            (a.operation_sequence + 1) as nat,
            (b.operation_sequence + 1) as nat,
        );
    }
}

/// Text is delivered only where there is one and the attempt was not cancelled
/// before: after a cancellation nothing waits for a delivery.
pub proof fn cancelled_transcription_is_not_delivered(
    pipeline: PipelineOutcome,
    cancelled: bool,
    saved: SavedArtifactsView,
)
    requires
        pipeline.cancelled || cancelled || usable_text(pipeline.text) is None,
    ensures
        AudioJobView::begun(pipeline, cancelled).after(AudioEventView::Saved(saved)).action
            == AudioAction::Finish,
{
}

/// A take is resolved only after a whole text arrived, its saved copy was durable and
/// the settlement was committed.
pub proof fn resolution_needs_a_committed_delivery(job: AudioJobView, event: AudioEventView)
    requires
        job.action != AudioAction::Resolve,
        job.after(event).action == AudioAction::Resolve,
    ensures
        job.action == AudioAction::Seal,
        event == AudioEventView::Sealed(true),
{
}

/// Whatever waits to be settled was delivered whole, with a durable copy.
pub proof fn settlement_needs_a_durable_delivery(job: AudioJobView, event: AudioEventView)
    requires
        job.action != AudioAction::Seal,
        job.after(event).action == AudioAction::Seal,
    ensures
        job.completeness == Completeness::Complete,
        job.saved.durable_text,
        reached_user(job.after(event).report.delivery),
{
}

/// A cancelled delivery is saved as an incomplete attempt, and told as a
/// cancellation.
pub proof fn cancelled_delivery_is_incomplete(job: AudioJobView, report: DeliveryReportView)
    requires
        job.action is Deliver,
        report.delivery == Delivery::Cancelled,
    ensures
        ({
            let after = job.after(AudioEventView::Delivered(report));
            &&& after.completeness == Completeness::Cancelled
            &&& after.action == AudioAction::SaveCancelled
        }),
{
}

/// A late cancellation is told only where nothing was sent: what arrived, or may have
/// arrived, keeps its name.
pub proof fn late_cancellation_keeps_deliveries(
    job: AudioJobView,
    operation: OperationView,
    requested: InjectionMode,
    pipeline: PipelineOutcome,
    cancelled: bool,
)
    requires
        reached_user(job.report.delivery) || job.report.delivery == Delivery::Uncertain,
    ensures
        job.outcome(operation, requested, pipeline, cancelled).delivery == job.report.delivery,
        job.outcome(operation, requested, pipeline, cancelled).completeness == job.completeness,
{
}

/// The source of a recording is never given up for a copy that may not last: audio is
/// durable only where it was written or confirmed, and never where it is another one.
pub proof fn durable_audio_is_confirmed(
    take_id: Seq<char>,
    saved: SaveResult,
    text: Option<Seq<char>>,
    partial: bool,
)
    requires
        attempt_artifacts(take_id, saved, text, true, partial).durable_audio,
    ensures
        !attempt_artifacts(take_id, saved, text, true, partial).audio_conflict,
        match saved {
            SaveResult::Written { take } => take.audio_available,
            SaveResult::Broken { mismatch, present, confirmed, stored, audio } => !mismatch
                && match audio {
                Some(check) => check == (AudioCheck::Confirmed { available: true }),
                None => confirmed is Some && confirmed->0.audio_available,
            },
        },
{
}

/// Presence without durability proves nothing: neither audio nor text is durable, and
/// storage is warned of.
pub proof fn presence_is_not_durability(
    take_id: Seq<char>,
    take: Option<TakeView>,
    text: Option<Seq<char>>,
    stored: Option<Seq<char>>,
    wants_audio: bool,
    partial: bool,
)
    ensures
        !found_artifacts(take_id, take, false, text, stored, wants_audio, partial).durable_audio,
        !found_artifacts(take_id, take, false, text, stored, wants_audio, partial).durable_text,
        found_artifacts(take_id, take, false, text, stored, wants_audio, partial).warning,
{
}

} // verus!
