//! What each command does, and what it leaves alone.

use crate::config::{ConfigView, InjectionMode};
use crate::daemon::control::{choice, is_choice, unresolved_count, Need, Readiness, StepView};
use crate::daemon::{
    CommandView, Control, DaemonView, IdentityView, JobView, Lifecycle, StateView, TakeView, Work,
    WorkKind,
};
use crate::ipc::{
    ArtifactsView, AudioSignal, Completeness, Delivery, OperationKind, StageView, StateKindView,
    TerminalOutcomeView,
};
use crate::text::{decimal, is_white_space};
use vstd::prelude::*;

verus! {

proof fn lemma_first_choice(
    takes: Seq<TakeView>,
    id: Option<Seq<char>>,
    need: Need,
    from: nat,
    at: nat,
)
    requires
        from <= at < takes.len(),
        is_choice(takes[at as int], id, need),
        forall|i: int| from <= i < at ==> !is_choice(#[trigger] takes[i], id, need),
    ensures
        choice(takes, id, need, from) == Some(takes[at as int]),
    decreases at - from,
{
    if from < at {
        assert(!is_choice(takes[from as int], id, need));
        lemma_first_choice(takes, id, need, from + 1, at);
    }
}

proof fn lemma_no_choice(takes: Seq<TakeView>, id: Option<Seq<char>>, need: Need, from: nat)
    requires
        forall|i: int| from <= i < takes.len() ==> !is_choice(#[trigger] takes[i], id, need),
    ensures
        choice(takes, id, need, from) is None,
    decreases takes.len() - from,
{
    if from < takes.len() {
        assert(!is_choice(takes[from as int], id, need));
        lemma_no_choice(takes, id, need, from + 1);
    }
}

proof fn lemma_choice_fits(takes: Seq<TakeView>, id: Option<Seq<char>>, need: Need, from: nat)
    ensures
        choice(takes, id, need, from) is Some ==> is_choice(
            choice(takes, id, need, from)->0,
            id,
            need,
        ),
    decreases takes.len() - from,
{
    if from < takes.len() && !is_choice(takes[from as int], id, need) {
        lemma_choice_fits(takes, id, need, from + 1);
    }
}

/// A local recovery stays on the machine: whatever is configured, its job has no remote
/// recognition, uses the local default model, and is not cleaned up.
pub proof fn local_recovery_stays_local(
    daemon: DaemonView,
    id: Option<Seq<char>>,
    clipboard: bool,
    ready: Readiness,
    now: u64,
)
    requires
        daemon.executed(CommandView::Recover { id, local: true, clipboard }, ready, now).1
            is Dispatch,
    ensures
        ({
            let job = daemon.executed(
                CommandView::Recover { id, local: true, clipboard },
                ready,
                now,
            ).1->Dispatch_0;
            &&& job.config.stt.endpoint is None
            &&& job.config.stt.api_key_id is None
            &&& job.config.stt.model == "parakeet-tdt-0.6b-v3-int8"@
            &&& !job.config.postproc.enabled
            &&& job.config.telemetry == daemon.config.telemetry
            &&& job.config.injection == if clipboard {
                InjectionMode::Clipboard
            } else {
                daemon.config.injection
            }
            &&& job.work == Work::Recover
            &&& job.guarded
            &&& ready.default_model
        }),
{
}

/// A recovery that is not local uses what is configured, and only its delivery can be
/// turned into a copy.
pub proof fn recovery_uses_the_configuration(
    daemon: DaemonView,
    id: Option<Seq<char>>,
    clipboard: bool,
    ready: Readiness,
    now: u64,
)
    requires
        daemon.executed(CommandView::Recover { id, local: false, clipboard }, ready, now).1
            is Dispatch,
    ensures
        ({
            let job = daemon.executed(
                CommandView::Recover { id, local: false, clipboard },
                ready,
                now,
            ).1->Dispatch_0;
            &&& job.config.stt == daemon.config.stt
            &&& job.config.postproc == daemon.config.postproc
            &&& clipboard ==> job.config == (ConfigView {
                injection: InjectionMode::Clipboard,
                ..daemon.config
            })
            &&& !clipboard ==> job.config == daemon.config
            &&& job.work == Work::Recover
            &&& job.guarded
        }),
{
}

/// A recovery of a named recording takes the first one of that name that has audio, resolved
/// or not.
pub proof fn recovery_takes_the_named_audio(
    daemon: DaemonView,
    id: Seq<char>,
    local: bool,
    clipboard: bool,
    ready: Readiness,
    now: u64,
    at: nat,
)
    requires
        daemon.state is Idle,
        !local || ready.default_model,
        at < daemon.recordings.len(),
        daemon.recordings[at as int].id == id,
        daemon.recordings[at as int].audio_available,
        forall|i: int|
            0 <= i < at ==> (#[trigger] daemon.recordings[i]).id != id
                || !daemon.recordings[i].audio_available,
    ensures
        ({
            let (after, step) = daemon.executed(
                CommandView::Recover { id: Some(id), local, clipboard },
                ready,
                now,
            );
            &&& step is Dispatch
            &&& step->Dispatch_0.operation.identity.take_id == id
            &&& step->Dispatch_0.operation.identity.kind == Some(OperationKind::Recovery)
            &&& after == daemon.counted()
        }),
{
    lemma_first_choice(daemon.recordings, Some(id), Need::Audio, 0, at);
}

/// A recovery of no recording in particular takes the first one with audio that waits for a
/// decision or has only partial text.
pub proof fn recovery_takes_the_first_that_needs_it(
    daemon: DaemonView,
    local: bool,
    clipboard: bool,
    ready: Readiness,
    now: u64,
    at: nat,
)
    requires
        daemon.state is Idle,
        !local || ready.default_model,
        at < daemon.recordings.len(),
        daemon.recordings[at as int].audio_available,
        daemon.recordings[at as int].unresolved || daemon.recordings[at as int].partial,
        forall|i: int|
            0 <= i < at ==> !(#[trigger] daemon.recordings[i]).audio_available || (
            !daemon.recordings[i].unresolved && !daemon.recordings[i].partial),
    ensures
        ({
            let step = daemon.executed(
                CommandView::Recover { id: None, local, clipboard },
                ready,
                now,
            ).1;
            &&& step is Dispatch
            &&& step->Dispatch_0.operation.identity.take_id == daemon.recordings[at as int].id
            &&& step->Dispatch_0.operation.identity.kind == Some(OperationKind::Recovery)
        }),
{
    lemma_first_choice(daemon.recordings, None, Need::Audio, 0, at);
}

/// A recovery is refused where no recording fits, and where it is to be local and the local
/// model is missing; nothing is counted then.
pub proof fn recovery_is_refused_without_audio_or_model(
    daemon: DaemonView,
    id: Option<Seq<char>>,
    local: bool,
    clipboard: bool,
    ready: Readiness,
    now: u64,
)
    requires
        daemon.state is Idle,
        (local && !ready.default_model) || forall|i: int|
            0 <= i < daemon.recordings.len() ==> !(#[trigger] daemon.recordings[i]).audio_available,
    ensures
        ({
            let (after, step) = daemon.executed(
                CommandView::Recover { id, local, clipboard },
                ready,
                now,
            );
            &&& step is Reply
            &&& !step->Reply_0.ok
            &&& step->Reply_0.error is Some
            &&& after.state is Idle
            &&& after.operation_sequence == daemon.operation_sequence
        }),
{
    lemma_choice_fits(daemon.recordings, id, Need::Audio, 0);
    if choice(daemon.recordings, id, Need::Audio, 0) is Some {
        lemma_choice_is_listed(daemon.recordings, id, Need::Audio, 0);
    }
}

proof fn lemma_choice_is_listed(takes: Seq<TakeView>, id: Option<Seq<char>>, need: Need, from: nat)
    requires
        choice(takes, id, need, from) is Some,
    ensures
        exists|i: int|
            from <= i < takes.len() && #[trigger] takes[i] == choice(takes, id, need, from)->0,
    decreases takes.len() - from,
{
    if from < takes.len() && !is_choice(takes[from as int], id, need) {
        lemma_choice_is_listed(takes, id, need, from + 1);
    } else {
        assert(takes[from as int] == choice(takes, id, need, from)->0);
    }
}

/// The last text is that of the first recording that has one, resolved or not; it is
/// delivered as configured.
pub proof fn last_takes_the_first_text(daemon: DaemonView, ready: Readiness, now: u64, at: nat)
    requires
        daemon.state is Idle,
        at < daemon.recordings.len(),
        daemon.recordings[at as int].text_available,
        forall|i: int| 0 <= i < at ==> !(#[trigger] daemon.recordings[i]).text_available,
    ensures
        ({
            let (after, step) = daemon.executed(CommandView::Last, ready, now);
            &&& step is Dispatch
            &&& step->Dispatch_0.operation.identity.take_id == daemon.recordings[at as int].id
            &&& step->Dispatch_0.operation.identity.kind == Some(OperationKind::Replay)
            &&& step->Dispatch_0.config == daemon.config
            &&& step->Dispatch_0.work == Work::Text
            &&& step->Dispatch_0.guarded
            &&& after == daemon.counted()
        }),
{
    lemma_first_choice(daemon.recordings, None, Need::Text, 0, at);
}

/// The last text is refused only where no recording has one.
pub proof fn last_is_refused_without_text(daemon: DaemonView, ready: Readiness, now: u64)
    requires
        daemon.state is Idle,
        forall|i: int|
            0 <= i < daemon.recordings.len() ==> !(#[trigger] daemon.recordings[i]).text_available,
    ensures
        ({
            let (after, step) = daemon.executed(CommandView::Last, ready, now);
            &&& step is Reply
            &&& !step->Reply_0.ok
            &&& step->Reply_0.error == Some("no-transcript"@)
            &&& step->Reply_0.message == Some("No saved transcript."@)
            &&& after.operation_sequence == daemon.operation_sequence
        }),
{
    lemma_no_choice(daemon.recordings, None, Need::Text, 0);
}

/// A copy takes the first text of the named recording, and only to the clipboard; where
/// there is none it is refused.
pub proof fn copy_takes_the_named_text(
    daemon: DaemonView,
    id: Seq<char>,
    ready: Readiness,
    now: u64,
    at: nat,
)
    requires
        daemon.state is Idle,
    ensures
        ({
            let step = daemon.executed(CommandView::Copy { id }, ready, now).1;
            let job = step->Dispatch_0;
            &&& at < daemon.recordings.len() && daemon.recordings[at as int].id == id
                && daemon.recordings[at as int].text_available ==> step is Dispatch
                && job.operation.identity.take_id == id && job.operation.identity.kind == Some(
                OperationKind::Replay,
            ) && job.work == Work::Text && job.config == (ConfigView {
                injection: InjectionMode::Clipboard,
                ..daemon.config
            })
            &&& (forall|i: int|
                0 <= i < daemon.recordings.len() ==> (#[trigger] daemon.recordings[i]).id != id
                    || !daemon.recordings[i].text_available) ==> step is Reply
                && !step->Reply_0.ok && step->Reply_0.error == Some("no-transcript"@)
        }),
{
    lemma_choice_fits(daemon.recordings, Some(id), Need::Text, 0);
    if at < daemon.recordings.len() && daemon.recordings[at as int].id == id
        && daemon.recordings[at as int].text_available {
        lemma_choice_exists(daemon.recordings, Some(id), Need::Text, 0, at);
    }
    if forall|i: int|
        0 <= i < daemon.recordings.len() ==> (#[trigger] daemon.recordings[i]).id != id
            || !daemon.recordings[i].text_available {
        lemma_no_choice(daemon.recordings, Some(id), Need::Text, 0);
    }
}

proof fn lemma_choice_exists(
    takes: Seq<TakeView>,
    id: Option<Seq<char>>,
    need: Need,
    from: nat,
    at: nat,
)
    requires
        from <= at < takes.len(),
        is_choice(takes[at as int], id, need),
    ensures
        choice(takes, id, need, from) is Some,
    decreases at - from,
{
    if from < at && !is_choice(takes[from as int], id, need) {
        lemma_choice_exists(takes, id, need, from + 1, at);
    }
}

/// A listed recording can be forgotten whatever it has left, under its own name; one that is
/// not listed cannot.
pub proof fn forget_takes_the_named_recording(
    daemon: DaemonView,
    id: Seq<char>,
    ready: Readiness,
    now: u64,
    at: nat,
)
    requires
        daemon.state is Idle,
    ensures
        ({
            let step = daemon.executed(CommandView::Forget { id }, ready, now).1;
            &&& at < daemon.recordings.len() && daemon.recordings[at as int].id == id
                ==> step is Dispatch && step->Dispatch_0.operation.identity.take_id == id
                && step->Dispatch_0.operation.identity.kind == Some(OperationKind::Forget)
                && step->Dispatch_0.work == Work::Forget && !step->Dispatch_0.guarded
                && step->Dispatch_0.config == daemon.config
            &&& (forall|i: int|
                0 <= i < daemon.recordings.len() ==> (#[trigger] daemon.recordings[i]).id != id)
                ==> step is Reply && !step->Reply_0.ok && step->Reply_0.error == Some(
                "no-recording"@,
            )
        }),
{
    if at < daemon.recordings.len() && daemon.recordings[at as int].id == id {
        lemma_choice_exists(daemon.recordings, Some(id), Need::Anything, 0, at);
    }
    if forall|i: int|
        0 <= i < daemon.recordings.len() ==> (#[trigger] daemon.recordings[i]).id != id {
        lemma_no_choice(daemon.recordings, Some(id), Need::Anything, 0);
    }
}

/// A recording starts exactly where there is a worker, a recognition, and, where cleanup was
/// asked for, a model for it; the choice of cleanup is handed on as it was made.
pub proof fn recording_starts_where_it_can_be_transcribed(
    daemon: DaemonView,
    postproc: Option<bool>,
    ready: Readiness,
    now: u64,
)
    requires
        daemon.state is Idle,
    ensures
        ({
            let (after, step) = daemon.executed(CommandView::Start { postproc }, ready, now);
            let model = daemon.config.postproc.model;
            let named = exists|i: int| 0 <= i < model.len() && !is_white_space(#[trigger] model[i]);
            let recognized = daemon.config.stt.endpoint is Some || ready.configured;
            let possible = daemon.worker_available && (postproc == Some(true) ==> named)
                && recognized;
            &&& possible ==> step == (StepView::Capture { postproc }) && after == daemon
            &&& !possible ==> step is Reply && !step->Reply_0.ok && after.state is Idle
                && after.operation_sequence == daemon.operation_sequence
            &&& !daemon.worker_available ==> step->Reply_0.error == Some("stt-failed"@)
            &&& daemon.worker_available && postproc == Some(true) && !named
                ==> step->Reply_0.error == Some("postproc-model-unset"@)
            &&& daemon.worker_available && (postproc == Some(true) ==> named) && !recognized
                ==> step->Reply_0.error == Some("local-model-unavailable"@)
        }),
{
    let model = daemon.config.postproc.model;
    if exists|i: int| 0 <= i < model.len() && !is_white_space(#[trigger] model[i]) {
        let i = choose|i: int| 0 <= i < model.len() && !is_white_space(#[trigger] model[i]);
        assert(!is_white_space(model[i]));
    }
}

/// A recording that was started carries exactly the choice of cleanup that was made, else
/// the configured one, and nothing else differs from the configuration.
pub proof fn recording_carries_the_choice_of_cleanup(
    daemon: DaemonView,
    take_id: Seq<char>,
    postproc: Option<bool>,
    now: u64,
)
    requires
        daemon.has_numbers(),
    ensures
        ({
            let (after, reply) = daemon.capture_begun(take_id, postproc, true, now);
            &&& reply.ok && reply.state == StateKindView::Recording
            &&& after.state is Recording
            &&& after.state->Recording_config.postproc.enabled == match postproc {
                Some(enabled) => enabled,
                None => daemon.config.postproc.enabled,
            }
            &&& after.state->Recording_config.postproc.model == daemon.config.postproc.model
            &&& after.state->Recording_config.stt == daemon.config.stt
            &&& after.state->Recording_config.injection == daemon.config.injection
            &&& after.state->Recording_config.telemetry == daemon.config.telemetry
            &&& after.state->Recording_started == now
            &&& after.state->Recording_signal is None
            &&& after.state->Recording_operation.identity.take_id == take_id
            &&& after.state->Recording_operation.identity.kind == Some(OperationKind::Dictation)
            &&& after.state->Recording_operation.hud == daemon.config.hud
            &&& after.state->Recording_operation.number == daemon.operation_sequence + 1
            &&& after.operation_sequence == daemon.operation_sequence + 1
            &&& after.outcome is None && after.notice is None
            &&& after.config == daemon.config && after.recordings == daemon.recordings
        }),
{
}

/// A recorder that did not start leaves the daemon idle as it was, with a failure told.
pub proof fn failed_recorder_is_told(
    daemon: DaemonView,
    take_id: Seq<char>,
    postproc: Option<bool>,
    now: u64,
)
    requires
        daemon.has_numbers(),
    ensures
        ({
            let (after, reply) = daemon.capture_begun(take_id, postproc, false, now);
            &&& !reply.ok && reply.error == Some("capture-failed"@)
            &&& after.state == daemon.state
            &&& after.operation_sequence == daemon.operation_sequence
            &&& after.outcome is Some && after.outcome->0.completeness == Completeness::Failed
                && after.outcome->0.delivery == Delivery::Nothing && after.outcome->0.error == Some(
                "capture-failed"@,
            )
        }),
{
}

/// A toggle starts where nothing runs, stops a recording, and else is busy.
pub proof fn toggle_is_start_or_stop(
    daemon: DaemonView,
    postproc: Option<bool>,
    ready: Readiness,
    now: u64,
)
    ensures
        daemon.state is Idle ==> daemon.executed(CommandView::Toggle { postproc }, ready, now)
            == daemon.executed(CommandView::Start { postproc }, ready, now),
        daemon.state is Recording ==> daemon.executed(CommandView::Toggle { postproc }, ready, now)
            == daemon.executed(CommandView::Stop, ready, now),
        daemon.state is Processing ==> daemon.executed(
            CommandView::Toggle { postproc },
            ready,
            now,
        ).1->Reply_0.error == Some("busy"@),
{
}

/// A stopped recording is transcribed under the configuration and the name with which it was
/// started, for the whole time that it took, and with a permit for its destination.
pub proof fn stopped_recording_is_transcribed(daemon: DaemonView, ready: Readiness, now: u64)
    requires
        daemon.state is Recording,
    ensures
        ({
            let (after, step) = daemon.executed(CommandView::Stop, ready, now);
            let started = daemon.state->Recording_started;
            let took = if now >= started {
                now - started
            } else {
                0
            };
            &&& step is Dispatch
            &&& step->Dispatch_0.operation == daemon.state->Recording_operation
            &&& step->Dispatch_0.config == daemon.state->Recording_config
            &&& step->Dispatch_0.guarded
            &&& step->Dispatch_0.work is Capture
            &&& step->Dispatch_0.work->Capture_duration_ms == took / 1_000_000
            &&& after.state == (StateView::Processing {
                operation: daemon.state->Recording_operation,
                phase_started: now,
                stage: StageView::FinalizingAudio,
                kind: WorkKind::Transcription,
            })
            &&& after.controls == daemon.controls
            &&& after.operation_sequence == daemon.operation_sequence
        }),
{
}

/// A cancelled recording is finished too, but as cancelled and without a permit.
pub proof fn cancelled_recording_is_finished(daemon: DaemonView, ready: Readiness, now: u64)
    requires
        daemon.state is Recording,
    ensures
        ({
            let (after, step) = daemon.executed(CommandView::Cancel, ready, now);
            let stopped = daemon.executed(CommandView::Stop, ready, now).1;
            &&& step is Dispatch
            &&& step->Dispatch_0 == (JobView { guarded: false, ..stopped->Dispatch_0 })
            &&& after.state is Processing
            &&& after.state.reached() == Some(StageView::Cancelling)
            &&& after.control(daemon.state->Recording_operation).lifecycle != Lifecycle::Open
        }),
{
}

/// Where nothing is recorded there is nothing to stop, and where nothing runs there is
/// nothing to cancel; a removal and a rescue cannot be cancelled.
pub proof fn nothing_is_stopped_or_cancelled_in_vain(
    daemon: DaemonView,
    ready: Readiness,
    now: u64,
)
    ensures
        daemon.state is Idle ==> daemon.executed(CommandView::Stop, ready, now).1->Reply_0.error
            == Some("not-recording"@),
        daemon.state is Idle ==> daemon.executed(CommandView::Cancel, ready, now).1->Reply_0.error
            == Some("nothing-to-cancel"@),
        daemon.state is Processing ==> daemon.executed(
            CommandView::Stop,
            ready,
            now,
        ).1->Reply_0.error == Some("busy"@),
        daemon.state is Processing && (daemon.state->Processing_kind == WorkKind::Forget
            || daemon.state->Processing_kind == WorkKind::Retain) ==> daemon.executed(
            CommandView::Cancel,
            ready,
            now,
        ).1->Reply_0.error == Some("busy"@) && daemon.executed(
            CommandView::Cancel,
            ready,
            now,
        ).0.controls == daemon.controls,
        daemon.state is Processing && (daemon.state->Processing_kind == WorkKind::Transcription
            || daemon.state->Processing_kind == WorkKind::Delivery) && daemon.control(
            daemon.state->Processing_operation,
        ).lifecycle != Lifecycle::Open ==> daemon.executed(
            CommandView::Cancel,
            ready,
            now,
        ).1->Reply_0.error == Some("already-settling"@),
{
}

/// While anything runs, no command that would start something does.
pub proof fn running_daemon_starts_nothing(
    daemon: DaemonView,
    command: CommandView,
    ready: Readiness,
    now: u64,
)
    requires
        !(daemon.state is Idle),
        command is Start || command is Last || command is Recover || command is Copy
            || command is Forget,
    ensures
        daemon.executed(command, ready, now).1 is Reply,
        !daemon.executed(command, ready, now).1->Reply_0.ok,
        daemon.executed(command, ready, now).1->Reply_0.error == Some("busy"@),
        daemon.executed(command, ready, now).0.state == daemon.state,
        daemon.executed(command, ready, now).0.operation_sequence == daemon.operation_sequence,
{
}

/// A ping changes nothing, and a reload changes nothing before it is done.
pub proof fn questions_change_nothing(daemon: DaemonView, ready: Readiness, now: u64)
    ensures
        daemon.executed(CommandView::Ping, ready, now).0 == daemon,
        daemon.executed(CommandView::Ping, ready, now).1->Reply_0.ok,
        daemon.executed(CommandView::Ping, ready, now).1->Reply_0.message == Some("pong"@),
        daemon.executed(CommandView::Reload, ready, now).0 == daemon,
        daemon.executed(CommandView::Reload, ready, now).1 is Reload,
{
}

/// A dismissal takes away exactly what it names, or everything where it names nothing; what
/// it does not find it refuses.
pub proof fn dismissal_takes_what_it_names(
    daemon: DaemonView,
    event_id: Option<u64>,
    ready: Readiness,
    now: u64,
)
    ensures
        ({
            let (after, step) = daemon.executed(CommandView::Dismiss { event_id }, ready, now);
            let notice = daemon.notice is Some && (event_id is None || event_id->0
                == daemon.notice->0.event_id);
            let outcome = daemon.outcome is Some && (event_id is None || event_id->0
                == daemon.outcome->0.event_id);
            &&& step is Reply
            &&& step->Reply_0.ok <==> notice || outcome
            &&& notice ==> after.notice is None
            &&& outcome ==> after.outcome is Some && after.outcome->0.dismissed
                && after.outcome->0.event_id == daemon.outcome->0.event_id
            &&& !notice && outcome ==> after.notice == daemon.notice
            &&& notice && !outcome ==> after.outcome == daemon.outcome
            &&& !notice && !outcome ==> step->Reply_0.error == Some("nothing-to-dismiss"@)
                && after.outcome == daemon.outcome
            &&& after.state == daemon.state && after.recordings == daemon.recordings
        }),
{
}

/// A job that the worker took runs as what it is; one that it did not take does not start,
/// but a recording is rescued.
pub proof fn jobs_run_as_what_they_are(
    daemon: DaemonView,
    job: JobView,
    accepted: bool,
    now: u64,
)
    ensures
        ({
            let (after, reply) = daemon.handed_over(job, accepted, now);
            &&& reply.ok <==> accepted
            &&& accepted && job.work == Work::Text ==> after.state == (StateView::Processing {
                operation: job.operation,
                phase_started: now,
                stage: StageView::Delivering,
                kind: WorkKind::Delivery,
            })
            &&& accepted && job.work == Work::Recover ==> after.state == (StateView::Processing {
                operation: job.operation,
                phase_started: now,
                stage: StageView::Transcribing { completed: 0, total: 1 },
                kind: WorkKind::Transcription,
            })
            &&& accepted && job.work == Work::Forget ==> after.state == (StateView::Processing {
                operation: job.operation,
                phase_started: now,
                stage: StageView::RemovingRecording,
                kind: WorkKind::Forget,
            })
            &&& accepted && job.work is Capture ==> after == daemon
            &&& accepted && !(job.work is Capture) ==> after.outcome is None && after.notice is None
            &&& !accepted ==> !after.worker_available
            &&& !accepted && !(job.work is Capture) ==> after.state == daemon.state
                && reply.error == Some("stt-failed"@)
            &&& !accepted && job.work is Capture ==> after.retaining && reply.error == Some(
                "worker-failed"@,
            ) && (daemon.state is Processing ==> after.state is Processing
                && after.state->Processing_kind == WorkKind::Retain
                && after.state->Processing_operation == daemon.state->Processing_operation)
            &&& after.recordings == daemon.recordings
        }),
{
}

/// A reload takes over a configuration that could be read, and keeps the old one else.
pub proof fn reload_takes_over_what_was_read(
    daemon: DaemonView,
    config: Option<ConfigView>,
    local_model: bool,
)
    ensures
        ({
            let (after, reply) = daemon.reloaded(config, local_model);
            &&& reply.ok <==> config is Some
            &&& config is Some ==> after == (DaemonView { config: config->0, local_model, ..daemon })
            &&& config is None ==> after.config == daemon.config && after.local_model
                == daemon.local_model && after.notice is Some && reply.error == Some(
                "reload-failed"@,
            )
        }),
{
}

/// An answer tells the state, the stage and the outcome as they are after the command.
pub proof fn answers_tell_the_state_they_leave(
    daemon: DaemonView,
    command: CommandView,
    ready: Readiness,
    now: u64,
)
    ensures
        ({
            let (after, step) = daemon.executed(command, ready, now);
            step is Reply ==> {
                &&& step->Reply_0.outcome == after.outcome
                &&& step->Reply_0.stage == after.state.reached()
                &&& step->Reply_0.message is Some
                &&& step->Reply_0.ok ==> step->Reply_0.error is None
                &&& !step->Reply_0.ok ==> step->Reply_0.error is Some
                &&& step->Reply_0.state == StateKindView::Idle <==> after.state is Idle
                &&& step->Reply_0.state == StateKindView::Recording <==> after.state is Recording
                &&& step->Reply_0.state == StateKindView::Processing <==> after.state is Processing
            }
        }),
{
}

/// What clients are told of an operation is what runs, for as many whole seconds as its phase
/// has taken.
pub proof fn status_tells_the_operation(daemon: DaemonView, now: u64)
    ensures
        ({
            let status = daemon.status(now);
            let running = daemon.state.running();
            &&& status.epoch == daemon.epoch
            &&& status.outcome == daemon.outcome && status.notice == daemon.notice
            &&& status.stage is Some <==> daemon.state is Processing
            &&& daemon.state is Processing ==> status.stage == Some(daemon.state->Processing_stage)
            &&& daemon.state is Idle ==> status.state == StateKindView::Idle && status.elapsed == 0
                && status.operation_id is None && status.operation_kind is None && status.hud
                == daemon.config.hud
            &&& daemon.state is Recording ==> status.state == StateKindView::Recording
                && status.signal == daemon.state->Recording_signal && status.operation_id == Some(
                daemon.state->Recording_operation.identity.operation_id,
            ) && status.operation_kind == daemon.state->Recording_operation.identity.kind
                && status.hud == daemon.state->Recording_operation.hud
            &&& daemon.state is Recording && now >= daemon.state->Recording_started
                ==> status.elapsed == (now - daemon.state->Recording_started) / 1_000_000_000
            &&& daemon.state is Processing ==> status.state == StateKindView::Processing
                && status.operation_id == Some(
                daemon.state->Processing_operation.identity.operation_id,
            ) && status.operation_kind == daemon.state->Processing_operation.identity.kind
                && status.hud == daemon.state->Processing_operation.hud
            &&& daemon.state is Processing && now >= daemon.state->Processing_phase_started
                ==> status.elapsed == (now - daemon.state->Processing_phase_started)
                / 1_000_000_000
            &&& status.capabilities.dismiss <==> daemon.notice is Some || (daemon.outcome is Some
                && !daemon.outcome->0.dismissed)
            &&& status.capabilities.local_model == daemon.local_model
            &&& status.capabilities.remote_configured <==> daemon.config.stt.endpoint is Some
        }),
{
}

/// An operation is named by its daemon and its number, and shown as configured when it was
/// counted.
pub proof fn operations_are_named_by_their_number(
    daemon: DaemonView,
    take_id: Seq<char>,
    kind: Option<OperationKind>,
    now: u64,
)
    requires
        daemon.has_numbers(),
    ensures
        ({
            let operation = daemon.next_operation(take_id, kind, now);
            &&& operation.identity.operation_id == daemon.epoch + "-"@ + decimal(
                operation.number as nat,
            )
            &&& operation.number == daemon.counted().operation_sequence
            &&& operation.number == daemon.operation_sequence + 1
            &&& operation.identity.take_id == take_id && operation.identity.kind == kind
                && operation.identity.epoch == daemon.epoch
            &&& operation.hud == daemon.config.hud && operation.started == now
        }),
{
}

/// A stage of the running operation is shown, and starts a phase of its own where it is
/// another one.
pub proof fn stages_are_shown(
    daemon: DaemonView,
    identity: IdentityView,
    reached: StageView,
    now: u64,
)
    requires
        daemon.state is Processing,
        daemon.state->Processing_operation.identity == identity,
        daemon.state->Processing_stage != StageView::Cancelling,
    ensures
        ({
            let after = daemon.stage_reached(identity, reached, now);
            &&& after.state is Processing
            &&& after.state->Processing_stage == reached
            &&& after.state->Processing_operation == daemon.state->Processing_operation
            &&& after.state->Processing_kind == daemon.state->Processing_kind
            &&& reached == StageView::Delivering && daemon.state->Processing_stage
                != StageView::Delivering ==> after.state->Processing_phase_started == now
            &&& reached == StageView::CleaningUp && daemon.state->Processing_stage is Transcribing
                ==> after.state->Processing_phase_started == now
            &&& reached == daemon.state->Processing_stage && !(reached is Unknown)
                ==> after.state->Processing_phase_started
                == daemon.state->Processing_phase_started
            &&& after.outcome == daemon.outcome && after.recordings == daemon.recordings
        }),
{
}

/// A worker that is lost ends what it was doing as failed and revoked; where it did nothing,
/// nothing ends, and either way no recording starts any more.
pub proof fn lost_worker_ends_its_job(
    daemon: DaemonView,
    artifacts: ArtifactsView,
    recordings: Option<Seq<TakeView>>,
)
    requires
        daemon.has_numbers(),
    ensures
        ({
            let after = daemon.worker_gone(artifacts, recordings);
            &&& !after.worker_available
            &&& daemon.state is Processing ==> {
                &&& after.state is Idle
                &&& after.outcome is Some
                &&& after.outcome->0.completeness == Completeness::Failed
                &&& after.outcome->0.delivery == Delivery::Nothing
                &&& after.outcome->0.error == Some("worker-failed"@)
                &&& after.outcome->0.artifacts == artifacts
                &&& after.outcome->0.operation_id == Some(
                    daemon.state->Processing_operation.identity.operation_id,
                )
                &&& after.control(daemon.state->Processing_operation) == (Control {
                    cancel: true,
                    lifecycle: Lifecycle::Sealed,
                })
                &&& recordings is Some ==> after.recordings == recordings->0
                &&& recordings is None ==> after.recordings == daemon.recordings
            }
            &&& !(daemon.state is Processing) ==> after.state == daemon.state && after.outcome
                == daemon.outcome && after.notice is Some && after.notice->0.error == Some(
                "worker-failed"@,
            )
        }),
{
}

/// A rescue that was lost ends as failed, and tells what is left.
pub proof fn lost_rescue_ends_as_failed(daemon: DaemonView, artifacts: ArtifactsView)
    requires
        daemon.has_numbers(),
    ensures
        ({
            let after = daemon.retention_gone(artifacts);
            &&& after.state is Idle
            &&& !after.retaining
            &&& after.outcome is Some
            &&& after.outcome->0.completeness == Completeness::Failed
            &&& after.outcome->0.error == Some("worker-failed"@)
            &&& daemon.state is Processing ==> after.outcome->0.artifacts == artifacts
                && after.outcome->0.operation_id == Some(
                daemon.state->Processing_operation.identity.operation_id,
            ) && after.control(daemon.state->Processing_operation).lifecycle == Lifecycle::Sealed
        }),
{
}

/// A result replaces the list of recordings where it brings one, under a new revision, and
/// its operation can be neither cancelled nor settled any more.
pub proof fn results_replace_the_recordings(
    daemon: DaemonView,
    identity: IdentityView,
    outcome: TerminalOutcomeView,
    recordings: Option<Seq<TakeView>>,
)
    requires
        daemon.has_numbers(),
        daemon.runs(identity),
    ensures
        ({
            let after = daemon.settled(identity, outcome, recordings);
            &&& recordings is Some ==> after.recordings == recordings->0 && after.history_revision
                == daemon.history_revision + 1
            &&& recordings is None ==> after.recordings == daemon.recordings
                && after.history_revision == daemon.history_revision
            &&& after.event_sequence == daemon.event_sequence + 1
            &&& after.outcome->0.event_id == daemon.event_sequence + 1
            &&& after.control(daemon.state.running()->0).lifecycle == Lifecycle::Sealed
            &&& after.control(daemon.state.running()->0).cancel == daemon.control(
                daemon.state.running()->0,
            ).cancel
            &&& after.config == daemon.config
        }),
{
}

/// The running operation is told apart from every other one by its identity.
pub proof fn running_operation_is_known_by_its_identity(
    daemon: DaemonView,
    identity: IdentityView,
)
    ensures
        daemon.runs(identity) <==> (daemon.state is Recording
            && daemon.state->Recording_operation.identity == identity) || (daemon.state
            is Processing && daemon.state->Processing_operation.identity == identity),
{
}

/// The microphone is sampled only while something is recorded, not before the time for it,
/// and the sample is what clients are told.
pub proof fn samples_are_taken_and_told(
    daemon: DaemonView,
    measured: Option<AudioSignal>,
    now: u64,
)
    requires
        now + 100_000_000 <= u64::MAX,
    ensures
        daemon.sample_wanted(now) ==> daemon.state is Recording,
        daemon.state is Recording ==> daemon.sampled(measured, now).status(now).signal == measured,
        daemon.state is Recording ==> !daemon.sampled(measured, now).sample_wanted(now),
        daemon.state is Recording ==> daemon.sampled(measured, now).sample_wanted(
            (now + 100_000_000) as u64,
        ),
        !(daemon.state is Recording) ==> daemon.sampled(measured, now) == daemon,
{
}

/// A daemon that stops leaves nothing running, and what it processed is cancelled.
pub proof fn stopping_daemon_revokes_what_runs(daemon: DaemonView)
    ensures
        daemon.stopped_at_last().state is Idle,
        daemon.state is Processing ==> daemon.stopped_at_last().control(
            daemon.state->Processing_operation,
        ) == daemon.control(daemon.state->Processing_operation).cancel_requested(),
        daemon.state is Processing && daemon.control(
            daemon.state->Processing_operation,
        ).lifecycle == Lifecycle::Open ==> daemon.stopped_at_last().control(
            daemon.state->Processing_operation,
        ).cancel,
        !(daemon.state is Processing) ==> daemon.stopped_at_last().controls == daemon.controls,
        daemon.revoked().state == daemon.state,
{
}

/// What is done to one operation's control leaves those of the others alone.
pub proof fn controls_are_kept_apart(
    daemon: DaemonView,
    operation: crate::daemon::OperationView,
    other: crate::daemon::OperationView,
)
    requires
        operation.number != other.number,
    ensures
        daemon.cancel_requested(operation).control(other) == daemon.control(other),
        daemon.settlement_sealed(operation).control(other) == daemon.control(other),
        daemon.closed(operation).control(other) == daemon.control(other),
        daemon.cancel_requested(operation).control(operation).lifecycle != Lifecycle::Open,
        daemon.settlement_sealed(operation).control(operation).lifecycle != Lifecycle::Open,
        daemon.settlement_sealed(operation).control(operation).cancel == daemon.control(
            operation,
        ).cancel,
        daemon.control(operation).lifecycle == Lifecycle::Open ==> daemon.cancel_requested(
            operation,
        ).control(operation).cancel && daemon.settlement_sealed(operation).control(
            operation,
        ).lifecycle == Lifecycle::Sealed,
        daemon.closed(operation).control(operation).lifecycle == Lifecycle::Sealed,
        daemon.settlement_sealed(operation).state == daemon.state,
{
}

/// A refusal changes nothing that runs and says why, to the one who asked and to whoever
/// watches.
pub proof fn refusals_are_told(
    daemon: DaemonView,
    command: CommandView,
    ready: Readiness,
    now: u64,
)
    requires
        daemon.event_sequence < u64::MAX,
    ensures
        ({
            let (after, step) = daemon.executed(command, ready, now);
            let said = step->Reply_0.message;
            let starts = command is Start || (command is Toggle && daemon.state is Idle);
            let asks = command is Start || command is Last || command is Recover || command is Copy
                || command is Forget;
            &&& asks && !(daemon.state is Idle) ==> step is Reply && said == Some(
                "Another operation is active; nothing new was started."@,
            ) && step->Reply_0.error == Some("busy"@)
            &&& (command is Toggle || command == CommandView::Stop) && daemon.state is Processing
                ==> said == Some("Another operation is active; nothing new was started."@)
            &&& starts && daemon.state is Idle && !daemon.worker_available ==> said == Some(
                "Transcription worker unavailable."@,
            )
            &&& command == CommandView::Stop && daemon.state is Idle ==> said == Some(
                "Nothing is recording."@,
            )
            &&& command == CommandView::Cancel && daemon.state is Idle ==> said == Some(
                "Nothing to cancel."@,
            )
            &&& step is Reply && step->Reply_0.ok ==> step->Reply_0.error is None
            &&& step is Reply && !step->Reply_0.ok ==> step->Reply_0.error is Some
                && after.event_sequence == daemon.event_sequence + 1 && (after.notice is Some
                && after.notice->0.event_id == after.event_sequence && Some(
                after.notice->0.message,
            ) == said || after.outcome is Some && after.outcome->0.event_id
                == after.event_sequence && Some(after.outcome->0.message) == said)
        }),
{
}

/// A recording that cannot be made is told with the reason.
pub proof fn refused_recordings_are_told_why(
    daemon: DaemonView,
    postproc: Option<bool>,
    ready: Readiness,
    now: u64,
)
    requires
        daemon.state is Idle,
        daemon.worker_available,
    ensures
        ({
            let (after, step) = daemon.executed(CommandView::Start { postproc }, ready, now);
            let unset = postproc == Some(true) && (forall|i: int|
                0 <= i < daemon.config.postproc.model.len() ==> is_white_space(
                    #[trigger] daemon.config.postproc.model[i],
                ));
            let missing = daemon.config.stt.endpoint is None && !ready.configured;
            &&& unset ==> step->Reply_0.message == Some(
                "Post-processing requested but [postproc].model is not set."@,
            )
            &&& !unset && missing ==> step->Reply_0.message == Some(
                "Local model unavailable — run: cantrip models pull"@,
            )
            &&& !unset && !missing ==> step == (StepView::Capture { postproc }) && after == daemon
            &&& unset || missing ==> after.outcome is Some && after.outcome->0.completeness
                == Completeness::Failed && after.state == daemon.state
        }),
{
}

/// A recorder that did not start, and a request that names no recording, are told.
pub proof fn missing_recordings_are_told(
    daemon: DaemonView,
    id: Seq<char>,
    local: bool,
    clipboard: bool,
    ready: Readiness,
    postproc: Option<bool>,
    now: u64,
)
    requires
        daemon.state is Idle,
    ensures
        daemon.capture_begun(id, postproc, false, now).1.message == Some(
            "Starting recording failed"@,
        ),
        (forall|i: int| 0 <= i < daemon.recordings.len() ==> (#[trigger] daemon.recordings[i]).id
            != id) ==> {
            let none = Some("That recording is not available."@);
            let named = CommandView::Recover { id: Some(id), local, clipboard };
            &&& daemon.executed(named, ready, now).1->Reply_0.message == none
            &&& daemon.executed(CommandView::Copy { id }, ready, now).1->Reply_0.message == none
            &&& daemon.executed(CommandView::Forget { id }, ready, now).1->Reply_0.message == none
        },
        (forall|i: int|
            0 <= i < daemon.recordings.len() ==> !(
            #[trigger] daemon.recordings[i]).audio_available) ==> daemon.executed(
            CommandView::Recover { id: None, local, clipboard },
            ready,
            now,
        ).1->Reply_0.message == Some("No failed recording to recover."@),
{
    lemma_none_chosen(daemon.recordings, Some(id), Need::Audio, 0);
    lemma_none_chosen(daemon.recordings, Some(id), Need::Text, 0);
    lemma_none_chosen(daemon.recordings, Some(id), Need::Anything, 0);
    lemma_none_chosen(daemon.recordings, None, Need::Audio, 0);
}

proof fn lemma_none_chosen(recordings: Seq<TakeView>, id: Option<Seq<char>>, need: Need, from: nat)
    ensures
        (forall|i: int|
            from <= i < recordings.len() ==> (id is Some && (#[trigger] recordings[i]).id != id->0)
                || (need == Need::Audio && !recordings[i].audio_available)) ==> choice(
            recordings,
            id,
            need,
            from,
        ) is None,
    decreases recordings.len() - from,
{
    if from < recordings.len() {
        lemma_none_chosen(recordings, id, need, from + 1);
    }
}

/// A job that was taken is told by what it does, and one that was not by what becomes of it.
pub proof fn jobs_are_told(daemon: DaemonView, job: JobView, accepted: bool, now: u64)
    ensures
        ({
            let said = daemon.handed_over(job, accepted, now).1.message;
            &&& accepted && job.work is Capture && job.guarded ==> said == Some("processing"@)
            &&& accepted && job.work is Capture && !job.guarded ==> said == Some("cancelling"@)
            &&& accepted && job.work == Work::Recover ==> said == Some("recovering"@)
            &&& accepted && job.work == Work::Text ==> said == Some("delivering"@)
            &&& accepted && job.work == Work::Forget ==> said == Some("forgetting"@)
            &&& !accepted && job.work is Capture ==> said == Some(
                "Worker unavailable; recording finalization is running without transcription."@,
            )
            &&& !accepted && !(job.work is Capture) ==> said == Some(
                "Transcription worker unavailable."@,
            )
        }),
{
}

/// A cancellation is told to be under way, or why it is not; a dismissal and a reload
/// likewise.
pub proof fn cancellations_and_dismissals_are_told(
    daemon: DaemonView,
    event_id: Option<u64>,
    config: Option<ConfigView>,
    local_model: bool,
    ready: Readiness,
    now: u64,
)
    ensures
        ({
            let cancelled = daemon.executed(CommandView::Cancel, ready, now).1;
            let dismissed = daemon.dismissed(event_id).1;
            let reloaded = daemon.reloaded(config, local_model).1;
            &&& daemon.state is Processing && (daemon.state->Processing_kind
                == WorkKind::Transcription || daemon.state->Processing_kind == WorkKind::Delivery)
                ==> cancelled->Reply_0.message == if daemon.control(
                daemon.state->Processing_operation,
            ).lifecycle == Lifecycle::Open {
                Some("cancelling"@)
            } else {
                Some("The operation is already cancelling or settling."@)
            }
            &&& dismissed.ok ==> dismissed.message == Some("dismissed"@)
            &&& !dismissed.ok ==> dismissed.message == Some("Nothing to dismiss."@)
            &&& reloaded.ok ==> reloaded.message == Some("reloaded"@)
            &&& !reloaded.ok ==> reloaded.message == Some(
                "Configuration could not be reloaded; the active configuration is unchanged."@,
            )
        }),
{
}

/// A worker that was lost, and a rescue that was, are told.
pub proof fn lost_workers_are_told(
    daemon: DaemonView,
    artifacts: ArtifactsView,
    recordings: Option<Seq<TakeView>>,
)
    requires
        daemon.has_numbers(),
    ensures
        ({
            let lost = daemon.worker_gone(artifacts, recordings);
            let files = if artifacts.text && artifacts.audio {
                " Saved text and audio are available."@
            } else if artifacts.text {
                " Saved text is available."@
            } else if artifacts.audio {
                " Saved audio is available."@
            } else {
                Seq::empty()
            };
            &&& daemon.state is Processing ==> lost.outcome is Some && lost.outcome->0.message
                == "Worker failed; no further delivery will be attempted."@ + files
            &&& !(daemon.state is Processing) ==> lost.notice is Some && lost.notice->0.message
                == "Worker unavailable; restart Cantrip before recording."@
            &&& daemon.retention_gone(artifacts).outcome is Some && daemon.retention_gone(
                artifacts,
            ).outcome->0.message == "Recording finalization failed; check runtime storage."@
        }),
{
}

/// A list of recordings is summed up: whether any has audio, whether any has text, and how
/// many wait.
pub proof fn recordings_are_summed_up(daemon: DaemonView, recordings: Seq<TakeView>, at: int)
    requires
        0 <= at < recordings.len(),
    ensures
        ({
            let after = daemon.with_recordings(recordings);
            &&& recordings[at].audio_available ==> after.has_audio
            &&& recordings[at].text_available ==> after.has_text
            &&& (forall|i: int|
                0 <= i < recordings.len() ==> !(#[trigger] recordings[i]).audio_available)
                ==> !after.has_audio
            &&& (forall|i: int|
                0 <= i < recordings.len() ==> !(#[trigger] recordings[i]).text_available)
                ==> !after.has_text
        }),
        unresolved_count(Seq::empty()) == 0,
        recordings.last().unresolved ==> unresolved_count(recordings) == unresolved_count(
            recordings.drop_last(),
        ) + 1,
        !recordings.last().unresolved ==> unresolved_count(recordings) == unresolved_count(
            recordings.drop_last(),
        ),
        unresolved_count(recordings) <= usize::MAX ==> daemon.with_recordings(
            recordings,
        ).pending_recordings == unresolved_count(recordings),
{
}

/// The daemon's state is told as what it is.
pub proof fn states_are_told(daemon: DaemonView, now: u64)
    ensures
        daemon.state is Idle <==> daemon.status(now).state == StateKindView::Idle,
        daemon.state is Recording <==> daemon.status(now).state == StateKindView::Recording,
        daemon.state is Processing <==> daemon.status(now).state == StateKindView::Processing,
{
}

/// An operation counts as cancelled once that was asked for or its cancellation was set, and
/// stays so.
pub proof fn cancelled_operations_stay_cancelled(control: Control)
    ensures
        control.is_cancelled() <==> control.cancel || control.lifecycle == Lifecycle::Requested,
        control.lifecycle == Lifecycle::Open ==> control.cancel_requested().is_cancelled(),
        control.cancel ==> control.sealed().is_cancelled() && control.closed().is_cancelled(),
        control.abandoned().is_cancelled(),
        !Control::untouched().is_cancelled(),
        control.lifecycle == Lifecycle::Sealed ==> control.cancel_requested() == control,
{
}

/// A phase lasts as long as its stage is of one kind, whatever it counts, and another begins
/// with every other stage.
pub proof fn phases_last_as_long_as_their_stage(
    daemon: DaemonView,
    identity: IdentityView,
    reached: StageView,
    now: u64,
)
    requires
        daemon.state is Processing,
        daemon.state->Processing_operation.identity == identity,
        daemon.state->Processing_stage != StageView::Cancelling,
    ensures
        ({
            let after = daemon.stage_reached(identity, reached, now);
            let stage = daemon.state->Processing_stage;
            let same = stage == reached || (stage is Transcribing && reached is Transcribing) || (
            stage is Unknown && reached is Unknown);
            &&& after.state is Processing && after.state->Processing_stage == reached
            &&& same ==> after.state->Processing_phase_started
                == daemon.state->Processing_phase_started
            &&& !same ==> after.state->Processing_phase_started == now
        }),
{
}

} // verus!
