//! What holds of the daemon in every state that it can reach.

use crate::config::ConfigView;
use crate::daemon::control::{any_audio, any_text, unresolved_count, Readiness, StepView};
use crate::daemon::{
    CommandView, Control, DaemonView, IdentityView, JobView, Lifecycle, OperationView, StateView, TakeView,
    WorkKind,
};
use crate::ipc::{ArtifactsView, AudioSignal, OperationKind, StageView, TerminalOutcomeView};
use vstd::prelude::*;

verus! {

/// What can happen to a daemon.
pub enum DaemonEvent {
    /// A command is executed.
    Command { command: CommandView, ready: Readiness, now: u64 },
    /// The recorder was started, or could not be.
    Capture { take_id: Seq<char>, postproc: Option<bool>, started: bool, now: u64 },
    /// A job was handed to the worker, or the worker was gone.
    HandOver { job: JobView, accepted: bool, now: u64 },
    /// The configuration was read again, or could not be.
    Reload { config: Option<ConfigView>, local_model: bool },
    /// An operation is counted.
    Count,
    /// An operation starts being processed.
    Begin { operation: OperationView, stage: StageView, kind: WorkKind, now: u64 },
    /// The worker reaches a stage.
    Stage { identity: IdentityView, reached: StageView, now: u64 },
    /// The worker commits a settlement.
    Seal { operation: OperationView },
    /// The worker ends an operation.
    Close { operation: OperationView },
    /// The cancellation of an operation is requested.
    RequestCancel { operation: OperationView },
    /// What is processed is cancelled without a command.
    Revoke,
    /// The worker has a result.
    Settle {
        identity: IdentityView,
        outcome: TerminalOutcomeView,
        recordings: Option<Seq<TakeView>>,
    },
    /// The worker is lost.
    LoseWorker { artifacts: ArtifactsView, recordings: Option<Seq<TakeView>> },
    /// A rejected recording is kept.
    Retain {
        identity: IdentityView,
        outcome: TerminalOutcomeView,
        recordings: Option<Seq<TakeView>>,
    },
    /// The thread that kept a rejected recording is lost.
    LoseRetention { artifacts: ArtifactsView },
    /// The microphone is sampled.
    Sample { measured: Option<AudioSignal>, now: u64 },
    /// The saved recordings are listed anew.
    List { listed: Seq<TakeView> },
    /// Feedback is given.
    Notice { message: Seq<char>, error: Option<Seq<char>> },
    /// An outcome is published.
    Publish { outcome: TerminalOutcomeView },
    /// It was looked up whether the local model is installed.
    LookUp { local_model: bool },
    /// The daemon stops.
    Stop,
}

/// A list that fits into memory.
pub open spec fn listable(recordings: Option<Seq<TakeView>>) -> bool {
    recordings is Some ==> recordings->0.len() <= usize::MAX
}

impl DaemonEvent {
    /// Whether it can happen to a daemon: there are numbers left, its lists fit into
    /// memory, and its operation is one that was counted.
    pub open spec fn possible(self, daemon: DaemonView) -> bool {
        &&& daemon.has_numbers()
        &&& match self {
            DaemonEvent::HandOver { job, .. } => job.operation.number <= daemon.operation_sequence,
            DaemonEvent::Begin { operation, .. } => operation.number <= daemon.operation_sequence,
            DaemonEvent::Seal { operation } => operation.number <= daemon.operation_sequence,
            DaemonEvent::Close { operation } => operation.number <= daemon.operation_sequence,
            DaemonEvent::RequestCancel { operation } => operation.number
                <= daemon.operation_sequence,
            DaemonEvent::Settle { recordings, .. } => listable(recordings),
            DaemonEvent::LoseWorker { recordings, .. } => listable(recordings),
            DaemonEvent::Retain { recordings, .. } => listable(recordings),
            DaemonEvent::List { listed } => listed.len() <= usize::MAX,
            _ => true,
        }
    }
}

impl Control {
    /// It is marked as cancelled where a cancellation was accepted, and not while one
    /// can still be.
    pub open spec fn orderly(self) -> bool {
        &&& self.lifecycle == Lifecycle::Requested ==> self.cancel
        &&& self.lifecycle == Lifecycle::Open ==> !self.cancel
    }
}

impl DaemonView {
    /// What is kept ready of the recordings agrees with them.
    pub open spec fn summarized(self) -> bool {
        &&& self.pending_recordings == unresolved_count(self.recordings)
        &&& self.has_audio == any_audio(self.recordings)
        &&& self.has_text == any_text(self.recordings)
    }

    /// Only operations that were counted run, are cancelled or are settled, and a
    /// cancelled one is marked so.
    pub open spec fn controlled(self) -> bool {
        &&& self.state.running() is Some ==> self.state.running()->0.number
            <= self.operation_sequence
        &&& forall|number: u64| #[trigger]
            self.controls.contains_key(number) ==> number <= self.operation_sequence
                && self.controls[number].orderly()
    }

    /// Both of these.
    pub open spec fn orderly(self) -> bool {
        self.summarized() && self.controlled()
    }

    /// The daemon after an event.
    pub open spec fn after(self, event: DaemonEvent) -> DaemonView {
        match event {
            DaemonEvent::Command { command, ready, now } => self.executed(command, ready, now).0,
            DaemonEvent::Capture { take_id, postproc, started, now } => self.capture_begun(
                take_id,
                postproc,
                started,
                now,
            ).0,
            DaemonEvent::HandOver { job, accepted, now } => self.handed_over(job, accepted, now).0,
            DaemonEvent::Reload { config, local_model } => self.reloaded(config, local_model).0,
            DaemonEvent::Count => self.counted(),
            DaemonEvent::Begin { operation, stage, kind, now } => self.begun(
                operation,
                stage,
                kind,
                now,
            ),
            DaemonEvent::Stage { identity, reached, now } => self.stage_reached(
                identity,
                reached,
                now,
            ),
            DaemonEvent::Seal { operation } => self.settlement_sealed(operation),
            DaemonEvent::Close { operation } => self.closed(operation),
            DaemonEvent::RequestCancel { operation } => self.cancel_requested(operation),
            DaemonEvent::Revoke => self.revoked(),
            DaemonEvent::Settle { identity, outcome, recordings } => self.settled(
                identity,
                outcome,
                recordings,
            ),
            DaemonEvent::LoseWorker { artifacts, recordings } => self.worker_gone(
                artifacts,
                recordings,
            ),
            DaemonEvent::Retain { identity, outcome, recordings } => DaemonView {
                retaining: false,
                ..self
            }.settled(identity, outcome, recordings),
            DaemonEvent::LoseRetention { artifacts } => self.retention_gone(artifacts),
            DaemonEvent::Sample { measured, now } => self.sampled(measured, now),
            DaemonEvent::List { listed } => self.with_recordings(listed),
            DaemonEvent::Notice { message, error } => self.noticed(message, error),
            DaemonEvent::Publish { outcome } => self.with_outcome(outcome),
            DaemonEvent::LookUp { local_model } => DaemonView { local_model, ..self },
            DaemonEvent::Stop => self.stopped_at_last(),
        }
    }

    /// The daemon after some events.
    pub open spec fn after_all(self, events: Seq<DaemonEvent>) -> DaemonView
        decreases events.len(),
    {
        if events.len() == 0 {
            self
        } else {
            self.after_all(events.drop_last()).after(events.last())
        }
    }

    /// Whether some events can happen to the daemon, one after the other.
    pub open spec fn can_take(self, events: Seq<DaemonEvent>) -> bool
        decreases events.len(),
    {
        events.len() == 0 || (self.can_take(events.drop_last()) && events.last().possible(
            self.after_all(events.drop_last()),
        ))
    }
}

proof fn lemma_unresolved_count(recordings: Seq<TakeView>)
    ensures
        unresolved_count(recordings) <= recordings.len(),
    decreases recordings.len(),
{
    if recordings.len() > 0 {
        lemma_unresolved_count(recordings.drop_last());
    }
}

/// A new daemon is orderly.
pub proof fn new_daemon_is_orderly(
    config: ConfigView,
    recordings: Seq<TakeView>,
    local_model: bool,
    epoch: Seq<char>,
)
    requires
        recordings.len() <= usize::MAX,
    ensures
        DaemonView::started(config, recordings, local_model, epoch).orderly(),
{
    lemma_unresolved_count(recordings);
}

proof fn lemma_same_lists(before: DaemonView, after: DaemonView)
    requires
        before.summarized(),
        after.recordings == before.recordings,
        after.pending_recordings == before.pending_recordings,
        after.has_audio == before.has_audio,
        after.has_text == before.has_text,
    ensures
        after.summarized(),
{
}

proof fn lemma_command_keeps_order(
    daemon: DaemonView,
    command: CommandView,
    ready: Readiness,
    now: u64,
)
    requires
        daemon.orderly(),
        daemon.has_numbers(),
    ensures
        daemon.executed(command, ready, now).0.orderly(),
        daemon.executed(command, ready, now).1 matches StepView::Dispatch(job)
            ==> job.operation.number <= daemon.executed(command, ready, now).0.operation_sequence,
{
    let after = daemon.executed(command, ready, now).0;
    assert(after.recordings == daemon.recordings);
    assert(after.pending_recordings == daemon.pending_recordings);
    assert(after.has_audio == daemon.has_audio);
    assert(after.has_text == daemon.has_text);
    lemma_same_lists(daemon, after);
}

proof fn lemma_settlement_keeps_order(
    daemon: DaemonView,
    identity: IdentityView,
    outcome: TerminalOutcomeView,
    recordings: Option<Seq<TakeView>>,
)
    requires
        daemon.orderly(),
        listable(recordings),
    ensures
        daemon.settled(identity, outcome, recordings).orderly(),
{
    if let Some(recordings) = recordings {
        lemma_unresolved_count(recordings);
    }
}

proof fn lemma_loss_keeps_order(
    daemon: DaemonView,
    artifacts: ArtifactsView,
    recordings: Option<Seq<TakeView>>,
)
    requires
        daemon.orderly(),
        listable(recordings),
    ensures
        daemon.worker_gone(artifacts, recordings).orderly(),
        daemon.retention_gone(artifacts).orderly(),
{
    if let Some(recordings) = recordings {
        lemma_unresolved_count(recordings);
    }
}

proof fn lemma_hand_over_keeps_order(daemon: DaemonView, job: JobView, accepted: bool, now: u64)
    requires
        daemon.orderly(),
        job.operation.number <= daemon.operation_sequence,
    ensures
        daemon.handed_over(job, accepted, now).0.orderly(),
{
    let after = daemon.handed_over(job, accepted, now).0;
    assert(after.recordings == daemon.recordings);
}

/// No event makes the daemon disorderly.
pub proof fn events_keep_daemon_orderly(daemon: DaemonView, event: DaemonEvent)
    requires
        daemon.orderly(),
        event.possible(daemon),
    ensures
        daemon.after(event).orderly(),
{
    match event {
        DaemonEvent::Command { command, ready, now } => {
            lemma_command_keeps_order(daemon, command, ready, now);
        },
        DaemonEvent::HandOver { job, accepted, now } => {
            lemma_hand_over_keeps_order(daemon, job, accepted, now);
        },
        DaemonEvent::Settle { identity, outcome, recordings } => {
            lemma_settlement_keeps_order(daemon, identity, outcome, recordings);
        },
        DaemonEvent::Retain { identity, outcome, recordings } => {
            let without = DaemonView { retaining: false, ..daemon };
            lemma_settlement_keeps_order(without, identity, outcome, recordings);
        },
        DaemonEvent::LoseWorker { artifacts, recordings } => {
            lemma_loss_keeps_order(daemon, artifacts, recordings);
        },
        DaemonEvent::LoseRetention { artifacts } => {
            lemma_loss_keeps_order(daemon, artifacts, None);
        },
        DaemonEvent::List { listed } => {
            lemma_unresolved_count(listed);
        },
        DaemonEvent::Capture { take_id, postproc, started, now } => {
            assert(daemon.capture_begun(take_id, postproc, started, now).0.orderly());
        },
        DaemonEvent::Reload { config, local_model } => {
            assert(daemon.reloaded(config, local_model).0.orderly());
        },
        DaemonEvent::Stage { identity, reached, now } => {
            assert(daemon.stage_reached(identity, reached, now).orderly());
        },
        DaemonEvent::Revoke => {
            assert(daemon.revoked().orderly());
        },
        DaemonEvent::Sample { measured, now } => {
            assert(daemon.sampled(measured, now).orderly());
        },
        DaemonEvent::Stop => {
            assert(daemon.stopped_at_last().orderly());
        },
        _ => {},
    }
}

/// The jobs that the daemon hands out can be handed back.
pub proof fn handed_out_jobs_are_possible(
    daemon: DaemonView,
    command: CommandView,
    ready: Readiness,
    now: u64,
)
    requires
        daemon.orderly(),
        daemon.has_numbers(),
    ensures
        daemon.executed(command, ready, now).1 matches StepView::Dispatch(job)
            ==> job.operation.number <= daemon.executed(command, ready, now).0.operation_sequence,
{
    lemma_command_keeps_order(daemon, command, ready, now);
}

/// Whatever happens to a daemon, it is orderly.
pub proof fn reached_daemon_is_orderly(daemon: DaemonView, events: Seq<DaemonEvent>)
    requires
        daemon.orderly(),
        daemon.can_take(events),
    ensures
        daemon.after_all(events).orderly(),
    decreases events.len(),
{
    if events.len() > 0 {
        let earlier = events.drop_last();
        reached_daemon_is_orderly(daemon, earlier);
        events_keep_daemon_orderly(daemon.after_all(earlier), events.last());
    }
}

/// Whatever was cancelled or settled before, the next operation is neither.
pub proof fn next_operation_is_untouched(
    daemon: DaemonView,
    take_id: Seq<char>,
    kind: Option<OperationKind>,
    now: u64,
)
    requires
        daemon.orderly(),
        daemon.has_numbers(),
    ensures
        daemon.counted().control(daemon.next_operation(take_id, kind, now)) == Control::untouched(),
{
}

/// In every state that a daemon reaches, what it tells clients agrees with its
/// recordings and its operation: how many recordings are unresolved, that only a
/// recording can be stopped and has a signal, that what is cancelled or settled cannot
/// be cancelled, and that audio is recovered and text is copied where there is some,
/// nothing runs, and there is a worker.
pub proof fn reached_status_agrees(
    config: ConfigView,
    recordings: Seq<TakeView>,
    local_model: bool,
    epoch: Seq<char>,
    events: Seq<DaemonEvent>,
    now: u64,
)
    requires
        recordings.len() <= usize::MAX,
        DaemonView::started(config, recordings, local_model, epoch).can_take(events),
    ensures
        ({
            let daemon = DaemonView::started(config, recordings, local_model, epoch).after_all(
                events,
            );
            let status = daemon.status(now);
            let idle = daemon.state is Idle && daemon.worker_available;
            &&& status.pending_recordings == unresolved_count(daemon.recordings)
            &&& status.capabilities.stop <==> daemon.state is Recording
            &&& status.signal is Some ==> daemon.state is Recording
            &&& status.capabilities.cancel <==> match daemon.state {
                StateView::Idle => false,
                StateView::Recording { .. } => true,
                StateView::Processing { operation, kind, .. } => (kind == WorkKind::Transcription
                    || kind == WorkKind::Delivery) && !daemon.control(operation).is_cancelled()
                    && daemon.control(operation).lifecycle != Lifecycle::Sealed,
            }
            &&& status.capabilities.recover <==> idle && any_audio(daemon.recordings)
            &&& status.capabilities.copy <==> idle && any_text(daemon.recordings)
        }),
{
    let start = DaemonView::started(config, recordings, local_model, epoch);
    new_daemon_is_orderly(config, recordings, local_model, epoch);
    reached_daemon_is_orderly(start, events);
}

} // verus!
