//! How stages, results and losses of the worker change the daemon.

use crate::daemon::control::{failed_setup, setup_failure};
use crate::daemon::worker::{describe_artifacts, described_artifacts};
use crate::daemon::{
    take_views, Control, Daemon, DaemonView, Identity, IdentityView, Lifecycle, Operation,
    OperationView, State, StateView, Take, TakeView, SIGNAL_SAMPLE_INTERVAL,
};
use crate::hud::{elapsed_since, since, MILLISECOND};
use crate::ipc::{
    Artifacts, ArtifactsView, AudioSignal, Stage, StageView, TerminalOutcome, TerminalOutcomeView,
};
use vstd::prelude::*;

verus! {

/// Whether two stages are of one kind, whatever they have counted.
pub open spec fn same_phase(a: StageView, b: StageView) -> bool {
    match (a, b) {
        (StageView::FinalizingAudio, StageView::FinalizingAudio) => true,
        (StageView::Transcribing { .. }, StageView::Transcribing { .. }) => true,
        (StageView::CleaningUp, StageView::CleaningUp) => true,
        (StageView::Delivering, StageView::Delivering) => true,
        (StageView::Cancelling, StageView::Cancelling) => true,
        (StageView::RemovingRecording, StageView::RemovingRecording) => true,
        (StageView::Unknown(_), StageView::Unknown(_)) => true,
        _ => false,
    }
}

fn phase_unchanged(a: &Stage, b: &Stage) -> (result: bool)
    ensures
        result == same_phase(a@, b@),
{
    match (a, b) {
        (Stage::FinalizingAudio, Stage::FinalizingAudio) => true,
        (Stage::Transcribing { .. }, Stage::Transcribing { .. }) => true,
        (Stage::CleaningUp, Stage::CleaningUp) => true,
        (Stage::Delivering, Stage::Delivering) => true,
        (Stage::Cancelling, Stage::Cancelling) => true,
        (Stage::RemovingRecording, Stage::RemovingRecording) => true,
        (Stage::Unknown(_), Stage::Unknown(_)) => true,
        _ => false,
    }
}

/// What a result of the worker came to.
#[derive(Clone, Copy, Debug, PartialEq, Eq, Structural)]
pub enum Settlement {
    /// It is of an operation that no longer runs: nothing has changed.
    Stale,
    /// It is published; `report` where telemetry may be sent.
    Published { report: bool },
}

/// What is left to do when the daemon stops.
#[derive(Debug, PartialEq, Eq)]
pub enum ShutdownWork {
    /// Nothing.
    Nothing,
    /// Stop the recorder and keep its audio as an unresolved take.
    Retain { take_id: String, duration_ms: u64 },
    /// Delivery is revoked; the worker ends by itself.
    Revoked,
}

impl DaemonView {
    /// Whether the running operation is the given one.
    pub open spec fn runs(self, identity: IdentityView) -> bool {
        match self.state.running() {
            Some(operation) => operation.identity == identity,
            None => false,
        }
    }

    /// The daemon after a stage was reached. A stage of another operation, and any
    /// stage after a cancellation, changes nothing; only a stage of another kind
    /// starts a new phase.
    pub open spec fn stage_reached(
        self,
        identity: IdentityView,
        reached: StageView,
        now: u64,
    ) -> DaemonView {
        match self.state {
            StateView::Processing { operation, phase_started, stage, kind } => if operation.identity
                == identity && stage != StageView::Cancelling {
                DaemonView {
                    state: StateView::Processing {
                        operation,
                        phase_started: if same_phase(stage, reached) {
                            phase_started
                        } else {
                            now
                        },
                        stage: reached,
                        kind,
                    },
                    ..self
                }
            } else {
                self
            },
            _ => self,
        }
    }

    /// The daemon after an attempt to commit the settlement of an operation.
    pub open spec fn settlement_sealed(self, operation: OperationView) -> DaemonView {
        self.with_control(operation, self.control(operation).sealed())
    }

    /// The daemon once an operation can be neither cancelled nor settled any more.
    pub open spec fn closed(self, operation: OperationView) -> DaemonView {
        self.with_control(operation, self.control(operation).closed())
    }

    /// With the operation that is processed cancelled.
    pub open spec fn revoked(self) -> DaemonView {
        match self.state {
            StateView::Processing { operation, .. } => self.cancel_requested(operation),
            _ => self,
        }
    }

    /// The daemon when it ends.
    pub open spec fn stopped_at_last(self) -> DaemonView {
        DaemonView { state: StateView::Idle, ..self.revoked() }
    }

    /// The daemon after a result of the worker.
    pub open spec fn settled(
        self,
        identity: IdentityView,
        outcome: TerminalOutcomeView,
        recordings: Option<Seq<TakeView>>,
    ) -> DaemonView {
        if !self.runs(identity) {
            self
        } else {
            let closed = self.closed(self.state.running()->0);
            let listed = match recordings {
                Some(recordings) => closed.with_recordings(recordings),
                None => closed,
            };
            DaemonView { state: StateView::Idle, ..listed }.with_outcome(outcome)
        }
    }

    /// The daemon after the worker was lost: what it was doing has failed, and is
    /// not delivered any more.
    pub open spec fn worker_gone(
        self,
        artifacts: ArtifactsView,
        recordings: Option<Seq<TakeView>>,
    ) -> DaemonView {
        let without = DaemonView { worker_available: false, ..self };
        match self.state {
            StateView::Processing { operation, .. } => {
                let outcome = described_artifacts(
                    TerminalOutcomeView {
                        operation_id: Some(operation.identity.operation_id),
                        artifacts,
                        ..failed_setup(
                            "Worker failed; no further delivery will be attempted."@,
                            "worker-failed"@,
                        )
                    },
                );
                let abandoned = without.with_control(operation, without.control(operation).abandoned());
                let told = DaemonView { state: StateView::Idle, ..abandoned }.with_outcome(outcome);
                match recordings {
                    Some(recordings) => told.with_recordings(recordings),
                    None => told,
                }
            },
            _ => without.noticed(
                "Worker unavailable; restart Cantrip before recording."@,
                Some("worker-failed"@),
            ),
        }
    }

    /// The daemon after the thread that kept a rejected recording was lost.
    pub open spec fn retention_gone(self, artifacts: ArtifactsView) -> DaemonView {
        let failure = failed_setup(
            "Recording finalization failed; check runtime storage."@,
            "worker-failed"@,
        );
        let (closed, outcome) = match self.state.running() {
            Some(operation) => (
                self.closed(operation),
                TerminalOutcomeView {
                    operation_id: Some(operation.identity.operation_id),
                    artifacts,
                    ..failure
                },
            ),
            None => (self, failure),
        };
        DaemonView { state: StateView::Idle, retaining: false, ..closed }.with_outcome(outcome)
    }

    /// Whether the microphone is to be sampled.
    pub open spec fn sample_wanted(self, now: u64) -> bool {
        match self.state {
            StateView::Recording { next_signal_sample, .. } => now >= next_signal_sample,
            _ => false,
        }
    }

    /// The daemon with a sample of the microphone.
    pub open spec fn sampled(self, measured: Option<AudioSignal>, now: u64) -> DaemonView {
        match self.state {
            StateView::Recording { operation, config, started, signal, next_signal_sample } =>
                DaemonView {
                state: StateView::Recording {
                    operation,
                    config,
                    started,
                    signal: measured,
                    next_signal_sample: (now + SIGNAL_SAMPLE_INTERVAL) as u64,
                },
                ..self
            },
            _ => self,
        }
    }
}

impl Daemon {
    /// Take in a stage.
    pub fn observe_stage(&mut self, identity: &Identity, reached: Stage, now: u64)
        ensures
            final(self)@ == old(self)@.stage_reached(identity@, reached@, now),
    {
        let mut state = State::Idle;
        std::mem::swap(&mut self.state, &mut state);
        self.state = match state {
            State::Processing { operation, phase_started, stage, kind } => {
                if operation.identity.same(identity) && !matches!(stage, Stage::Cancelling) {
                    let phase_started: u64 = if phase_unchanged(&stage, &reached) {
                        phase_started
                    } else {
                        now
                    };
                    State::Processing { operation, phase_started, stage: reached, kind }
                } else {
                    State::Processing { operation, phase_started, stage, kind }
                }
            },
            other => other,
        };
    }

    /// Whether the running operation is the given one.
    pub fn is_running(&self, identity: &Identity) -> (result: bool)
        ensures
            result == self@.runs(identity@),
    {
        match self.state.operation() {
            Some(operation) => operation.identity.same(identity),
            None => false,
        }
    }

    /// Whether an operation may no longer deliver: its cancellation was accepted, or the
    /// worker was lost with it. It does not matter whether the operation runs.
    pub fn delivery_revoked(&self, operation: &Operation) -> (result: bool)
        ensures
            result == self@.control(operation@).is_cancelled(),
    {
        self.control(operation).cancelled()
    }

    /// Commit the settlement of an operation, whether or not it runs; whether it is
    /// committed.
    pub fn seal(&mut self, operation: &Operation) -> (result: bool)
        ensures
            result == (old(self)@.control(operation@).lifecycle == Lifecycle::Open),
            final(self)@ == old(self)@.settlement_sealed(operation@),
    {
        let mut control = self.control(operation);
        let sealed = control.seal();
        self.set_control(operation, control);
        sealed
    }

    /// End an operation: it can be neither cancelled nor settled any more.
    pub fn close(&mut self, operation: &Operation)
        ensures
            final(self)@ == old(self)@.closed(operation@),
    {
        let control = self.control(operation);
        self.set_control(operation, Control { lifecycle: Lifecycle::Sealed, ..control });
    }

    fn leave(&mut self) -> (result: Option<Operation>)
        ensures
            final(self)@ == (DaemonView { state: StateView::Idle, ..old(self)@ }),
            match result {
                Some(operation) => old(self)@.state.running() == Some(operation@),
                None => old(self)@.state.running() is None,
            },
    {
        let mut state = State::Idle;
        std::mem::swap(&mut self.state, &mut state);
        match state {
            State::Recording { operation, .. } => Some(operation),
            State::Processing { operation, .. } => Some(operation),
            State::Idle => None,
        }
    }

    /// Take in a result of the worker.
    pub fn apply_worker_result(
        &mut self,
        identity: &Identity,
        outcome: TerminalOutcome,
        recordings: Option<Vec<Take>>,
    ) -> (result: Settlement)
        requires
            old(self)@.has_numbers(),
        ensures
            final(self)@ == old(self)@.settled(
                identity@,
                outcome@,
                match recordings {
                    Some(recordings) => Some(take_views(recordings@)),
                    None => None,
                },
            ),
            result == if old(self)@.runs(identity@) {
                Settlement::Published { report: old(self).config.telemetry.enabled }
            } else {
                Settlement::Stale
            },
    {
        if !self.is_running(identity) {
            return Settlement::Stale;
        }
        if let Some(recordings) = recordings {
            self.replace_recordings(recordings);
        }
        if let Some(operation) = self.leave() {
            self.close(&operation);
        }
        self.publish(outcome);
        // A live opt-out vetoes the report of an operation that ran before it.
        Settlement::Published { report: self.config.telemetry.enabled }
    }

    /// Take in that the worker was lost.
    pub fn worker_lost(&mut self, artifacts: Artifacts, recordings: Option<Vec<Take>>)
        requires
            old(self)@.has_numbers(),
        ensures
            final(self)@ == old(self)@.worker_gone(
                artifacts@,
                match recordings {
                    Some(recordings) => Some(take_views(recordings@)),
                    None => None,
                },
            ),
    {
        self.worker_available = false;
        if !matches!(self.state, State::Processing { .. }) {
            self.notice(
                "Worker unavailable; restart Cantrip before recording.",
                Some("worker-failed"),
            );
            return ;
        }
        let mut outcome = setup_failure(
            "Worker failed; no further delivery will be attempted.",
            "worker-failed",
        );
        if let Some(operation) = self.leave() {
            self.set_control(&operation, Control { cancel: true, lifecycle: Lifecycle::Sealed });
            outcome.operation_id = Some(operation.identity.operation_id);
        }
        outcome.artifacts = artifacts;
        describe_artifacts(&mut outcome);
        self.publish(outcome);
        if let Some(recordings) = recordings {
            self.replace_recordings(recordings);
        }
    }

    /// Take in the result of keeping a rejected recording.
    pub fn finish_retention(
        &mut self,
        identity: &Identity,
        outcome: TerminalOutcome,
        recordings: Option<Vec<Take>>,
    ) -> (result: Settlement)
        requires
            old(self)@.has_numbers(),
        ensures
            final(self)@ == (DaemonView { retaining: false, ..old(self)@ }).settled(
                identity@,
                outcome@,
                match recordings {
                    Some(recordings) => Some(take_views(recordings@)),
                    None => None,
                },
            ),
            result == if old(self)@.runs(identity@) {
                Settlement::Published { report: old(self).config.telemetry.enabled }
            } else {
                Settlement::Stale
            },
    {
        self.retaining = false;
        self.apply_worker_result(identity, outcome, recordings)
    }

    /// Take in that the thread that kept a rejected recording was lost.
    pub fn retention_lost(&mut self, artifacts: Artifacts)
        requires
            old(self)@.has_numbers(),
        ensures
            final(self)@ == old(self)@.retention_gone(artifacts@),
    {
        self.retaining = false;
        let mut outcome = setup_failure(
            "Recording finalization failed; check runtime storage.",
            "worker-failed",
        );
        if let Some(operation) = self.leave() {
            self.close(&operation);
            outcome.operation_id = Some(operation.identity.operation_id);
            outcome.artifacts = artifacts;
        }
        self.publish(outcome);
    }

    /// Whether the microphone is to be sampled: only a recording is, and not more
    /// often than clients can see.
    pub fn signal_due(&self, now: u64) -> (result: bool)
        ensures
            result == self@.sample_wanted(now),
    {
        match &self.state {
            State::Recording { next_signal_sample, .. } => now >= *next_signal_sample,
            _ => false,
        }
    }

    /// Take in a sample of the microphone.
    pub fn refresh_recording_signal(&mut self, measured: Option<AudioSignal>, now: u64)
        requires
            now + SIGNAL_SAMPLE_INTERVAL <= u64::MAX,
        ensures
            final(self)@ == old(self)@.sampled(measured, now),
    {
        let mut state = State::Idle;
        std::mem::swap(&mut self.state, &mut state);
        self.state = match state {
            State::Recording { operation, config, started, .. } => State::Recording {
                operation,
                config,
                started,
                signal: measured,
                next_signal_sample: now + SIGNAL_SAMPLE_INTERVAL,
            },
            other => other,
        };
    }

    /// Cancel what is processed, without a command; whether anything is.
    pub fn revoke(&mut self) -> (result: bool)
        ensures
            result == (old(self).state is Processing),
            final(self)@ == old(self)@.revoked(),
    {
        let mut state = State::Idle;
        std::mem::swap(&mut self.state, &mut state);
        let processing = match &state {
            State::Processing { operation, .. } => {
                let _accepted = self.request_cancel(operation);
                true
            },
            _ => false,
        };
        self.state = state;
        processing
    }

    /// Stop: a recording is kept, and what is processed delivers nothing any more.
    pub fn shutdown_state(&mut self, now: u64) -> (result: ShutdownWork)
        ensures
            final(self)@ == old(self)@.stopped_at_last(),
            match result {
                ShutdownWork::Nothing => old(self).state is Idle,
                ShutdownWork::Retain { take_id, duration_ms } => match old(self)@.state {
                    StateView::Recording { operation, started, .. } => take_id@
                        == operation.identity.take_id && duration_ms == since(now, started)
                        / MILLISECOND as int,
                    _ => false,
                },
                ShutdownWork::Revoked => old(self).state is Processing,
            },
    {
        let mut state = State::Idle;
        std::mem::swap(&mut self.state, &mut state);
        match state {
            State::Recording { operation, started, .. } => ShutdownWork::Retain {
                take_id: operation.identity.take_id,
                duration_ms: elapsed_since(now, started) / MILLISECOND,
            },
            State::Processing { operation, .. } => {
                let _accepted = self.request_cancel(&operation);
                ShutdownWork::Revoked
            },
            State::Idle => ShutdownWork::Nothing,
        }
    }
}

} // verus!
