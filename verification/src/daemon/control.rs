//! How commands change the daemon.

use crate::config::{default_stt, Config, ConfigView, InjectionMode, PostprocConfigView, SttConfig};
use crate::daemon::{
    take_views, Command, CommandReply, CommandReplyView, CommandView, Control, Daemon, DaemonView, Identity,
    IdentityView, Job, JobView, Lifecycle, Operation, OperationView, State, StateView, Take,
    TakeView, Work, WorkKind,
};
use crate::hud::{elapsed_since, since, MILLISECOND, SECOND};
use crate::ipc::{
    optional_text, Artifacts, ArtifactsView, Capabilities, Cleanup, Completeness, Delivery,
    InteractionNotice, InteractionNoticeView, OperationKind, Stage, StageView, StatusSnapshot,
    StatusSnapshotView, TerminalOutcome, TerminalOutcomeView,
};
use crate::text::{blank, decimal, is_blank, push_decimal};
use std::collections::BTreeMap;
use vstd::prelude::*;
use vstd::string::*;

verus! {

/// What a command comes to.
#[derive(Debug, PartialEq, Eq)]
pub enum Step {
    Reply(CommandReply),
    Capture { postproc: Option<bool> },
    Dispatch(Job),
    Reload,
}

/// What a [`Step`] holds.
pub enum StepView {
    Reply(CommandReplyView),
    Capture { postproc: Option<bool> },
    Dispatch(JobView),
    Reload,
}

impl View for Step {
    type V = StepView;

    open spec fn view(&self) -> StepView {
        match *self {
            Step::Reply(inner) => StepView::Reply(inner@),
            Step::Capture { postproc } => StepView::Capture { postproc },
            Step::Dispatch(inner) => StepView::Dispatch(inner@),
            Step::Reload => StepView::Reload,
        }
    }
}

impl Clone for Step {
    fn clone(&self) -> (result: Self)
        ensures
            result@ == self@,
    {
        match self {
            Step::Reply(inner) => Step::Reply(inner.clone()),
            Step::Capture { postproc } => Step::Capture { postproc: *postproc },
            Step::Dispatch(inner) => Step::Dispatch(inner.clone()),
            Step::Reload => Step::Reload,
        }
    }
}

/// Which speech models are there: the configured one, and the local default.
#[derive(Clone, Copy, Debug, PartialEq, Eq, Structural)]
pub struct Readiness {
    pub configured: bool,
    pub default_model: bool,
}

/// What a recording must have to be chosen.
#[derive(Clone, Copy, Debug, PartialEq, Eq, Structural)]
pub enum Need {
    /// Audio; where no recording is named, of a take that still needs it.
    Audio,
    /// Text.
    Text,
    /// Nothing.
    Anything,
}

/// Whether a recording may be chosen.
pub open spec fn is_choice(take: TakeView, id: Option<Seq<char>>, need: Need) -> bool {
    &&& id is Some ==> take.id == id->0
    &&& match need {
        Need::Audio => take.audio_available && (id is Some || take.unresolved || take.partial),
        Need::Text => take.text_available,
        Need::Anything => true,
    }
}

/// The first recording from `from` on that may be chosen. A named recording is never
/// replaced by another one.
pub open spec fn choice(
    takes: Seq<TakeView>,
    id: Option<Seq<char>>,
    need: Need,
    from: nat,
) -> Option<TakeView>
    decreases takes.len() - from,
{
    if from >= takes.len() {
        None
    } else if is_choice(takes[from as int], id, need) {
        Some(takes[from as int])
    } else {
        choice(takes, id, need, from + 1)
    }
}

/// The text of an optional reference.
pub open spec fn borrowed_text(text: Option<&String>) -> Option<Seq<char>> {
    match text {
        Some(text) => Some(text@),
        None => None,
    }
}

/// Choose a recording.
pub fn select_take(takes: &Vec<Take>, id: Option<&String>, need: Need) -> (result: Option<Take>)
    ensures
        match result {
            Some(take) => choice(take_views(takes@), borrowed_text(id), need, 0) == Some(take@),
            None => choice(take_views(takes@), borrowed_text(id), need, 0) is None,
        },
{
    let ghost views = take_views(takes@);
    let mut index: usize = 0;
    while index < takes.len()
        invariant
            index <= takes@.len() == views.len(),
            views == take_views(takes@),
            choice(views, borrowed_text(id), need, 0) == choice(
                views,
                borrowed_text(id),
                need,
                index as nat,
            ),
        decreases takes@.len() - index,
    {
        let take = &takes[index];
        assert(views[index as int] == take@);
        let named = match id {
            Some(id) => take.id == *id,
            None => true,
        };
        let fits = match need {
            Need::Audio => take.audio_available && (id.is_some() || take.unresolved
                || take.partial),
            Need::Text => take.text_available,
            Need::Anything => true,
        };
        if named && fits {
            return Some(take.clone());
        }
        index += 1;
    }
    None
}

/// How many recordings are unresolved.
pub open spec fn unresolved_count(takes: Seq<TakeView>) -> nat
    decreases takes.len(),
{
    if takes.len() == 0 {
        0
    } else {
        unresolved_count(takes.drop_last()) + if takes.last().unresolved {
            1nat
        } else {
            0
        }
    }
}

/// Whether any recording has audio.
pub open spec fn any_audio(takes: Seq<TakeView>) -> bool {
    exists|i: int| 0 <= i < takes.len() && (#[trigger] takes[i]).audio_available
}

/// Whether any recording has text.
pub open spec fn any_text(takes: Seq<TakeView>) -> bool {
    exists|i: int| 0 <= i < takes.len() && (#[trigger] takes[i]).text_available
}

/// What is kept ready of a list of recordings, so that a status never walks it.
pub struct HistorySummary {
    pub pending: usize,
    pub audio: bool,
    pub text: bool,
}

/// Summarize a list of recordings.
pub fn summarize(takes: &Vec<Take>) -> (result: HistorySummary)
    ensures
        result.pending == unresolved_count(take_views(takes@)),
        result.audio == any_audio(take_views(takes@)),
        result.text == any_text(take_views(takes@)),
{
    let ghost views = take_views(takes@);
    let mut pending: usize = 0;
    let mut audio = false;
    let mut text = false;
    let mut index: usize = 0;
    assert(views.take(0) =~= Seq::empty());
    while index < takes.len()
        invariant
            index <= takes@.len() == views.len(),
            views == take_views(takes@),
            pending <= index,
            pending == unresolved_count(views.take(index as int)),
            audio == (exists|i: int| 0 <= i < index && (#[trigger] views[i]).audio_available),
            text == (exists|i: int| 0 <= i < index && (#[trigger] views[i]).text_available),
        decreases takes@.len() - index,
    {
        let take = &takes[index];
        proof {
            let next = views.take(index + 1);
            assert(next.drop_last() =~= views.take(index as int));
            assert(next.last() == take@);
            assert(views[index as int] == take@);
        }
        if take.unresolved {
            pending += 1;
        }
        if take.audio_available {
            audio = true;
        }
        if take.text_available {
            text = true;
        }
        index += 1;
    }
    assert(views.take(index as int) =~= views);
    HistorySummary { pending, audio, text }
}

/// An operation that failed before it started.
pub open spec fn failed_setup(message: Seq<char>, error: Seq<char>) -> TerminalOutcomeView {
    TerminalOutcomeView {
        event_id: 0,
        operation_id: None,
        message,
        completeness: Completeness::Failed,
        delivery: Delivery::Nothing,
        cleanup: Cleanup::Off,
        error: Some(error),
        artifacts: ArtifactsView { take_id: None, audio: false, text: false },
        dismissed: false,
    }
}

/// The outcome of an operation that failed before it started.
pub fn setup_failure(message: &str, error: &str) -> (result: TerminalOutcome)
    ensures
        result@ == failed_setup(message@, error@),
{
    TerminalOutcome {
        event_id: 0,
        operation_id: None,
        message: message.to_owned(),
        completeness: Completeness::Failed,
        delivery: Delivery::Nothing,
        cleanup: Cleanup::Off,
        error: Some(error.to_owned()),
        artifacts: Artifacts::default(),
        dismissed: false,
    }
}

impl DaemonView {
    /// There is another number for an event, an operation and a list of recordings.
    pub open spec fn has_numbers(self) -> bool {
        self.event_sequence < u64::MAX && self.operation_sequence < u64::MAX
            && self.history_revision < u64::MAX
    }

    /// A daemon that has done nothing yet.
    pub open spec fn started(
        config: ConfigView,
        recordings: Seq<TakeView>,
        local_model: bool,
        epoch: Seq<char>,
    ) -> DaemonView {
        DaemonView {
            config,
            state: StateView::Idle,
            epoch,
            event_sequence: 0,
            operation_sequence: 0,
            controls: Map::empty(),
            outcome: None,
            notice: None,
            recordings,
            pending_recordings: unresolved_count(recordings) as usize,
            has_audio: any_audio(recordings),
            has_text: any_text(recordings),
            history_revision: 0,
            local_model,
            worker_available: true,
            retaining: false,
        }
    }

    /// With another list of recordings.
    pub open spec fn with_recordings(self, recordings: Seq<TakeView>) -> DaemonView {
        DaemonView {
            pending_recordings: unresolved_count(recordings) as usize,
            has_audio: any_audio(recordings),
            has_text: any_text(recordings),
            recordings,
            history_revision: (self.history_revision + 1) as u64,
            ..self
        }
    }

    /// With feedback that changes no operation.
    pub open spec fn noticed(self, message: Seq<char>, error: Option<Seq<char>>) -> DaemonView {
        let event_id = (self.event_sequence + 1) as u64;
        DaemonView {
            event_sequence: event_id,
            notice: Some(InteractionNoticeView { event_id, message, error }),
            ..self
        }
    }

    /// The answer to a command.
    pub open spec fn answer(
        self,
        ok: bool,
        message: Seq<char>,
        error: Option<Seq<char>>,
    ) -> CommandReplyView {
        CommandReplyView {
            ok,
            state: self.state.coarse(),
            message: Some(message),
            stage: self.state.reached(),
            outcome: self.outcome,
            error,
        }
    }

    /// A refusal: feedback, and the same as the answer.
    pub open spec fn refusal(self, message: Seq<char>, error: Seq<char>) -> (
        DaemonView,
        CommandReplyView,
    ) {
        let told = self.noticed(message, Some(error));
        (told, told.answer(false, message, Some(error)))
    }

    /// The refusal while another operation runs.
    pub open spec fn busy_refusal(self) -> (DaemonView, CommandReplyView) {
        self.refusal("Another operation is active; nothing new was started."@, "busy"@)
    }

    /// With an outcome under a new number.
    pub open spec fn with_outcome(self, outcome: TerminalOutcomeView) -> DaemonView {
        let event_id = (self.event_sequence + 1) as u64;
        DaemonView {
            event_sequence: event_id,
            outcome: Some(TerminalOutcomeView { event_id, ..outcome }),
            ..self
        }
    }

    /// An operation that cannot start: its outcome, and the same as the answer.
    pub open spec fn setup_refusal(self, outcome: TerminalOutcomeView) -> (
        DaemonView,
        CommandReplyView,
    ) {
        let told = self.with_outcome(outcome);
        (told, told.answer(false, outcome.message, outcome.error))
    }

    /// With one more operation counted.
    pub open spec fn counted(self) -> DaemonView {
        DaemonView { operation_sequence: (self.operation_sequence + 1) as u64, ..self }
    }

    /// The operation that is counted next.
    pub open spec fn next_operation(
        self,
        take_id: Seq<char>,
        kind: Option<OperationKind>,
        now: u64,
    ) -> OperationView {
        OperationView {
            identity: IdentityView {
                epoch: self.epoch,
                operation_id: self.epoch + "-"@ + decimal((self.operation_sequence + 1) as nat),
                take_id,
                kind,
            },
            number: (self.operation_sequence + 1) as u64,
            hud: self.config.hud,
            started: now,
        }
    }

    /// How far an operation is from being cancelled or settled.
    pub open spec fn control(self, operation: OperationView) -> Control {
        if self.controls.contains_key(operation.number) {
            self.controls[operation.number]
        } else {
            Control::untouched()
        }
    }

    /// With an operation nearer to being cancelled or settled.
    pub open spec fn with_control(self, operation: OperationView, control: Control) -> DaemonView {
        DaemonView { controls: self.controls.insert(operation.number, control), ..self }
    }

    /// After a request to cancel an operation.
    pub open spec fn cancel_requested(self, operation: OperationView) -> DaemonView {
        self.with_control(operation, self.control(operation).cancel_requested())
    }

    /// With an operation in processing; what the last one left is gone.
    pub open spec fn begun(
        self,
        operation: OperationView,
        stage: StageView,
        kind: WorkKind,
        now: u64,
    ) -> DaemonView {
        DaemonView {
            outcome: None,
            notice: None,
            state: StateView::Processing { operation, phase_started: now, stage, kind },
            ..self
        }
    }

    /// What clients are told.
    pub open spec fn status(self, now: u64) -> StatusSnapshotView {
        let idle = self.state is Idle && self.worker_available;
        StatusSnapshotView {
            epoch: self.epoch,
            operation_id: match self.state.running() {
                Some(operation) => Some(operation.identity.operation_id),
                None => None,
            },
            operation_kind: match self.state.running() {
                Some(operation) => operation.identity.kind,
                None => None,
            },
            state: self.state.coarse(),
            elapsed: match self.state {
                StateView::Idle => 0,
                StateView::Recording { started, .. } => (since(now, started) / SECOND as int)
                    as u64,
                StateView::Processing { phase_started, .. } => (since(now, phase_started)
                    / SECOND as int) as u64,
            },
            signal: match self.state {
                StateView::Recording { signal, .. } => signal,
                _ => None,
            },
            stage: self.state.reached(),
            outcome: self.outcome,
            notice: self.notice,
            pending_recordings: self.pending_recordings,
            capabilities: Capabilities {
                stop: self.state is Recording,
                cancel: match self.state {
                    StateView::Idle => false,
                    StateView::Recording { .. } => true,
                    StateView::Processing { operation, kind, .. } => (kind
                        == WorkKind::Transcription || kind == WorkKind::Delivery)
                        && self.control(operation).lifecycle == Lifecycle::Open,
                },
                recover: idle && self.has_audio,
                copy: idle && self.has_text,
                dismiss: self.notice is Some || (self.outcome is Some
                    && !self.outcome->0.dismissed),
                local_model: self.local_model,
                remote_configured: self.config.stt.endpoint is Some,
            },
            hud: match self.state.running() {
                Some(operation) => operation.hud,
                None => self.config.hud,
            },
        }
    }

    /// Whether a recording can start, else why not.
    pub open spec fn start_requested(self, postproc: Option<bool>, ready: Readiness) -> (
        DaemonView,
        StepView,
    ) {
        if !self.worker_available {
            let (told, reply) = self.refusal("Transcription worker unavailable."@, "stt-failed"@);
            (told, StepView::Reply(reply))
        } else if postproc == Some(true) && is_blank(self.config.postproc.model) {
            let (told, reply) = self.setup_refusal(
                failed_setup(
                    "Post-processing requested but [postproc].model is not set."@,
                    "postproc-model-unset"@,
                ),
            );
            (told, StepView::Reply(reply))
        } else if self.config.stt.endpoint is None && !ready.configured {
            let (told, reply) = self.setup_refusal(
                failed_setup(
                    "Local model unavailable — run: cantrip models pull"@,
                    "local-model-unavailable"@,
                ),
            );
            (told, StepView::Reply(reply))
        } else {
            (self, StepView::Capture { postproc })
        }
    }

    /// The daemon once the recorder was started, or could not be.
    pub open spec fn capture_begun(
        self,
        take_id: Seq<char>,
        postproc: Option<bool>,
        started: bool,
        now: u64,
    ) -> (DaemonView, CommandReplyView) {
        if started {
            let recording = DaemonView {
                outcome: None,
                notice: None,
                state: StateView::Recording {
                    operation: self.next_operation(take_id, Some(OperationKind::Dictation), now),
                    config: match postproc {
                        Some(enabled) => ConfigView {
                            postproc: PostprocConfigView {
                                enabled,
                                ..self.config.postproc
                            },
                            ..self.config
                        },
                        None => self.config,
                    },
                    started: now,
                    signal: None,
                    next_signal_sample: now,
                },
                ..self.counted()
            };
            (recording, recording.answer(true, "recording"@, None))
        } else {
            self.setup_refusal(failed_setup("Starting recording failed"@, "capture-failed"@))
        }
    }

    /// The daemon once a recording is to stop, and the job that finishes it. A
    /// cancelled one gets no permit for any destination.
    pub open spec fn stopped(self, cancel: bool, now: u64) -> (DaemonView, StepView) {
        match self.state {
            StateView::Recording { operation, config, started, signal, next_signal_sample } => {
                let told = if cancel {
                    self.cancel_requested(operation)
                } else {
                    self
                };
                (
                    told.begun(
                        operation,
                        if cancel {
                            StageView::Cancelling
                        } else {
                            StageView::FinalizingAudio
                        },
                        WorkKind::Transcription,
                        now,
                    ),
                    StepView::Dispatch(
                        JobView {
                            operation,
                            config,
                            guarded: !cancel,
                            work: Work::Capture {
                                duration_ms: (since(now, started) / MILLISECOND as int) as u64,
                            },
                        },
                    ),
                )
            },
            _ => {
                let (told, reply) = self.refusal("Nothing is recording."@, "not-recording"@);
                (told, StepView::Reply(reply))
            },
        }
    }

    /// The daemon after a request to cancel.
    pub open spec fn cancel_asked(self, now: u64) -> (DaemonView, StepView) {
        match self.state {
            StateView::Idle => {
                let (told, reply) = self.refusal("Nothing to cancel."@, "nothing-to-cancel"@);
                (told, StepView::Reply(reply))
            },
            StateView::Recording { .. } => self.stopped(true, now),
            StateView::Processing { operation, phase_started, stage, kind } => if kind
                != WorkKind::Transcription && kind != WorkKind::Delivery {
                let (told, reply) = self.busy_refusal();
                (told, StepView::Reply(reply))
            } else if self.control(operation).lifecycle != Lifecycle::Open {
                let (told, reply) = self.refusal(
                    "The operation is already cancelling or settling."@,
                    "already-settling"@,
                );
                (told, StepView::Reply(reply))
            } else {
                let cancelling = DaemonView {
                    state: StateView::Processing {
                        operation,
                        phase_started: now,
                        stage: StageView::Cancelling,
                        kind,
                    },
                    ..self.cancel_requested(operation)
                };
                (cancelling, StepView::Reply(cancelling.answer(true, "cancelling"@, None)))
            },
        }
    }

    /// The job that delivers a saved text.
    pub open spec fn text_job(self, take: TakeView, mode: InjectionMode, now: u64) -> (
        DaemonView,
        StepView,
    ) {
        (
            self.counted(),
            StepView::Dispatch(
                JobView {
                    operation: self.next_operation(take.id, Some(OperationKind::Replay), now),
                    config: ConfigView { injection: mode, ..self.config },
                    guarded: true,
                    work: Work::Text,
                },
            ),
        )
    }

    /// The daemon after a request to transcribe a saved recording again.
    pub open spec fn recovery_asked(
        self,
        id: Option<Seq<char>>,
        local: bool,
        clipboard: bool,
        ready: Readiness,
        now: u64,
    ) -> (DaemonView, StepView) {
        match choice(self.recordings, id, Need::Audio, 0) {
            None => {
                let (told, reply) = self.refusal(
                    if id is Some {
                        "That recording is not available."@
                    } else {
                        "No failed recording to recover."@
                    },
                    "no-recording"@,
                );
                (told, StepView::Reply(reply))
            },
            Some(take) => if local && !ready.default_model {
                let (told, reply) = self.setup_refusal(
                    TerminalOutcomeView {
                        artifacts: ArtifactsView {
                            take_id: Some(take.id),
                            audio: take.audio_available,
                            text: take.text_available,
                        },
                        ..failed_setup(
                            "Local model unavailable — run: cantrip models pull"@,
                            "local-model-unavailable"@,
                        )
                    },
                );
                (told, StepView::Reply(reply))
            } else {
                let chosen = if local {
                    ConfigView {
                        stt: default_stt(),
                        postproc: PostprocConfigView {
                            enabled: false,
                            ..self.config.postproc
                        },
                        ..self.config
                    }
                } else {
                    self.config
                };
                (
                    self.counted(),
                    StepView::Dispatch(
                        JobView {
                            operation: self.next_operation(take.id, Some(OperationKind::Recovery), now),
                            config: ConfigView {
                                injection: if clipboard {
                                    InjectionMode::Clipboard
                                } else {
                                    chosen.injection
                                },
                                ..chosen
                            },
                            guarded: true,
                            work: Work::Recover,
                        },
                    ),
                )
            },
        }
    }

    /// The daemon after a request to dismiss: the feedback or the outcome of the
    /// given number, or both where none is given.
    pub open spec fn dismissed(self, event_id: Option<u64>) -> (DaemonView, CommandReplyView) {
        let notice = self.notice is Some && (event_id is None || event_id
            == Some(self.notice->0.event_id));
        let outcome = self.outcome is Some && (event_id is None || event_id
            == Some(self.outcome->0.event_id));
        if !notice && !outcome {
            self.refusal("Nothing to dismiss."@, "nothing-to-dismiss"@)
        } else {
            let cleared = DaemonView {
                notice: if notice {
                    None
                } else {
                    self.notice
                },
                outcome: if outcome {
                    Some(TerminalOutcomeView { dismissed: true, ..self.outcome->0 })
                } else {
                    self.outcome
                },
                ..self
            };
            (cleared, cleared.answer(true, "dismissed"@, None))
        }
    }

    /// The daemon after a command.
    pub open spec fn executed(self, command: CommandView, ready: Readiness, now: u64) -> (
        DaemonView,
        StepView,
    ) {
        let busy = (self.busy_refusal().0, StepView::Reply(self.busy_refusal().1));
        match command {
            CommandView::Toggle { postproc } => match self.state {
                StateView::Idle => self.start_requested(postproc, ready),
                StateView::Recording { .. } => self.stopped(false, now),
                StateView::Processing { .. } => busy,
            },
            CommandView::Start { postproc } => if self.state is Idle {
                self.start_requested(postproc, ready)
            } else {
                busy
            },
            CommandView::Stop => if self.state is Processing {
                busy
            } else {
                self.stopped(false, now)
            },
            CommandView::Cancel => self.cancel_asked(now),
            CommandView::Last => if !(self.state is Idle) {
                busy
            } else {
                match choice(self.recordings, None, Need::Text, 0) {
                    Some(take) => self.text_job(take, self.config.injection, now),
                    None => {
                        let (told, reply) = self.refusal("No saved transcript."@, "no-transcript"@);
                        (told, StepView::Reply(reply))
                    },
                }
            },
            CommandView::Recover { id, local, clipboard } => if !(self.state is Idle) {
                busy
            } else {
                self.recovery_asked(id, local, clipboard, ready, now)
            },
            CommandView::Copy { id } => if !(self.state is Idle) {
                busy
            } else {
                match choice(self.recordings, Some(id), Need::Text, 0) {
                    Some(take) => self.text_job(take, InjectionMode::Clipboard, now),
                    None => {
                        let (told, reply) = self.refusal(
                            "That recording is not available."@,
                            "no-transcript"@,
                        );
                        (told, StepView::Reply(reply))
                    },
                }
            },
            CommandView::Dismiss { event_id } => {
                let (cleared, reply) = self.dismissed(event_id);
                (cleared, StepView::Reply(reply))
            },
            CommandView::Forget { id } => if !(self.state is Idle) {
                busy
            } else {
                match choice(self.recordings, Some(id), Need::Anything, 0) {
                    Some(_) => (
                        self.counted(),
                        StepView::Dispatch(
                            JobView {
                                operation: self.next_operation(id, Some(OperationKind::Forget), now),
                                config: self.config,
                                guarded: false,
                                work: Work::Forget,
                            },
                        ),
                    ),
                    None => {
                        let (told, reply) = self.refusal(
                            "That recording is not available."@,
                            "no-recording"@,
                        );
                        (told, StepView::Reply(reply))
                    },
                }
            },
            CommandView::Ping => (self, StepView::Reply(self.answer(true, "pong"@, None))),
            CommandView::Reload => (self, StepView::Reload),
        }
    }

    /// The daemon once a job was handed to the worker, or the worker was gone. A
    /// recording is then finished without it; anything else does not start.
    pub open spec fn handed_over(self, job: JobView, accepted: bool, now: u64) -> (
        DaemonView,
        CommandReplyView,
    ) {
        match job.work {
            Work::Capture { .. } => if accepted {
                (
                    self,
                    self.answer(
                        true,
                        if job.guarded {
                            "processing"@
                        } else {
                            "cancelling"@
                        },
                        None,
                    ),
                )
            } else {
                let retaining = DaemonView {
                    worker_available: false,
                    retaining: true,
                    state: match self.state {
                        StateView::Processing { operation, phase_started, stage, kind } =>
                            StateView::Processing {
                            operation,
                            phase_started,
                            stage,
                            kind: WorkKind::Retain,
                        },
                        _ => self.state,
                    },
                    ..self
                };
                (
                    retaining,
                    retaining.answer(
                        false,
                        "Worker unavailable; recording finalization is running without transcription."@,
                        Some("worker-failed"@),
                    ),
                )
            },
            _ => if !accepted {
                DaemonView { worker_available: false, ..self }.refusal(
                    "Transcription worker unavailable."@,
                    "stt-failed"@,
                )
            } else {
                let (stage, kind, message) = match job.work {
                    Work::Recover => (
                        StageView::Transcribing { completed: 0, total: 1 },
                        WorkKind::Transcription,
                        "recovering"@,
                    ),
                    Work::Text => (StageView::Delivering, WorkKind::Delivery, "delivering"@),
                    _ => (StageView::RemovingRecording, WorkKind::Forget, "forgetting"@),
                };
                let running = self.begun(job.operation, stage, kind, now);
                (running, running.answer(true, message, None))
            },
        }
    }

    /// The daemon after a reload: with the new configuration, or unchanged where it
    /// could not be read.
    pub open spec fn reloaded(self, config: Option<ConfigView>, local_model: bool) -> (
        DaemonView,
        CommandReplyView,
    ) {
        match config {
            Some(config) => {
                let renewed = DaemonView { config, local_model, ..self };
                (renewed, renewed.answer(true, "reloaded"@, None))
            },
            None => self.refusal(
                "Configuration could not be reloaded; the active configuration is unchanged."@,
                "reload-failed"@,
            ),
        }
    }
}

impl Daemon {
    /// A daemon that has done nothing yet.
    pub fn new(config: Config, recordings: Vec<Take>, local_model: bool, epoch: String) -> (result:
        Self)
        ensures
            result@ == DaemonView::started(
                config@,
                take_views(recordings@),
                local_model,
                epoch@,
            ),
    {
        let summary = summarize(&recordings);
        Daemon {
            config,
            state: State::Idle,
            epoch,
            event_sequence: 0,
            operation_sequence: 0,
            controls: BTreeMap::new(),
            outcome: None,
            notice: None,
            recordings,
            pending_recordings: summary.pending,
            has_audio: summary.audio,
            has_text: summary.text,
            history_revision: 0,
            local_model,
            worker_available: true,
            retaining: false,
        }
    }

    /// Take over another list of recordings.
    pub fn replace_recordings(&mut self, recordings: Vec<Take>)
        requires
            old(self).history_revision < u64::MAX,
        ensures
            final(self)@ == old(self)@.with_recordings(take_views(recordings@)),
    {
        let summary = summarize(&recordings);
        self.pending_recordings = summary.pending;
        self.has_audio = summary.audio;
        self.has_text = summary.text;
        self.recordings = recordings;
        self.history_revision = self.history_revision + 1;
    }

    /// Count an operation.
    pub fn operation(
        &mut self,
        take_id: String,
        kind: Option<OperationKind>,
        now: u64,
    ) -> (result: Operation)
        requires
            old(self).operation_sequence < u64::MAX,
        ensures
            final(self)@ == old(self)@.counted(),
            result@ == old(self)@.next_operation(take_id@, kind, now),
    {
        self.operation_sequence = self.operation_sequence + 1;
        let mut operation_id: String = self.epoch.clone();
        operation_id.append("-");
        push_decimal(&mut operation_id, self.operation_sequence);
        Operation {
            identity: Identity {
                epoch: self.epoch.clone(),
                operation_id,
                take_id,
                kind,
            },
            number: self.operation_sequence,
            hud: self.config.hud,
            started: now,
        }
    }

    /// How far an operation is from being cancelled or settled.
    pub fn control(&self, operation: &Operation) -> (result: Control)
        ensures
            result == self@.control(operation@),
    {
        broadcast use vstd::std_specs::btree::group_btree_axioms;

        match self.controls.get(&operation.number) {
            Some(control) => *control,
            None => Control { cancel: false, lifecycle: Lifecycle::Open },
        }
    }

    pub(crate) fn set_control(&mut self, operation: &Operation, control: Control)
        ensures
            final(self)@ == old(self)@.with_control(operation@, control),
    {
        broadcast use vstd::std_specs::btree::group_btree_axioms;

        self.controls.insert(operation.number, control);
    }

    /// Ask for the cancellation of an operation; whether it is accepted.
    pub fn request_cancel(&mut self, operation: &Operation) -> (result: bool)
        ensures
            result == (old(self)@.control(operation@).lifecycle == Lifecycle::Open),
            final(self)@ == old(self)@.cancel_requested(operation@),
    {
        let mut control = self.control(operation);
        let accepted = control.request_cancel();
        self.set_control(operation, control);
        accepted
    }

    fn event_id(&mut self) -> (result: u64)
        requires
            old(self).event_sequence < u64::MAX,
        ensures
            result == old(self).event_sequence + 1,
            final(self)@ == (DaemonView { event_sequence: result, ..old(self)@ }),
    {
        self.event_sequence = self.event_sequence + 1;
        self.event_sequence
    }

    /// Give feedback that changes no operation.
    pub fn notice(&mut self, message: &str, error: Option<&str>)
        requires
            old(self).event_sequence < u64::MAX,
        ensures
            final(self)@ == old(self)@.noticed(
                message@,
                match error {
                    Some(error) => Some(error@),
                    None => None,
                },
            ),
    {
        let event_id: u64 = self.event_id();
        let error = match error {
            Some(error) => Some(error.to_owned()),
            None => None,
        };
        self.notice = Some(InteractionNotice { event_id, message: message.to_owned(), error });
    }

    /// Answer a command.
    pub fn reply(&self, ok: bool, message: &str, error: Option<&str>) -> (result: CommandReply)
        ensures
            result@ == self@.answer(
                ok,
                message@,
                match error {
                    Some(error) => Some(error@),
                    None => None,
                },
            ),
    {
        let stage = match self.state.stage() {
            Some(stage) => Some(stage.clone()),
            None => None,
        };
        let error = match error {
            Some(error) => Some(error.to_owned()),
            None => None,
        };
        CommandReply {
            ok,
            state: self.state.kind(),
            message: Some(message.to_owned()),
            stage,
            outcome: self.outcome.clone(),
            error,
        }
    }

    /// Refuse a command.
    pub fn reject(&mut self, message: &str, error: &str) -> (result: CommandReply)
        requires
            old(self).event_sequence < u64::MAX,
        ensures
            (final(self)@, result@) == old(self)@.refusal(message@, error@),
    {
        self.notice(message, Some(error));
        self.reply(false, message, Some(error))
    }

    /// Refuse a command while another operation runs.
    pub fn busy(&mut self) -> (result: CommandReply)
        requires
            old(self).event_sequence < u64::MAX,
        ensures
            (final(self)@, result@) == old(self)@.busy_refusal(),
    {
        self.reject("Another operation is active; nothing new was started.", "busy")
    }

    /// Publish an outcome under a new number.
    pub fn publish(&mut self, outcome: TerminalOutcome)
        requires
            old(self).event_sequence < u64::MAX,
        ensures
            final(self)@ == old(self)@.with_outcome(outcome@),
    {
        let mut outcome = outcome;
        outcome.event_id = self.event_id();
        self.outcome = Some(outcome);
    }

    fn refuse_setup(&mut self, outcome: TerminalOutcome, message: &str, error: &str) -> (result:
        CommandReply)
        requires
            old(self).event_sequence < u64::MAX,
            outcome@.message == message@,
            outcome@.error == Some(error@),
        ensures
            (final(self)@, result@) == old(self)@.setup_refusal(outcome@),
    {
        self.publish(outcome);
        self.reply(false, message, Some(error))
    }

    /// Start processing an operation.
    pub fn begin(&mut self, operation: Operation, stage: Stage, kind: WorkKind, now: u64)
        ensures
            final(self)@ == old(self)@.begun(operation@, stage@, kind, now),
    {
        self.outcome = None;
        self.notice = None;
        self.state = State::Processing { operation, phase_started: now, stage, kind };
    }

    /// Tell a client what the daemon is doing.
    pub fn snapshot(&self, now: u64) -> (result: StatusSnapshot)
        ensures
            result@ == self@.status(now),
    {
        let (elapsed, signal) = match &self.state {
            State::Recording { started, signal, .. } => (
                elapsed_since(now, *started) / SECOND,
                *signal,
            ),
            State::Processing { phase_started, .. } => (
                elapsed_since(now, *phase_started) / SECOND,
                None,
            ),
            State::Idle => (0, None),
        };
        let idle = matches!(self.state, State::Idle) && self.worker_available;
        let cancellable = match &self.state {
            State::Recording { .. } => true,
            State::Processing { operation, kind, .. } => matches!(
                kind,
                WorkKind::Transcription | WorkKind::Delivery
            ) && self.control(operation).lifecycle == Lifecycle::Open,
            State::Idle => false,
        };
        let operation = self.state.operation();
        let (operation_id, operation_kind, hud) = match operation {
            Some(operation) => (
                Some(operation.identity.operation_id.clone()),
                operation.identity.kind,
                operation.hud,
            ),
            None => (None, None, self.config.hud),
        };
        let stage = match self.state.stage() {
            Some(stage) => Some(stage.clone()),
            None => None,
        };
        let undismissed = match &self.outcome {
            Some(outcome) => !outcome.dismissed,
            None => false,
        };
        StatusSnapshot {
            epoch: self.epoch.clone(),
            operation_id,
            operation_kind,
            state: self.state.kind(),
            elapsed,
            signal,
            stage,
            outcome: self.outcome.clone(),
            notice: self.notice.clone(),
            pending_recordings: self.pending_recordings,
            capabilities: Capabilities {
                stop: matches!(self.state, State::Recording { .. }),
                cancel: cancellable,
                recover: idle && self.has_audio,
                copy: idle && self.has_text,
                dismiss: self.notice.is_some() || undismissed,
                local_model: self.local_model,
                remote_configured: self.config.stt.endpoint.is_some(),
            },
            hud,
        }
    }

    /// Answer a command, or tell what must be done before it is answered.
    pub fn execute(&mut self, command: Command, ready: Readiness, now: u64) -> (result: Step)
        requires
            old(self)@.has_numbers(),
        ensures
            (final(self)@, result@) == old(self)@.executed(command@, ready, now),
    {
        let idle = matches!(self.state, State::Idle);
        let recording = matches!(self.state, State::Recording { .. });
        match command {
            Command::Toggle { postproc } => {
                if idle {
                    self.start_recording(postproc, ready)
                } else if recording {
                    self.stop_recording(false, now)
                } else {
                    Step::Reply(self.busy())
                }
            },
            Command::Start { postproc } => {
                if idle {
                    self.start_recording(postproc, ready)
                } else {
                    Step::Reply(self.busy())
                }
            },
            Command::Stop => {
                if recording {
                    self.stop_recording(false, now)
                } else if idle {
                    Step::Reply(self.reject("Nothing is recording.", "not-recording"))
                } else {
                    Step::Reply(self.busy())
                }
            },
            Command::Cancel => self.cancel_command(now),
            Command::Last => {
                if !idle {
                    return Step::Reply(self.busy());
                }
                match select_take(&self.recordings, None, Need::Text) {
                    Some(take) => {
                        let mode = self.config.injection;
                        self.dispatch_text(take, mode, now)
                    },
                    None => Step::Reply(self.reject("No saved transcript.", "no-transcript")),
                }
            },
            Command::Recover { id, local, clipboard } => {
                if !idle {
                    return Step::Reply(self.busy());
                }
                self.recover_take(id, local, clipboard, ready, now)
            },
            Command::Copy { id } => {
                if !idle {
                    return Step::Reply(self.busy());
                }
                match select_take(&self.recordings, Some(&id), Need::Text) {
                    Some(take) => self.dispatch_text(take, InjectionMode::Clipboard, now),
                    None => Step::Reply(
                        self.reject("That recording is not available.", "no-transcript"),
                    ),
                }
            },
            Command::Dismiss { event_id } => Step::Reply(self.dismiss(event_id)),
            Command::Forget { id } => {
                if !idle {
                    return Step::Reply(self.busy());
                }
                if select_take(&self.recordings, Some(&id), Need::Anything).is_none() {
                    return Step::Reply(
                        self.reject("That recording is not available.", "no-recording"),
                    );
                }
                let config = self.config.clone();
                let operation = self.operation(id, Some(OperationKind::Forget), now);
                Step::Dispatch(Job { operation, config, guarded: false, work: Work::Forget })
            },
            Command::Ping => Step::Reply(self.reply(true, "pong", None)),
            Command::Reload => Step::Reload,
        }
    }

    fn start_recording(&mut self, postproc: Option<bool>, ready: Readiness) -> (result: Step)
        requires
            old(self)@.has_numbers(),
        ensures
            (final(self)@, result@) == old(self)@.start_requested(postproc, ready),
    {
        if !self.worker_available {
            return Step::Reply(self.reject("Transcription worker unavailable.", "stt-failed"));
        }
        if postproc == Some(true) && blank(self.config.postproc.model.as_str()) {
            let message = "Post-processing requested but [postproc].model is not set.";
            let error = "postproc-model-unset";
            return Step::Reply(
                self.refuse_setup(setup_failure(message, error), message, error),
            );
        }
        if self.config.stt.endpoint.is_none() && !ready.configured {
            let message = "Local model unavailable — run: cantrip models pull";
            let error = "local-model-unavailable";
            return Step::Reply(
                self.refuse_setup(setup_failure(message, error), message, error),
            );
        }
        Step::Capture { postproc }
    }

    /// Take over a recorder that was started, or tell that it could not be.
    pub fn capture_started(
        &mut self,
        take_id: String,
        postproc: Option<bool>,
        started: bool,
        now: u64,
    ) -> (result: CommandReply)
        requires
            old(self)@.has_numbers(),
        ensures
            (final(self)@, result@) == old(self)@.capture_begun(take_id@, postproc, started, now),
    {
        if !started {
            let message = "Starting recording failed";
            let error = "capture-failed";
            return self.refuse_setup(setup_failure(message, error), message, error);
        }
        let mut config = self.config.clone();
        if let Some(enabled) = postproc {
            config.postproc.enabled = enabled;
        }
        let operation = self.operation(take_id, Some(OperationKind::Dictation), now);
        self.outcome = None;
        self.notice = None;
        self.state = State::Recording {
            operation,
            config,
            started: now,
            signal: None,
            next_signal_sample: now,
        };
        self.reply(true, "recording", None)
    }

    fn stop_recording(&mut self, cancel: bool, now: u64) -> (result: Step)
        requires
            old(self)@.has_numbers(),
            old(self).state is Recording,
        ensures
            (final(self)@, result@) == old(self)@.stopped(cancel, now),
    {
        let mut state = State::Idle;
        std::mem::swap(&mut self.state, &mut state);
        match state {
            State::Recording { operation, config, started, .. } => {
                let duration_ms: u64 = elapsed_since(now, started) / MILLISECOND;
                if cancel {
                    let _accepted = self.request_cancel(&operation);
                }
                let stage = if cancel {
                    Stage::Cancelling
                } else {
                    Stage::FinalizingAudio
                };
                let job = Job {
                    operation: operation.clone(),
                    config,
                    guarded: !cancel,
                    work: Work::Capture { duration_ms },
                };
                self.begin(operation, stage, WorkKind::Transcription, now);
                Step::Dispatch(job)
            },
            _ => Step::Reply(self.reject("Nothing is recording.", "not-recording")),
        }
    }

    fn cancel_command(&mut self, now: u64) -> (result: Step)
        requires
            old(self)@.has_numbers(),
        ensures
            (final(self)@, result@) == old(self)@.cancel_asked(now),
    {
        if matches!(self.state, State::Idle) {
            return Step::Reply(self.reject("Nothing to cancel.", "nothing-to-cancel"));
        }
        if matches!(self.state, State::Recording { .. }) {
            return self.stop_recording(true, now);
        }
        let mut state = State::Idle;
        std::mem::swap(&mut self.state, &mut state);
        if let State::Processing { operation, phase_started, stage, kind } = state {
            if !matches!(kind, WorkKind::Transcription | WorkKind::Delivery) {
                self.state = State::Processing { operation, phase_started, stage, kind };
                return Step::Reply(self.busy());
            }
            if self.control(&operation).lifecycle != Lifecycle::Open {
                self.state = State::Processing { operation, phase_started, stage, kind };
                return Step::Reply(
                    self.reject(
                        "The operation is already cancelling or settling.",
                        "already-settling",
                    ),
                );
            }
            let _accepted = self.request_cancel(&operation);
            self.state = State::Processing {
                operation,
                phase_started: now,
                stage: Stage::Cancelling,
                kind,
            };
        }
        Step::Reply(self.reply(true, "cancelling", None))
    }

    fn dispatch_text(&mut self, take: Take, mode: InjectionMode, now: u64) -> (result: Step)
        requires
            old(self)@.has_numbers(),
        ensures
            (final(self)@, result@) == old(self)@.text_job(take@, mode, now),
    {
        let mut config = self.config.clone();
        config.injection = mode;
        let operation = self.operation(take.id, Some(OperationKind::Replay), now);
        Step::Dispatch(Job { operation, config, guarded: true, work: Work::Text })
    }

    fn recover_take(
        &mut self,
        id: Option<String>,
        local: bool,
        clipboard: bool,
        ready: Readiness,
        now: u64,
    ) -> (result: Step)
        requires
            old(self)@.has_numbers(),
        ensures
            (final(self)@, result@) == old(self)@.recovery_asked(
                optional_text(id),
                local,
                clipboard,
                ready,
                now,
            ),
    {
        let Some(take) = select_take(&self.recordings, id.as_ref(), Need::Audio) else {
            let message = if id.is_some() {
                "That recording is not available."
            } else {
                "No failed recording to recover."
            };
            return Step::Reply(self.reject(message, "no-recording"));
        };
        let mut config = self.config.clone();
        if local {
            config.stt = SttConfig::default();
            config.postproc.enabled = false;
            if !ready.default_model {
                let message = "Local model unavailable — run: cantrip models pull";
                let error = "local-model-unavailable";
                let mut outcome = setup_failure(message, error);
                outcome.artifacts = Artifacts {
                    take_id: Some(take.id),
                    audio: take.audio_available,
                    text: take.text_available,
                };
                return Step::Reply(self.refuse_setup(outcome, message, error));
            }
        }
        if clipboard {
            config.injection = InjectionMode::Clipboard;
        }
        let operation = self.operation(take.id, Some(OperationKind::Recovery), now);
        Step::Dispatch(Job { operation, config, guarded: true, work: Work::Recover })
    }

    fn dismiss(&mut self, event_id: Option<u64>) -> (result: CommandReply)
        requires
            old(self)@.has_numbers(),
        ensures
            (final(self)@, result@) == old(self)@.dismissed(event_id),
    {
        let notice = match (&self.notice, event_id) {
            (Some(notice), Some(id)) => id == notice.event_id,
            (Some(_), None) => true,
            (None, _) => false,
        };
        let outcome = match (&self.outcome, event_id) {
            (Some(outcome), Some(id)) => id == outcome.event_id,
            (Some(_), None) => true,
            (None, _) => false,
        };
        if !notice && !outcome {
            return self.reject("Nothing to dismiss.", "nothing-to-dismiss");
        }
        if notice {
            self.notice = None;
        }
        if outcome {
            let dismissed = self.outcome.take();
            if let Some(mut dismissed) = dismissed {
                dismissed.dismissed = true;
                self.outcome = Some(dismissed);
            }
        }
        self.reply(true, "dismissed", None)
    }

    /// Take in that a job was handed to the worker, or that the worker was gone.
    pub fn dispatched(&mut self, job: &Job, accepted: bool, now: u64) -> (result: CommandReply)
        requires
            old(self)@.has_numbers(),
        ensures
            (final(self)@, result@) == old(self)@.handed_over(job@, accepted, now),
    {
        if let Work::Capture { .. } = job.work {
            if accepted {
                let message = if job.guarded {
                    "processing"
                } else {
                    "cancelling"
                };
                return self.reply(true, message, None);
            }
            self.worker_available = false;
            self.retaining = true;
            let mut state = State::Idle;
            std::mem::swap(&mut self.state, &mut state);
            self.state = match state {
                State::Processing { operation, phase_started, stage, .. } => State::Processing {
                    operation,
                    phase_started,
                    stage,
                    kind: WorkKind::Retain,
                },
                other => other,
            };
            return self.reply(
                false,
                "Worker unavailable; recording finalization is running without transcription.",
                Some("worker-failed"),
            );
        }
        if !accepted {
            self.worker_available = false;
            return self.reject("Transcription worker unavailable.", "stt-failed");
        }
        let (stage, kind, message) = match job.work {
            Work::Recover => (
                Stage::Transcribing { completed: 0, total: 1 },
                WorkKind::Transcription,
                "recovering",
            ),
            Work::Text => (Stage::Delivering, WorkKind::Delivery, "delivering"),
            _ => (Stage::RemovingRecording, WorkKind::Forget, "forgetting"),
        };
        self.begin(job.operation.clone(), stage, kind, now);
        self.reply(true, message, None)
    }

    /// Take over a configuration that was read again, or tell that it could not be.
    /// What runs keeps the configuration with which it started.
    pub fn reload(&mut self, config: Option<Config>, local_model: bool) -> (result: CommandReply)
        requires
            old(self)@.has_numbers(),
        ensures
            (final(self)@, result@) == old(self)@.reloaded(
                match config {
                    Some(config) => Some(config@),
                    None => None,
                },
                local_model,
            ),
    {
        match config {
            Some(config) => {
                self.config = config;
                self.local_model = local_model;
                self.reply(true, "reloaded", None)
            },
            None => self.reject(
                "Configuration could not be reloaded; the active configuration is unchanged.",
                "reload-failed",
            ),
        }
    }
}

} // verus!
