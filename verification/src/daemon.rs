//! The daemon's state machine: one operation at a time, and how each command, stage
//! and result changes it.
//!
//! Instants are nanoseconds of a monotonic clock.

pub mod audio;
pub mod command_laws;
pub mod control;
pub mod delivery;
pub mod job_laws;
pub mod laws;
pub mod reach;
pub mod server;
pub mod server_laws;
pub mod settle;
pub mod worker;

use crate::config::{Config, ConfigView};
use crate::ipc::{
    AudioSignal, Delivery, HudConfig, InteractionNotice, InteractionNoticeView, OperationKind,
    Stage, StageView, StateKind, StateKindView, TerminalOutcome, TerminalOutcomeView,
};
use std::collections::BTreeMap;
use vstd::prelude::*;
use vstd::string::*;

verus! {

/// Time between two samples of the microphone.
pub const SIGNAL_SAMPLE_INTERVAL: u64 = 100_000_000;

/// Time between two looks at what is installed.
pub const CAPABILITY_REFRESH_INTERVAL: u64 = 5_000_000_000;

/// A saved recording.
#[derive(Debug, PartialEq, Eq)]
pub struct Take {
    pub id: String,
    pub created_at_unix_ms: u64,
    pub duration_ms: Option<u64>,
    pub text_available: bool,
    pub audio_available: bool,
    pub partial: bool,
    pub unresolved: bool,
}

/// What a [`Take`] holds.
pub struct TakeView {
    pub id: Seq<char>,
    pub created_at_unix_ms: u64,
    pub duration_ms: Option<u64>,
    pub text_available: bool,
    pub audio_available: bool,
    pub partial: bool,
    pub unresolved: bool,
}

impl View for Take {
    type V = TakeView;

    open spec fn view(&self) -> TakeView {
        TakeView {
            id: self.id@,
            created_at_unix_ms: self.created_at_unix_ms,
            duration_ms: self.duration_ms,
            text_available: self.text_available,
            audio_available: self.audio_available,
            partial: self.partial,
            unresolved: self.unresolved,
        }
    }
}

impl Clone for Take {
    fn clone(&self) -> (result: Self)
        ensures
            result@ == self@,
    {
        Take {
            id: self.id.clone(),
            created_at_unix_ms: self.created_at_unix_ms,
            duration_ms: self.duration_ms,
            text_available: self.text_available,
            audio_available: self.audio_available,
            partial: self.partial,
            unresolved: self.unresolved,
        }
    }
}

/// What tells one operation from every other.
#[derive(Debug, PartialEq, Eq)]
pub struct Identity {
    pub epoch: String,
    pub operation_id: String,
    pub take_id: String,
    pub kind: Option<OperationKind>,
}

/// What an [`Identity`] holds.
pub struct IdentityView {
    pub epoch: Seq<char>,
    pub operation_id: Seq<char>,
    pub take_id: Seq<char>,
    pub kind: Option<OperationKind>,
}

impl View for Identity {
    type V = IdentityView;

    open spec fn view(&self) -> IdentityView {
        IdentityView {
            epoch: self.epoch@,
            operation_id: self.operation_id@,
            take_id: self.take_id@,
            kind: self.kind,
        }
    }
}

impl Clone for Identity {
    fn clone(&self) -> (result: Self)
        ensures
            result@ == self@,
    {
        Identity {
            epoch: self.epoch.clone(),
            operation_id: self.operation_id.clone(),
            take_id: self.take_id.clone(),
            kind: self.kind,
        }
    }
}

/// Cancellation and successful settlement have one order: whichever comes first
/// refuses the other.
#[derive(Clone, Copy, Debug, PartialEq, Eq, Structural)]
pub enum Lifecycle {
    Open,
    Requested,
    Sealed,
}

/// How far an operation is from being cancelled or settled. The daemon and the worker
/// share it, whether or not the operation runs.
#[derive(Clone, Copy, Debug, PartialEq, Eq, Structural)]
pub struct Control {
    pub cancel: bool,
    pub lifecycle: Lifecycle,
}

impl Control {
    /// Neither cancelled nor settled.
    pub open spec fn untouched() -> Control {
        Control { cancel: false, lifecycle: Lifecycle::Open }
    }

    /// Whether a cancellation was accepted.
    pub open spec fn is_cancelled(self) -> bool {
        self.cancel || self.lifecycle == Lifecycle::Requested
    }

    /// After a request to cancel.
    pub open spec fn cancel_requested(self) -> Control {
        if self.lifecycle == Lifecycle::Open {
            Control { cancel: true, lifecycle: Lifecycle::Requested }
        } else {
            self
        }
    }

    /// After an attempt to settle.
    pub open spec fn sealed(self) -> Control {
        if self.lifecycle == Lifecycle::Open {
            Control { lifecycle: Lifecycle::Sealed, ..self }
        } else {
            self
        }
    }

    /// Once there is a result, whatever was asked before.
    pub open spec fn closed(self) -> Control {
        Control { lifecycle: Lifecycle::Sealed, ..self }
    }

    /// Once there will never be a result.
    pub open spec fn abandoned(self) -> Control {
        Control { cancel: true, lifecycle: Lifecycle::Sealed }
    }

    /// Ask for cancellation; whether it is accepted.
    pub fn request_cancel(&mut self) -> (result: bool)
        ensures
            result == (old(self).lifecycle == Lifecycle::Open),
            *final(self) == old(self).cancel_requested(),
    {
        if self.lifecycle == Lifecycle::Open {
            self.lifecycle = Lifecycle::Requested;
            self.cancel = true;
            true
        } else {
            false
        }
    }

    /// Commit the settlement. From then on a cancellation is refused rather than
    /// acknowledged; after an accepted one there is no settlement.
    pub fn seal(&mut self) -> (result: bool)
        ensures
            result == (old(self).lifecycle == Lifecycle::Open),
            *final(self) == old(self).sealed(),
    {
        if self.lifecycle == Lifecycle::Open {
            self.lifecycle = Lifecycle::Sealed;
            true
        } else {
            false
        }
    }

    /// Whether a cancellation was accepted.
    pub fn cancelled(&self) -> (result: bool)
        ensures
            result == self.is_cancelled(),
    {
        self.cancel || self.lifecycle == Lifecycle::Requested
    }
}

/// An operation.
#[derive(Debug, PartialEq, Eq)]
pub struct Operation {
    pub identity: Identity,
    /// Under which the daemon keeps its [`Control`].
    pub number: u64,
    pub hud: HudConfig,
    pub started: u64,
}

/// What an [`Operation`] holds.
pub struct OperationView {
    pub identity: IdentityView,
    pub number: u64,
    pub hud: HudConfig,
    pub started: u64,
}

impl View for Operation {
    type V = OperationView;

    open spec fn view(&self) -> OperationView {
        OperationView {
            identity: self.identity@,
            number: self.number,
            hud: self.hud,
            started: self.started,
        }
    }
}

impl Clone for Operation {
    fn clone(&self) -> (result: Self)
        ensures
            result@ == self@,
    {
        Operation {
            identity: self.identity.clone(),
            number: self.number,
            hud: self.hud,
            started: self.started,
        }
    }
}

/// What a processing operation does.
#[derive(Clone, Copy, Debug, PartialEq, Eq, Structural)]
pub enum WorkKind {
    Transcription,
    Delivery,
    Forget,
    Retain,
}

/// What the daemon is doing.
#[derive(Debug, PartialEq, Eq)]
pub enum State {
    Idle,
    Recording {
        operation: Operation,
        config: Config,
        started: u64,
        signal: Option<AudioSignal>,
        next_signal_sample: u64,
    },
    Processing { operation: Operation, phase_started: u64, stage: Stage, kind: WorkKind },
}

/// What a [`State`] holds.
pub enum StateView {
    Idle,
    Recording {
        operation: OperationView,
        config: ConfigView,
        started: u64,
        signal: Option<AudioSignal>,
        next_signal_sample: u64,
    },
    Processing { operation: OperationView, phase_started: u64, stage: StageView, kind: WorkKind },
}

impl View for State {
    type V = StateView;

    open spec fn view(&self) -> StateView {
        match *self {
            State::Idle => StateView::Idle,
            State::Recording { operation, config, started, signal, next_signal_sample } => StateView::Recording {
                operation: operation@,
                config: config@,
                started,
                signal,
                next_signal_sample,
            },
            State::Processing { operation, phase_started, stage, kind } => StateView::Processing {
                operation: operation@,
                phase_started,
                stage: stage@,
                kind,
            },
        }
    }
}

impl Clone for State {
    fn clone(&self) -> (result: Self)
        ensures
            result@ == self@,
    {
        match self {
            State::Idle => State::Idle,
            State::Recording { operation, config, started, signal, next_signal_sample } => State::Recording {
                operation: operation.clone(),
                config: config.clone(),
                started: *started,
                signal: *signal,
                next_signal_sample: *next_signal_sample,
            },
            State::Processing { operation, phase_started, stage, kind } => State::Processing {
                operation: operation.clone(),
                phase_started: *phase_started,
                stage: stage.clone(),
                kind: *kind,
            },
        }
    }
}

/// What a job is to do.
#[derive(Clone, Copy, Debug, PartialEq, Eq, Structural)]
pub enum Work {
    /// Finish a recording of the given length, and transcribe it.
    Capture { duration_ms: u64 },
    /// Transcribe a saved recording again.
    Recover,
    /// Deliver a saved text.
    Text,
    /// Remove a saved recording.
    Forget,
}

/// Work for the worker. `guarded` jobs carry a permit for the destination that was
/// focused when they were made.
#[derive(Debug, PartialEq, Eq)]
pub struct Job {
    pub operation: Operation,
    pub config: Config,
    pub guarded: bool,
    pub work: Work,
}

/// What a [`Job`] holds.
pub struct JobView {
    pub operation: OperationView,
    pub config: ConfigView,
    pub guarded: bool,
    pub work: Work,
}

impl View for Job {
    type V = JobView;

    open spec fn view(&self) -> JobView {
        JobView {
            operation: self.operation@,
            config: self.config@,
            guarded: self.guarded,
            work: self.work,
        }
    }
}

impl Clone for Job {
    fn clone(&self) -> (result: Self)
        ensures
            result@ == self@,
    {
        Job {
            operation: self.operation.clone(),
            config: self.config.clone(),
            guarded: self.guarded,
            work: self.work,
        }
    }
}

/// The answer to a command.
#[derive(Debug, PartialEq, Eq)]
pub struct CommandReply {
    pub ok: bool,
    pub state: StateKind,
    pub message: Option<String>,
    pub stage: Option<Stage>,
    pub outcome: Option<TerminalOutcome>,
    pub error: Option<String>,
}

/// What a [`CommandReply`] holds.
pub struct CommandReplyView {
    pub ok: bool,
    pub state: StateKindView,
    pub message: Option<Seq<char>>,
    pub stage: Option<StageView>,
    pub outcome: Option<TerminalOutcomeView>,
    pub error: Option<Seq<char>>,
}

impl View for CommandReply {
    type V = CommandReplyView;

    open spec fn view(&self) -> CommandReplyView {
        CommandReplyView {
            ok: self.ok,
            state: self.state@,
            message: match self.message { Some(inner) => Some(inner@), None => None },
            stage: match self.stage { Some(inner) => Some(inner@), None => None },
            outcome: match self.outcome { Some(inner) => Some(inner@), None => None },
            error: match self.error { Some(inner) => Some(inner@), None => None },
        }
    }
}

impl Clone for CommandReply {
    fn clone(&self) -> (result: Self)
        ensures
            result@ == self@,
    {
        CommandReply {
            ok: self.ok,
            state: self.state.clone(),
            message: self.message.clone(),
            stage: self.stage.clone(),
            outcome: self.outcome.clone(),
            error: self.error.clone(),
        }
    }
}

/// What a client can ask for.
#[derive(Debug, PartialEq, Eq)]
#[allow(inconsistent_fields)]
pub enum Command {
    Toggle { postproc: Option<bool> },
    Start { postproc: Option<bool> },
    Stop,
    Cancel,
    Last,
    Recover { id: Option<String>, local: bool, clipboard: bool },
    Copy { id: String },
    Dismiss { event_id: Option<u64> },
    Forget { id: String },
    Ping,
    Reload,
}

/// What a [`Command`] holds.
#[allow(inconsistent_fields)]
pub enum CommandView {
    Toggle { postproc: Option<bool> },
    Start { postproc: Option<bool> },
    Stop,
    Cancel,
    Last,
    Recover { id: Option<Seq<char>>, local: bool, clipboard: bool },
    Copy { id: Seq<char> },
    Dismiss { event_id: Option<u64> },
    Forget { id: Seq<char> },
    Ping,
    Reload,
}

impl View for Command {
    type V = CommandView;

    open spec fn view(&self) -> CommandView {
        match *self {
            Command::Toggle { postproc } => CommandView::Toggle { postproc },
            Command::Start { postproc } => CommandView::Start { postproc },
            Command::Stop => CommandView::Stop,
            Command::Cancel => CommandView::Cancel,
            Command::Last => CommandView::Last,
            Command::Recover { id, local, clipboard } => CommandView::Recover {
                id: match id { Some(inner) => Some(inner@),
                None => None }, local, clipboard,
            },
            Command::Copy { id } => CommandView::Copy { id: id@ },
            Command::Dismiss { event_id } => CommandView::Dismiss { event_id },
            Command::Forget { id } => CommandView::Forget { id: id@ },
            Command::Ping => CommandView::Ping,
            Command::Reload => CommandView::Reload,
        }
    }
}

impl Clone for Command {
    fn clone(&self) -> (result: Self)
        ensures
            result@ == self@,
    {
        match self {
            Command::Toggle { postproc } => Command::Toggle { postproc: *postproc },
            Command::Start { postproc } => Command::Start { postproc: *postproc },
            Command::Stop => Command::Stop,
            Command::Cancel => Command::Cancel,
            Command::Last => Command::Last,
            Command::Recover { id, local, clipboard } => Command::Recover {
                id: id.clone(),
                local: *local,
                clipboard: *clipboard,
            },
            Command::Copy { id } => Command::Copy { id: id.clone() },
            Command::Dismiss { event_id } => Command::Dismiss { event_id: *event_id },
            Command::Forget { id } => Command::Forget { id: id.clone() },
            Command::Ping => Command::Ping,
            Command::Reload => Command::Reload,
        }
    }
}

/// The daemon between events.
#[derive(Debug, PartialEq, Eq)]
pub struct Daemon {
    pub config: Config,
    pub state: State,
    pub epoch: String,
    pub event_sequence: u64,
    pub operation_sequence: u64,
    /// Of the operations that were cancelled or settled, by number.
    pub controls: BTreeMap<u64, Control>,
    pub outcome: Option<TerminalOutcome>,
    pub notice: Option<InteractionNotice>,
    pub recordings: Vec<Take>,
    pub pending_recordings: usize,
    pub has_audio: bool,
    pub has_text: bool,
    pub history_revision: u64,
    pub local_model: bool,
    pub worker_available: bool,
    pub retaining: bool,
}

/// What a [`Daemon`] holds.
pub struct DaemonView {
    pub config: ConfigView,
    pub state: StateView,
    pub epoch: Seq<char>,
    pub event_sequence: u64,
    pub operation_sequence: u64,
    pub controls: Map<u64, Control>,
    pub outcome: Option<TerminalOutcomeView>,
    pub notice: Option<InteractionNoticeView>,
    pub recordings: Seq<TakeView>,
    pub pending_recordings: usize,
    pub has_audio: bool,
    pub has_text: bool,
    pub history_revision: u64,
    pub local_model: bool,
    pub worker_available: bool,
    pub retaining: bool,
}

impl View for Daemon {
    type V = DaemonView;

    open spec fn view(&self) -> DaemonView {
        DaemonView {
            config: self.config@,
            state: self.state@,
            epoch: self.epoch@,
            event_sequence: self.event_sequence,
            operation_sequence: self.operation_sequence,
            controls: self.controls@,
            outcome: match self.outcome { Some(inner) => Some(inner@), None => None },
            notice: match self.notice { Some(inner) => Some(inner@), None => None },
            recordings: take_views(self.recordings@),
            pending_recordings: self.pending_recordings,
            has_audio: self.has_audio,
            has_text: self.has_text,
            history_revision: self.history_revision,
            local_model: self.local_model,
            worker_available: self.worker_available,
            retaining: self.retaining,
        }
    }
}

/// What a list of recordings holds.
pub open spec fn take_views(takes: Seq<Take>) -> Seq<TakeView> {
    takes.map_values(|take: Take| take@)
}

impl Identity {
    /// Whether two identities are the same.
    pub fn same(&self, other: &Identity) -> (result: bool)
        ensures
            result == (self@ == other@),
    {
        self.epoch == other.epoch && self.operation_id == other.operation_id && self.take_id
            == other.take_id && self.kind == other.kind
    }
}

impl StateView {
    /// The coarse state.
    pub open spec fn coarse(self) -> StateKindView {
        match self {
            StateView::Idle => StateKindView::Idle,
            StateView::Recording { .. } => StateKindView::Recording,
            StateView::Processing { .. } => StateKindView::Processing,
        }
    }

    /// The running operation.
    pub open spec fn running(self) -> Option<OperationView> {
        match self {
            StateView::Idle => None,
            StateView::Recording { operation, .. } => Some(operation),
            StateView::Processing { operation, .. } => Some(operation),
        }
    }

    /// The stage of processing.
    pub open spec fn reached(self) -> Option<StageView> {
        match self {
            StateView::Processing { stage, .. } => Some(stage),
            _ => None,
        }
    }
}

impl State {
    /// The coarse state.
    pub fn kind(&self) -> (result: StateKind)
        ensures
            result@ == self@.coarse(),
    {
        match self {
            State::Idle => StateKind::Idle,
            State::Recording { .. } => StateKind::Recording,
            State::Processing { .. } => StateKind::Processing,
        }
    }

    /// The running operation.
    pub fn operation(&self) -> (result: Option<&Operation>)
        ensures
            match result {
                Some(operation) => self@.running() == Some(operation@),
                None => self@.running() is None,
            },
    {
        match self {
            State::Idle => None,
            State::Recording { operation, .. } => Some(operation),
            State::Processing { operation, .. } => Some(operation),
        }
    }

    /// The stage of processing.
    pub fn stage(&self) -> (result: Option<&Stage>)
        ensures
            match result {
                Some(stage) => self@.reached() == Some(stage@),
                None => self@.reached() is None,
            },
    {
        match self {
            State::Processing { stage, .. } => Some(stage),
            _ => None,
        }
    }
}

} // verus!
