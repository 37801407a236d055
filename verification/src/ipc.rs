//! The status, outcome and command types that the daemon, the display and the
//! actions window exchange.

use vstd::prelude::*;

verus! {

/// Columns of a live waveform.
pub const AUDIO_WAVEFORM_BINS: usize = 60;

/// Chronological minimum and maximum PCM pairs of the newest audio window.
pub type AudioWaveform = [[i16; 2]; AUDIO_WAVEFORM_BINS];

/// A measured microphone window.
#[derive(Clone, Copy, Debug, PartialEq, Eq)]
pub struct AudioSignal {
    pub level: u8,
    pub silent: bool,
    pub waveform: AudioWaveform,
}

/// Display preferences fixed for an operation when it starts.
#[derive(Clone, Copy, Debug, PartialEq, Eq, Structural)]
pub struct HudConfig {
    pub labels: bool,
    pub reduced_motion: Option<bool>,
}

impl Default for HudConfig {
    fn default() -> (result: Self)
        ensures
            result == (HudConfig { labels: false, reduced_motion: None }),
    {
        HudConfig { labels: false, reduced_motion: None }
    }
}

/// What the daemon can do at the moment of a snapshot.
#[derive(Clone, Copy, Debug, PartialEq, Eq, Structural)]
pub struct Capabilities {
    pub stop: bool,
    pub cancel: bool,
    pub recover: bool,
    pub copy: bool,
    pub dismiss: bool,
    pub local_model: bool,
    pub remote_configured: bool,
}

/// What an operation was started for.
#[derive(Clone, Copy, Debug, PartialEq, Eq, Structural)]
pub enum OperationKind {
    Dictation,
    Recovery,
    Replay,
    Forget,
}

/// How much of a take was transcribed.
#[derive(Clone, Copy, Debug, PartialEq, Eq, Structural)]
pub enum Completeness {
    Cancelled,
    Empty,
    Failed,
    Partial,
    Complete,
}

/// What became of the text.
#[derive(Clone, Copy, Debug, PartialEq, Eq, Structural)]
pub enum Delivery {
    Nothing,
    Typed,
    Pasted,
    Copied,
    Deferred,
    Failed,
    Uncertain,
    Cancelled,
}

/// What became of the optional text cleanup.
#[derive(Clone, Copy, Debug, PartialEq, Eq, Structural)]
pub enum Cleanup {
    Off,
    Applied,
    Failed,
    Skipped,
}

/// The daemon's coarse state.
#[derive(Debug, PartialEq, Eq)]
pub enum StateKind {
    Idle,
    Recording,
    Processing,
    Unknown(String),
}

/// What a [`StateKind`] holds.
pub enum StateKindView {
    Idle,
    Recording,
    Processing,
    Unknown(Seq<char>),
}

impl View for StateKind {
    type V = StateKindView;

    open spec fn view(&self) -> StateKindView {
        match *self {
            StateKind::Idle => StateKindView::Idle,
            StateKind::Recording => StateKindView::Recording,
            StateKind::Processing => StateKindView::Processing,
            StateKind::Unknown(inner) => StateKindView::Unknown(inner@),
        }
    }
}

impl Clone for StateKind {
    fn clone(&self) -> (result: Self)
        ensures
            result@ == self@,
    {
        match self {
            StateKind::Idle => StateKind::Idle,
            StateKind::Recording => StateKind::Recording,
            StateKind::Processing => StateKind::Processing,
            StateKind::Unknown(inner) => StateKind::Unknown(inner.clone()),
        }
    }
}

/// The step that a running operation has reached.
#[derive(Debug, PartialEq, Eq)]
pub enum Stage {
    FinalizingAudio,
    Transcribing { completed: u32, total: u32 },
    CleaningUp,
    Delivering,
    Cancelling,
    RemovingRecording,
    Unknown(String),
}

/// What a [`Stage`] holds.
pub enum StageView {
    FinalizingAudio,
    Transcribing { completed: u32, total: u32 },
    CleaningUp,
    Delivering,
    Cancelling,
    RemovingRecording,
    Unknown(Seq<char>),
}

impl View for Stage {
    type V = StageView;

    open spec fn view(&self) -> StageView {
        match *self {
            Stage::FinalizingAudio => StageView::FinalizingAudio,
            Stage::Transcribing { completed, total } => StageView::Transcribing {
                completed,
                total,
            },
            Stage::CleaningUp => StageView::CleaningUp,
            Stage::Delivering => StageView::Delivering,
            Stage::Cancelling => StageView::Cancelling,
            Stage::RemovingRecording => StageView::RemovingRecording,
            Stage::Unknown(inner) => StageView::Unknown(inner@),
        }
    }
}

impl Clone for Stage {
    fn clone(&self) -> (result: Self)
        ensures
            result@ == self@,
    {
        match self {
            Stage::FinalizingAudio => Stage::FinalizingAudio,
            Stage::Transcribing { completed, total } => Stage::Transcribing {
                completed: *completed,
                total: *total,
            },
            Stage::CleaningUp => Stage::CleaningUp,
            Stage::Delivering => Stage::Delivering,
            Stage::Cancelling => Stage::Cancelling,
            Stage::RemovingRecording => Stage::RemovingRecording,
            Stage::Unknown(inner) => Stage::Unknown(inner.clone()),
        }
    }
}

/// What of a take is in saved recordings.
#[derive(Debug, PartialEq, Eq)]
pub struct Artifacts {
    pub take_id: Option<String>,
    pub audio: bool,
    pub text: bool,
}

/// What an [`Artifacts`] holds.
pub struct ArtifactsView {
    pub take_id: Option<Seq<char>>,
    pub audio: bool,
    pub text: bool,
}

impl View for Artifacts {
    type V = ArtifactsView;

    open spec fn view(&self) -> ArtifactsView {
        ArtifactsView {
            take_id: match self.take_id { Some(inner) => Some(inner@), None => None },
            audio: self.audio,
            text: self.text,
        }
    }
}

impl Clone for Artifacts {
    fn clone(&self) -> (result: Self)
        ensures
            result@ == self@,
    {
        Artifacts {
            take_id: self.take_id.clone(),
            audio: self.audio,
            text: self.text,
        }
    }
}

/// How an operation ended.
#[derive(Debug, PartialEq, Eq)]
pub struct TerminalOutcome {
    pub event_id: u64,
    pub operation_id: Option<String>,
    pub message: String,
    pub completeness: Completeness,
    pub delivery: Delivery,
    pub cleanup: Cleanup,
    pub error: Option<String>,
    pub artifacts: Artifacts,
    pub dismissed: bool,
}

/// What a [`TerminalOutcome`] holds.
pub struct TerminalOutcomeView {
    pub event_id: u64,
    pub operation_id: Option<Seq<char>>,
    pub message: Seq<char>,
    pub completeness: Completeness,
    pub delivery: Delivery,
    pub cleanup: Cleanup,
    pub error: Option<Seq<char>>,
    pub artifacts: ArtifactsView,
    pub dismissed: bool,
}

impl View for TerminalOutcome {
    type V = TerminalOutcomeView;

    open spec fn view(&self) -> TerminalOutcomeView {
        TerminalOutcomeView {
            event_id: self.event_id,
            operation_id: match self.operation_id { Some(inner) => Some(inner@), None => None },
            message: self.message@,
            completeness: self.completeness,
            delivery: self.delivery,
            cleanup: self.cleanup,
            error: match self.error { Some(inner) => Some(inner@), None => None },
            artifacts: self.artifacts@,
            dismissed: self.dismissed,
        }
    }
}

impl Clone for TerminalOutcome {
    fn clone(&self) -> (result: Self)
        ensures
            result@ == self@,
    {
        TerminalOutcome {
            event_id: self.event_id,
            operation_id: self.operation_id.clone(),
            message: self.message.clone(),
            completeness: self.completeness,
            delivery: self.delivery,
            cleanup: self.cleanup,
            error: self.error.clone(),
            artifacts: self.artifacts.clone(),
            dismissed: self.dismissed,
        }
    }
}

/// Feedback on a request that changed no operation.
#[derive(Debug, PartialEq, Eq)]
pub struct InteractionNotice {
    pub event_id: u64,
    pub message: String,
    pub error: Option<String>,
}

/// What an [`InteractionNotice`] holds.
pub struct InteractionNoticeView {
    pub event_id: u64,
    pub message: Seq<char>,
    pub error: Option<Seq<char>>,
}

impl View for InteractionNotice {
    type V = InteractionNoticeView;

    open spec fn view(&self) -> InteractionNoticeView {
        InteractionNoticeView {
            event_id: self.event_id,
            message: self.message@,
            error: match self.error { Some(inner) => Some(inner@), None => None },
        }
    }
}

impl Clone for InteractionNotice {
    fn clone(&self) -> (result: Self)
        ensures
            result@ == self@,
    {
        InteractionNotice {
            event_id: self.event_id,
            message: self.message.clone(),
            error: self.error.clone(),
        }
    }
}

/// The daemon's state as one reply.
#[derive(Debug, PartialEq, Eq)]
pub struct StatusSnapshot {
    pub epoch: String,
    pub operation_id: Option<String>,
    pub operation_kind: Option<OperationKind>,
    pub state: StateKind,
    pub elapsed: u64,
    pub signal: Option<AudioSignal>,
    pub stage: Option<Stage>,
    pub outcome: Option<TerminalOutcome>,
    pub notice: Option<InteractionNotice>,
    pub pending_recordings: usize,
    pub capabilities: Capabilities,
    pub hud: HudConfig,
}

/// What a [`StatusSnapshot`] holds.
pub struct StatusSnapshotView {
    pub epoch: Seq<char>,
    pub operation_id: Option<Seq<char>>,
    pub operation_kind: Option<OperationKind>,
    pub state: StateKindView,
    pub elapsed: u64,
    pub signal: Option<AudioSignal>,
    pub stage: Option<StageView>,
    pub outcome: Option<TerminalOutcomeView>,
    pub notice: Option<InteractionNoticeView>,
    pub pending_recordings: usize,
    pub capabilities: Capabilities,
    pub hud: HudConfig,
}

impl View for StatusSnapshot {
    type V = StatusSnapshotView;

    open spec fn view(&self) -> StatusSnapshotView {
        StatusSnapshotView {
            epoch: self.epoch@,
            operation_id: match self.operation_id { Some(inner) => Some(inner@), None => None },
            operation_kind: self.operation_kind,
            state: self.state@,
            elapsed: self.elapsed,
            signal: self.signal,
            stage: match self.stage { Some(inner) => Some(inner@), None => None },
            outcome: match self.outcome { Some(inner) => Some(inner@), None => None },
            notice: match self.notice { Some(inner) => Some(inner@), None => None },
            pending_recordings: self.pending_recordings,
            capabilities: self.capabilities,
            hud: self.hud,
        }
    }
}

impl Clone for StatusSnapshot {
    fn clone(&self) -> (result: Self)
        ensures
            result@ == self@,
    {
        StatusSnapshot {
            epoch: self.epoch.clone(),
            operation_id: self.operation_id.clone(),
            operation_kind: self.operation_kind,
            state: self.state.clone(),
            elapsed: self.elapsed,
            signal: self.signal,
            stage: self.stage.clone(),
            outcome: self.outcome.clone(),
            notice: self.notice.clone(),
            pending_recordings: self.pending_recordings,
            capabilities: self.capabilities,
            hud: self.hud,
        }
    }
}

/// Chunk counts that a stage measures, where it measures any.
pub open spec fn stage_progress(stage: StageView) -> Option<(u32, u32)> {
    match stage {
        StageView::Transcribing { completed, total } if total > 1 && completed <= total => Some(
            (completed, total),
        ),
        _ => None,
    }
}

impl Stage {
    /// Completed and total chunks of a divided transcription.
    pub fn measured_progress(&self) -> (result: Option<(u32, u32)>)
        ensures
            result == stage_progress(self@),
    {
        match self {
            Stage::Transcribing { completed, total } if *total > 1 && *completed <= *total => Some(
                (*completed, *total),
            ),
            _ => None,
        }
    }
}

impl Default for Artifacts {
    fn default() -> (result: Self)
        ensures
            result@ == (ArtifactsView { take_id: None, audio: false, text: false }),
    {
        Artifacts { take_id: None, audio: false, text: false }
    }
}

/// Whether two optional texts are both absent or hold the same characters.
pub fn same_text(a: &Option<String>, b: &Option<String>) -> (result: bool)
    ensures
        result == (optional_text(*a) == optional_text(*b)),
{
    match (a, b) {
        (Some(x), Some(y)) => *x == *y,
        (None, None) => true,
        _ => false,
    }
}

/// The characters of an optional text.
pub open spec fn optional_text(text: Option<String>) -> Option<Seq<char>> {
    match text {
        Some(inner) => Some(inner@),
        None => None,
    }
}

impl StateKind {
    /// Whether two states are the same, down to an unknown state's name.
    pub fn same(&self, other: &StateKind) -> (result: bool)
        ensures
            result == (self@ == other@),
    {
        match (self, other) {
            (StateKind::Idle, StateKind::Idle) => true,
            (StateKind::Recording, StateKind::Recording) => true,
            (StateKind::Processing, StateKind::Processing) => true,
            (StateKind::Unknown(a), StateKind::Unknown(b)) => *a == *b,
            _ => false,
        }
    }
}

/// Whether two waveforms hold the same samples.
pub fn same_waveform(a: &AudioWaveform, b: &AudioWaveform) -> (result: bool)
    ensures
        result == (*a == *b),
{
    let mut index: usize = 0;
    while index < AUDIO_WAVEFORM_BINS
        invariant
            index <= AUDIO_WAVEFORM_BINS,
            forall|i: int| 0 <= i < index ==> a@[i] == b@[i],
        decreases AUDIO_WAVEFORM_BINS - index,
    {
        if a[index][0] != b[index][0] || a[index][1] != b[index][1] {
            return false;
        }
        assert(a@[index as int] =~= b@[index as int]);
        index += 1;
    }
    assert(*a =~= *b);
    true
}

} // verus!
