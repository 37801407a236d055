//! Deterministic, offline compositions of the display, and their pixels.

use crate::hud::{Model, ModelView, TrackStep, MILLISECOND, NOTICE_HOLD, SECOND, SETTLE};
use crate::ipc::{
    Artifacts, ArtifactsView, AudioSignal, AudioWaveform, Capabilities, Cleanup, Completeness,
    Delivery, HudConfig, InteractionNotice, InteractionNoticeView, OperationKind, Stage, StageView,
    StateKind, StateKindView, StatusSnapshot, StatusSnapshotView, TerminalOutcome,
    TerminalOutcomeView,
};
use vstd::prelude::*;
use vstd::string::*;

verus! {

/// The newest audio window of a public speech sample, as chronological PCM pairs.
pub const SCREENSHOT_WAVEFORM: AudioWaveform = [
    [-1326, 1927],
    [-1231, 823],
    [-2107, 1200],
    [-1480, 2177],
    [-1285, 1225],
    [-2567, 1483],
    [-3029, 1821],
    [-1610, 2811],
    [-3118, 2632],
    [-2468, 1960],
    [-1685, 5453],
    [-4074, 3135],
    [-3410, 1396],
    [-1814, 5200],
    [-4244, 4094],
    [-3195, 3552],
    [-178, 5113],
    [-7377, 2521],
    [-8633, 5478],
    [-688, 5681],
    [-12014, 2144],
    [-7734, 5984],
    [-6926, 8550],
    [-10549, 2679],
    [-1487, 9118],
    [-10879, 4210],
    [-3222, 5799],
    [-9823, 8692],
    [-10547, 1050],
    [-371, 6464],
    [-9794, 3058],
    [-2591, 7100],
    [-9829, 7049],
    [-5955, 246],
    [-917, 7823],
    [-8873, 76],
    [-4226, 8040],
    [-9462, 5885],
    [-6002, 4069],
    [-8595, 9187],
    [-6203, 874],
    [-4844, 8242],
    [-9695, 2548],
    [-4982, 6095],
    [-8982, 7812],
    [-5724, 1743],
    [-3242, 7561],
    [-9862, 3491],
    [-4704, 8069],
    [-10155, 2021],
    [-4365, 6482],
    [-10898, 7932],
    [-6480, 4558],
    [-4327, 10154],
    [-12531, 3104],
    [-5318, 9564],
    [-10779, 8470],
    [-8316, 2315],
    [-5163, 10340],
    [-11476, 3049],
];

/// The scenarios that can be composed offline.
#[derive(Clone, Copy, Debug, PartialEq, Eq, Structural)]
pub enum ScreenshotState {
    Idle,
    Recording,
    LongRecording,
    Starting,
    MonitoringUnavailable,
    NoSignal,
    Working,
    Transcribing,
    ProgressZero,
    Progress,
    ProgressComplete,
    FinalizingAudio,
    RemovingRecording,
    Cleaning,
    Delivering,
    Cancelling,
    Sent,
    SentSettling,
    Copied,
    CopiedInstead,
    CleanupFallback,
    Empty,
    EmptySaved,
    Failed,
    StorageFailed,
    Partial,
    PartialSaved,
    DeliveryFailed,
    DeliveryUncertain,
    Deferred,
    Cancelled,
    Disconnected,
    Reconnected,
    SetupMissing,
    Busy,
    Recovery,
    ReducedMotion,
    ReducedMotionCleaning,
    ReducedMotionSent,
    Settling,
    Interrupted,
    Dismissed,
}

/// What happens to a display.
#[derive(Debug, PartialEq, Eq)]
pub enum DisplayEvent {
    Status { status: StatusSnapshot, at: u64 },
    Lost { at: u64 },
    Refresh { at: u64 },
    PresentTrack { at: u64 },
    PresentFrame { at: u64 },
    DateTrack { at: u64 },
}

/// What a [`DisplayEvent`] holds.
pub enum DisplayEventView {
    Status { status: StatusSnapshotView, at: u64 },
    Lost { at: u64 },
    Refresh { at: u64 },
    PresentTrack { at: u64 },
    PresentFrame { at: u64 },
    DateTrack { at: u64 },
}

impl View for DisplayEvent {
    type V = DisplayEventView;

    open spec fn view(&self) -> DisplayEventView {
        match *self {
            DisplayEvent::Status { status, at } => DisplayEventView::Status { status: status@, at },
            DisplayEvent::Lost { at } => DisplayEventView::Lost { at },
            DisplayEvent::Refresh { at } => DisplayEventView::Refresh { at },
            DisplayEvent::PresentTrack { at } => DisplayEventView::PresentTrack { at },
            DisplayEvent::PresentFrame { at } => DisplayEventView::PresentFrame { at },
            DisplayEvent::DateTrack { at } => DisplayEventView::DateTrack { at },
        }
    }
}

impl Clone for DisplayEvent {
    fn clone(&self) -> (result: Self)
        ensures
            result@ == self@,
    {
        match self {
            DisplayEvent::Status { status, at } => DisplayEvent::Status {
                status: status.clone(),
                at: *at,
            },
            DisplayEvent::Lost { at } => DisplayEvent::Lost { at: *at },
            DisplayEvent::Refresh { at } => DisplayEvent::Refresh { at: *at },
            DisplayEvent::PresentTrack { at } => DisplayEvent::PresentTrack { at: *at },
            DisplayEvent::PresentFrame { at } => DisplayEvent::PresentFrame { at: *at },
            DisplayEvent::DateTrack { at } => DisplayEvent::DateTrack { at: *at },
        }
    }
}

/// What a sequence of events holds.
pub open spec fn event_views(events: Seq<DisplayEvent>) -> Seq<DisplayEventView> {
    events.map_values(|event: DisplayEvent| event@)
}

/// Whether a status comes early enough for what follows it to be dated.
pub open spec fn datable(event: DisplayEventView) -> bool {
    match event {
        DisplayEventView::Status { status, at } => at + NOTICE_HOLD <= u64::MAX,
        _ => true,
    }
}

impl ModelView {
    /// The display after an event.
    pub open spec fn after(self, event: DisplayEventView) -> ModelView {
        match event {
            DisplayEventView::Status { status, at } => self.applied(status, at),
            DisplayEventView::Lost { at } => self.disconnected(at),
            DisplayEventView::Refresh { at } => self.refreshed(at),
            DisplayEventView::PresentTrack { at } => ModelView {
                track: self.track.push(TrackStep::PresentTrack { at }),
                ..self
            },
            DisplayEventView::PresentFrame { at } => ModelView {
                track: self.track.push(TrackStep::PresentFrame { at, plan: self.frame_plan(at) }),
                ..self
            },
            DisplayEventView::DateTrack { at } => ModelView {
                track: self.track.push(TrackStep::Since { at }),
                ..self
            },
        }
    }

    /// The display after a sequence of events.
    pub open spec fn replayed(self, events: Seq<DisplayEventView>) -> ModelView
        decreases events.len(),
    {
        if events.len() == 0 {
            self
        } else {
            self.replayed(events.drop_last()).after(events.last())
        }
    }
}

impl Model {
    /// Take in an event.
    pub fn handle(&mut self, event: DisplayEvent)
        requires
            datable(event@),
        ensures
            final(self)@ == old(self)@.after(event@),
    {
        match event {
            DisplayEvent::Status { status, at } => self.apply(status, at),
            DisplayEvent::Lost { at } => self.disconnected(at),
            DisplayEvent::Refresh { at } => self.refresh(at),
            DisplayEvent::PresentTrack { at } => self.present_track(at),
            DisplayEvent::PresentFrame { at } => self.present_frame(at),
            DisplayEvent::DateTrack { at } => self.date_track(at),
        }
    }

    /// Take in a sequence of events.
    pub fn replay(&mut self, events: &Vec<DisplayEvent>)
        requires
            forall|i: int| 0 <= i < events@.len() ==> datable((#[trigger] events@[i])@),
        ensures
            final(self)@ == old(self)@.replayed(event_views(events@)),
    {
        let mut index: usize = 0;
        let ghost views = event_views(events@);
        assert(views.take(0) =~= Seq::empty());
        while index < events.len()
            invariant
                index <= events@.len(),
                views == event_views(events@),
                forall|i: int| 0 <= i < events@.len() ==> datable((#[trigger] events@[i])@),
                self@ == old(self)@.replayed(views.take(index as int)),
            decreases events@.len() - index,
        {
            proof {
                let next = views.take(index + 1);
                assert(next.drop_last() =~= views.take(index as int));
                assert(next.last() == events@[index as int]@);
            }
            self.handle(events[index].clone());
            index += 1;
        }
        assert(views.take(events@.len() as int) =~= views);
    }
}

/// A status of a made-up operation.
pub open spec fn preview_status(state: StateKindView) -> StatusSnapshotView {
    StatusSnapshotView {
        epoch: "preview-epoch"@,
        operation_id: if state == StateKindView::Idle {
            None
        } else {
            Some("preview-take"@)
        },
        operation_kind: if state == StateKindView::Idle {
            None
        } else {
            Some(OperationKind::Dictation)
        },
        state,
        elapsed: 0,
        signal: None,
        stage: None,
        outcome: None,
        notice: None,
        pending_recordings: 0,
        capabilities: Capabilities {
            stop: true,
            cancel: true,
            recover: true,
            copy: true,
            dismiss: true,
            local_model: true,
            remote_configured: false,
        },
        hud: HudConfig { labels: false, reduced_motion: None },
    }
}

/// A status of a made-up operation.
pub fn preview_snapshot(state: StateKind) -> (result: StatusSnapshot)
    ensures
        result@ == preview_status(state@),
{
    let idle = matches!(state, StateKind::Idle);
    StatusSnapshot {
        epoch: "preview-epoch".to_owned(),
        operation_id: if idle {
            None
        } else {
            Some("preview-take".to_owned())
        },
        operation_kind: if idle {
            None
        } else {
            Some(OperationKind::Dictation)
        },
        state,
        elapsed: 0,
        signal: None,
        stage: None,
        outcome: None,
        notice: None,
        pending_recordings: 0,
        capabilities: Capabilities {
            stop: true,
            cancel: true,
            recover: true,
            copy: true,
            dismiss: true,
            local_model: true,
            remote_configured: false,
        },
        hud: HudConfig::default(),
    }
}

/// The outcome of a made-up operation.
pub open spec fn preview_result(
    completeness: Completeness,
    delivery: Delivery,
) -> TerminalOutcomeView {
    TerminalOutcomeView {
        event_id: 1,
        operation_id: Some("preview-take"@),
        message: "Transcription failed."@,
        completeness,
        delivery,
        cleanup: Cleanup::Off,
        error: None,
        artifacts: ArtifactsView { take_id: None, audio: false, text: false },
        dismissed: false,
    }
}

/// The outcome of a made-up operation.
pub fn preview_outcome(completeness: Completeness, delivery: Delivery) -> (result: TerminalOutcome)
    ensures
        result@ == preview_result(completeness, delivery),
{
    TerminalOutcome {
        event_id: 1,
        operation_id: Some("preview-take".to_owned()),
        message: "Transcription failed.".to_owned(),
        completeness,
        delivery,
        cleanup: Cleanup::Off,
        error: None,
        artifacts: Artifacts::default(),
        dismissed: false,
    }
}

/// A window without any input.
pub const SILENT_WAVEFORM: AudioWaveform = [
    [0, 0], [0, 0], [0, 0], [0, 0], [0, 0], [0, 0], [0, 0], [0, 0], [0, 0], [0, 0],
    [0, 0], [0, 0], [0, 0], [0, 0], [0, 0], [0, 0], [0, 0], [0, 0], [0, 0], [0, 0],
    [0, 0], [0, 0], [0, 0], [0, 0], [0, 0], [0, 0], [0, 0], [0, 0], [0, 0], [0, 0],
    [0, 0], [0, 0], [0, 0], [0, 0], [0, 0], [0, 0], [0, 0], [0, 0], [0, 0], [0, 0],
    [0, 0], [0, 0], [0, 0], [0, 0], [0, 0], [0, 0], [0, 0], [0, 0], [0, 0], [0, 0],
    [0, 0], [0, 0], [0, 0], [0, 0], [0, 0], [0, 0], [0, 0], [0, 0], [0, 0], [0, 0],
];

/// Whether a still shows a recording.
pub open spec fn shows_recording(state: ScreenshotState) -> bool {
    match state {
        ScreenshotState::Recording
        | ScreenshotState::LongRecording
        | ScreenshotState::Starting
        | ScreenshotState::MonitoringUnavailable
        | ScreenshotState::NoSignal => true,
        _ => false,
    }
}

/// Whether a still shows processing.
pub open spec fn shows_processing(state: ScreenshotState) -> bool {
    match state {
        ScreenshotState::Working
        | ScreenshotState::Transcribing
        | ScreenshotState::ProgressZero
        | ScreenshotState::Progress
        | ScreenshotState::ProgressComplete
        | ScreenshotState::FinalizingAudio
        | ScreenshotState::RemovingRecording
        | ScreenshotState::Cleaning
        | ScreenshotState::Delivering
        | ScreenshotState::Cancelling
        | ScreenshotState::Busy
        | ScreenshotState::Recovery
        | ScreenshotState::ReducedMotion
        | ScreenshotState::ReducedMotionCleaning
        | ScreenshotState::Settling => true,
        _ => false,
    }
}

/// Whether a still is composed for reduced motion.
pub open spec fn shows_reduced_motion(state: ScreenshotState) -> bool {
    state == ScreenshotState::ReducedMotion || state == ScreenshotState::ReducedMotionCleaning
        || state == ScreenshotState::ReducedMotionSent
}

/// The recording that precedes every still but the idle one.
pub open spec fn still_recording(state: ScreenshotState) -> StatusSnapshotView {
    let speech = Some(
        AudioSignal { level: 94, silent: false, waveform: SCREENSHOT_WAVEFORM },
    );
    let (elapsed, signal) = match state {
        ScreenshotState::LongRecording => (888u64, speech),
        ScreenshotState::Starting => (1u64, None),
        ScreenshotState::MonitoringUnavailable => (8u64, None),
        ScreenshotState::NoSignal => (
            12u64,
            Some(AudioSignal { level: 0, silent: true, waveform: SILENT_WAVEFORM }),
        ),
        _ => (9u64, speech),
    };
    StatusSnapshotView { elapsed, signal, ..preview_status(StateKindView::Recording) }
}

/// The stage that a still's processing has reached.
pub open spec fn still_stage(state: ScreenshotState) -> StageView {
    match state {
        ScreenshotState::FinalizingAudio => StageView::FinalizingAudio,
        ScreenshotState::RemovingRecording => StageView::RemovingRecording,
        ScreenshotState::Cleaning | ScreenshotState::ReducedMotionCleaning => StageView::CleaningUp,
        ScreenshotState::Delivering => StageView::Delivering,
        ScreenshotState::Cancelling => StageView::Cancelling,
        ScreenshotState::ProgressZero => StageView::Transcribing { completed: 0, total: 30 },
        ScreenshotState::Progress
        | ScreenshotState::Busy
        | ScreenshotState::Recovery
        | ScreenshotState::ReducedMotion => StageView::Transcribing { completed: 12, total: 30 },
        ScreenshotState::ProgressComplete => StageView::Transcribing { completed: 30, total: 30 },
        _ => StageView::Transcribing { completed: 0, total: 1 },
    }
}

/// The processing that precedes every still of a finished operation.
pub open spec fn still_processing(state: ScreenshotState) -> StatusSnapshotView {
    StatusSnapshotView {
        operation_kind: Some(
            if state == ScreenshotState::Recovery {
                OperationKind::Recovery
            } else if state == ScreenshotState::RemovingRecording {
                OperationKind::Forget
            } else {
                OperationKind::Dictation
            },
        ),
        stage: Some(still_stage(state)),
        elapsed: if state == ScreenshotState::Working || state == ScreenshotState::Settling {
            0
        } else {
            2
        },
        hud: HudConfig { labels: false, reduced_motion: Some(shows_reduced_motion(state)) },
        notice: if state == ScreenshotState::Busy {
            Some(
                InteractionNoticeView {
                    event_id: 1,
                    message: "Already working on this take."@,
                    error: None,
                },
            )
        } else {
            None
        },
        ..preview_status(StateKindView::Processing)
    }
}

/// How old a still's processing is.
pub open spec fn processing_age(state: ScreenshotState) -> u64 {
    match state {
        ScreenshotState::Settling => 60_000_000,
        ScreenshotState::Working => 400_000_000,
        ScreenshotState::Busy => 1_000_000_000,
        _ => 2_000_000_000,
    }
}

/// What became of a still's take and of its text.
pub open spec fn still_result(state: ScreenshotState) -> (Completeness, Delivery) {
    match state {
        ScreenshotState::Empty | ScreenshotState::EmptySaved => (
            Completeness::Empty,
            Delivery::Nothing,
        ),
        ScreenshotState::Failed
        | ScreenshotState::StorageFailed
        | ScreenshotState::SetupMissing
        | ScreenshotState::Dismissed => (Completeness::Failed, Delivery::Nothing),
        ScreenshotState::Partial => (Completeness::Partial, Delivery::Copied),
        ScreenshotState::PartialSaved => (Completeness::Partial, Delivery::Deferred),
        ScreenshotState::DeliveryFailed => (Completeness::Complete, Delivery::Failed),
        ScreenshotState::DeliveryUncertain => (Completeness::Complete, Delivery::Uncertain),
        ScreenshotState::Deferred => (Completeness::Complete, Delivery::Deferred),
        ScreenshotState::Cancelled => (Completeness::Cancelled, Delivery::Cancelled),
        ScreenshotState::Copied | ScreenshotState::CopiedInstead => (
            Completeness::Complete,
            Delivery::Copied,
        ),
        _ => (Completeness::Complete, Delivery::Pasted),
    }
}

/// The message of a still's outcome.
pub open spec fn still_message(state: ScreenshotState) -> Seq<char> {
    match state {
        ScreenshotState::Copied => "Copied. Paste when ready."@,
        ScreenshotState::CopiedInstead => "Copied instead. Paste when ready."@,
        ScreenshotState::SetupMissing => "Local speech model unavailable."@,
        ScreenshotState::StorageFailed => "Transcription failed. Audio could not be saved."@,
        _ => "Transcription failed."@,
    }
}

/// Whether a still's audio was saved.
pub open spec fn still_audio(state: ScreenshotState) -> bool {
    match state {
        ScreenshotState::Failed
        | ScreenshotState::Partial
        | ScreenshotState::PartialSaved
        | ScreenshotState::EmptySaved
        | ScreenshotState::Dismissed => true,
        _ => false,
    }
}

/// Whether a still's text was saved.
pub open spec fn still_text(state: ScreenshotState) -> bool {
    match state {
        ScreenshotState::Partial
        | ScreenshotState::PartialSaved
        | ScreenshotState::DeliveryFailed
        | ScreenshotState::DeliveryUncertain
        | ScreenshotState::Deferred => true,
        _ => false,
    }
}

/// The status of a finished operation.
pub open spec fn still_idle(state: ScreenshotState) -> StatusSnapshotView {
    let idle = preview_status(StateKindView::Idle);
    let result = still_result(state);
    StatusSnapshotView {
        hud: HudConfig { labels: false, reduced_motion: Some(shows_reduced_motion(state)) },
        pending_recordings: if still_audio(state) || still_text(state) {
            1
        } else {
            0
        },
        outcome: Some(
            TerminalOutcomeView {
                message: still_message(state),
                artifacts: ArtifactsView {
                    take_id: Some("preview-take"@),
                    audio: still_audio(state),
                    text: still_text(state),
                },
                cleanup: if state == ScreenshotState::CleanupFallback {
                    Cleanup::Failed
                } else {
                    Cleanup::Off
                },
                dismissed: state == ScreenshotState::Dismissed,
                ..preview_result(result.0, result.1)
            },
        ),
        capabilities: Capabilities {
            local_model: state != ScreenshotState::SetupMissing,
            ..idle.capabilities
        },
        ..idle
    }
}

/// How old a still's outcome is.
pub open spec fn result_age(state: ScreenshotState) -> u64 {
    if state == ScreenshotState::SentSettling || state == ScreenshotState::Interrupted {
        200_000_000
    } else {
        480_000_000
    }
}

/// The recording that interrupts a result.
pub open spec fn still_next() -> StatusSnapshotView {
    StatusSnapshotView {
        operation_id: Some("next-preview-take"@),
        signal: Some(AudioSignal { level: 94, silent: false, waveform: SCREENSHOT_WAVEFORM }),
        ..preview_status(StateKindView::Recording)
    }
}

/// What happens to a display until it shows a still at `now`.
pub open spec fn still_script(state: ScreenshotState, now: u64) -> Seq<DisplayEventView> {
    let start = (now - 3 * SECOND) as u64;
    let opening = seq![
        DisplayEventView::Status { status: preview_status(StateKindView::Idle), at: start },
    ];
    let recording = opening + seq![
        DisplayEventView::Status { status: still_recording(state), at: start },
        DisplayEventView::PresentTrack { at: now },
    ];
    let refresh = seq![DisplayEventView::Refresh { at: now }];
    if state == ScreenshotState::Idle {
        opening
    } else if shows_recording(state) {
        recording + refresh
    } else if state == ScreenshotState::Disconnected || state == ScreenshotState::Reconnected {
        let lost = recording + seq![DisplayEventView::Lost { at: (now - SECOND) as u64 }] + refresh;
        let restored = if state == ScreenshotState::Reconnected {
            lost.push(
                DisplayEventView::Status {
                    status: StatusSnapshotView {
                        epoch: "preview-restarted"@,
                        ..preview_status(StateKindView::Idle)
                    },
                    at: now,
                },
            )
        } else {
            lost
        };
        restored.push(DisplayEventView::DateTrack { at: (now - SETTLE) as u64 })
    } else {
        let processing = recording.push(
            DisplayEventView::Status {
                status: still_processing(state),
                at: (now - processing_age(state)) as u64,
            },
        );
        if state == ScreenshotState::Settling {
            processing.push(DisplayEventView::PresentFrame { at: now }) + refresh
        } else if shows_processing(state) {
            processing + refresh
        } else {
            let result_at = (now - result_age(state)) as u64;
            let finished = processing + seq![
                DisplayEventView::PresentFrame { at: result_at },
                DisplayEventView::Status { status: still_idle(state), at: result_at },
            ];
            let last = if state == ScreenshotState::Interrupted {
                finished.push(
                    DisplayEventView::Status {
                        status: still_next(),
                        at: (now - 180 * MILLISECOND) as u64,
                    },
                )
            } else {
                finished
            };
            last + refresh
        }
    }
}

fn compose_recording(state: ScreenshotState) -> (result: StatusSnapshot)
    ensures
        result@ == still_recording(state),
{
    let mut recording = preview_snapshot(StateKind::Recording);
    recording.elapsed = 9;
    recording.signal = Some(
        AudioSignal { level: 94, silent: false, waveform: SCREENSHOT_WAVEFORM },
    );
    match state {
        ScreenshotState::LongRecording => {
            recording.elapsed = 888;
        },
        ScreenshotState::Starting => {
            recording.signal = None;
            recording.elapsed = 1;
        },
        ScreenshotState::MonitoringUnavailable => {
            recording.signal = None;
            recording.elapsed = 8;
        },
        ScreenshotState::NoSignal => {
            recording.elapsed = 12;
            recording.signal = Some(
                AudioSignal { level: 0, silent: true, waveform: SILENT_WAVEFORM },
            );
        },
        _ => {},
    }
    recording
}

fn compose_processing(state: ScreenshotState) -> (result: StatusSnapshot)
    ensures
        result@ == still_processing(state),
{
    let mut processing = preview_snapshot(StateKind::Processing);
    if state == ScreenshotState::Recovery {
        processing.operation_kind = Some(OperationKind::Recovery);
    }
    if state == ScreenshotState::RemovingRecording {
        processing.operation_kind = Some(OperationKind::Forget);
    }
    processing.stage = Some(
        match state {
            ScreenshotState::FinalizingAudio => Stage::FinalizingAudio,
            ScreenshotState::RemovingRecording => Stage::RemovingRecording,
            ScreenshotState::Cleaning | ScreenshotState::ReducedMotionCleaning => Stage::CleaningUp,
            ScreenshotState::Delivering => Stage::Delivering,
            ScreenshotState::Cancelling => Stage::Cancelling,
            ScreenshotState::ProgressZero => Stage::Transcribing { completed: 0, total: 30 },
            ScreenshotState::Progress
            | ScreenshotState::Busy
            | ScreenshotState::Recovery
            | ScreenshotState::ReducedMotion => Stage::Transcribing { completed: 12, total: 30 },
            ScreenshotState::ProgressComplete => Stage::Transcribing { completed: 30, total: 30 },
            _ => Stage::Transcribing { completed: 0, total: 1 },
        },
    );
    processing.elapsed = if matches!(state, ScreenshotState::Working | ScreenshotState::Settling) {
        0
    } else {
        2
    };
    processing.hud.reduced_motion = Some(reduced_motion(state));
    if state == ScreenshotState::Busy {
        processing.notice = Some(
            InteractionNotice {
                event_id: 1,
                message: "Already working on this take.".to_owned(),
                error: None,
            },
        );
    }
    processing
}

fn reduced_motion(state: ScreenshotState) -> (result: bool)
    ensures
        result == shows_reduced_motion(state),
{
    matches!(
        state,
        ScreenshotState::ReducedMotion
            | ScreenshotState::ReducedMotionCleaning
            | ScreenshotState::ReducedMotionSent
    )
}

fn compose_idle(state: ScreenshotState) -> (result: StatusSnapshot)
    ensures
        result@ == still_idle(state),
{
    let (completeness, delivery) = match state {
        ScreenshotState::Empty | ScreenshotState::EmptySaved => (
            Completeness::Empty,
            Delivery::Nothing,
        ),
        ScreenshotState::Failed
        | ScreenshotState::StorageFailed
        | ScreenshotState::SetupMissing
        | ScreenshotState::Dismissed => (Completeness::Failed, Delivery::Nothing),
        ScreenshotState::Partial => (Completeness::Partial, Delivery::Copied),
        ScreenshotState::PartialSaved => (Completeness::Partial, Delivery::Deferred),
        ScreenshotState::DeliveryFailed => (Completeness::Complete, Delivery::Failed),
        ScreenshotState::DeliveryUncertain => (Completeness::Complete, Delivery::Uncertain),
        ScreenshotState::Deferred => (Completeness::Complete, Delivery::Deferred),
        ScreenshotState::Cancelled => (Completeness::Cancelled, Delivery::Cancelled),
        ScreenshotState::Copied | ScreenshotState::CopiedInstead => (
            Completeness::Complete,
            Delivery::Copied,
        ),
        _ => (Completeness::Complete, Delivery::Pasted),
    };
    let mut outcome = preview_outcome(completeness, delivery);
    let message = match state {
        ScreenshotState::Copied => "Copied. Paste when ready.",
        ScreenshotState::CopiedInstead => "Copied instead. Paste when ready.",
        ScreenshotState::SetupMissing => "Local speech model unavailable.",
        ScreenshotState::StorageFailed => "Transcription failed. Audio could not be saved.",
        _ => "Transcription failed.",
    };
    outcome.message = message.to_owned();
    let audio = matches!(
        state,
        ScreenshotState::Failed
            | ScreenshotState::Partial
            | ScreenshotState::PartialSaved
            | ScreenshotState::EmptySaved
            | ScreenshotState::Dismissed
    );
    let text = matches!(
        state,
        ScreenshotState::Partial
            | ScreenshotState::PartialSaved
            | ScreenshotState::DeliveryFailed
            | ScreenshotState::DeliveryUncertain
            | ScreenshotState::Deferred
    );
    outcome.artifacts = Artifacts { take_id: Some("preview-take".to_owned()), audio, text };
    if state == ScreenshotState::CleanupFallback {
        outcome.cleanup = Cleanup::Failed;
    }
    if state == ScreenshotState::Dismissed {
        outcome.dismissed = true;
    }
    let mut idle = preview_snapshot(StateKind::Idle);
    idle.hud.reduced_motion = Some(reduced_motion(state));
    idle.pending_recordings = if audio || text {
        1
    } else {
        0
    };
    idle.outcome = Some(outcome);
    idle.capabilities.local_model = state != ScreenshotState::SetupMissing;
    idle
}

fn add_event(events: &mut Vec<DisplayEvent>, event: DisplayEvent)
    ensures
        event_views(final(events)@) == event_views(old(events)@).push(event@),
{
    events.push(event);
    assert(event_views(events@) =~= event_views(old(events)@).push(event@));
}

/// What happens to a display until it shows a still at `now`.
pub fn screenshot_events(state: ScreenshotState, now: u64) -> (result: Vec<DisplayEvent>)
    requires
        3 * SECOND <= now,
        now + NOTICE_HOLD <= u64::MAX,
    ensures
        event_views(result@) == still_script(state, now),
        forall|i: int| 0 <= i < result@.len() ==> datable((#[trigger] result@[i])@),
{
    let result = compose_events(state, now);
    proof {
        lemma_script_datable(state, now);
        assert forall|i: int| 0 <= i < result@.len() implies datable((#[trigger] result@[i])@) by {
            assert(event_views(result@)[i] == result@[i]@);
        }
    }
    result
}

proof fn lemma_script_datable(state: ScreenshotState, now: u64)
    requires
        3 * SECOND <= now,
        now + NOTICE_HOLD <= u64::MAX,
    ensures
        forall|i: int|
            0 <= i < still_script(state, now).len() ==> datable(
                #[trigger] still_script(state, now)[i],
            ),
{
}

fn compose_events(state: ScreenshotState, now: u64) -> (result: Vec<DisplayEvent>)
    requires
        3 * SECOND <= now,
        now + NOTICE_HOLD <= u64::MAX,
    ensures
        event_views(result@) == still_script(state, now),
{
    let start: u64 = now - 3 * SECOND;
    let mut events: Vec<DisplayEvent> = Vec::new();
    assert(event_views(events@) =~= Seq::empty());
    add_event(
        &mut events,
        DisplayEvent::Status { status: preview_snapshot(StateKind::Idle), at: start },
    );
    if state == ScreenshotState::Idle {
        assert(event_views(events@) =~= still_script(state, now));
        return events;
    }
    add_event(&mut events, DisplayEvent::Status { status: compose_recording(state), at: start });
    add_event(&mut events, DisplayEvent::PresentTrack { at: now });
    if matches!(
        state,
        ScreenshotState::Recording
            | ScreenshotState::LongRecording
            | ScreenshotState::Starting
            | ScreenshotState::MonitoringUnavailable
            | ScreenshotState::NoSignal
    ) {
        add_event(&mut events, DisplayEvent::Refresh { at: now });
        assert(event_views(events@) =~= still_script(state, now));
        return events;
    }
    if matches!(state, ScreenshotState::Disconnected | ScreenshotState::Reconnected) {
        add_event(&mut events, DisplayEvent::Lost { at: now - SECOND });
        add_event(&mut events, DisplayEvent::Refresh { at: now });
        if state == ScreenshotState::Reconnected {
            let mut restarted = preview_snapshot(StateKind::Idle);
            restarted.epoch = "preview-restarted".to_owned();
            add_event(&mut events, DisplayEvent::Status { status: restarted, at: now });
        }
        add_event(&mut events, DisplayEvent::DateTrack { at: now - SETTLE });
        assert(event_views(events@) =~= still_script(state, now));
        return events;
    }
    let age: u64 = match state {
        ScreenshotState::Settling => 60_000_000,
        ScreenshotState::Working => 400_000_000,
        ScreenshotState::Busy => 1_000_000_000,
        _ => 2_000_000_000,
    };
    add_event(
        &mut events,
        DisplayEvent::Status { status: compose_processing(state), at: now - age },
    );
    if state == ScreenshotState::Settling {
        add_event(&mut events, DisplayEvent::PresentFrame { at: now });
    }
    if matches!(
        state,
        ScreenshotState::Working
            | ScreenshotState::Transcribing
            | ScreenshotState::ProgressZero
            | ScreenshotState::Progress
            | ScreenshotState::ProgressComplete
            | ScreenshotState::FinalizingAudio
            | ScreenshotState::RemovingRecording
            | ScreenshotState::Cleaning
            | ScreenshotState::Delivering
            | ScreenshotState::Cancelling
            | ScreenshotState::Busy
            | ScreenshotState::Recovery
            | ScreenshotState::ReducedMotion
            | ScreenshotState::ReducedMotionCleaning
            | ScreenshotState::Settling
    ) {
        add_event(&mut events, DisplayEvent::Refresh { at: now });
        assert(event_views(events@) =~= still_script(state, now));
        return events;
    }
    let result_at: u64 = now - if matches!(
        state,
        ScreenshotState::SentSettling | ScreenshotState::Interrupted
    ) {
        200 * MILLISECOND
    } else {
        SETTLE + 200 * MILLISECOND
    };
    // Terminal stills start from a presented processing frame, not an unseen
    // transcription target with the old listening pixels still cached.
    add_event(&mut events, DisplayEvent::PresentFrame { at: result_at });
    add_event(&mut events, DisplayEvent::Status { status: compose_idle(state), at: result_at });
    if state == ScreenshotState::Interrupted {
        let mut next = preview_snapshot(StateKind::Recording);
        next.operation_id = Some("next-preview-take".to_owned());
        next.signal = Some(
            AudioSignal { level: 94, silent: false, waveform: SCREENSHOT_WAVEFORM },
        );
        add_event(
            &mut events,
            DisplayEvent::Status { status: next, at: now - 180 * MILLISECOND },
        );
    }
    add_event(&mut events, DisplayEvent::Refresh { at: now });
    assert(event_views(events@) =~= still_script(state, now));
    events
}

/// A display that shows a scenario at `now`.
pub fn screenshot_model(state: ScreenshotState, now: u64) -> (result: Model)
    requires
        3 * SECOND <= now,
        now + NOTICE_HOLD <= u64::MAX,
    ensures
        result@ == ModelView::started((now - 3 * SECOND) as u64).replayed(
            still_script(state, now),
        ),
{
    let mut model = Model::new(now - 3 * SECOND);
    let events = screenshot_events(state, now);
    model.replay(&events);
    model
}

impl ScreenshotState {
    /// The name by which a still is asked for.
    pub open spec fn label(self) -> Seq<char> {
        match self {
            ScreenshotState::Idle => "idle"@,
            ScreenshotState::Recording => "recording"@,
            ScreenshotState::LongRecording => "long-recording"@,
            ScreenshotState::Starting => "starting"@,
            ScreenshotState::MonitoringUnavailable => "monitoring-unavailable"@,
            ScreenshotState::NoSignal => "no-signal"@,
            ScreenshotState::Working => "working"@,
            ScreenshotState::Transcribing => "transcribing"@,
            ScreenshotState::ProgressZero => "progress-zero"@,
            ScreenshotState::Progress => "progress"@,
            ScreenshotState::ProgressComplete => "progress-complete"@,
            ScreenshotState::FinalizingAudio => "finalizing-audio"@,
            ScreenshotState::RemovingRecording => "removing-recording"@,
            ScreenshotState::Cleaning => "cleaning"@,
            ScreenshotState::Delivering => "delivering"@,
            ScreenshotState::Cancelling => "cancelling"@,
            ScreenshotState::Sent => "sent"@,
            ScreenshotState::SentSettling => "sent-settling"@,
            ScreenshotState::Copied => "copied"@,
            ScreenshotState::CopiedInstead => "copied-instead"@,
            ScreenshotState::CleanupFallback => "cleanup-fallback"@,
            ScreenshotState::Empty => "empty"@,
            ScreenshotState::EmptySaved => "empty-saved"@,
            ScreenshotState::Failed => "failed"@,
            ScreenshotState::StorageFailed => "storage-failed"@,
            ScreenshotState::Partial => "partial"@,
            ScreenshotState::PartialSaved => "partial-saved"@,
            ScreenshotState::DeliveryFailed => "delivery-failed"@,
            ScreenshotState::DeliveryUncertain => "delivery-uncertain"@,
            ScreenshotState::Deferred => "deferred"@,
            ScreenshotState::Cancelled => "cancelled"@,
            ScreenshotState::Disconnected => "disconnected"@,
            ScreenshotState::Reconnected => "reconnected"@,
            ScreenshotState::SetupMissing => "setup-missing"@,
            ScreenshotState::Busy => "busy"@,
            ScreenshotState::Recovery => "recovery"@,
            ScreenshotState::ReducedMotion => "reduced-motion"@,
            ScreenshotState::ReducedMotionCleaning => "reduced-motion-cleaning"@,
            ScreenshotState::ReducedMotionSent => "reduced-motion-sent"@,
            ScreenshotState::Settling => "settling"@,
            ScreenshotState::Interrupted => "interrupted"@,
            ScreenshotState::Dismissed => "dismissed"@,
        }
    }

    /// The name by which a still is asked for.
    pub fn name(self) -> (result: &'static str)
        ensures
            result@ == self.label(),
    {
        match self {
            ScreenshotState::Idle => "idle",
            ScreenshotState::Recording => "recording",
            ScreenshotState::LongRecording => "long-recording",
            ScreenshotState::Starting => "starting",
            ScreenshotState::MonitoringUnavailable => "monitoring-unavailable",
            ScreenshotState::NoSignal => "no-signal",
            ScreenshotState::Working => "working",
            ScreenshotState::Transcribing => "transcribing",
            ScreenshotState::ProgressZero => "progress-zero",
            ScreenshotState::Progress => "progress",
            ScreenshotState::ProgressComplete => "progress-complete",
            ScreenshotState::FinalizingAudio => "finalizing-audio",
            ScreenshotState::RemovingRecording => "removing-recording",
            ScreenshotState::Cleaning => "cleaning",
            ScreenshotState::Delivering => "delivering",
            ScreenshotState::Cancelling => "cancelling",
            ScreenshotState::Sent => "sent",
            ScreenshotState::SentSettling => "sent-settling",
            ScreenshotState::Copied => "copied",
            ScreenshotState::CopiedInstead => "copied-instead",
            ScreenshotState::CleanupFallback => "cleanup-fallback",
            ScreenshotState::Empty => "empty",
            ScreenshotState::EmptySaved => "empty-saved",
            ScreenshotState::Failed => "failed",
            ScreenshotState::StorageFailed => "storage-failed",
            ScreenshotState::Partial => "partial",
            ScreenshotState::PartialSaved => "partial-saved",
            ScreenshotState::DeliveryFailed => "delivery-failed",
            ScreenshotState::DeliveryUncertain => "delivery-uncertain",
            ScreenshotState::Deferred => "deferred",
            ScreenshotState::Cancelled => "cancelled",
            ScreenshotState::Disconnected => "disconnected",
            ScreenshotState::Reconnected => "reconnected",
            ScreenshotState::SetupMissing => "setup-missing",
            ScreenshotState::Busy => "busy",
            ScreenshotState::Recovery => "recovery",
            ScreenshotState::ReducedMotion => "reduced-motion",
            ScreenshotState::ReducedMotionCleaning => "reduced-motion-cleaning",
            ScreenshotState::ReducedMotionSent => "reduced-motion-sent",
            ScreenshotState::Settling => "settling",
            ScreenshotState::Interrupted => "interrupted",
            ScreenshotState::Dismissed => "dismissed",
        }
    }
}

/// The last status that a still's display has seen.
pub open spec fn fixture_status(state: ScreenshotState) -> StatusSnapshotView {
    if state == ScreenshotState::Idle {
        preview_status(StateKindView::Idle)
    } else if shows_recording(state) || state == ScreenshotState::Disconnected {
        still_recording(state)
    } else if state == ScreenshotState::Reconnected {
        StatusSnapshotView {
            epoch: "preview-restarted"@,
            ..preview_status(StateKindView::Idle)
        }
    } else if shows_processing(state) {
        still_processing(state)
    } else if state == ScreenshotState::Interrupted {
        still_next()
    } else {
        still_idle(state)
    }
}

/// The last status that a still's display has seen.
pub fn fixture(state: ScreenshotState) -> (result: StatusSnapshot)
    ensures
        result@ == fixture_status(state),
{
    match state {
        ScreenshotState::Idle => preview_snapshot(StateKind::Idle),
        ScreenshotState::Recording
        | ScreenshotState::LongRecording
        | ScreenshotState::Starting
        | ScreenshotState::MonitoringUnavailable
        | ScreenshotState::NoSignal
        | ScreenshotState::Disconnected => compose_recording(state),
        ScreenshotState::Reconnected => {
            let mut restarted = preview_snapshot(StateKind::Idle);
            restarted.epoch = "preview-restarted".to_owned();
            restarted
        },
        ScreenshotState::Working
        | ScreenshotState::Transcribing
        | ScreenshotState::ProgressZero
        | ScreenshotState::Progress
        | ScreenshotState::ProgressComplete
        | ScreenshotState::FinalizingAudio
        | ScreenshotState::RemovingRecording
        | ScreenshotState::Cleaning
        | ScreenshotState::Delivering
        | ScreenshotState::Cancelling
        | ScreenshotState::Busy
        | ScreenshotState::Recovery
        | ScreenshotState::ReducedMotion
        | ScreenshotState::ReducedMotionCleaning
        | ScreenshotState::Settling => compose_processing(state),
        ScreenshotState::Interrupted => {
            let mut next = preview_snapshot(StateKind::Recording);
            next.operation_id = Some("next-preview-take".to_owned());
            next.signal = Some(
                AudioSignal { level: 94, silent: false, waveform: SCREENSHOT_WAVEFORM },
            );
            next
        },
        _ => compose_idle(state),
    }
}

/// The last status of a script, where it holds any.
pub open spec fn last_status(events: Seq<DisplayEventView>) -> Option<StatusSnapshotView>
    decreases events.len(),
{
    if events.len() == 0 {
        None
    } else {
        match events.last() {
            DisplayEventView::Status { status, at } => Some(status),
            _ => last_status(events.drop_last()),
        }
    }
}

proof fn lemma_snapshot_is_last_status(model: ModelView, events: Seq<DisplayEventView>)
    requires
        model.snapshot is None,
    ensures
        model.replayed(events).snapshot == last_status(events),
    decreases events.len(),
{
    if events.len() > 0 {
        lemma_snapshot_is_last_status(model, events.drop_last());
    }
}

/// A still's display holds its fixture's status.
pub proof fn still_holds_its_fixture(state: ScreenshotState, now: u64)
    requires
        3 * SECOND <= now,
    ensures
        ModelView::started((now - 3 * SECOND) as u64).replayed(still_script(state, now)).snapshot
            == Some(fixture_status(state)),
{
    let script = still_script(state, now);
    lemma_snapshot_is_last_status(ModelView::started((now - 3 * SECOND) as u64), script);
    reveal_with_fuel(last_status, 6);
    let earlier = script.drop_last();
    if state == ScreenshotState::Disconnected {
        assert(script.last() is DateTrack);
        assert(earlier.last() is Refresh);
        assert(earlier.drop_last().last() is Lost);
        assert(earlier.drop_last().drop_last().last() is PresentTrack);
        assert(earlier.drop_last().drop_last().drop_last().last() == DisplayEventView::Status {
            status: still_recording(state),
            at: (now - 3 * SECOND) as u64,
        });
    } else if state == ScreenshotState::Settling || shows_recording(state) {
        assert(earlier.last() is PresentFrame || earlier.last() is PresentTrack);
        assert(earlier.drop_last().last() is Status);
    } else if state != ScreenshotState::Idle {
        assert(earlier.last() is Status);
    }
}

/// Why a still's pixels cannot be had.
#[derive(Clone, Copy, Debug, PartialEq, Eq, Structural)]
pub enum ScreenshotError {
    /// The size does not fit.
    SizeOverflow,
    /// The buffer is shorter than the picture.
    IncompleteBuffer,
}

/// A premultiplied channel as it is without its opacity, rounded to the nearest.
pub open spec fn straight_channel(channel: u8, alpha: u8) -> u8 {
    let rounded = (2 * 255 * channel as int + alpha as int) / (2 * alpha as int);
    if alpha == 0 {
        0
    } else if rounded > 255 {
        255
    } else {
        rounded as u8
    }
}

/// One byte of the picture: red, green, blue and opacity from a buffer that holds
/// premultiplied blue, green, red and opacity.
pub open spec fn straight_byte(bytes: Seq<u8>, index: int) -> u8 {
    let pixel = index - index % 4;
    let alpha = bytes[pixel + 3];
    if index % 4 == 3 {
        alpha
    } else {
        straight_channel(bytes[pixel + 2 - index % 4], alpha)
    }
}

fn straighten(channel: u8, alpha: u8) -> (result: u8)
    ensures
        result == straight_channel(channel, alpha),
{
    if alpha == 0 {
        return 0;
    }
    let rounded: u32 = (2 * 255 * (channel as u32) + alpha as u32) / (2 * (alpha as u32));
    if rounded > 255 {
        255
    } else {
        rounded as u8
    }
}

/// The picture in a shared-memory buffer. The buffer may be larger than the
/// picture; what lies behind it is not part of it.
pub fn screenshot_rgba(bytes: &Vec<u8>, width: u32, height: u32) -> (result: Result<
    Vec<u8>,
    ScreenshotError,
>)
    ensures
        result == Err::<Vec<u8>, ScreenshotError>(ScreenshotError::SizeOverflow) <==> width
            * height * 4 > usize::MAX,
        result == Err::<Vec<u8>, ScreenshotError>(ScreenshotError::IncompleteBuffer) <==> width
            * height * 4 <= usize::MAX && bytes@.len() < width * height * 4,
        match result {
            Ok(rgba) => rgba@ == Seq::new(
                (width * height * 4) as nat,
                |i: int| straight_byte(bytes@, i),
            ),
            Err(_) => true,
        },
{
    assert(0 <= width * height <= u32::MAX * u32::MAX) by (nonlinear_arith)
        requires
            0 <= width <= u32::MAX,
            0 <= height <= u32::MAX,
    ;
    let Some(pixels) = (width as usize).checked_mul(height as usize) else {
        return Err(ScreenshotError::SizeOverflow);
    };
    let Some(length) = pixels.checked_mul(4) else {
        return Err(ScreenshotError::SizeOverflow);
    };
    if bytes.len() < length {
        return Err(ScreenshotError::IncompleteBuffer);
    }
    let mut rgba: Vec<u8> = Vec::new();
    let mut pixel: usize = 0;
    while pixel < pixels
        invariant
            pixel <= pixels,
            length == pixels * 4,
            length <= bytes@.len(),
            rgba@ == Seq::new((pixel * 4) as nat, |i: int| straight_byte(bytes@, i)),
        decreases pixels - pixel,
    {
        let at: usize = pixel * 4;
        let alpha: u8 = bytes[at + 3];
        rgba.push(straighten(bytes[at + 2], alpha));
        rgba.push(straighten(bytes[at + 1], alpha));
        rgba.push(straighten(bytes[at], alpha));
        rgba.push(alpha);
        pixel += 1;
        assert(rgba@ =~= Seq::new((pixel * 4) as nat, |i: int| straight_byte(bytes@, i)));
    }
    Ok(rgba)
}

} // verus!
