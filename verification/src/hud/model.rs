//! How the display's state answers statuses, lost connections and time.

use crate::hud::present::{outcome_action, present_outcome, presented};
use crate::hud::{
    clock_text, elapsed_since, format_elapsed, is_persistent, no_caption, no_signal_history,
    persistent, since, title_caption, Caption, CaptionView, FramePlan, FrameTarget, Kind, Model,
    ModelView, ResultView, ShownResult, SignalHistory, TrackShape, TrackStep, Visibility,
    DISCONNECT_DELAY, INTERACTION_HOLD, MONITOR_DELAY, NOTICE_HOLD, RESULT_FADE, SECOND, SETTLE,
    STATUS_STALE_AFTER, WAVEFORM_EASE,
};
use crate::ipc::{
    same_text, same_waveform, stage_progress, AudioWaveform, Completeness, OperationKind, Stage,
    StageView, StateKind, StateKindView, StatusSnapshot, StatusSnapshotView, TerminalOutcomeView,
};
use crate::text::{decimal, push_decimal};
use vstd::prelude::*;
use vstd::string::*;

verus! {

/// Whether a status tells of running work.
pub open spec fn is_active(status: StatusSnapshotView) -> bool {
    status.state == StateKindView::Recording || status.state == StateKindView::Processing
}

/// Age of a phase: what the daemon reports or what was watched, the longer one.
pub open spec fn phase_age(status: StatusSnapshotView, phase_since: u64, now: u64) -> int {
    if status.elapsed * SECOND >= since(now, phase_since) {
        status.elapsed * SECOND
    } else {
        since(now, phase_since)
    }
}

/// What is shown of a recording.
pub open spec fn recording_display(
    status: StatusSnapshotView,
    signal: SignalHistory,
    elapsed_label: Seq<char>,
    age: int,
) -> (Kind, CaptionView) {
    if status.signal is None {
        if signal.monitored || age >= MONITOR_DELAY {
            (
                Kind::Attention,
                CaptionView {
                    title: "Input status unavailable"@,
                    detail: "Capture is not confirmed by the input monitor."@,
                    action: "Cantrip actions → Settings"@,
                },
            )
        } else if status.hud.labels {
            (Kind::Working, title_caption("Starting microphone…"@))
        } else {
            (Kind::Working, no_caption())
        }
    } else if signal.warning {
        (
            Kind::Attention,
            CaptionView {
                title: "No input signal"@,
                detail: "Check the microphone input."@,
                action: Seq::empty(),
            },
        )
    } else if status.hud.labels {
        (Kind::Recording, title_caption(elapsed_label))
    } else {
        (Kind::Recording, no_caption())
    }
}

/// The title of a stage of processing.
pub open spec fn processing_title(status: StatusSnapshotView) -> Seq<char> {
    match status.stage {
        Some(StageView::FinalizingAudio) => "Finishing recording…"@,
        Some(StageView::RemovingRecording) => "Removing saved audio…"@,
        Some(StageView::CleaningUp) => "Finishing text…"@,
        Some(StageView::Delivering) => "Delivering text…"@,
        Some(StageView::Cancelling) => "Cancelling… Waiting for current work."@,
        Some(StageView::Transcribing { completed, total }) => {
            let verb = if status.operation_kind == Some(OperationKind::Recovery) {
                "Recovering recording"@
            } else {
                "Transcribing"@
            };
            match stage_progress(StageView::Transcribing { completed, total }) {
                Some(progress) => verb + " · "@ + decimal(progress.0 as nat) + " of "@ + decimal(
                    progress.1 as nat,
                ) + " complete"@,
                None => verb + "…"@,
            }
        },
        _ => "Working…"@,
    }
}

/// What is shown of processing: its words only where labels are on, or where the
/// stage undoes or removes something.
pub open spec fn processing_display(status: StatusSnapshotView) -> (Kind, CaptionView) {
    let undoing = status.stage == Some(StageView::Cancelling) || status.stage == Some(
        StageView::RemovingRecording,
    );
    let finishing = status.stage == Some(StageView::FinalizingAudio) || status.stage == Some(
        StageView::CleaningUp,
    ) || status.stage == Some(StageView::Delivering);
    (
        if finishing {
            Kind::Finishing
        } else {
            Kind::Working
        },
        if status.hud.labels || undoing {
            title_caption(processing_title(status))
        } else {
            no_caption()
        },
    )
}

/// The words for a connection that has been gone too long.
pub open spec fn lost_caption() -> CaptionView {
    CaptionView {
        title: "Cantrip connection lost"@,
        detail: "Recording and saved-audio status unknown."@,
        action: "Cantrip actions → Check setup"@,
    }
}

/// The words for a daemon state that the display does not know.
pub open spec fn unknown_caption() -> CaptionView {
    CaptionView {
        title: "Cantrip status unavailable"@,
        detail: "Recording and delivery status unknown."@,
        action: "Cantrip actions → Check setup"@,
    }
}

impl ModelView {
    /// A display that has seen no status.
    pub open spec fn started(now: u64) -> ModelView {
        ModelView {
            snapshot: None,
            operation: None,
            phase_since: now,
            signal: no_signal_history(),
            outcome_event: None,
            notice_event: None,
            result: None,
            interaction: None,
            lost_since: None,
            lost_active: false,
            kind: None,
            caption: no_caption(),
            activity_since: now,
            caption_revision: 0,
            progress: None,
            waveform: None,
            elapsed_label: Seq::empty(),
            elapsed_value: None,
            reduced_motion: false,
            desktop_reduced_motion: false,
            track: Seq::empty(),
        }
    }

    /// Whether the last status told of running work.
    pub open spec fn active(self) -> bool {
        match self.snapshot {
            Some(status) => is_active(status),
            None => false,
        }
    }

    /// Whether a status comes from another daemon process than the last one.
    pub open spec fn epoch_changed(self, status: StatusSnapshotView) -> bool {
        match self.snapshot {
            Some(last) => last.epoch != status.epoch,
            None => false,
        }
    }

    /// Whether a status tells of work that was not running before.
    pub open spec fn new_operation(self, status: StatusSnapshotView) -> bool {
        is_active(status) && (self.epoch_changed(status) || !self.active() || self.operation
            != status.operation_id)
    }

    /// Whether a status tells of another coarse state than the last one.
    pub open spec fn phase_changed(self, status: StatusSnapshotView) -> bool {
        match self.snapshot {
            Some(last) => last.state != status.state,
            None => true,
        }
    }

    /// Whether what the daemon can do has changed since the last status.
    pub open spec fn capabilities_changed(self, status: StatusSnapshotView) -> bool {
        match self.snapshot {
            Some(last) => last.capabilities != status.capabilities,
            None => false,
        }
    }

    /// The shape of the track for what is shown.
    pub open spec fn shape(
        self,
        kind: Option<Kind>,
        activity_since: u64,
        progress: Option<(u32, u32)>,
        waveform: Option<AudioWaveform>,
        now: u64,
    ) -> TrackShape {
        match kind {
            Some(Kind::Recording) => TrackShape::Recording(waveform),
            Some(Kind::Working) | Some(Kind::Finishing) => TrackShape::Activity {
                kind: kind->0,
                age: since(now, activity_since) as u64,
                progress,
                reduced: self.reduced_motion,
            },
            Some(Kind::Resolved) => TrackShape::Resolved,
            Some(Kind::Attention) => TrackShape::Attention,
            _ => TrackShape::Quiet,
        }
    }

    /// The display with the given contents: the track moves only where what it
    /// shows has changed, and words count a revision only where they differ.
    pub open spec fn composed(
        self,
        kind: Option<Kind>,
        caption: CaptionView,
        progress: Option<(u32, u32)>,
        waveform: Option<AudioWaveform>,
        now: u64,
    ) -> ModelView {
        let transition = kind != self.kind || progress != self.progress;
        let activity_since = if kind != self.kind {
            now
        } else {
            self.activity_since
        };
        ModelView {
            activity_since,
            caption_revision: if self.caption == caption {
                self.caption_revision
            } else if self.caption_revision == u64::MAX {
                0
            } else {
                (self.caption_revision + 1) as u64
            },
            track: if transition || waveform != self.waveform {
                self.track.push(
                    TrackStep::Target {
                        shape: self.shape(kind, activity_since, progress, waveform, now),
                        at: now,
                        duration: if transition {
                            SETTLE
                        } else {
                            WAVEFORM_EASE
                        },
                        state_change: transition,
                        reduced: self.reduced_motion,
                    },
                )
            } else {
                self.track
            },
            kind,
            caption,
            progress,
            waveform,
            ..self
        }
    }

    /// Feedback and results whose time is over are gone.
    pub open spec fn expired(self, now: u64) -> ModelView {
        ModelView {
            interaction: match self.interaction {
                Some(interaction) if now >= interaction.1 => None,
                _ => self.interaction,
            },
            result: match self.result {
                Some(result) if result.visibility.opacity(now, self.reduced_motion) is None => None,
                _ => self.result,
            },
            ..self
        }
    }

    /// The contents that the last status calls for.
    pub open spec fn displayed(self, now: u64) -> ModelView {
        match self.snapshot {
            None => self,
            Some(status) => match status.state {
                StateKindView::Recording => {
                    let display = recording_display(
                        status,
                        self.signal,
                        self.elapsed_label,
                        phase_age(status, self.phase_since, now),
                    );
                    self.composed(
                        Some(display.0),
                        display.1,
                        None,
                        match status.signal {
                            Some(signal) => Some(signal.waveform),
                            None => None,
                        },
                        now,
                    )
                },
                StateKindView::Processing => {
                    let display = processing_display(status);
                    self.composed(
                        Some(display.0),
                        display.1,
                        match status.stage {
                            Some(stage) => stage_progress(stage),
                            None => None,
                        },
                        None,
                        now,
                    )
                },
                StateKindView::Idle => match self.result {
                    Some(result) => self.composed(
                        Some(result.kind),
                        result.caption,
                        None,
                        None,
                        now,
                    ),
                    None => if self.interaction is Some {
                        self.composed(Some(Kind::Neutral), no_caption(), None, None, now)
                    } else {
                        self.composed(None, no_caption(), None, None, now)
                    },
                },
                StateKindView::Unknown(_) => self.composed(
                    Some(Kind::Attention),
                    unknown_caption(),
                    None,
                    None,
                    now,
                ),
            },
        }
    }

    /// The display at an instant. Work whose connection is lost keeps its last
    /// contents until the outage is long enough to tell.
    pub open spec fn refreshed(self, now: u64) -> ModelView {
        let current = self.expired(now);
        match current.lost_since {
            Some(lost) if current.lost_active => if since(now, lost) >= DISCONNECT_DELAY {
                current.composed(Some(Kind::Attention), lost_caption(), None, None, now)
            } else {
                current
            },
            _ => current.displayed(now),
        }
    }

    /// The display after a failed status request: the first one dates the outage.
    pub open spec fn disconnected(self, now: u64) -> ModelView {
        if self.lost_since is None {
            ModelView { lost_since: Some(now), lost_active: self.active(), ..self }.refreshed(now)
        } else {
            self.refreshed(now)
        }
    }

    /// The display between statuses: silence of the daemon counts as an outage
    /// from the moment at which its last status went stale.
    pub open spec fn connection_refreshed(self, last_status: u64, now: u64) -> ModelView {
        if self.lost_since is None && since(now, last_status) >= STATUS_STALE_AFTER {
            self.disconnected((last_status + STATUS_STALE_AFTER) as u64).refreshed(now)
        } else {
            self.refreshed(now)
        }
    }

    /// The state in which a status finds the display: the outage is over, another
    /// daemon process starts afresh, and a new operation starts from rest.
    pub open spec fn begun(self, status: StatusSnapshotView, now: u64) -> ModelView {
        let renewed = ModelView {
            lost_since: None,
            lost_active: false,
            reduced_motion: match status.hud.reduced_motion {
                Some(reduced) => reduced,
                None => self.desktop_reduced_motion,
            },
            ..self
        };
        let fresh = if self.epoch_changed(status) {
            ModelView {
                outcome_event: None,
                notice_event: None,
                result: None,
                interaction: None,
                ..renewed
            }
        } else {
            renewed
        };
        if self.new_operation(status) {
            ModelView {
                operation: status.operation_id,
                phase_since: now,
                signal: no_signal_history(),
                result: None,
                interaction: None,
                elapsed_value: None,
                kind: None,
                waveform: None,
                progress: None,
                track: fresh.track.push(TrackStep::Reset { at: now }),
                ..fresh
            }
        } else {
            ModelView {
                phase_since: if self.phase_changed(status) {
                    now
                } else {
                    fresh.phase_since
                },
                result: if is_active(status) {
                    None
                } else {
                    fresh.result
                },
                ..fresh
            }
        }
    }

    /// The state with a recording's signal and duration taken in.
    pub open spec fn listened(self, status: StatusSnapshotView, now: u64) -> ModelView {
        if status.state != StateKindView::Recording {
            self
        } else {
            let labelled = status.hud.labels && self.elapsed_value != Some(status.elapsed);
            ModelView {
                signal: self.signal.updated(
                    status.signal,
                    phase_age(status, self.phase_since, now),
                    now,
                ),
                elapsed_value: if labelled {
                    Some(status.elapsed)
                } else {
                    self.elapsed_value
                },
                elapsed_label: if labelled {
                    "Recording · "@ + clock_text(status.elapsed as nat)
                } else {
                    self.elapsed_label
                },
                ..self
            }
        }
    }

    /// Whether an outcome was not seen before.
    pub open spec fn outcome_fresh(self, outcome: TerminalOutcomeView) -> bool {
        match self.outcome_event {
            Some(event) => outcome.event_id > event,
            None => true,
        }
    }

    /// Whether the result shown is that of the given outcome.
    pub open spec fn shows(self, event_id: u64) -> bool {
        match self.result {
            Some(result) => result.event_id == Some(event_id),
            None => false,
        }
    }

    /// A finished operation as it is shown: an empty take after a warning says
    /// that no signal was detected.
    pub open spec fn result_of(
        self,
        outcome: TerminalOutcomeView,
        status: StatusSnapshotView,
        now: u64,
        initial: bool,
    ) -> ShownResult {
        let result = presented(outcome, status, now, self.reduced_motion);
        let belongs = self.operation is None || outcome.operation_id == self.operation;
        if !initial && belongs && outcome.completeness == Completeness::Empty
            && self.signal.warning {
            ShownResult {
                caption: CaptionView {
                    title: "No input signal detected"@,
                    detail: if outcome.artifacts.audio {
                        "Audio saved. Check the microphone input."@
                    } else {
                        "Check the microphone input."@
                    },
                    action: if result.caption.action.len() == 0 {
                        "Cantrip actions → Settings"@
                    } else {
                        result.caption.action
                    },
                },
                ..result
            }
        } else {
            result
        }
    }

    /// The state with the status's outcome taken in. A fresh outcome is shown once,
    /// unless work runs, it is dismissed, or it is a success that was cached before
    /// this display (or this daemon process) was there.
    pub open spec fn outcome_observed(
        self,
        status: StatusSnapshotView,
        now: u64,
        initial: bool,
        capabilities_changed: bool,
    ) -> ModelView {
        match status.outcome {
            None => self,
            Some(outcome) => {
                let remaining = if outcome.dismissed && self.shows(outcome.event_id) {
                    None
                } else {
                    self.result
                };
                if self.outcome_fresh(outcome) {
                    ModelView {
                        outcome_event: Some(outcome.event_id),
                        result: if !is_active(status) && !outcome.dismissed && (!initial
                            || is_persistent(outcome)) {
                            Some(self.result_of(outcome, status, now, initial))
                        } else {
                            remaining
                        },
                        ..self
                    }
                } else {
                    ModelView {
                        result: match remaining {
                            Some(result) if is_persistent(outcome) && capabilities_changed
                                && result.event_id == Some(outcome.event_id) => Some(
                                ShownResult {
                                    caption: CaptionView {
                                        action: outcome_action(outcome, status.capabilities),
                                        ..result.caption
                                    },
                                    ..result
                                },
                            ),
                            _ => remaining,
                        },
                        ..self
                    }
                }
            },
        }
    }

    /// The state with a notice of an interruption, where work was interrupted and
    /// nothing else tells how it ended.
    pub open spec fn resumed(
        self,
        status: StatusSnapshotView,
        now: u64,
        interrupted: bool,
        restarted: bool,
    ) -> ModelView {
        if interrupted && !is_active(status) && self.result is None {
            let saved = match status.outcome {
                Some(outcome) => outcome.operation_id == self.operation && (
                outcome.artifacts.audio || outcome.artifacts.text),
                None => false,
            };
            ModelView {
                result: Some(
                    ShownResult {
                        event_id: None,
                        kind: Kind::Neutral,
                        caption: CaptionView {
                            title: if restarted {
                                "Cantrip restarted"@
                            } else {
                                "Connection restored"@
                            },
                            detail: if saved {
                                "The previous take is available in saved recordings."@
                            } else {
                                "The previous take's result is unknown."@
                            },
                            action: "Cantrip → Recordings and recovery"@,
                        },
                        visibility: Visibility::Until((now + NOTICE_HOLD) as u64),
                    },
                ),
                ..self
            }
        } else {
            self
        }
    }

    /// The state with the status's notice taken in: a fresh one is shown once,
    /// unless it was there before this display; without one, none is shown.
    pub open spec fn noticed(
        self,
        status: StatusSnapshotView,
        now: u64,
        initial: bool,
    ) -> ModelView {
        match status.notice {
            None => ModelView { interaction: None, ..self },
            Some(notice) => {
                let fresh = match self.notice_event {
                    Some(event) => notice.event_id > event,
                    None => true,
                };
                if fresh {
                    ModelView {
                        notice_event: Some(notice.event_id),
                        interaction: if initial {
                            self.interaction
                        } else {
                            Some((notice.message, (now + INTERACTION_HOLD) as u64))
                        },
                        ..self
                    }
                } else {
                    self
                }
            },
        }
    }

    /// The display after a status.
    pub open spec fn applied(self, status: StatusSnapshotView, now: u64) -> ModelView {
        let restarted = self.epoch_changed(status);
        let initial = self.snapshot is None || restarted;
        let interrupted = (self.lost_since is Some && self.lost_active) || (restarted
            && self.active());
        let seen = self.begun(status, now).listened(status, now).outcome_observed(
            status,
            now,
            initial,
            self.capabilities_changed(status),
        ).resumed(status, now, interrupted, restarted).noticed(status, now, initial);
        ModelView { snapshot: Some(status), ..seen }.refreshed(now)
    }

    /// Which frame an instant shows: nothing moves while the connection is lost
    /// and the loss is not shown.
    pub open spec fn frame_plan(self, now: u64) -> FramePlan {
        if self.lost_since is Some && self.kind != Some(Kind::Attention) {
            FramePlan::Presented
        } else {
            let target = match self.kind {
                Some(Kind::Working) | Some(Kind::Finishing) => FrameTarget::Activity {
                    kind: self.kind->0,
                    age: since(now, self.activity_since) as u64,
                    progress: self.progress,
                    reduced: self.reduced_motion,
                },
                _ => FrameTarget::Destination,
            };
            if self.reduced_motion {
                FramePlan::Still(target)
            } else {
                FramePlan::Toward(target)
            }
        }
    }

    /// Opacity at an instant, as a share of [`RESULT_FADE`].
    pub open spec fn opacity(self, now: u64) -> u64 {
        if self.active() || self.lost_since is Some {
            RESULT_FADE
        } else {
            match self.result {
                Some(result) => match result.visibility.opacity(now, self.reduced_motion) {
                    Some(opacity) => opacity,
                    None => RESULT_FADE,
                },
                None => RESULT_FADE,
            }
        }
    }

    /// Whether frames must follow each other, given whether the track is under way.
    pub open spec fn animated(self, track_moving: bool) -> bool {
        let working = match self.kind {
            Some(Kind::Recording) | Some(Kind::Working) | Some(Kind::Finishing) => true,
            _ => false,
        };
        let fading = match self.result {
            Some(result) => result.visibility != Visibility::Persistent,
            None => false,
        };
        let connected = self.lost_since is None;
        !self.reduced_motion && self.kind is Some && ((connected && (working || fading)) || ((
        connected || self.kind == Some(Kind::Attention)) && track_moving))
    }
}

impl Model {
    /// A display that has seen no status.
    pub fn new(now: u64) -> (result: Self)
        ensures
            result@ == ModelView::started(now),
    {
        Model {
            snapshot: None,
            operation: None,
            phase_since: now,
            signal: SignalHistory::default(),
            outcome_event: None,
            notice_event: None,
            result: None,
            interaction: None,
            lost_since: None,
            lost_active: false,
            kind: None,
            caption: Caption::default(),
            activity_since: now,
            caption_revision: 0,
            progress: None,
            waveform: None,
            elapsed_label: String::new(),
            elapsed_value: None,
            reduced_motion: false,
            desktop_reduced_motion: false,
            track: Vec::new(),
        }
    }

    /// Whether the last status told of running work.
    pub fn active(&self) -> (result: bool)
        ensures
            result == self@.active(),
    {
        match &self.snapshot {
            Some(status) => status_active(status),
            None => false,
        }
    }

    /// Take in a status.
    pub fn apply(&mut self, status: StatusSnapshot, now: u64)
        requires
            now + NOTICE_HOLD <= u64::MAX,
        ensures
            final(self)@ == old(self)@.applied(status@, now),
    {
        let first = self.snapshot.is_none();
        let restarted = match &self.snapshot {
            Some(last) => !(last.epoch == status.epoch),
            None => false,
        };
        let capabilities_changed = match &self.snapshot {
            Some(last) => last.capabilities != status.capabilities,
            None => false,
        };
        let initial = first || restarted;
        let was_active = self.active();
        let interrupted = (self.lost_since.is_some() && self.lost_active) || (restarted
            && was_active);
        self.begin(&status, now);
        self.listen(&status, now);
        self.observe_outcome(&status, now, initial, capabilities_changed);
        self.resume(&status, now, interrupted, restarted);
        self.observe_notice(&status, now, initial);
        self.snapshot = Some(status);
        self.refresh(now);
    }

    fn begin(&mut self, status: &StatusSnapshot, now: u64)
        ensures
            final(self)@ == old(self)@.begun(status@, now),
    {
        let epoch_changed = match &self.snapshot {
            Some(last) => !(last.epoch == status.epoch),
            None => false,
        };
        let active = status_active(status);
        let was_active = self.active();
        let phase_changed = match &self.snapshot {
            Some(last) => !last.state.same(&status.state),
            None => true,
        };
        let new_operation = active && (epoch_changed || !was_active || !same_text(
            &self.operation,
            &status.operation_id,
        ));
        self.lost_since = None;
        self.lost_active = false;
        self.reduced_motion = match status.hud.reduced_motion {
            Some(reduced) => reduced,
            None => self.desktop_reduced_motion,
        };
        if epoch_changed {
            self.outcome_event = None;
            self.notice_event = None;
            self.result = None;
            self.interaction = None;
        }
        if new_operation {
            self.operation = status.operation_id.clone();
            self.phase_since = now;
            self.signal = SignalHistory::default();
            self.result = None;
            self.interaction = None;
            self.elapsed_value = None;
            // A deliberate operation interrupts even an unfinished result fade.
            self.track.push(TrackStep::Reset { at: now });
            self.kind = None;
            self.waveform = None;
            self.progress = None;
        } else if phase_changed {
            self.phase_since = now;
        }
        if active {
            self.result = None;
        }
    }

    fn listen(&mut self, status: &StatusSnapshot, now: u64)
        ensures
            final(self)@ == old(self)@.listened(status@, now),
    {
        if matches!(status.state, StateKind::Recording) {
            let age: u128 = age_of(status, self.phase_since, now);
            self.signal.update(status.signal, age, now);
            if status.hud.labels && self.elapsed_value != Some(status.elapsed) {
                self.elapsed_value = Some(status.elapsed);
                let mut label: String = "Recording · ".to_owned();
                label.append(format_elapsed(status.elapsed).as_str());
                self.elapsed_label = label;
            }
        }
    }

    fn observe_outcome(
        &mut self,
        status: &StatusSnapshot,
        now: u64,
        initial: bool,
        capabilities_changed: bool,
    )
        requires
            now + NOTICE_HOLD <= u64::MAX,
        ensures
            final(self)@ == old(self)@.outcome_observed(
                status@,
                now,
                initial,
                capabilities_changed,
            ),
    {
        let Some(outcome) = &status.outcome else {
            return ;
        };
        let fresh = match self.outcome_event {
            Some(event) => outcome.event_id > event,
            None => true,
        };
        let belongs = self.operation.is_none() || same_text(
            &outcome.operation_id,
            &self.operation,
        );
        let shown = match &self.result {
            Some(result) => result.event_id == Some(outcome.event_id),
            None => false,
        };
        if outcome.dismissed && shown {
            self.result = None;
        }
        if fresh {
            self.outcome_event = Some(outcome.event_id);
            // Cached successes are seeded silently. Once idle, a fresh event is
            // authoritative even if its whole operation ran between polls.
            if !status_active(status) && !outcome.dismissed && (!initial || persistent(outcome)) {
                let mut result: ResultView = present_outcome(
                    outcome,
                    status,
                    now,
                    self.reduced_motion,
                );
                if !initial && belongs && outcome.completeness == Completeness::Empty
                    && self.signal.warning {
                    result.caption.title = "No input signal detected".to_owned();
                    result.caption.detail = if outcome.artifacts.audio {
                        "Audio saved. Check the microphone input.".to_owned()
                    } else {
                        "Check the microphone input.".to_owned()
                    };
                    if result.caption.action.as_str().is_empty() {
                        result.caption.action = "Cantrip actions → Settings".to_owned();
                    }
                }
                self.result = Some(result);
            }
        } else if persistent(outcome) && capabilities_changed {
            let previous = self.result.take();
            self.result = match previous {
                Some(mut result) => {
                    if result.event_id == Some(outcome.event_id) {
                        let renewed = present_outcome(outcome, status, now, self.reduced_motion);
                        result.caption.action = renewed.caption.action;
                    }
                    Some(result)
                },
                None => None,
            };
        }
    }

    fn resume(&mut self, status: &StatusSnapshot, now: u64, interrupted: bool, restarted: bool)
        requires
            now + NOTICE_HOLD <= u64::MAX,
        ensures
            final(self)@ == old(self)@.resumed(status@, now, interrupted, restarted),
    {
        if interrupted && !status_active(status) && self.result.is_none() {
            let saved = match &status.outcome {
                Some(outcome) => same_text(&outcome.operation_id, &self.operation) && (
                outcome.artifacts.audio || outcome.artifacts.text),
                None => false,
            };
            let title = if restarted {
                "Cantrip restarted"
            } else {
                "Connection restored"
            };
            let detail = if saved {
                "The previous take is available in saved recordings."
            } else {
                "The previous take's result is unknown."
            };
            self.result = Some(
                ResultView {
                    event_id: None,
                    kind: Kind::Neutral,
                    caption: Caption::full(title, detail, "Cantrip → Recordings and recovery"),
                    visibility: Visibility::Until(now + NOTICE_HOLD),
                },
            );
        }
    }

    fn observe_notice(&mut self, status: &StatusSnapshot, now: u64, initial: bool)
        requires
            now + NOTICE_HOLD <= u64::MAX,
        ensures
            final(self)@ == old(self)@.noticed(status@, now, initial),
    {
        match &status.notice {
            None => {
                self.interaction = None;
            },
            Some(notice) => {
                let fresh = match self.notice_event {
                    Some(event) => notice.event_id > event,
                    None => true,
                };
                if fresh {
                    self.notice_event = Some(notice.event_id);
                    if !initial {
                        self.interaction = Some((notice.message.clone(), now + INTERACTION_HOLD));
                    }
                }
            },
        }
    }

    /// Take in the time of the last status: one that is too old is an outage.
    pub fn refresh_connection(&mut self, last_status: u64, now: u64)
        ensures
            final(self)@ == old(self)@.connection_refreshed(last_status, now),
    {
        if self.lost_since.is_none() && elapsed_since(now, last_status) >= STATUS_STALE_AFTER {
            self.disconnected(last_status + STATUS_STALE_AFTER);
        }
        self.refresh(now);
    }

    /// Take in a failed status request.
    pub fn disconnected(&mut self, now: u64)
        ensures
            final(self)@ == old(self)@.disconnected(now),
    {
        if self.lost_since.is_none() {
            self.lost_since = Some(now);
            self.lost_active = self.active();
        }
        self.refresh(now);
    }

    /// Bring the display to an instant.
    pub fn refresh(&mut self, now: u64)
        ensures
            final(self)@ == old(self)@.refreshed(now),
    {
        let over = match &self.interaction {
            Some(interaction) => now >= interaction.1,
            None => false,
        };
        if over {
            self.interaction = None;
        }
        let faded = match &self.result {
            Some(result) => result.visibility.alpha(now, self.reduced_motion).is_none(),
            None => false,
        };
        if faded {
            self.result = None;
        }
        if let Some(lost) = self.lost_since {
            // Short outages are coalesced without erasing evidence or continuing
            // a supposedly live waveform from stale data.
            if self.lost_active {
                if elapsed_since(now, lost) >= DISCONNECT_DELAY {
                    let caption = Caption::full(
                        "Cantrip connection lost",
                        "Recording and saved-audio status unknown.",
                        "Cantrip actions → Check setup",
                    );
                    self.set_composition(Some(Kind::Attention), caption, None, None, now);
                }
                return ;
            }
        }
        self.display(now);
    }

    fn display(&mut self, now: u64)
        ensures
            final(self)@ == old(self)@.displayed(now),
    {
        let Some(status) = &self.snapshot else {
            return ;
        };
        match &status.state {
            StateKind::Recording => {
                let age: u128 = age_of(status, self.phase_since, now);
                let (kind, caption) = show_recording(
                    status,
                    &self.signal,
                    &self.elapsed_label,
                    age,
                );
                let waveform = match status.signal {
                    Some(signal) => Some(signal.waveform),
                    None => None,
                };
                self.set_composition(Some(kind), caption, None, waveform, now);
            },
            StateKind::Processing => {
                let (kind, caption) = show_processing(status);
                let progress = match &status.stage {
                    Some(stage) => stage.measured_progress(),
                    None => None,
                };
                self.set_composition(Some(kind), caption, progress, None, now);
            },
            StateKind::Idle => {
                match &self.result {
                    Some(result) => {
                        let kind = result.kind;
                        let caption = result.caption.clone();
                        self.set_composition(Some(kind), caption, None, None, now);
                    },
                    None => {
                        let kind = if self.interaction.is_some() {
                            Some(Kind::Neutral)
                        } else {
                            None
                        };
                        self.set_composition(kind, Caption::default(), None, None, now);
                    },
                }
            },
            StateKind::Unknown(_) => {
                let caption = Caption::full(
                    "Cantrip status unavailable",
                    "Recording and delivery status unknown.",
                    "Cantrip actions → Check setup",
                );
                self.set_composition(Some(Kind::Attention), caption, None, None, now);
            },
        }
    }

    fn set_composition(
        &mut self,
        kind: Option<Kind>,
        caption: Caption,
        progress: Option<(u32, u32)>,
        waveform: Option<AudioWaveform>,
        now: u64,
    )
        ensures
            final(self)@ == old(self)@.composed(kind, caption@, progress, waveform, now),
    {
        let changed = kind != self.kind;
        if changed {
            self.activity_since = now;
        }
        if !self.caption.same(&caption) {
            self.caption_revision = self.caption_revision.wrapping_add(1);
        }
        let transition = changed || progress != self.progress;
        let measured = match (&waveform, &self.waveform) {
            (Some(new), Some(last)) => !same_waveform(new, last),
            (None, None) => false,
            _ => true,
        };
        if transition || measured {
            let shape = match kind {
                Some(Kind::Recording) => TrackShape::Recording(waveform),
                Some(Kind::Working) => TrackShape::Activity {
                    kind: Kind::Working,
                    age: elapsed_since(now, self.activity_since),
                    progress,
                    reduced: self.reduced_motion,
                },
                Some(Kind::Finishing) => TrackShape::Activity {
                    kind: Kind::Finishing,
                    age: elapsed_since(now, self.activity_since),
                    progress,
                    reduced: self.reduced_motion,
                },
                Some(Kind::Resolved) => TrackShape::Resolved,
                Some(Kind::Attention) => TrackShape::Attention,
                _ => TrackShape::Quiet,
            };
            let duration: u64 = if transition {
                SETTLE
            } else {
                WAVEFORM_EASE
            };
            self.track.push(
                TrackStep::Target {
                    shape,
                    at: now,
                    duration,
                    state_change: transition,
                    reduced: self.reduced_motion,
                },
            );
        }
        self.kind = kind;
        self.caption = caption;
        self.progress = progress;
        self.waveform = waveform;
    }

    /// Which frame an instant shows.
    pub fn frame(&self, now: u64) -> (result: FramePlan)
        ensures
            result == self@.frame_plan(now),
    {
        if self.lost_since.is_some() && self.kind != Some(Kind::Attention) {
            return FramePlan::Presented;
        }
        let target = match self.kind {
            Some(Kind::Working) => FrameTarget::Activity {
                kind: Kind::Working,
                age: elapsed_since(now, self.activity_since),
                progress: self.progress,
                reduced: self.reduced_motion,
            },
            Some(Kind::Finishing) => FrameTarget::Activity {
                kind: Kind::Finishing,
                age: elapsed_since(now, self.activity_since),
                progress: self.progress,
                reduced: self.reduced_motion,
            },
            _ => FrameTarget::Destination,
        };
        if self.reduced_motion {
            FramePlan::Still(target)
        } else {
            FramePlan::Toward(target)
        }
    }

    /// Opacity at an instant, as a share of [`RESULT_FADE`].
    pub fn alpha(&self, now: u64) -> (result: u64)
        ensures
            result == self@.opacity(now),
    {
        if self.active() || self.lost_since.is_some() {
            return RESULT_FADE;
        }
        match &self.result {
            Some(result) => match result.visibility.alpha(now, self.reduced_motion) {
                Some(opacity) => opacity,
                None => RESULT_FADE,
            },
            None => RESULT_FADE,
        }
    }

    /// Whether frames must follow each other, given whether the track is under way.
    pub fn animate(&self, track_moving: bool) -> (result: bool)
        ensures
            result == self@.animated(track_moving),
    {
        let fading = match &self.result {
            Some(result) => matches!(result.visibility, Visibility::Until(_)),
            None => false,
        };
        let connected = self.lost_since.is_none();
        !self.reduced_motion && self.kind.is_some() && ((connected && (matches!(
            self.kind,
            Some(Kind::Recording | Kind::Working | Kind::Finishing)
        ) || fading)) || ((connected || self.kind == Some(Kind::Attention)) && track_moving))
    }

    /// Record that the track's own frame of an instant is what is shown.
    pub fn present_track(&mut self, at: u64)
        ensures
            final(self)@ == (ModelView {
                track: old(self)@.track.push(TrackStep::PresentTrack { at }),
                ..old(self)@
            }),
    {
        self.track.push(TrackStep::PresentTrack { at });
    }

    /// Record that the frame planned for an instant is what is shown.
    pub fn present_frame(&mut self, at: u64)
        ensures
            final(self)@ == (ModelView {
                track: old(self)@.track.push(
                    TrackStep::PresentFrame { at, plan: old(self)@.frame_plan(at) },
                ),
                ..old(self)@
            }),
    {
        let plan = self.frame(at);
        self.track.push(TrackStep::PresentFrame { at, plan });
    }

    /// Date the running motion of the track back to an instant.
    pub fn date_track(&mut self, at: u64)
        ensures
            final(self)@ == (ModelView {
                track: old(self)@.track.push(TrackStep::Since { at }),
                ..old(self)@
            }),
    {
        self.track.push(TrackStep::Since { at });
    }

    /// Hand over the track's steps so far, in order.
    pub fn take_track(&mut self) -> (result: Vec<TrackStep>)
        ensures
            result@ == old(self)@.track,
            final(self)@ == (ModelView { track: Seq::empty(), ..old(self)@ }),
    {
        let mut result: Vec<TrackStep> = Vec::new();
        result.append(&mut self.track);
        assert(result@ =~= old(self)@.track);
        assert(self.track@ =~= Seq::empty());
        result
    }
}

/// Whether a status tells of running work.
pub fn status_active(status: &StatusSnapshot) -> (result: bool)
    ensures
        result == is_active(status@),
{
    matches!(status.state, StateKind::Recording | StateKind::Processing)
}

fn age_of(status: &StatusSnapshot, phase_since: u64, now: u64) -> (result: u128)
    ensures
        result == phase_age(status@, phase_since, now),
{
    let reported: u128 = (status.elapsed as u128) * (SECOND as u128);
    let watched: u128 = elapsed_since(now, phase_since) as u128;
    if reported >= watched {
        reported
    } else {
        watched
    }
}

fn show_recording(
    status: &StatusSnapshot,
    signal: &SignalHistory,
    elapsed_label: &String,
    age: u128,
) -> (result: (Kind, Caption))
    ensures
        (result.0, result.1@) == recording_display(status@, *signal, elapsed_label@, age as int),
{
    if status.signal.is_none() {
        if signal.monitored || age >= MONITOR_DELAY as u128 {
            (
                Kind::Attention,
                Caption::full(
                    "Input status unavailable",
                    "Capture is not confirmed by the input monitor.",
                    "Cantrip actions → Settings",
                ),
            )
        } else if status.hud.labels {
            (Kind::Working, Caption::title("Starting microphone…".to_owned()))
        } else {
            (Kind::Working, Caption::default())
        }
    } else if signal.warning {
        let caption = Caption {
            title: "No input signal".to_owned(),
            detail: "Check the microphone input.".to_owned(),
            action: String::new(),
        };
        (Kind::Attention, caption)
    } else if status.hud.labels {
        (Kind::Recording, Caption::title(elapsed_label.clone()))
    } else {
        (Kind::Recording, Caption::default())
    }
}

fn show_processing(status: &StatusSnapshot) -> (result: (Kind, Caption))
    ensures
        (result.0, result.1@) == processing_display(status@),
{
    let undoing = matches!(status.stage, Some(Stage::Cancelling | Stage::RemovingRecording));
    let finishing = matches!(
        status.stage,
        Some(Stage::FinalizingAudio | Stage::CleaningUp | Stage::Delivering)
    );
    let kind = if finishing {
        Kind::Finishing
    } else {
        Kind::Working
    };
    if !(status.hud.labels || undoing) {
        return (kind, Caption::default());
    }
    let title = match &status.stage {
        Some(Stage::FinalizingAudio) => "Finishing recording…".to_owned(),
        Some(Stage::RemovingRecording) => "Removing saved audio…".to_owned(),
        Some(Stage::CleaningUp) => "Finishing text…".to_owned(),
        Some(Stage::Delivering) => "Delivering text…".to_owned(),
        Some(Stage::Cancelling) => "Cancelling… Waiting for current work.".to_owned(),
        Some(stage @ Stage::Transcribing { .. }) => {
            let mut title: String = if status.operation_kind == Some(OperationKind::Recovery) {
                "Recovering recording".to_owned()
            } else {
                "Transcribing".to_owned()
            };
            match stage.measured_progress() {
                Some((completed, total)) => {
                    title.append(" · ");
                    push_decimal(&mut title, completed as u64);
                    title.append(" of ");
                    push_decimal(&mut title, total as u64);
                    title.append(" complete");
                },
                None => {
                    title.append("…");
                },
            }
            title
        },
        _ => "Working…".to_owned(),
    };
    (kind, Caption::title(title))
}

} // verus!
