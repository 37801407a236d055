//! The end of a transcription: what is saved, delivered and resolved, in which order,
//! and what is told of it.

use crate::config::{ConfigView, InjectionMode};
use crate::daemon::delivery::{
    delivery_words, describe_delivery, milliseconds, no_report, reached_user, DeliveryReport,
    DeliveryReportView,
};
use crate::daemon::worker::{
    cleanup_from, cleanup_of, describe_artifacts, described_artifacts, plain_outcome,
    storage_warned, storage_warning, told, usable_text, JobTelemetry, JobTelemetryView,
    PipelineOutcome, PostprocStatus, SavedArtifacts, SavedArtifactsView, Source, WorkerContext,
};
use crate::daemon::OperationView;
use crate::ipc::{
    Artifacts, ArtifactsView, Cleanup, Completeness, Delivery, TerminalOutcome, TerminalOutcomeView,
};
use crate::text::same;
use vstd::prelude::*;
use vstd::string::*;

verus! {

/// How much of a take was transcribed.
pub open spec fn transcribed(pipeline: PipelineOutcome, cancelled: bool) -> Completeness {
    if pipeline.cancelled || cancelled {
        Completeness::Cancelled
    } else if pipeline.text is Err {
        Completeness::Failed
    } else if pipeline.partial {
        Completeness::Partial
    } else if usable_text(pipeline.text) is None {
        Completeness::Empty
    } else {
        Completeness::Complete
    }
}

/// What the end of a transcription waits for.
#[derive(Clone, Copy, Debug, PartialEq, Eq, Structural)]
pub enum AudioAction {
    /// Save the take; its text is partial where the attempt was.
    Save { partial: bool },
    /// Deliver the text.
    Deliver { partial: bool },
    /// Save the take again: its delivery was cancelled, so the attempt is incomplete.
    SaveCancelled,
    /// Commit the settlement.
    Seal,
    /// Resolve the take, and confirm what is durable after that.
    Resolve,
    /// Tell the outcome.
    Finish,
}

/// What became of an action.
pub enum AudioEvent {
    Saved(SavedArtifacts),
    Delivered(DeliveryReport),
    Sealed(bool),
    Resolved { resolved: bool, saved: SavedArtifacts },
}

/// What an [`AudioEvent`] holds.
pub enum AudioEventView {
    Saved(SavedArtifactsView),
    Delivered(DeliveryReportView),
    Sealed(bool),
    Resolved { resolved: bool, saved: SavedArtifactsView },
}

impl View for AudioEvent {
    type V = AudioEventView;

    open spec fn view(&self) -> AudioEventView {
        match *self {
            AudioEvent::Saved(saved) => AudioEventView::Saved(saved@),
            AudioEvent::Delivered(report) => AudioEventView::Delivered(report@),
            AudioEvent::Sealed(sealed) => AudioEventView::Sealed(sealed),
            AudioEvent::Resolved { resolved, saved } => AudioEventView::Resolved {
                resolved,
                saved: saved@,
            },
        }
    }
}

/// The end of a transcription under way.
pub struct AudioJob {
    /// How much was transcribed, as far as is known.
    pub completeness: Completeness,
    /// The attempt is partial.
    pub partial: bool,
    /// There is a text to deliver.
    pub has_text: bool,
    pub saved: SavedArtifacts,
    pub report: DeliveryReport,
    pub action: AudioAction,
}

/// What an [`AudioJob`] holds.
pub struct AudioJobView {
    pub completeness: Completeness,
    pub partial: bool,
    pub has_text: bool,
    pub saved: SavedArtifactsView,
    pub report: DeliveryReportView,
    pub action: AudioAction,
}

impl View for AudioJob {
    type V = AudioJobView;

    open spec fn view(&self) -> AudioJobView {
        AudioJobView {
            completeness: self.completeness,
            partial: self.partial,
            has_text: self.has_text,
            saved: self.saved@,
            report: self.report@,
            action: self.action,
        }
    }
}

/// Nothing saved.
pub open spec fn nothing_saved() -> SavedArtifactsView {
    SavedArtifactsView {
        artifacts: ArtifactsView { take_id: None, audio: false, text: false },
        durable_audio: false,
        durable_text: false,
        audio_conflict: false,
        warning: false,
    }
}

impl AudioJobView {
    /// The end of a transcription, before anything was saved.
    pub open spec fn begun(pipeline: PipelineOutcome, cancelled: bool) -> AudioJobView {
        let completeness = transcribed(pipeline, cancelled);
        AudioJobView {
            completeness,
            partial: pipeline.partial,
            has_text: usable_text(pipeline.text) is Some,
            saved: nothing_saved(),
            report: DeliveryReportView {
                delivery: if completeness == Completeness::Cancelled {
                    Delivery::Cancelled
                } else {
                    Delivery::Nothing
                },
                ..no_report()
            },
            action: AudioAction::Save {
                partial: pipeline.partial || pipeline.cancelled || cancelled,
            },
        }
    }

    /// Whether a delivered text settles its take: it is whole, it arrived, and the
    /// saved one is durable.
    pub open spec fn settles(self, report: DeliveryReportView) -> bool {
        self.completeness == Completeness::Complete && reached_user(report.delivery)
            && self.saved.durable_text
    }

    /// What follows an event. An event that nobody waits for changes nothing.
    pub open spec fn after(self, event: AudioEventView) -> AudioJobView {
        match (self.action, event) {
            (AudioAction::Save { partial }, AudioEventView::Saved(saved)) => AudioJobView {
                saved,
                action: if self.completeness != Completeness::Cancelled && self.has_text {
                    AudioAction::Deliver { partial: self.partial }
                } else {
                    AudioAction::Finish
                },
                ..self
            },
            (AudioAction::Deliver { partial }, AudioEventView::Delivered(report)) => {
                let delivered = AudioJobView { report, ..self };
                if report.delivery == Delivery::Cancelled {
                    AudioJobView {
                        completeness: Completeness::Cancelled,
                        action: AudioAction::SaveCancelled,
                        ..delivered
                    }
                } else if self.settles(report) {
                    AudioJobView { action: AudioAction::Seal, ..delivered }
                } else {
                    AudioJobView { action: AudioAction::Finish, ..delivered }
                }
            },
            (AudioAction::SaveCancelled, AudioEventView::Saved(saved)) => AudioJobView {
                saved,
                action: AudioAction::Finish,
                ..self
            },
            (AudioAction::Seal, AudioEventView::Sealed(sealed)) => AudioJobView {
                action: if sealed {
                    AudioAction::Resolve
                } else {
                    AudioAction::Finish
                },
                ..self
            },
            (AudioAction::Resolve, AudioEventView::Resolved { resolved, saved }) => AudioJobView {
                saved: SavedArtifactsView { warning: saved.warning || !resolved, ..saved },
                action: AudioAction::Finish,
                ..self
            },
            _ => self,
        }
    }

    /// The report as it is told: what was not delivered, and cannot have been, is
    /// cancelled where the job was.
    pub open spec fn told_report(self, cancelled: bool) -> DeliveryReportView {
        if self.revoked(cancelled) {
            DeliveryReportView { delivery: Delivery::Cancelled, error: None, ..self.report }
        } else {
            self.report
        }
    }

    /// Whether a cancellation is what the job came to.
    pub open spec fn revoked(self, cancelled: bool) -> bool {
        cancelled && !reached_user(self.report.delivery) && self.report.delivery
            != Delivery::Uncertain
    }

    /// The error that is told.
    pub open spec fn told_error(self, cleanup: Cleanup, cancelled: bool) -> Option<Seq<char>> {
        match self.told_report(cancelled).error {
            Some(error) => Some(error),
            None => {
                let completeness = if self.revoked(cancelled) {
                    Completeness::Cancelled
                } else {
                    self.completeness
                };
                if completeness == Completeness::Failed {
                    Some("stt-failed"@)
                } else if completeness == Completeness::Partial {
                    Some("stt-partial"@)
                } else if cleanup == Cleanup::Failed {
                    Some("cleanup-failed"@)
                } else {
                    None
                }
            },
        }
    }

    /// The outcome, before storage is told of.
    pub open spec fn described(
        self,
        operation: OperationView,
        requested: InjectionMode,
        pipeline: PipelineOutcome,
        cancelled: bool,
    ) -> TerminalOutcomeView {
        let report = self.told_report(cancelled);
        let completeness = if self.revoked(cancelled) {
            Completeness::Cancelled
        } else {
            self.completeness
        };
        let cleanup = cleanup_of(pipeline.postproc);
        let delivered = reached_user(report.delivery);
        let message = if pipeline.text is Err && completeness != Completeness::Cancelled {
            pipeline.text->Err_0@ + "."@
        } else {
            delivery_words(completeness, report.delivery, requested)
        };
        let late = if cancelled && delivered {
            message + " Cancellation arrived after delivery."@
        } else {
            message
        };
        let outcome = TerminalOutcomeView {
            cleanup,
            error: self.told_error(cleanup, cancelled),
            message: late,
            ..plain_outcome(operation, completeness, report.delivery, self.saved.artifacts)
        };
        let saved = if !delivered || completeness == Completeness::Partial {
            described_artifacts(outcome)
        } else {
            outcome
        };
        let fallback = if pipeline.local_fallback {
            saved.message + " Used local transcription after cloud failure."@
        } else {
            saved.message
        };
        TerminalOutcomeView {
            message: if cleanup == Cleanup::Failed {
                fallback + " Cleanup was unavailable; original text was used."@
            } else {
                fallback
            },
            ..saved
        }
    }

    /// The outcome that is told.
    pub open spec fn outcome(
        self,
        operation: OperationView,
        requested: InjectionMode,
        pipeline: PipelineOutcome,
        cancelled: bool,
    ) -> TerminalOutcomeView {
        let warned = storage_warned(
            self.described(operation, requested, pipeline, cancelled),
            self.saved.warning,
        );
        if pipeline.archive_failed {
            TerminalOutcomeView {
                error: if warned.error is None || warned.error == Some("cleanup-failed"@) {
                    Some("history-incomplete"@)
                } else {
                    warned.error
                },
                message: warned.message + " Detailed transcript history could not be saved."@,
                ..warned
            }
        } else {
            warned
        }
    }
}

impl AudioJob {
    /// Begin the end of a transcription.
    pub fn begin(pipeline: &PipelineOutcome, cancelled: bool) -> (result: Self)
        ensures
            result@ == AudioJobView::begun(*pipeline, cancelled),
    {
        let has_text = pipeline.usable().is_some();
        let stopped = pipeline.cancelled || cancelled;
        let completeness = if stopped {
            Completeness::Cancelled
        } else if pipeline.text.is_err() {
            Completeness::Failed
        } else if pipeline.partial {
            Completeness::Partial
        } else if !has_text {
            Completeness::Empty
        } else {
            Completeness::Complete
        };
        let mut report = DeliveryReport::none();
        if completeness == Completeness::Cancelled {
            report.delivery = Delivery::Cancelled;
        }
        AudioJob {
            completeness,
            partial: pipeline.partial,
            has_text,
            saved: SavedArtifacts {
                artifacts: Artifacts::default(),
                durable_audio: false,
                durable_text: false,
                audio_conflict: false,
                warning: false,
            },
            report,
            action: AudioAction::Save { partial: pipeline.partial || stopped },
        }
    }

    /// Take in what became of the action that was waited for.
    pub fn advance(&mut self, event: AudioEvent)
        ensures
            final(self)@ == old(self)@.after(event@),
    {
        match (self.action, event) {
            (AudioAction::Save { .. }, AudioEvent::Saved(saved)) => {
                self.saved = saved;
                self.action = if self.completeness != Completeness::Cancelled && self.has_text {
                    AudioAction::Deliver { partial: self.partial }
                } else {
                    AudioAction::Finish
                };
            },
            (AudioAction::Deliver { .. }, AudioEvent::Delivered(report)) => {
                self.report = report;
                if report.delivery == Delivery::Cancelled {
                    // A cancellation after a transcription leaves the attempt incomplete.
                    self.completeness = Completeness::Cancelled;
                    self.action = AudioAction::SaveCancelled;
                } else if self.completeness == Completeness::Complete && report.delivered()
                    && self.saved.durable_text {
                    self.action = AudioAction::Seal;
                } else {
                    self.action = AudioAction::Finish;
                }
            },
            (AudioAction::SaveCancelled, AudioEvent::Saved(saved)) => {
                self.saved = saved;
                self.action = AudioAction::Finish;
            },
            (AudioAction::Seal, AudioEvent::Sealed(sealed)) => {
                self.action = if sealed {
                    AudioAction::Resolve
                } else {
                    AudioAction::Finish
                };
            },
            (AudioAction::Resolve, AudioEvent::Resolved { resolved, saved }) => {
                self.saved = saved;
                self.saved.warning = self.saved.warning || !resolved;
                self.action = AudioAction::Finish;
            },
            _ => {},
        }
    }

    /// Tell the outcome.
    pub fn finish_audio(
        &self,
        context: &WorkerContext,
        pipeline: &PipelineOutcome,
        cancelled: bool,
    ) -> (result: TerminalOutcome)
        ensures
            result@ == self@.outcome(
                context.operation@,
                context.config.injection,
                *pipeline,
                cancelled,
            ),
    {
        let mut outcome = self.describe(context, pipeline, cancelled);
        storage_warning(&mut outcome, self.saved.warning);
        if pipeline.archive_failed {
            let replaceable = match &outcome.error {
                Some(error) => same(error.as_str(), "cleanup-failed"),
                None => true,
            };
            if replaceable {
                outcome.error = Some("history-incomplete".to_owned());
            }
            outcome.message.append(" Detailed transcript history could not be saved.");
        }
        outcome
    }

    fn describe(&self, context: &WorkerContext, pipeline: &PipelineOutcome, cancelled: bool) -> (
        result: TerminalOutcome)
        ensures
            result@ == self@.described(
                context.operation@,
                context.config.injection,
                *pipeline,
                cancelled,
            ),
    {
        let mut report = self.report;
        let mut completeness = self.completeness;
        if cancelled && !report.delivered() && report.delivery != Delivery::Uncertain {
            completeness = Completeness::Cancelled;
            report.delivery = Delivery::Cancelled;
            report.error = None;
        }
        let mut outcome = context.outcome(
            completeness,
            report.delivery,
            self.saved.artifacts.clone(),
        );
        outcome.cleanup = cleanup_from(&pipeline.postproc);
        outcome.error = match report.error {
            Some(error) => Some(error.to_owned()),
            None => {
                if completeness == Completeness::Failed {
                    Some("stt-failed".to_owned())
                } else if completeness == Completeness::Partial {
                    Some("stt-partial".to_owned())
                } else if outcome.cleanup == Cleanup::Failed {
                    Some("cleanup-failed".to_owned())
                } else {
                    None
                }
            },
        };
        outcome.message = describe_delivery(&outcome, context.config.injection);
        if let Err(notice) = &pipeline.text {
            if completeness != Completeness::Cancelled {
                let mut message: String = notice.clone();
                message.append(".");
                outcome.message = message;
            }
        }
        if cancelled && report.delivered() {
            outcome.message.append(" Cancellation arrived after delivery.");
        }
        if !report.delivered() || completeness == Completeness::Partial {
            describe_artifacts(&mut outcome);
        }
        if pipeline.local_fallback {
            outcome.message.append(" Used local transcription after cloud failure.");
        }
        if outcome.cleanup == Cleanup::Failed {
            outcome.message.append(" Cleanup was unavailable; original text was used.");
        }
        outcome
    }
}

/// Whether the recorder's own file may be removed: only a dictation has one, and
/// only where its audio is durable elsewhere.
pub fn may_remove_source(source: Source, saved: &SavedArtifacts) -> (result: bool)
    ensures
        result == (source == Source::Dictation && saved.durable_audio),
{
    source == Source::Dictation && saved.durable_audio
}

/// What became of the replay of a saved text.
pub open spec fn replay_completeness(delivery: Delivery, partial: bool) -> Completeness {
    if delivery == Delivery::Cancelled {
        Completeness::Cancelled
    } else if partial {
        Completeness::Partial
    } else {
        Completeness::Complete
    }
}

/// The outcome of the replay of a saved text.
pub open spec fn replay_outcome(
    operation: OperationView,
    requested: InjectionMode,
    partial: bool,
    report: DeliveryReportView,
    artifacts: ArtifactsView,
) -> TerminalOutcomeView {
    let completeness = replay_completeness(report.delivery, partial);
    let outcome = TerminalOutcomeView {
        error: match report.error {
            Some(error) => Some(error),
            None => if completeness == Completeness::Partial {
                Some("stt-partial"@)
            } else {
                None
            },
        },
        message: delivery_words(completeness, report.delivery, requested),
        ..plain_outcome(operation, completeness, report.delivery, artifacts)
    };
    if !reached_user(report.delivery) || partial {
        described_artifacts(outcome)
    } else {
        outcome
    }
}

impl WorkerContext {
    /// The outcome of a replay whose text is gone.
    pub fn text_missing(&self, artifacts: Artifacts) -> (result: TerminalOutcome)
        ensures
            result@ == told(
                plain_outcome(
                    self.operation@,
                    Completeness::Failed,
                    Delivery::Nothing,
                    artifacts@,
                ),
                "That recording's transcript is no longer available."@,
                Some("no-transcript"@),
            ),
    {
        let mut outcome = self.outcome(Completeness::Failed, Delivery::Nothing, artifacts);
        outcome.message = "That recording's transcript is no longer available.".to_owned();
        outcome.error = Some("no-transcript".to_owned());
        outcome
    }

    /// The outcome of the replay of a saved text. It is no retry of the take's audio.
    pub fn replay_text(&self, partial: bool, report: &DeliveryReport, artifacts: Artifacts) -> (
        result: TerminalOutcome)
        ensures
            result@ == replay_outcome(
                self.operation@,
                self.config.injection,
                partial,
                report@,
                artifacts@,
            ),
    {
        let completeness = if report.delivery == Delivery::Cancelled {
            Completeness::Cancelled
        } else if partial {
            Completeness::Partial
        } else {
            Completeness::Complete
        };
        let mut outcome = self.outcome(completeness, report.delivery, artifacts);
        outcome.error = match report.error {
            Some(error) => Some(error.to_owned()),
            None => {
                if completeness == Completeness::Partial {
                    Some("stt-partial".to_owned())
                } else {
                    None
                }
            },
        };
        outcome.message = describe_delivery(&outcome, self.config.injection);
        if !report.delivered() || partial {
            describe_artifacts(&mut outcome);
        }
        outcome
    }
}

/// How the cleanup's state is reported.
pub open spec fn cleanup_label(cleanup: Cleanup) -> Seq<char> {
    match cleanup {
        Cleanup::Applied => "applied"@,
        Cleanup::Failed => "failed"@,
        Cleanup::Skipped => "skipped_short"@,
        Cleanup::Off => "off"@,
    }
}

/// Time that a cleanup took, where it ran.
pub open spec fn cleanup_time(status: PostprocStatus) -> Option<u64> {
    match status {
        PostprocStatus::Applied { ms } | PostprocStatus::Failed { ms } => Some(
            if ms <= u64::MAX {
                ms as u64
            } else {
                u64::MAX
            },
        ),
        _ => None,
    }
}

/// The report on a transcription.
pub open spec fn audio_report(
    config: ConfigView,
    source: Source,
    duration_ms: u64,
    pipeline: PipelineOutcome,
    report: DeliveryReportView,
    outcome: TerminalOutcomeView,
    total_ms: u64,
) -> JobTelemetryView {
    JobTelemetryView {
        source: source.label(),
        capture_ms: if source == Source::Dictation {
            duration_ms
        } else {
            0
        },
        stt_ms: if pipeline.stt_elapsed_ms <= u64::MAX {
            pipeline.stt_elapsed_ms as u64
        } else {
            u64::MAX
        },
        stt_model: if pipeline.local_fallback {
            "parakeet-tdt-0.6b-v3-int8"@
        } else {
            config.stt.model
        },
        stt_remote: config.stt.endpoint is Some && !pipeline.local_fallback,
        chars: match usable_text(pipeline.text) {
            Some(text) => text.len() as usize,
            None => 0,
        },
        partial: pipeline.partial,
        cleanup_state: cleanup_label(outcome.cleanup),
        cleanup_ms: cleanup_time(pipeline.postproc),
        cleanup_model: match cleanup_time(pipeline.postproc) {
            Some(_) => Some(config.postproc.model),
            None => None,
        },
        tokens_in: match pipeline.usage {
            Some(usage) => Some(usage.prompt_tokens),
            None => None,
        },
        tokens_out: match pipeline.usage {
            Some(usage) => Some(usage.completion_tokens),
            None => None,
        },
        tokens_total: match pipeline.usage {
            Some(usage) => Some(usage.total_tokens),
            None => None,
        },
        inject_ms: report.elapsed_ms,
        delivered: report.backend,
        error_class: outcome.error,
        total_ms,
    }
}

impl WorkerContext {
    /// The report on a transcription, where reports are on.
    pub fn audio_telemetry(
        &self,
        source: Source,
        duration_ms: u64,
        pipeline: &PipelineOutcome,
        report: &DeliveryReport,
        outcome: &TerminalOutcome,
        total_ms: u64,
    ) -> (result: Option<JobTelemetry>)
        ensures
            match result {
                Some(telemetry) => self.config.telemetry.enabled && telemetry@ == audio_report(
                    self.config@,
                    source,
                    duration_ms,
                    *pipeline,
                    report@,
                    outcome@,
                    total_ms,
                ),
                None => !self.config.telemetry.enabled,
            },
    {
        if !self.config.telemetry.enabled {
            return None;
        }
        let cleanup_ms = match pipeline.postproc {
            PostprocStatus::Applied { ms } => Some(milliseconds(ms)),
            PostprocStatus::Failed { ms } => Some(milliseconds(ms)),
            _ => None,
        };
        let cleanup_state = match outcome.cleanup {
            Cleanup::Applied => "applied",
            Cleanup::Failed => "failed",
            Cleanup::Skipped => "skipped_short",
            Cleanup::Off => "off",
        };
        let chars: usize = match pipeline.usable() {
            Some(text) => text.unicode_len(),
            None => 0,
        };
        let (tokens_in, tokens_out, tokens_total) = match pipeline.usage {
            Some(usage) => (
                Some(usage.prompt_tokens),
                Some(usage.completion_tokens),
                Some(usage.total_tokens),
            ),
            None => (None, None, None),
        };
        let cleanup_model = match cleanup_ms {
            Some(_) => Some(self.config.postproc.model.clone()),
            None => None,
        };
        let delivered = match report.backend {
            Some(backend) => Some(backend.to_owned()),
            None => None,
        };
        Some(
            JobTelemetry {
                source: source.name().to_owned(),
                capture_ms: if source == Source::Dictation {
                    duration_ms
                } else {
                    0
                },
                stt_ms: milliseconds(pipeline.stt_elapsed_ms),
                stt_model: if pipeline.local_fallback {
                    "parakeet-tdt-0.6b-v3-int8".to_owned()
                } else {
                    self.config.stt.model.clone()
                },
                stt_remote: self.config.stt.endpoint.is_some() && !pipeline.local_fallback,
                chars,
                partial: pipeline.partial,
                cleanup_state: cleanup_state.to_owned(),
                cleanup_ms,
                cleanup_model,
                tokens_in,
                tokens_out,
                tokens_total,
                inject_ms: report.elapsed_ms,
                delivered,
                error_class: outcome.error.clone(),
                total_ms,
            },
        )
    }

    /// The report on the replay of a saved text, where reports are on.
    pub fn replay_telemetry(
        &self,
        text: &str,
        partial: bool,
        report: &DeliveryReport,
        outcome: &TerminalOutcome,
        total_ms: u64,
    ) -> (result: Option<JobTelemetry>)
        ensures
            match result {
                Some(telemetry) => self.config.telemetry.enabled && telemetry@ == (
                JobTelemetryView {
                    source: "replay"@,
                    capture_ms: 0,
                    stt_ms: 0,
                    stt_model: Seq::empty(),
                    stt_remote: false,
                    chars: text@.len() as usize,
                    partial,
                    cleanup_state: "off"@,
                    cleanup_ms: None,
                    cleanup_model: None,
                    tokens_in: None,
                    tokens_out: None,
                    tokens_total: None,
                    inject_ms: report.elapsed_ms,
                    delivered: report@.backend,
                    error_class: outcome@.error,
                    total_ms,
                }),
                None => !self.config.telemetry.enabled,
            },
    {
        if !self.config.telemetry.enabled {
            return None;
        }
        let delivered = match report.backend {
            Some(backend) => Some(backend.to_owned()),
            None => None,
        };
        Some(
            JobTelemetry {
                source: "replay".to_owned(),
                capture_ms: 0,
                stt_ms: 0,
                stt_model: String::new(),
                stt_remote: false,
                chars: text.unicode_len(),
                partial,
                cleanup_state: "off".to_owned(),
                cleanup_ms: None,
                cleanup_model: None,
                tokens_in: None,
                tokens_out: None,
                tokens_total: None,
                inject_ms: report.elapsed_ms,
                delivered,
                error_class: outcome.error.clone(),
                total_ms,
            },
        )
    }
}

} // verus!
