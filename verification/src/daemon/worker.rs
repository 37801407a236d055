//! What a job comes to: what is saved, what is delivered, and what is told of it.

use crate::config::Config;
use crate::daemon::{Operation, OperationView, Take, TakeView};
use crate::ipc::{
    optional_text, Artifacts, ArtifactsView, Cleanup, Completeness, Delivery, TerminalOutcome,
    TerminalOutcomeView,
};
use crate::text::{blank, is_blank, same};
use vstd::prelude::*;
use vstd::string::*;

verus! {

/// Where a job's audio or text comes from.
#[derive(Clone, Copy, Debug, PartialEq, Eq, Structural)]
pub enum Source {
    Dictation,
    Recover,
    Replay,
}

impl Source {
    /// The source's name in reports and records.
    pub open spec fn label(self) -> Seq<char> {
        match self {
            Source::Dictation => "dictation"@,
            Source::Recover => "recover"@,
            Source::Replay => "replay"@,
        }
    }

    /// The source's name in reports and records.
    pub fn name(self) -> (result: &'static str)
        ensures
            result@ == self.label(),
    {
        match self {
            Source::Dictation => "dictation",
            Source::Recover => "recover",
            Source::Replay => "replay",
        }
    }
}

/// What became of the cleanup of a text.
#[derive(Clone, Copy, Debug, PartialEq, Eq, Structural)]
pub enum PostprocStatus {
    Off,
    Applied { ms: u128 },
    SkippedShort,
    Failed { ms: u128 },
}

/// The cleanup as an outcome tells it.
pub open spec fn cleanup_of(status: PostprocStatus) -> Cleanup {
    match status {
        PostprocStatus::Off => Cleanup::Off,
        PostprocStatus::Applied { .. } => Cleanup::Applied,
        PostprocStatus::SkippedShort => Cleanup::Skipped,
        PostprocStatus::Failed { .. } => Cleanup::Failed,
    }
}

/// The cleanup as an outcome tells it.
pub fn cleanup_from(status: &PostprocStatus) -> (result: Cleanup)
    ensures
        result == cleanup_of(*status),
{
    match status {
        PostprocStatus::Off => Cleanup::Off,
        PostprocStatus::Applied { .. } => Cleanup::Applied,
        PostprocStatus::SkippedShort => Cleanup::Skipped,
        PostprocStatus::Failed { .. } => Cleanup::Failed,
    }
}

/// Tokens that a cleanup used.
#[derive(Clone, Copy, Debug, PartialEq, Eq, Structural)]
pub struct Usage {
    pub prompt_tokens: u64,
    pub completion_tokens: u64,
    pub total_tokens: u64,
}

/// What transcription and cleanup came to. A failed transcription brings the notice
/// that is told of it.
#[derive(Debug, PartialEq, Eq)]
pub struct PipelineOutcome {
    pub text: Result<String, String>,
    pub partial: bool,
    pub cancelled: bool,
    pub local_fallback: bool,
    pub archive_failed: bool,
    pub postproc: PostprocStatus,
    pub usage: Option<Usage>,
    pub stt_elapsed_ms: u128,
}

/// The text of a transcription, where it is not blank.
pub open spec fn usable_text(text: Result<String, String>) -> Option<Seq<char>> {
    match text {
        Ok(text) if !is_blank(text@) => Some(text@),
        _ => None,
    }
}

impl PipelineOutcome {
    /// The text of the transcription, where it is not blank.
    pub fn usable(&self) -> (result: Option<&str>)
        ensures
            str_view(result) == usable_text(self.text),
    {
        match &self.text {
            Ok(text) => {
                if blank(text.as_str()) {
                    None
                } else {
                    Some(text.as_str())
                }
            },
            Err(_) => None,
        }
    }
}

/// What of a take is saved. That a file is there and that its source may be deleted are
/// separate facts.
#[derive(Debug, PartialEq, Eq)]
pub struct SavedArtifacts {
    pub artifacts: Artifacts,
    pub durable_audio: bool,
    pub durable_text: bool,
    pub audio_conflict: bool,
    pub warning: bool,
}

/// What a [`SavedArtifacts`] holds.
pub struct SavedArtifactsView {
    pub artifacts: ArtifactsView,
    pub durable_audio: bool,
    pub durable_text: bool,
    pub audio_conflict: bool,
    pub warning: bool,
}

impl View for SavedArtifacts {
    type V = SavedArtifactsView;

    open spec fn view(&self) -> SavedArtifactsView {
        SavedArtifactsView {
            artifacts: self.artifacts@,
            durable_audio: self.durable_audio,
            durable_text: self.durable_text,
            audio_conflict: self.audio_conflict,
            warning: self.warning,
        }
    }
}

impl Clone for SavedArtifacts {
    fn clone(&self) -> (result: Self)
        ensures
            result@ == self@,
    {
        SavedArtifacts {
            artifacts: self.artifacts.clone(),
            durable_audio: self.durable_audio,
            durable_text: self.durable_text,
            audio_conflict: self.audio_conflict,
            warning: self.warning,
        }
    }
}

/// What is reported of a job.
#[derive(Debug, PartialEq, Eq)]
pub struct JobTelemetry {
    pub source: String,
    pub capture_ms: u64,
    pub stt_ms: u64,
    pub stt_model: String,
    pub stt_remote: bool,
    pub chars: usize,
    pub partial: bool,
    pub cleanup_state: String,
    pub cleanup_ms: Option<u64>,
    pub cleanup_model: Option<String>,
    pub tokens_in: Option<u64>,
    pub tokens_out: Option<u64>,
    pub tokens_total: Option<u64>,
    pub inject_ms: Option<u64>,
    pub delivered: Option<String>,
    pub error_class: Option<String>,
    pub total_ms: u64,
}

/// What a [`JobTelemetry`] holds.
pub struct JobTelemetryView {
    pub source: Seq<char>,
    pub capture_ms: u64,
    pub stt_ms: u64,
    pub stt_model: Seq<char>,
    pub stt_remote: bool,
    pub chars: usize,
    pub partial: bool,
    pub cleanup_state: Seq<char>,
    pub cleanup_ms: Option<u64>,
    pub cleanup_model: Option<Seq<char>>,
    pub tokens_in: Option<u64>,
    pub tokens_out: Option<u64>,
    pub tokens_total: Option<u64>,
    pub inject_ms: Option<u64>,
    pub delivered: Option<Seq<char>>,
    pub error_class: Option<Seq<char>>,
    pub total_ms: u64,
}

impl View for JobTelemetry {
    type V = JobTelemetryView;

    open spec fn view(&self) -> JobTelemetryView {
        JobTelemetryView {
            source: self.source@,
            capture_ms: self.capture_ms,
            stt_ms: self.stt_ms,
            stt_model: self.stt_model@,
            stt_remote: self.stt_remote,
            chars: self.chars,
            partial: self.partial,
            cleanup_state: self.cleanup_state@,
            cleanup_ms: self.cleanup_ms,
            cleanup_model: match self.cleanup_model { Some(inner) => Some(inner@), None => None },
            tokens_in: self.tokens_in,
            tokens_out: self.tokens_out,
            tokens_total: self.tokens_total,
            inject_ms: self.inject_ms,
            delivered: match self.delivered { Some(inner) => Some(inner@), None => None },
            error_class: match self.error_class { Some(inner) => Some(inner@), None => None },
            total_ms: self.total_ms,
        }
    }
}

impl Clone for JobTelemetry {
    fn clone(&self) -> (result: Self)
        ensures
            result@ == self@,
    {
        JobTelemetry {
            source: self.source.clone(),
            capture_ms: self.capture_ms,
            stt_ms: self.stt_ms,
            stt_model: self.stt_model.clone(),
            stt_remote: self.stt_remote,
            chars: self.chars,
            partial: self.partial,
            cleanup_state: self.cleanup_state.clone(),
            cleanup_ms: self.cleanup_ms,
            cleanup_model: self.cleanup_model.clone(),
            tokens_in: self.tokens_in,
            tokens_out: self.tokens_out,
            tokens_total: self.tokens_total,
            inject_ms: self.inject_ms,
            delivered: self.delivered.clone(),
            error_class: self.error_class.clone(),
            total_ms: self.total_ms,
        }
    }
}

/// The artifacts of a take, as its recording lists them.
pub open spec fn listed_artifacts(take_id: Seq<char>, take: Option<TakeView>) -> ArtifactsView {
    ArtifactsView {
        take_id: Some(take_id),
        audio: take is Some && take->0.audio_available,
        text: take is Some && take->0.text_available,
    }
}

/// What an optional recording holds.
pub open spec fn optional_take(take: Option<&Take>) -> Option<TakeView> {
    match take {
        Some(take) => Some(take@),
        None => None,
    }
}

/// The artifacts of a take, as its recording lists them.
pub fn artifacts_for(take_id: &str, take: Option<&Take>) -> (result: Artifacts)
    ensures
        result@ == listed_artifacts(take_id@, optional_take(take)),
{
    let (audio, text) = match take {
        Some(take) => (take.audio_available, take.text_available),
        None => (false, false),
    };
    Artifacts { take_id: Some(take_id.to_owned()), audio, text }
}

/// A text that is to be saved whole: not partial, and not blank.
pub open spec fn whole_text(text: Option<Seq<char>>, partial: bool) -> bool {
    !partial && text is Some && !is_blank(text->0)
}

/// An optional text.
pub open spec fn str_view(text: Option<&str>) -> Option<Seq<char>> {
    match text {
        Some(text) => Some(text@),
        None => None,
    }
}

fn is_whole(text: Option<&str>, partial: bool) -> (result: bool)
    ensures
        result == whole_text(str_view(text), partial),
{
    match text {
        Some(text) => !partial && !blank(text),
        None => false,
    }
}

/// What is saved after a successful write: exactly the given text and audio.
pub open spec fn written_artifacts(
    take_id: Seq<char>,
    take: TakeView,
    text: Option<Seq<char>>,
    wants_audio: bool,
    partial: bool,
) -> SavedArtifactsView {
    let artifacts = listed_artifacts(take_id, Some(take));
    SavedArtifactsView {
        durable_audio: artifacts.audio,
        durable_text: whole_text(text, partial) && artifacts.text,
        audio_conflict: false,
        warning: wants_audio && !artifacts.audio,
        artifacts,
    }
}

/// What is saved where a write may have failed: nothing is durable unless it was
/// confirmed, and text only where the stored one is the given one.
pub open spec fn found_artifacts(
    take_id: Seq<char>,
    take: Option<TakeView>,
    durable: bool,
    text: Option<Seq<char>>,
    stored: Option<Seq<char>>,
    wants_audio: bool,
    partial: bool,
) -> SavedArtifactsView {
    let artifacts = listed_artifacts(take_id, take);
    let matching = whole_text(text, partial) && stored == text;
    SavedArtifactsView {
        durable_audio: durable && artifacts.audio,
        durable_text: durable && matching,
        audio_conflict: false,
        warning: !durable || (wants_audio && !artifacts.audio) || (whole_text(text, partial)
            && !matching),
        artifacts,
    }
}

/// What is saved where a write may have failed.
pub fn saved_artifacts(
    take_id: &str,
    take: Option<&Take>,
    durable: bool,
    text: Option<&str>,
    stored: Option<&str>,
    wants_audio: bool,
    partial: bool,
) -> (result: SavedArtifacts)
    ensures
        result@ == found_artifacts(
            take_id@,
            optional_take(take),
            durable,
            str_view(text),
            str_view(stored),
            wants_audio,
            partial,
        ),
{
    let artifacts = artifacts_for(take_id, take);
    let whole = is_whole(text, partial);
    let matching = whole && match (text, stored) {
        (Some(text), Some(stored)) => same(text, stored),
        _ => false,
    };
    SavedArtifacts {
        durable_audio: durable && artifacts.audio,
        durable_text: durable && matching,
        audio_conflict: false,
        warning: !durable || (wants_audio && !artifacts.audio) || (whole && !matching),
        artifacts,
    }
}

/// What is saved once a take was resolved: what was confirmed after that, and where
/// nothing was, what the take lists.
pub open spec fn resolved_take(
    take_id: Seq<char>,
    confirmed: Option<TakeView>,
    present: Option<TakeView>,
    text: Option<Seq<char>>,
    stored: Option<Seq<char>>,
) -> SavedArtifactsView {
    SavedArtifactsView {
        artifacts: listed_artifacts(
            take_id,
            if confirmed is Some {
                confirmed
            } else {
                present
            },
        ),
        ..found_artifacts(take_id, confirmed, confirmed is Some, text, stored, false, false)
    }
}

/// What is saved once a take was resolved.
pub fn resolved_artifacts(
    take_id: &str,
    confirmed: Option<&Take>,
    present: Option<&Take>,
    text: Option<&str>,
    stored: Option<&str>,
) -> (result: SavedArtifacts)
    ensures
        result@ == resolved_take(
            take_id@,
            optional_take(confirmed),
            optional_take(present),
            str_view(text),
            str_view(stored),
        ),
{
    let durable = confirmed.is_some();
    let mut saved = saved_artifacts(take_id, confirmed, durable, text, stored, false, false);
    if !durable {
        saved.artifacts = artifacts_for(take_id, present);
    }
    saved
}

/// What a comparison of the saved audio with its source came to.
#[derive(Clone, Copy, Debug, PartialEq, Eq, Structural)]
pub enum AudioCheck {
    /// They are the same; `available` where the take lists its audio.
    Confirmed { available: bool },
    /// They differ.
    Mismatch,
    /// They could not be compared.
    Failed,
}

/// How an attempt to save a take went.
pub enum SaveResult {
    /// Everything was written.
    Written { take: Take },
    /// Something failed. `mismatch` where the take's saved audio is another one;
    /// `present` is what the take lists, `confirmed` what was confirmed to be
    /// durable, `stored` its saved text, `audio` the comparison of its audio.
    Broken {
        mismatch: bool,
        present: Option<Take>,
        confirmed: Option<Take>,
        stored: Option<String>,
        audio: Option<AudioCheck>,
    },
}

/// What an optional owned recording holds.
pub open spec fn owned_take(take: Option<Take>) -> Option<TakeView> {
    match take {
        Some(take) => Some(take@),
        None => None,
    }
}

/// What is saved after an attempt to save a take.
pub open spec fn attempt_artifacts(
    take_id: Seq<char>,
    saved: SaveResult,
    text: Option<Seq<char>>,
    wants_audio: bool,
    partial: bool,
) -> SavedArtifactsView {
    match saved {
        SaveResult::Written { take } => written_artifacts(
            take_id,
            take@,
            text,
            wants_audio,
            partial,
        ),
        SaveResult::Broken { mismatch, present, confirmed, stored, audio } => {
            let found = found_artifacts(
                take_id,
                if confirmed is Some {
                    owned_take(confirmed)
                } else {
                    owned_take(present)
                },
                confirmed is Some,
                text,
                optional_text(stored),
                wants_audio,
                partial,
            );
            let conflict = mismatch || audio == Some(AudioCheck::Mismatch);
            let audio_kept = match audio {
                Some(AudioCheck::Confirmed { available }) => available,
                Some(_) => false,
                None => found.durable_audio,
            };
            SavedArtifactsView {
                durable_audio: audio_kept && !conflict,
                durable_text: found.durable_text && !conflict,
                audio_conflict: conflict,
                warning: found.warning || conflict || (audio is Some && !audio_kept),
                artifacts: found.artifacts,
            }
        },
    }
}

/// Judge an attempt to save a take.
pub fn persist_attempt(
    take_id: &str,
    saved: &SaveResult,
    text: Option<&str>,
    wants_audio: bool,
    partial: bool,
) -> (result: SavedArtifacts)
    ensures
        result@ == attempt_artifacts(take_id@, *saved, str_view(text), wants_audio, partial),
{
    match saved {
        SaveResult::Written { take } => {
            let artifacts = artifacts_for(take_id, Some(take));
            SavedArtifacts {
                durable_audio: artifacts.audio,
                durable_text: is_whole(text, partial) && artifacts.text,
                audio_conflict: false,
                warning: wants_audio && !artifacts.audio,
                artifacts,
            }
        },
        SaveResult::Broken { mismatch, present, confirmed, stored, audio } => {
            let take = match (confirmed, present) {
                (Some(take), _) => Some(take),
                (None, Some(take)) => Some(take),
                (None, None) => None,
            };
            let stored = match stored {
                Some(stored) => Some(stored.as_str()),
                None => None,
            };
            let mut found = saved_artifacts(
                take_id,
                take,
                confirmed.is_some(),
                text,
                stored,
                wants_audio,
                partial,
            );
            let mut conflict = *mismatch;
            match audio {
                Some(AudioCheck::Confirmed { available }) => {
                    found.durable_audio = *available;
                    found.warning = found.warning || !*available;
                },
                Some(AudioCheck::Mismatch) => {
                    conflict = true;
                    found.durable_audio = false;
                    found.warning = true;
                },
                Some(AudioCheck::Failed) => {
                    found.durable_audio = false;
                    found.warning = true;
                },
                None => {},
            }
            found.audio_conflict = conflict;
            found.durable_audio = found.durable_audio && !conflict;
            found.durable_text = found.durable_text && !conflict;
            found.warning = found.warning || conflict;
            found
        },
    }
}

/// What is told of saved recordings.
pub open spec fn artifacts_words(text: bool, audio: bool) -> Seq<char> {
    if text && audio {
        " Saved text and audio are available."@
    } else if text {
        " Saved text is available."@
    } else if audio {
        " Saved audio is available."@
    } else {
        Seq::empty()
    }
}

/// An outcome that tells of its saved recordings.
pub open spec fn described_artifacts(outcome: TerminalOutcomeView) -> TerminalOutcomeView {
    TerminalOutcomeView {
        message: outcome.message + artifacts_words(
            outcome.artifacts.text,
            outcome.artifacts.audio,
        ),
        ..outcome
    }
}

/// Tell of the saved recordings.
pub fn describe_artifacts(outcome: &mut TerminalOutcome)
    ensures
        final(outcome)@ == described_artifacts(old(outcome)@),
{
    match (outcome.artifacts.text, outcome.artifacts.audio) {
        (true, true) => outcome.message.append(" Saved text and audio are available."),
        (true, false) => outcome.message.append(" Saved text is available."),
        (false, true) => outcome.message.append(" Saved audio is available."),
        (false, false) => {},
    }
    assert(outcome.message@ =~= described_artifacts(old(outcome)@).message);
}

/// An outcome that warns of storage, once.
pub open spec fn storage_warned(outcome: TerminalOutcomeView, warning: bool) -> TerminalOutcomeView {
    if warning && outcome.error != Some("storage-failed"@) {
        TerminalOutcomeView {
            error: Some("storage-failed"@),
            message: outcome.message
                + " Recording storage is incomplete; check storage before recording again."@,
            ..outcome
        }
    } else {
        outcome
    }
}

/// Warn of storage, once.
pub fn storage_warning(outcome: &mut TerminalOutcome, warning: bool)
    ensures
        final(outcome)@ == storage_warned(old(outcome)@, warning),
{
    let told = match &outcome.error {
        Some(error) => same(error.as_str(), "storage-failed"),
        None => false,
    };
    if warning && !told {
        outcome.error = Some("storage-failed".to_owned());
        outcome.message.append(
            " Recording storage is incomplete; check storage before recording again.",
        );
    }
}

/// Take in whether the recorder's own file could be removed.
pub fn remove_runtime(outcome: &mut TerminalOutcome, removed: bool)
    ensures
        final(outcome)@ == storage_warned(old(outcome)@, !removed),
{
    storage_warning(outcome, !removed);
}

/// What a job works with.
pub struct WorkerContext {
    pub operation: Operation,
    pub config: Config,
}

/// What is told of an outcome that has nothing more to tell.
pub open spec fn plain_words(completeness: Completeness) -> Seq<char> {
    match completeness {
        Completeness::Cancelled => "Cancelled."@,
        Completeness::Empty => "No text returned."@,
        Completeness::Failed => "The operation failed."@,
        Completeness::Partial => "Partial transcription."@,
        Completeness::Complete => "Transcription complete."@,
    }
}

/// An outcome that has nothing more to tell.
pub open spec fn plain_outcome(
    operation: OperationView,
    completeness: Completeness,
    delivery: Delivery,
    artifacts: ArtifactsView,
) -> TerminalOutcomeView {
    TerminalOutcomeView {
        event_id: 0,
        operation_id: Some(operation.identity.operation_id),
        message: plain_words(completeness),
        completeness,
        delivery,
        cleanup: Cleanup::Off,
        error: None,
        artifacts,
        dismissed: false,
    }
}

impl WorkerContext {
    /// The take that the job is about.
    pub fn id(&self) -> (result: &str)
        ensures
            result@ == self.operation@.identity.take_id,
    {
        self.operation.identity.take_id.as_str()
    }

    /// An outcome that has nothing more to tell.
    pub fn outcome(
        &self,
        completeness: Completeness,
        delivery: Delivery,
        artifacts: Artifacts,
    ) -> (result: TerminalOutcome)
        ensures
            result@ == plain_outcome(self.operation@, completeness, delivery, artifacts@),
    {
        let message = match completeness {
            Completeness::Cancelled => "Cancelled.",
            Completeness::Empty => "No text returned.",
            Completeness::Failed => "The operation failed.",
            Completeness::Partial => "Partial transcription.",
            Completeness::Complete => "Transcription complete.",
        };
        TerminalOutcome {
            event_id: 0,
            operation_id: Some(self.operation.identity.operation_id.clone()),
            message: message.to_owned(),
            completeness,
            delivery,
            cleanup: Cleanup::Off,
            error: None,
            artifacts,
            dismissed: false,
        }
    }
}

/// An outcome with a message and an error of its own.
pub open spec fn told(
    outcome: TerminalOutcomeView,
    message: Seq<char>,
    error: Option<Seq<char>>,
) -> TerminalOutcomeView {
    TerminalOutcomeView { message, error, ..outcome }
}

/// The outcome of a recording that the recorder could not finish.
pub open spec fn unfinished_outcome(
    operation: OperationView,
    saved: SavedArtifactsView,
) -> TerminalOutcomeView {
    storage_warned(
        described_artifacts(
            told(
                plain_outcome(operation, Completeness::Failed, Delivery::Nothing, saved.artifacts),
                "Recording could not be finalized."@,
                Some("capture-failed"@),
            ),
        ),
        saved.warning,
    )
}

/// The outcome of a recording whose saved audio is another one.
pub open spec fn conflict_outcome(
    operation: OperationView,
    saved: SavedArtifactsView,
) -> TerminalOutcomeView {
    storage_warned(
        described_artifacts(
            told(
                plain_outcome(operation, Completeness::Failed, Delivery::Nothing, saved.artifacts),
                "Recording identity does not match its retained audio; transcription did not start."@,
                None,
            ),
        ),
        true,
    )
}

/// The outcome of a recording that was cancelled before it was transcribed.
pub open spec fn cancelled_outcome(
    operation: OperationView,
    saved: SavedArtifactsView,
) -> TerminalOutcomeView {
    storage_warned(
        described_artifacts(
            plain_outcome(
                operation,
                Completeness::Cancelled,
                Delivery::Cancelled,
                saved.artifacts,
            ),
        ),
        saved.warning,
    )
}

/// How a job ends before its recording is transcribed, where it does.
pub open spec fn early_end(
    operation: OperationView,
    saved: SavedArtifactsView,
    cancelled: bool,
) -> Option<TerminalOutcomeView> {
    if saved.audio_conflict {
        Some(conflict_outcome(operation, saved))
    } else if cancelled {
        Some(cancelled_outcome(operation, saved))
    } else {
        None
    }
}

/// The outcome of a recording that no worker took.
pub open spec fn rejected_outcome(
    operation: OperationView,
    saved: SavedArtifactsView,
    cancelled: bool,
) -> TerminalOutcomeView {
    let outcome = plain_outcome(
        operation,
        if cancelled {
            Completeness::Cancelled
        } else {
            Completeness::Failed
        },
        if cancelled {
            Delivery::Cancelled
        } else {
            Delivery::Nothing
        },
        saved.artifacts,
    );
    storage_warned(
        described_artifacts(
            if cancelled {
                told(outcome, "Cancelled; transcription did not start."@, None)
            } else {
                told(
                    outcome,
                    "Worker unavailable; transcription did not start."@,
                    Some("worker-failed"@),
                )
            },
        ),
        saved.warning,
    )
}

/// The outcome of a removal.
pub open spec fn forget_outcome(
    operation: OperationView,
    removed: bool,
    artifacts: ArtifactsView,
) -> TerminalOutcomeView {
    if removed {
        told(
            plain_outcome(operation, Completeness::Complete, Delivery::Nothing, artifacts),
            if artifacts.text {
                "Retained recording removed."@ + " Archived text is unchanged."@
            } else {
                "Retained recording removed."@
            },
            None,
        )
    } else {
        told(
            plain_outcome(operation, Completeness::Failed, Delivery::Nothing, artifacts),
            "Recording removal did not complete."@,
            Some("forget-failed"@),
        )
    }
}

impl WorkerContext {
    /// The outcome of a recording that the recorder could not finish. Its file is
    /// only removed where the saved audio is durable.
    pub fn capture_failed(&self, saved: &SavedArtifacts) -> (result: TerminalOutcome)
        ensures
            result@ == unfinished_outcome(self.operation@, saved@),
    {
        let mut outcome = self.outcome(
            Completeness::Failed,
            Delivery::Nothing,
            saved.artifacts.clone(),
        );
        outcome.message = "Recording could not be finalized.".to_owned();
        outcome.error = Some("capture-failed".to_owned());
        describe_artifacts(&mut outcome);
        storage_warning(&mut outcome, saved.warning);
        outcome
    }

    /// The outcome of a recording whose audio is gone.
    pub fn audio_missing(&self, artifacts: Artifacts) -> (result: TerminalOutcome)
        ensures
            result@ == told(
                plain_outcome(
                    self.operation@,
                    Completeness::Failed,
                    Delivery::Nothing,
                    artifacts@,
                ),
                "That recording's audio is no longer available."@,
                Some("no-recording"@),
            ),
    {
        let mut outcome = self.outcome(Completeness::Failed, Delivery::Nothing, artifacts);
        outcome.message = "That recording's audio is no longer available.".to_owned();
        outcome.error = Some("no-recording".to_owned());
        outcome
    }

    /// The outcome of a removal.
    pub fn forgotten(&self, removed: bool, artifacts: Artifacts) -> (result: TerminalOutcome)
        ensures
            result@ == forget_outcome(self.operation@, removed, artifacts@),
    {
        let mut outcome = self.outcome(Completeness::Complete, Delivery::Nothing, artifacts);
        outcome.message = "Retained recording removed.".to_owned();
        if !removed {
            outcome.completeness = Completeness::Failed;
            outcome.message = "Recording removal did not complete.".to_owned();
            outcome.error = Some("forget-failed".to_owned());
        }
        if removed && outcome.artifacts.text {
            outcome.message.append(" Archived text is unchanged.");
        }
        outcome
    }

    /// The outcome of a recording that no worker took.
    pub fn retain_rejected_capture(&self, saved: &SavedArtifacts, cancelled: bool) -> (result:
        TerminalOutcome)
        ensures
            result@ == rejected_outcome(self.operation@, saved@, cancelled),
    {
        let mut outcome = self.outcome(
            Completeness::Failed,
            Delivery::Nothing,
            saved.artifacts.clone(),
        );
        outcome.message = "Worker unavailable; transcription did not start.".to_owned();
        outcome.error = Some("worker-failed".to_owned());
        if cancelled {
            outcome.completeness = Completeness::Cancelled;
            outcome.delivery = Delivery::Cancelled;
            outcome.message = "Cancelled; transcription did not start.".to_owned();
            outcome.error = None;
        }
        describe_artifacts(&mut outcome);
        storage_warning(&mut outcome, saved.warning);
        outcome
    }

    /// Decide whether a saved recording is transcribed: not where its saved audio is
    /// another one, and not once it was cancelled.
    pub fn process_audio(&self, saved: &SavedArtifacts, cancelled: bool) -> (result: Option<
        TerminalOutcome,
    >)
        ensures
            match result {
                Some(outcome) => early_end(self.operation@, saved@, cancelled) == Some(outcome@),
                None => early_end(self.operation@, saved@, cancelled) is None,
            },
    {
        if saved.audio_conflict {
            let mut outcome = self.outcome(
                Completeness::Failed,
                Delivery::Nothing,
                saved.artifacts.clone(),
            );
            outcome.message =
            "Recording identity does not match its retained audio; transcription did not start.".to_owned();
            describe_artifacts(&mut outcome);
            storage_warning(&mut outcome, true);
            return Some(outcome);
        }
        if cancelled {
            let mut outcome = self.outcome(
                Completeness::Cancelled,
                Delivery::Cancelled,
                saved.artifacts.clone(),
            );
            describe_artifacts(&mut outcome);
            storage_warning(&mut outcome, saved.warning);
            return Some(outcome);
        }
        None
    }
}

} // verus!
