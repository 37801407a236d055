//! What the display shows of each state and each result, and for how long.

use crate::hud::layout::{
    drawn_lines, fitting_width, last_space, line_break, line_count, prefix, words_height, wrapped,
    LineCapacity,
};
use crate::hud::model::{
    is_active, lost_caption, phase_age, processing_display, processing_title, recording_display,
    unknown_caption,
};
use crate::hud::preference::{
    gnome_preference, hyprland_preference, lowered, named_desktop, DesktopKind,
};
use crate::hud::present::{outcome_route, presented};
use crate::hud::surface::{Redraw, Surface, SurfaceEvent, SurfaceLifecycle};
use crate::hud::words::{planned_words, tone_of, Tone};
use crate::hud::{
    clock_text, is_persistent, no_caption, no_signal_history, title_caption, CaptionView,
    FramePlan, FrameTarget, Kind, ModelView, SignalHistory, TrackShape, TrackStep, Visibility,
};
use crate::ipc::{
    AudioSignal, AudioWaveform, Capabilities, Cleanup, Completeness, Delivery, OperationKind,
    StageView, StateKindView, StatusSnapshotView, TerminalOutcomeView,
};
use crate::json::JsonView;
use crate::text::{
    decimal, is_white_space, pieces, trim_end, trim_start, trimmed, two_digits,
};
use vstd::prelude::*;

verus! {

/// What needs a decision asks for attention and stays until it is dismissed: a failure, a
/// partial result, and a whole text whose delivery failed, was held back or is uncertain.
/// Everything else ends by itself.
pub proof fn unfinished_business_asks_for_attention(
    outcome: TerminalOutcomeView,
    status: StatusSnapshotView,
    now: u64,
    reduced_motion: bool,
)
    ensures
        ({
            let shown = presented(outcome, status, now, reduced_motion);
            let unfinished = outcome.completeness == Completeness::Failed || outcome.completeness
                == Completeness::Partial || (outcome.completeness == Completeness::Complete && (
            outcome.delivery == Delivery::Failed || outcome.delivery == Delivery::Deferred
                || outcome.delivery == Delivery::Uncertain));
            &&& shown.kind == Kind::Attention <==> unfinished
            &&& shown.visibility == Visibility::Persistent <==> unfinished
            &&& shown.visibility is Until <==> !unfinished
            &&& is_persistent(outcome) <==> unfinished
            &&& shown.event_id == Some(outcome.event_id)
        }),
{
}

/// A result is shown as resolved exactly where a whole text was typed, pasted or copied, and
/// what asks for nothing and resolved nothing is neutral.
pub proof fn arrived_text_is_resolved(
    outcome: TerminalOutcomeView,
    status: StatusSnapshotView,
    now: u64,
    reduced_motion: bool,
)
    ensures
        ({
            let shown = presented(outcome, status, now, reduced_motion);
            let arrived = outcome.delivery == Delivery::Typed || outcome.delivery
                == Delivery::Pasted || outcome.delivery == Delivery::Copied;
            &&& shown.kind == Kind::Resolved <==> outcome.completeness == Completeness::Complete
                && arrived
            &&& shown.kind == Kind::Resolved || shown.kind == Kind::Neutral || shown.kind
                == Kind::Attention
            &&& outcome.completeness == Completeness::Cancelled || outcome.completeness
                == Completeness::Empty ==> shown.kind == Kind::Neutral
        }),
{
}

/// A delivered text is shown for a second and some; a copy, an unclean text and a neutral end
/// for four seconds.
pub proof fn passing_results_end_in_time(
    outcome: TerminalOutcomeView,
    status: StatusSnapshotView,
    now: u64,
    reduced_motion: bool,
)
    requires
        now + 4_000_000_000 <= u64::MAX,
        presented(outcome, status, now, reduced_motion).visibility is Until,
    ensures
        ({
            let until = presented(outcome, status, now, reduced_motion).visibility->Until_0;
            let sent = outcome.completeness == Completeness::Complete && (outcome.delivery
                == Delivery::Typed || outcome.delivery == Delivery::Pasted) && outcome.cleanup
                != Cleanup::Failed;
            &&& sent && !reduced_motion ==> until == now + 280_000_000 + 700_000_000 + 140_000_000
            &&& sent && reduced_motion ==> until == now + 700_000_000
            &&& !sent ==> until == now + 4_000_000_000
        }),
{
}

/// The title names what happened; a sent text needs none unless labels are on, and text that
/// could not be cleaned up is told as the original.
pub proof fn titles_name_what_happened(
    outcome: TerminalOutcomeView,
    status: StatusSnapshotView,
    now: u64,
    reduced_motion: bool,
)
    ensures
        ({
            let title = presented(outcome, status, now, reduced_motion).caption.title;
            let sent = outcome.delivery == Delivery::Typed || outcome.delivery == Delivery::Pasted;
            let copied = outcome.delivery == Delivery::Copied;
            let unclean = outcome.cleanup == Cleanup::Failed && (sent || copied);
            let whole = outcome.completeness == Completeness::Complete;
            &&& unclean && copied ==> title == "Original text copied. Cleanup unavailable."@
            &&& unclean && sent ==> title == "Original text sent. Cleanup unavailable."@
            &&& !unclean ==> {
                &&& outcome.completeness == Completeness::Cancelled ==> title == "Cancelled"@
                &&& outcome.completeness == Completeness::Empty && outcome.artifacts.audio ==> title
                    == "No transcript produced. Audio saved."@
                &&& outcome.completeness == Completeness::Empty && !outcome.artifacts.audio
                    ==> title == "No speech found"@
                &&& outcome.completeness == Completeness::Failed ==> title == outcome.message
                &&& outcome.completeness == Completeness::Partial && copied ==> title
                    == "Partial text copied."@
                &&& outcome.completeness == Completeness::Partial && !copied
                    && outcome.artifacts.text ==> title == "Partial transcript saved."@
                &&& outcome.completeness == Completeness::Partial && !copied
                    && !outcome.artifacts.text ==> title == "Partial transcription"@
                &&& whole && sent && status.hud.labels ==> title == "Sent"@
                &&& whole && sent && !status.hud.labels ==> title.len() == 0
                &&& whole && copied ==> title == outcome.message
                &&& whole && outcome.delivery == Delivery::Nothing ==> title == outcome.message
                &&& whole && outcome.delivery == Delivery::Uncertain ==> title
                    == "Delivery uncertain. Check the app."@
                &&& whole && outcome.delivery == Delivery::Deferred ==> title
                    == "Delivery paused. Text was not inserted."@
                &&& whole && outcome.delivery == Delivery::Failed ==> title == "Delivery failed."@
                &&& whole && outcome.delivery == Delivery::Cancelled ==> title == "Cancelled"@
            }
        }),
{
}

/// Where the text did not arrive whole, the display says which files are saved, and only
/// those that are.
pub proof fn details_name_the_saved_files(
    outcome: TerminalOutcomeView,
    status: StatusSnapshotView,
    now: u64,
    reduced_motion: bool,
)
    ensures
        ({
            let detail = presented(outcome, status, now, reduced_motion).caption.detail;
            let told = outcome.completeness == Completeness::Partial || outcome.completeness
                == Completeness::Failed || outcome.delivery == Delivery::Failed || outcome.delivery
                == Delivery::Uncertain || outcome.delivery == Delivery::Deferred;
            let audio = outcome.artifacts.audio;
            let text = outcome.artifacts.text;
            &&& told && audio && text ==> detail == "Audio and text saved."@
            &&& told && audio && !text ==> detail == "Audio saved."@
            &&& told && !audio && text ==> detail == "Text saved. No saved audio is available."@
            &&& told && !audio && !text ==> detail == "No saved audio or text is available."@
            &&& !told && outcome.completeness == Completeness::Cancelled && audio ==> detail
                == "Audio saved."@
            &&& !told && !(outcome.completeness == Completeness::Cancelled && audio)
                ==> detail.len() == 0
        }),
{
}

/// The advice is the first that helps: a whole text is copied before its audio is recovered,
/// locally before with a provider; a missing model is installed; a partial text is copied
/// last. What arrived needs none.
pub proof fn advice_is_the_first_that_helps(
    outcome: TerminalOutcomeView,
    capabilities: Capabilities,
)
    ensures
        ({
            let advice = outcome_route(outcome, capabilities);
            let named = outcome.artifacts.take_id is Some;
            let whole = outcome.completeness == Completeness::Complete;
            let arrived = outcome.delivery == Delivery::Typed || outcome.delivery
                == Delivery::Pasted || (outcome.delivery == Delivery::Copied && whole);
            let text = named && outcome.artifacts.text && capabilities.copy;
            let audio = named && outcome.artifacts.audio;
            let local = audio && capabilities.recover && capabilities.local_model;
            let remote = audio && capabilities.recover && capabilities.remote_configured;
            let install = audio && !capabilities.local_model;
            &&& arrived ==> advice.len() == 0
            &&& !arrived && text && whole ==> advice == "Cantrip actions → Copy this transcript"@
            &&& !arrived && !(text && whole) && local ==> advice
                == "Cantrip actions → Recover locally to clipboard"@
            &&& !arrived && !(text && whole) && !local && remote ==> advice
                == "Cantrip actions → Recover with configured provider to clipboard"@
            &&& !arrived && !(text && whole) && !local && !remote && install ==> advice
                == "Cantrip actions → Install local model"@
            &&& !arrived && !local && !remote && !install && text ==> advice
                == "Cantrip actions → Copy this transcript"@
            &&& !arrived && !local && !remote && !install && !text && (outcome.completeness
                == Completeness::Failed || outcome.completeness == Completeness::Partial) ==> advice
                == "Cantrip actions → Check setup"@
            &&& !arrived && !local && !remote && !install && !text && (outcome.completeness
                == Completeness::Cancelled || outcome.completeness == Completeness::Empty)
                ==> advice.len() == 0
        }),
{
}

/// A recording is shown as live input exactly where input is measured and not missed; words
/// come only with labels or with a warning.
pub proof fn recordings_are_shown_as_measured(
    status: StatusSnapshotView,
    signal: SignalHistory,
    label: Seq<char>,
    age: int,
)
    ensures
        ({
            let (kind, caption) = recording_display(status, signal, label, age);
            let late = signal.monitored || age >= 5_000_000_000;
            &&& kind == Kind::Recording <==> status.signal is Some && !signal.warning
            &&& kind == Kind::Attention <==> (status.signal is None && late) || (status.signal
                is Some && signal.warning)
            &&& kind == Kind::Working <==> status.signal is None && !late
            &&& kind == Kind::Recording && status.hud.labels ==> caption == title_caption(label)
            &&& kind != Kind::Attention && !status.hud.labels ==> caption == no_caption()
            &&& status.signal is Some && signal.warning ==> caption.title == "No input signal"@
                && caption.detail == "Check the microphone input."@
            &&& status.signal is None && late ==> caption.title == "Input status unavailable"@
            &&& kind == Kind::Working && status.hud.labels ==> caption.title
                == "Starting microphone…"@
        }),
{
}

/// Missing input is warned of only after eight seconds of measured silence before any input
/// was heard, and any input that is heard is remembered.
pub proof fn silence_warns_after_a_while(
    history: SignalHistory,
    signal: AudioSignal,
    age: int,
    now: u64,
)
    ensures
        ({
            let after = history.updated(Some(signal), age, now);
            &&& after.monitored
            &&& signal.level == 0 && !history.warning ==> (after.warning <==> !history.heard_input
                && signal.silent && age >= 8_000_000_000)
            &&& signal.level == 0 ==> after.returning_since is None && after.heard_input
                == history.heard_input
            &&& signal.level > 0 && !history.warning ==> after.heard_input && !after.warning
            &&& signal.level > 0 && history.warning && history.returning_since is None
                ==> after.warning && after.returning_since == Some(now)
            &&& signal.level > 0 && history.warning && history.returning_since is Some && now
                >= history.returning_since->0 ==> (after.warning <==> now
                - history.returning_since->0 < 300_000_000)
        }),
        history.updated(None, age, now).warning == history.warning,
        history.updated(None, age, now).monitored == history.monitored,
        history.updated(None, age, now).returning_since is None,
{
}

/// Processing is shown as work until the text is finished, and in words where labels are on
/// or something is undone.
pub proof fn processing_is_shown_by_its_stage(status: StatusSnapshotView)
    ensures
        ({
            let (kind, caption) = processing_display(status);
            let finishing = status.stage == Some(StageView::FinalizingAudio) || status.stage
                == Some(StageView::CleaningUp) || status.stage == Some(StageView::Delivering);
            let undoing = status.stage == Some(StageView::Cancelling) || status.stage == Some(
                StageView::RemovingRecording,
            );
            &&& kind == Kind::Finishing <==> finishing
            &&& kind == Kind::Working <==> !finishing
            &&& status.hud.labels || undoing ==> caption.title == processing_title(status)
                && caption.title.len() > 0
            &&& !status.hud.labels && !undoing ==> caption == no_caption()
            &&& caption.detail.len() == 0 && caption.action.len() == 0
        }),
{
    reveal_strlit("Finishing recording…");
    reveal_strlit("Removing saved audio…");
    reveal_strlit("Finishing text…");
    reveal_strlit("Delivering text…");
    reveal_strlit("Cancelling… Waiting for current work.");
    reveal_strlit("Recovering recording");
    reveal_strlit("Transcribing");
    reveal_strlit("Working…");
}

/// A stage is named for what it does, and counted only where it is divided.
pub proof fn stages_are_named(status: StatusSnapshotView, completed: u32, total: u32)
    ensures
        ({
            let title = processing_title(status);
            let recovering = status.operation_kind == Some(OperationKind::Recovery);
            let counted = total > 1 && completed <= total;
            let transcribing = status.stage == Some(StageView::Transcribing { completed, total });
            &&& status.stage == Some(StageView::FinalizingAudio) ==> title
                == "Finishing recording…"@
            &&& status.stage == Some(StageView::RemovingRecording) ==> title
                == "Removing saved audio…"@
            &&& status.stage == Some(StageView::CleaningUp) ==> title == "Finishing text…"@
            &&& status.stage == Some(StageView::Delivering) ==> title == "Delivering text…"@
            &&& status.stage == Some(StageView::Cancelling) ==> title
                == "Cancelling… Waiting for current work."@
            &&& transcribing && !counted && !recovering ==> title == "Transcribing"@ + "…"@
            &&& transcribing && !counted && recovering ==> title == "Recovering recording"@ + "…"@
            &&& transcribing && counted && !recovering ==> title == "Transcribing"@ + " · "@
                + decimal(completed as nat) + " of "@ + decimal(total as nat) + " complete"@
            &&& transcribing && counted && recovering ==> title == "Recovering recording"@ + " · "@
                + decimal(completed as nat) + " of "@ + decimal(total as nat) + " complete"@
            &&& status.stage is None ==> title == "Working…"@
        }),
{
}

/// A fresh outcome that arrives while the display watches an idle daemon is shown, whatever
/// it is, and the display takes its kind.
pub proof fn fresh_outcome_is_shown(
    model: ModelView,
    status: StatusSnapshotView,
    outcome: TerminalOutcomeView,
    now: u64,
)
    requires
        now + 4_000_000_000 <= u64::MAX,
        model.snapshot is Some,
        model.snapshot->0.epoch == status.epoch,
        status.state == StateKindView::Idle,
        status.outcome == Some(outcome),
        !outcome.dismissed,
        model.outcome_event is None || model.outcome_event->0 < outcome.event_id,
    ensures
        ({
            let after = model.applied(status, now);
            let motion = match status.hud.reduced_motion {
                Some(reduced) => reduced,
                None => model.desktop_reduced_motion,
            };
            &&& after.result is Some
            &&& after.result->0.event_id == Some(outcome.event_id)
            &&& after.result->0.kind == presented(outcome, status, now, motion).kind
            &&& after.result->0.visibility == presented(outcome, status, now, motion).visibility
            &&& after.kind == Some(after.result->0.kind)
            &&& after.caption == after.result->0.caption
            &&& after.outcome_event == Some(outcome.event_id)
            &&& outcome.completeness != Completeness::Empty ==> after.caption == presented(
                outcome,
                status,
                now,
                motion,
            ).caption
        }),
{
}

/// An outcome that waits for a decision is shown even to a display that was not there when it
/// came.
pub proof fn waiting_outcome_is_shown_to_a_new_display(
    status: StatusSnapshotView,
    outcome: TerminalOutcomeView,
    started: u64,
    now: u64,
)
    requires
        now + 4_000_000_000 <= u64::MAX,
        status.state == StateKindView::Idle,
        status.outcome == Some(outcome),
        !outcome.dismissed,
        outcome.completeness == Completeness::Failed || outcome.completeness
            == Completeness::Partial || (outcome.completeness == Completeness::Complete && (
        outcome.delivery == Delivery::Failed || outcome.delivery == Delivery::Deferred
            || outcome.delivery == Delivery::Uncertain)),
    ensures
        ({
            let after = ModelView::started(started).applied(status, now);
            &&& after.kind == Some(Kind::Attention)
            &&& after.result is Some
            &&& after.result->0.visibility == Visibility::Persistent
        }),
{
}

/// An empty take after a warning is told as missing input, with its audio where that was
/// saved.
pub proof fn missing_input_is_told_at_the_end(
    model: ModelView,
    status: StatusSnapshotView,
    outcome: TerminalOutcomeView,
    now: u64,
)
    requires
        now + 4_000_000_000 <= u64::MAX,
        model.snapshot is Some,
        model.snapshot->0.epoch == status.epoch,
        status.state == StateKindView::Idle,
        status.outcome == Some(outcome),
        !outcome.dismissed,
        model.outcome_event is None || model.outcome_event->0 < outcome.event_id,
        outcome.completeness == Completeness::Empty,
        outcome.operation_id == model.operation,
        model.signal.warning,
    ensures
        ({
            let caption = model.applied(status, now).caption;
            &&& caption.title == "No input signal detected"@
            &&& outcome.artifacts.audio ==> caption.detail
                == "Audio saved. Check the microphone input."@
            &&& !outcome.artifacts.audio ==> caption.detail == "Check the microphone input."@
        }),
{
}

/// While the daemon records, the display shows the measured waveform and no progress; while
/// it processes, the measured progress and no waveform.
pub proof fn display_follows_the_daemon(model: ModelView, status: StatusSnapshotView, now: u64)
    ensures
        ({
            let after = model.applied(status, now);
            &&& after.snapshot == Some(status)
            &&& after.lost_since is None
            &&& !after.lost_active
            &&& status.state == StateKindView::Recording ==> after.progress is None
                && after.waveform == match status.signal {
                Some(signal) => Some(signal.waveform),
                None => None,
            }
            &&& status.state != StateKindView::Recording ==> after.waveform is None
            &&& status.state == StateKindView::Processing ==> after.kind == Some(
                processing_display(status).0,
            ) && after.caption == processing_display(status).1
            &&& status.state is Unknown ==> after.kind == Some(Kind::Attention) && after.caption
                == unknown_caption()
            &&& status.state == StateKindView::Idle && after.result is None && after.interaction
                is None ==> after.kind is None && after.caption == no_caption()
            &&& status.state == StateKindView::Idle && after.result is None && after.interaction
                is Some ==> after.kind == Some(Kind::Neutral) && after.caption == no_caption()
        }),
{
}

/// The words for a state that cannot be known name what is unknown.
pub proof fn unknown_states_are_told()
    ensures
        lost_caption().title == "Cantrip connection lost"@,
        lost_caption().detail == "Recording and saved-audio status unknown."@,
        unknown_caption().title == "Cantrip status unavailable"@,
        unknown_caption().detail == "Recording and delivery status unknown."@,
        lost_caption().action == "Cantrip actions → Check setup"@,
        unknown_caption().action == "Cantrip actions → Check setup"@,
{
}

/// A new operation starts from nothing: no result, no feedback but its own, no warning, and a
/// track at rest.
pub proof fn new_operation_starts_from_rest(model: ModelView, status: StatusSnapshotView, now: u64)
    requires
        status.state == StateKindView::Recording || status.state == StateKindView::Processing,
        model.snapshot is None || model.snapshot->0.epoch != status.epoch || !model.active()
            || model.operation != status.operation_id,
    ensures
        ({
            let begun = model.begun(status, now);
            &&& begun.operation == status.operation_id
            &&& begun.phase_since == now
            &&& begun.signal == no_signal_history()
            &&& begun.result is None && begun.interaction is None
            &&& begun.kind is None && begun.waveform is None && begun.progress is None
            &&& begun.track == model.track.push(TrackStep::Reset { at: now })
        }),
{
}

/// Feedback on a request that is new to a watching display stands for two seconds, and is
/// gone once the daemon tells none.
pub proof fn feedback_is_shown_for_a_while(model: ModelView, status: StatusSnapshotView, now: u64)
    requires
        now + 4_000_000_000 <= u64::MAX,
        model.snapshot is Some,
        model.snapshot->0.epoch == status.epoch,
    ensures
        ({
            let after = model.applied(status, now);
            &&& status.notice is None ==> after.interaction is None
            &&& status.notice is Some && (model.notice_event is None || model.notice_event->0
                < status.notice->0.event_id) ==> after.interaction == Some(
                (status.notice->0.message, (now + 2_000_000_000) as u64),
            ) && after.notice_event == Some(status.notice->0.event_id)
            &&& status.notice is Some && model.notice_event == Some(status.notice->0.event_id)
                && after.interaction is Some ==> after.interaction == model.interaction
        }),
{
}

/// What was running when the connection or the daemon went, and is gone when it is back, is
/// told as unknown, unless the daemon tells what became of it.
pub proof fn interrupted_work_is_told(model: ModelView, status: StatusSnapshotView, now: u64)
    requires
        now + 4_000_000_000 <= u64::MAX,
        model.snapshot is Some,
        model.snapshot->0.epoch == status.epoch,
        model.lost_since is Some,
        model.lost_active,
        model.active(),
        status.state == StateKindView::Idle,
        status.outcome is None,
        model.result is None,
    ensures
        ({
            let after = model.applied(status, now);
            &&& after.kind == Some(Kind::Neutral)
            &&& after.caption.title == "Connection restored"@
            &&& after.caption.detail == "The previous take's result is unknown."@
            &&& after.result is Some && after.result->0.visibility == Visibility::Until(
                (now + 4_000_000_000) as u64,
            )
        }),
{
}

/// A daemon that went silent for two seconds counts as lost from then on.
pub proof fn silent_daemon_counts_as_lost(model: ModelView, last_status: u64, now: u64)
    requires
        model.lost_since is None,
        last_status + 2_000_000_000 <= u64::MAX,
        now >= last_status,
    ensures
        now - last_status < 2_000_000_000 ==> model.connection_refreshed(last_status, now)
            == model.refreshed(now),
        now - last_status >= 2_000_000_000 ==> model.connection_refreshed(
            last_status,
            now,
        ).lost_since == Some((last_status + 2_000_000_000) as u64),
{
}

/// A result is opaque until its last part, fades over it, and is gone at its end.
pub proof fn results_fade_at_their_end(until: u64, now: u64, reduced: bool)
    ensures
        ({
            let opacity = Visibility::Until(until).opacity(now, reduced);
            &&& opacity is None <==> now >= until
            &&& now < until && reduced ==> opacity == Some(140_000_000u64)
            &&& now < until && until - now >= 140_000_000 ==> opacity == Some(140_000_000u64)
            &&& now < until && until - now < 140_000_000 && !reduced ==> opacity == Some(
                (until - now) as u64,
            )
        }),
        Visibility::Persistent.opacity(now, reduced) == Some(140_000_000u64),
{
}

/// Results and feedback last exactly as long as they are meant to.
pub proof fn shown_things_expire_in_time(model: ModelView, now: u64)
    ensures
        ({
            let after = model.refreshed(now);
            &&& after.interaction is Some <==> model.interaction is Some && now
                < (model.interaction->0).1
            &&& after.result is Some <==> model.result is Some && (match model.result->0.visibility {
                Visibility::Persistent => true,
                Visibility::Until(until) => now < until,
            })
            &&& after.result is Some ==> after.result == model.result
            &&& after.interaction is Some ==> after.interaction == model.interaction
        }),
{
}

/// The track takes the shape of what is shown.
pub proof fn track_takes_the_shape_of_its_kind(
    model: ModelView,
    activity_since: u64,
    progress: Option<(u32, u32)>,
    waveform: Option<AudioWaveform>,
    now: u64,
)
    requires
        now >= activity_since,
    ensures
        model.shape(Some(Kind::Recording), activity_since, progress, waveform, now)
            == TrackShape::Recording(waveform),
        model.shape(Some(Kind::Working), activity_since, progress, waveform, now)
            == (TrackShape::Activity {
            kind: Kind::Working,
            age: (now - activity_since) as u64,
            progress,
            reduced: model.reduced_motion,
        }),
        model.shape(Some(Kind::Finishing), activity_since, progress, waveform, now)
            == (TrackShape::Activity {
            kind: Kind::Finishing,
            age: (now - activity_since) as u64,
            progress,
            reduced: model.reduced_motion,
        }),
        model.shape(Some(Kind::Resolved), activity_since, progress, waveform, now)
            == TrackShape::Resolved,
        model.shape(Some(Kind::Attention), activity_since, progress, waveform, now)
            == TrackShape::Attention,
        model.shape(Some(Kind::Neutral), activity_since, progress, waveform, now)
            == TrackShape::Quiet,
        model.shape(None, activity_since, progress, waveform, now) == TrackShape::Quiet,
{
}

/// The track moves exactly where what it shows has changed: slowly on a change of state,
/// quickly for a new measurement. Words count a revision exactly where they differ.
pub proof fn track_moves_where_something_changed(
    model: ModelView,
    kind: Option<Kind>,
    caption: CaptionView,
    progress: Option<(u32, u32)>,
    waveform: Option<AudioWaveform>,
    now: u64,
)
    ensures
        ({
            let after = model.composed(kind, caption, progress, waveform, now);
            let state = kind != model.kind || progress != model.progress;
            let last = after.track.last();
            &&& after.kind == kind && after.caption == caption && after.progress == progress
                && after.waveform == waveform
            &&& !state && waveform == model.waveform ==> after.track == model.track
            &&& state || waveform != model.waveform ==> after.track.len() == model.track.len() + 1
                && last is Target && last->Target_at == now && last->Target_state_change == state
            &&& state ==> last->Target_duration == 280_000_000
            &&& !state && waveform != model.waveform ==> last->Target_duration == 100_000_000
            &&& kind != model.kind ==> after.activity_since == now
            &&& kind == model.kind ==> after.activity_since == model.activity_since
            &&& caption == model.caption <==> after.caption_revision == model.caption_revision
        }),
{
}

/// Frames follow each other only where motion is wanted and something moves: work, a result
/// that will fade, or a track under way.
pub proof fn frames_follow_motion(model: ModelView, moving: bool, now: u64)
    ensures
        model.reduced_motion ==> !model.animated(moving),
        model.kind is None ==> !model.animated(moving),
        !model.reduced_motion && model.lost_since is None && (model.kind == Some(Kind::Recording)
            || model.kind == Some(Kind::Working) || model.kind == Some(Kind::Finishing))
            ==> model.animated(moving),
        !model.reduced_motion && model.lost_since is None && model.kind is Some && moving
            ==> model.animated(moving),
        model.kind == Some(Kind::Attention) && model.result is Some && model.result->0.visibility
            == Visibility::Persistent ==> (model.animated(moving) <==> moving
            && !model.reduced_motion),
        model.lost_since is None && model.reduced_motion && model.kind == Some(Kind::Recording)
            ==> model.frame_plan(now) == FramePlan::Still(FrameTarget::Destination),
        model.lost_since is None && !model.reduced_motion && model.kind == Some(Kind::Recording)
            ==> model.frame_plan(now) == FramePlan::Toward(FrameTarget::Destination),
{
}

/// The age of a phase is the longer of what the daemon tells and what was watched.
pub proof fn phases_age_by_the_longer_clock(
    status: StatusSnapshotView,
    phase_since: u64,
    now: u64,
)
    ensures
        phase_age(status, phase_since, now) >= status.elapsed * 1_000_000_000,
        now >= phase_since ==> phase_age(status, phase_since, now) >= now - phase_since,
        phase_age(status, phase_since, now) == status.elapsed * 1_000_000_000 || (now
            >= phase_since && phase_age(status, phase_since, now) == now - phase_since),
{
}

/// A duration is told in minutes and seconds.
pub proof fn clock_counts_minutes_and_seconds(minutes: nat, seconds: nat)
    requires
        seconds < 60,
    ensures
        clock_text(60 * minutes + seconds) == two_digits(minutes) + seq![':'] + two_digits(seconds),
        two_digits(seconds).len() == 2,
{
    assert((60 * minutes + seconds) / 60 == minutes);
    assert((60 * minutes + seconds) % 60 == seconds);
    if seconds >= 10 {
        assert(decimal(seconds / 10).len() == 1);
    }
}

/// Work is accented, attention has its own colour, and what is over has the plain one.
pub proof fn colours_tell_the_kind(kind: Kind)
    ensures
        tone_of(kind) == Tone::Attention <==> kind == Kind::Attention,
        tone_of(kind) == Tone::Accent <==> kind == Kind::Recording || kind == Kind::Working || kind
            == Kind::Finishing,
        tone_of(kind) == Tone::Foreground <==> kind == Kind::Resolved || kind == Kind::Neutral,
{
}

/// Whether a status tells of work.
pub proof fn work_is_recording_or_processing(status: StatusSnapshotView)
    ensures
        is_active(status) <==> status.state == StateKindView::Recording || status.state
            == StateKindView::Processing,
{
}

/// No drawn line is longer than the room for it, and a text that fits is drawn as it is.
pub proof fn drawn_lines_fit(s: Seq<char>, max_chars: nat, max_lines: nat)
    requires
        max_chars > 0,
    ensures
        drawn_lines(s, max_chars, max_lines).len() <= max_lines,
        forall|i: int|
            0 <= i < drawn_lines(s, max_chars, max_lines).len() ==> (#[trigger] drawn_lines(
                s,
                max_chars,
                max_lines,
            )[i]).len() <= max_chars,
    decreases max_lines,
{
    if max_lines > 0 && s.len() > 0 {
        let (line, rest) = wrapped(s, max_chars);
        let lines = drawn_lines(s, max_chars, max_lines);
        if max_lines == 1 && rest.len() > 0 {
            assert(prefix(line, (max_chars - 1) as nat).len() <= max_chars - 1);
        } else {
            let later = drawn_lines(rest, max_chars, (max_lines - 1) as nat);
            drawn_lines_fit(rest, max_chars, (max_lines - 1) as nat);
            assert forall|i: int| 0 <= i < lines.len() implies (#[trigger] lines[i]).len()
                <= max_chars by {
                if i > 0 {
                    assert(lines[i] == later[i - 1]);
                }
            }
        }
    }
}

/// Nothing takes no line, and something takes at least one.
pub proof fn words_take_lines(s: Seq<char>, max_chars: nat, max_lines: nat)
    ensures
        s.len() == 0 ==> line_count(s, max_chars, max_lines) == 0,
        s.len() > 0 && max_lines > 0 ==> line_count(s, max_chars, max_lines) >= 1,
{
}

/// The surface is as wide as meant, or as its output allows.
pub proof fn surface_fits_its_output(width: i32)
    ensures
        fitting_width(None) == 420,
        width >= 420 ==> fitting_width(Some(width)) == 420,
        1 <= width < 420 ==> fitting_width(Some(width)) == width,
        width < 1 ==> fitting_width(Some(width)) == 1,
{
}

/// A frame is drawn only on a configured surface whose last frame is done and whose size is
/// the one that its words need, and not where nothing has changed.
pub proof fn frames_are_drawn_where_they_are_needed(
    surface: Surface,
    output_width: Option<i32>,
    words: nat,
    shown: bool,
    same_frame: bool,
)
    ensures
        ({
            let redraw = surface.due(output_width, words, shown, same_frame);
            &&& redraw is Wait <==> !surface.configured || surface.frame_pending || !surface.layer
            &&& redraw is Unchanged ==> surface.rendered && same_frame && shown == surface.visible
                && !surface.screenshot
            &&& redraw is Draw ==> redraw->Draw_width == surface.width * surface.buffer_scale
                && redraw->Draw_height == surface.height * surface.buffer_scale
                && redraw->Draw_stride == redraw->Draw_width * 4
            &&& redraw is Draw && !surface.screenshot ==> !surface.rendered || !same_frame || shown
                != surface.visible
            &&& redraw is Draw ==> surface.requested_size.1 as nat == 56 + words
            &&& redraw is Resize ==> redraw->Resize_height == (56 + words) as u32
        }),
{
}

/// A surface that is shown again, on another scale or output, is drawn again; a done frame
/// makes room for the next.
pub proof fn surface_events_ask_for_frames(surface: Surface, factor: i32, version: u32)
    ensures
        !surface.after(SurfaceEvent::FrameDone).frame_pending,
        surface.after(SurfaceEvent::FrameDone).rendered == surface.rendered,
        !surface.after(SurfaceEvent::ScaleChanged { factor, version }).rendered,
        version >= 3 && factor > 1 ==> surface.after(
            SurfaceEvent::ScaleChanged { factor, version },
        ).buffer_scale == factor,
        version < 3 || factor <= 1 ==> surface.after(
            SurfaceEvent::ScaleChanged { factor, version },
        ).buffer_scale == 1,
        !surface.after(SurfaceEvent::Entered).rendered,
        surface.after(SurfaceEvent::Entered).on_output,
        !surface.after(SurfaceEvent::Closed).layer,
        !surface.after(SurfaceEvent::Closed).configured,
        surface.after(SurfaceEvent::Created).layer,
        !surface.after(SurfaceEvent::Created).configured,
{
}

/// A desktop without animations wants reduced motion, one with animations does not.
pub proof fn desktops_without_animations_want_reduced_motion(option: JsonView, value: u64)
    ensures
        option.bool_member("bool"@) == Some(true) ==> hyprland_preference(option) == Some(false),
        option.bool_member("bool"@) == Some(false) ==> hyprland_preference(option) == Some(true),
        option.bool_member("bool"@) is None && option.get("int"@) == Some(JsonView::Unsigned(value))
            && value <= i64::MAX ==> hyprland_preference(option) == Some(value == 0),
        option.bool_member("bool"@) is None && option.get("int"@) is None ==> hyprland_preference(
            option,
        ) is None,
        gnome_preference("false"@) == Some(true),
        gnome_preference("true"@) == Some(false),
{
    reveal_strlit("false");
    reveal_strlit("true");
    assert("false"@.len() == 5 && "true"@.len() == 4);
}

/// Progress is shown exactly where a transcription is divided and its count is sound.
pub proof fn progress_is_shown_where_it_is_counted(
    model: ModelView,
    status: StatusSnapshotView,
    completed: u32,
    total: u32,
    now: u64,
)
    requires
        status.state == StateKindView::Processing,
    ensures
        ({
            let after = model.applied(status, now);
            &&& status.stage == Some(StageView::Transcribing { completed, total }) && total > 1
                && completed <= total ==> after.progress == Some((completed, total))
            &&& status.stage == Some(StageView::Transcribing { completed, total }) && (total <= 1
                || completed > total) ==> after.progress is None
            &&& !(status.stage is Some && status.stage->0 is Transcribing)
                ==> after.progress is None
        }),
{
}

/// What needs a decision says that dismissing it keeps the recordings, below the advice.
pub proof fn dismissal_is_explained(
    outcome: TerminalOutcomeView,
    status: StatusSnapshotView,
    now: u64,
    reduced_motion: bool,
)
    ensures
        ({
            let shown = presented(outcome, status, now, reduced_motion);
            let advice = outcome_route(outcome, status.capabilities);
            let explained = shown.kind == Kind::Attention && status.capabilities.dismiss;
            &&& explained && advice.len() > 0 ==> shown.caption.action == advice + seq!['\n']
                + "Dismiss outcome keeps saved recordings."@
            &&& explained && advice.len() == 0 ==> shown.caption.action
                == "Dismiss outcome keeps saved recordings."@
            &&& !explained ==> shown.caption.action == advice
        }),
{
    let advice = outcome_route(outcome, status.capabilities);
    let end = "Dismiss outcome keeps saved recordings."@;
    assert(advice.push('\n') + end =~= advice + seq!['\n'] + end);
    if advice.len() == 0 {
        assert(advice + end =~= end);
    }
}

/// Missing input is told with what can be done about it.
pub proof fn missing_input_is_explained(
    status: StatusSnapshotView,
    signal: SignalHistory,
    label: Seq<char>,
    age: int,
)
    requires
        recording_display(status, signal, label, age).0 == Kind::Attention,
    ensures
        status.signal is None ==> recording_display(status, signal, label, age).1.action
            == "Cantrip actions → Settings"@,
        status.signal is None ==> recording_display(status, signal, label, age).1.detail
            == "Capture is not confirmed by the input monitor."@,
{
}

/// A recording with labels is shown with the time that the daemon tells.
pub proof fn recording_time_is_shown(model: ModelView, status: StatusSnapshotView, now: u64)
    requires
        status.state == StateKindView::Recording,
        status.hud.labels,
        status.signal is Some,
        model.snapshot is Some,
        model.snapshot->0.epoch == status.epoch,
        model.elapsed_value != Some(status.elapsed),
        model.active(),
        model.operation == status.operation_id,
        model.snapshot->0.state == StateKindView::Recording,
        !model.signal.warning,
        status.signal->0.level > 0,
    ensures
        model.applied(status, now).kind == Some(Kind::Recording),
        model.applied(status, now).caption.title == "Recording · "@ + clock_text(
            status.elapsed as nat,
        ),
{
}

/// A daemon that was started again is told from a connection that came back, and a take that
/// it saved from one whose end is not known.
pub proof fn restarts_are_told_from_outages(model: ModelView, status: StatusSnapshotView, now: u64)
    requires
        now + 4_000_000_000 <= u64::MAX,
        status.state == StateKindView::Idle,
        model.result is None,
    ensures
        ({
            let restarted = model.resumed(status, now, true, true).result->0.caption;
            let restored = model.resumed(status, now, true, false).result->0.caption;
            let saved = status.outcome is Some && status.outcome->0.operation_id
                == model.operation && (status.outcome->0.artifacts.audio
                || status.outcome->0.artifacts.text);
            &&& restarted.title == "Cantrip restarted"@
            &&& restored.title == "Connection restored"@
            &&& saved ==> restored.detail == "The previous take is available in saved recordings."@
            &&& !saved ==> restored.detail == "The previous take's result is unknown."@
            &&& restarted.detail == restored.detail
            &&& restored.action == "Cantrip → Recordings and recovery"@
            &&& model.resumed(status, now, false, true) == model
        }),
{
}

/// The title stands first and largest, the detail below it, then what can be done, coloured
/// only under attention, and last the feedback under its rule; what is empty takes no place.
pub proof fn words_stand_in_their_order(
    caption: CaptionView,
    interaction: Option<Seq<char>>,
    capacity: LineCapacity,
    kind: Kind,
)
    ensures
        ({
            let plan = planned_words(caption, interaction, capacity, kind);
            &&& plan.title.top == 50 && plan.title.size == 12 && plan.title.tone
                == Tone::Foreground
            &&& plan.title.lines == drawn_lines(
                trimmed(caption.title),
                capacity.title as nat,
                3,
            )
            &&& plan.detail is Some <==> caption.detail.len() > 0
            &&& plan.detail is Some ==> plan.detail->0.top == plan.title.end() + 3
                && plan.detail->0.size == 11 && plan.detail->0.tone == Tone::Foreground
                && plan.detail->0.lines == drawn_lines(
                trimmed(caption.detail),
                capacity.detail as nat,
                3,
            )
            &&& plan.action is Some <==> caption.action.len() > 0
            &&& plan.action is Some ==> plan.action->0.size == 10 && plan.action->0.lines
                == drawn_lines(trimmed(caption.action), capacity.action as nat, 4) && (
            plan.action->0.tone == Tone::Attention <==> kind == Kind::Attention)
            &&& plan.action is Some && plan.detail is Some ==> plan.action->0.top
                == plan.detail->0.end() + 7
            &&& plan.action is Some && plan.detail is None ==> plan.action->0.top
                == plan.title.end() + 7
            &&& plan.rule is Some <==> interaction is Some
            &&& plan.feedback is Some <==> interaction is Some
            &&& plan.feedback is Some ==> plan.feedback->0.top == plan.rule->0 + 6
                && plan.feedback->0.size == 11 && plan.feedback->0.lines == drawn_lines(
                trimmed(interaction->0),
                capacity.detail as nat,
                2,
            )
            &&& plan.feedback is Some && plan.action is Some ==> plan.rule->0
                == plan.action->0.end() + 7
            &&& plan.feedback is Some && plan.action is None && plan.detail is Some
                ==> plan.rule->0 == plan.detail->0.end() + 7
            &&& plan.feedback is Some && plan.action is None && plan.detail is None
                ==> plan.rule->0 == plan.title.end() + 7
            &&& plan.title.end() == 50 + 17 * plan.title.lines.len()
        }),
{
    let plan = planned_words(caption, interaction, capacity, kind);
    let count = plan.title.lines.len();
    assert(count * 17 == 17 * count);
}

proof fn lemma_no_break(s: Seq<char>)
    requires
        forall|i: int| 0 <= i < s.len() ==> #[trigger] s[i] != '\n',
    ensures
        line_break(s) == s.len(),
    decreases s.len(),
{
    if s.len() > 0 {
        assert forall|i: int| 0 <= i < s.skip(1).len() implies #[trigger] s.skip(1)[i]
            != '\n' by {
            assert(s.skip(1)[i] == s[i + 1]);
        }
        lemma_no_break(s.skip(1));
    }
}

proof fn lemma_last_space(s: Seq<char>, at: nat, end: nat)
    requires
        at < end <= s.len(),
        is_white_space(s[at as int]),
        forall|i: int| at < i < end ==> !is_white_space(#[trigger] s[i]),
    ensures
        last_space(s, end) == at,
    decreases end,
{
    if end - 1 > at {
        lemma_last_space(s, at, (end - 1) as nat);
    }
}

/// A text that fits stands on one line as it is.
pub proof fn fitting_texts_stand_on_one_line(s: Seq<char>, max_chars: nat, max_lines: nat)
    requires
        0 < s.len() <= max_chars,
        max_lines > 0,
        forall|i: int| 0 <= i < s.len() ==> #[trigger] s[i] != '\n',
    ensures
        wrapped(s, max_chars) == (s, Seq::<char>::empty()),
        drawn_lines(s, max_chars, max_lines) == seq![s],
{
    lemma_no_break(s);
    assert(s.take(s.len() as int) =~= s);
    assert(s.skip(s.len() as int) =~= Seq::empty());
    assert(drawn_lines(Seq::empty(), max_chars, (max_lines - 1) as nat) =~= Seq::empty());
    assert(drawn_lines(s, max_chars, max_lines) =~= seq![s]);
}

/// A text that does not fit is broken at the last blank that does, and the words on both
/// sides stay whole.
pub proof fn texts_are_broken_between_words(first: Seq<char>, second: Seq<char>, max_chars: nat)
    requires
        first.len() > 0,
        first.len() < max_chars,
        max_chars < first.len() + 1 + second.len(),
        second.len() > 0,
        forall|i: int| 0 <= i < first.len() ==> !is_white_space(#[trigger] first[i]),
        forall|i: int| 0 <= i < second.len() ==> !is_white_space(#[trigger] second[i]),
    ensures
        wrapped(first + seq![' '] + second, max_chars) == (first, second),
{
    let s = first + seq![' '] + second;
    assert forall|i: int| 0 <= i < s.len() implies #[trigger] s[i] != '\n' by {
        if i < first.len() {
            assert(s[i] == first[i]);
        } else if i > first.len() {
            assert(s[i] == second[i - first.len() - 1]);
        }
    }
    lemma_no_break(s);
    assert forall|i: int| first.len() < i < max_chars implies !is_white_space(#[trigger] s[i]) by {
        assert(s[i] == second[i - first.len() - 1]);
    }
    assert(s[first.len() as int] == ' ');
    lemma_last_space(s, first.len(), max_chars);
    assert(s.take(first.len() as int) =~= first);
    let rest = s.skip(first.len() as int);
    assert(rest[0] == ' ');
    assert(rest.skip(1) =~= second);
    assert(is_white_space(' '));
    assert(!is_white_space(second[0]));
    reveal_with_fuel(trim_start, 2);
    assert(trim_start(rest) == second);
    assert(!is_white_space(first.last()));
    assert(trim_end(first) == first);
}

/// A line ends where the text breaks it.
pub proof fn texts_are_broken_at_their_breaks(first: Seq<char>, second: Seq<char>, max_chars: nat)
    requires
        first.len() <= max_chars,
        forall|i: int| 0 <= i < first.len() ==> #[trigger] first[i] != '\n',
        second.len() > 0,
        !is_white_space(second[0]),
    ensures
        wrapped(first + seq!['\n'] + second, max_chars) == (first, second),
{
    let s = first + seq!['\n'] + second;
    lemma_break_found(first, second);
    assert(s.take(first.len() as int) =~= first);
    let rest = s.skip(first.len() as int);
    assert(rest[0] == '\n');
    assert(rest.skip(1) =~= second);
    reveal_with_fuel(trim_start, 2);
    assert(trim_start(rest) == second);
}

proof fn lemma_break_found(first: Seq<char>, second: Seq<char>)
    requires
        forall|i: int| 0 <= i < first.len() ==> #[trigger] first[i] != '\n',
    ensures
        line_break(first + seq!['\n'] + second) == first.len(),
    decreases first.len(),
{
    let s = first + seq!['\n'] + second;
    if first.len() > 0 {
        assert forall|i: int| 0 <= i < first.skip(1).len() implies #[trigger] first.skip(1)[i]
            != '\n' by {
            assert(first.skip(1)[i] == first[i + 1]);
        }
        lemma_break_found(first.skip(1), second);
        assert(s.skip(1) =~= first.skip(1) + seq!['\n'] + second);
        assert(s[0] == first[0]);
    } else {
        assert(s[0] == '\n');
    }
}

/// The last line that is drawn ends in an ellipsis exactly where more would follow.
pub proof fn cut_texts_end_in_an_ellipsis(s: Seq<char>, max_chars: nat)
    requires
        s.len() > 0,
        max_chars > 0,
    ensures
        ({
            let (line, rest) = wrapped(s, max_chars);
            let drawn = drawn_lines(s, max_chars, 1);
            &&& drawn.len() == 1
            &&& rest.len() > 0 ==> drawn[0].len() > 0 && drawn[0].last() == '…'
            &&& rest.len() == 0 && line.len() <= max_chars ==> drawn[0] == line
        }),
{
    let (line, rest) = wrapped(s, max_chars);
    assert(drawn_lines(rest, max_chars, 0) =~= Seq::empty());
    if rest.len() == 0 {
        assert(drawn_lines(s, max_chars, 1) =~= seq![prefix(line, max_chars)]);
    }
}

/// A desktop is known by its name in the list, whatever the case of its letters.
pub proof fn desktops_are_known_by_their_name(names: Seq<char>)
    ensures
        ({
            let listed = pieces(names.map_values(|c: char| lowered(c)), ':');
            &&& listed.contains("hyprland"@) ==> named_desktop(names) == Some(
                DesktopKind::Hyprland,
            )
            &&& !listed.contains("hyprland"@) && listed.contains("gnome"@) ==> named_desktop(names)
                == Some(DesktopKind::Gnome)
            &&& !listed.contains("hyprland"@) && !listed.contains("gnome"@)
                ==> named_desktop(names) is None
        }),
        lowered('H') == 'h' && lowered('G') == 'g' && lowered('h') == 'h' && lowered(':') == ':',
{
}

/// A surface without a layer waits for an output when one comes; one with a layer stays as
/// it is.
pub proof fn surfaces_wait_for_outputs(surface: Surface)
    ensures
        surface.layer ==> surface.after(SurfaceEvent::NewOutput) == surface,
        !surface.layer ==> surface.after(SurfaceEvent::NewOutput).lifecycle
            == SurfaceLifecycle::WaitingForOutput,
        surface.after(SurfaceEvent::OutputUpdated { current: false }) == surface,
        !surface.after(SurfaceEvent::OutputUpdated { current: true }).rendered,
        !surface.after(SurfaceEvent::TransformChanged).rendered,
{
}

/// The words take the height of their lines and of the gaps between them, with some room
/// below; no words take none.
pub proof fn words_take_their_height(
    caption: CaptionView,
    interaction: Option<Seq<char>>,
    capacity: LineCapacity,
)
    ensures
        ({
            let height = words_height(caption, interaction, capacity);
            let title = line_count(trimmed(caption.title), capacity.title as nat, 3);
            let detail = line_count(trimmed(caption.detail), capacity.detail as nat, 3);
            let action = line_count(trimmed(caption.action), capacity.action as nat, 4);
            let gaps: nat = (if caption.detail.len() > 0 {
                3nat
            } else {
                0
            }) + (if caption.action.len() > 0 {
                7nat
            } else {
                0
            }) + (if interaction is Some {
                14nat
            } else {
                0
            });
            let told = if interaction is Some {
                line_count(trimmed(interaction->0), capacity.detail as nat, 2)
            } else {
                0
            };
            let below = if caption.detail.len() > 0 {
                16 * detail
            } else {
                0
            };
            let advice = if caption.action.len() > 0 {
                15 * action
            } else {
                0
            };
            let all = 17 * title + below + advice + 16 * told + gaps;
            &&& all > 0 ==> height == all + 12
            &&& all == 0 ==> height == 0
        }),
{
}

/// A line without room is drawn as its ellipsis alone.
pub proof fn lines_without_room_are_an_ellipsis(s: Seq<char>, max_chars: nat)
    requires
        max_chars <= 1,
        wrapped(s, max_chars).1.len() > 0,
        s.len() > 0,
    ensures
        drawn_lines(s, max_chars, 1) == seq![seq!['…']],
{
    let line = wrapped(s, max_chars).0;
    assert(prefix(line, 0) =~= Seq::empty());
    assert(Seq::<char>::empty().push('…') =~= seq!['…']);
    assert(drawn_lines(s, max_chars, 1) =~= seq![seq!['…']]);
}

/// A surface that lost its output is gone until another comes; one whose output stays is not.
pub proof fn surfaces_go_with_their_output(surface: Surface)
    ensures
        ({
            let after = surface.after(SurfaceEvent::OutputDestroyed { current: true });
            &&& after.lifecycle == SurfaceLifecycle::WaitingForOutput
            &&& !after.layer && !after.on_output && !after.configured && !after.rendered
                && !after.visible
        }),
        surface.layer ==> surface.after(SurfaceEvent::OutputDestroyed { current: false })
            == surface,
        ({
            let created = surface.after(SurfaceEvent::Created);
            &&& created.lifecycle == SurfaceLifecycle::Open && !created.visible
                && !created.rendered && !created.frame_pending && !created.on_output
                && created.buffer_scale == 1
        }),
        ({
            let closed = surface.after(SurfaceEvent::Closed);
            &&& closed.lifecycle == SurfaceLifecycle::Closed && !closed.visible
                && !closed.rendered
        }),
{
}

/// The display asks for the width that fits its output, but never for less than its least,
/// and for the height of its words below its track; its body keeps within both widths.
pub proof fn surfaces_ask_for_what_they_need(
    surface: Surface,
    output_width: Option<i32>,
    words: nat,
)
    ensures
        ({
            let desired = Surface::desired(output_width, words);
            let body = surface.body_width(output_width);
            &&& desired.0 >= 80 && desired.0 <= 420
            &&& output_width is None ==> desired.0 == 420
            &&& output_width is Some && 80 <= output_width->0 <= 420 ==> desired.0
                == output_width->0
            &&& output_width is Some && output_width->0 < 80 ==> desired.0 == 80
            &&& desired.1 == 56 + words
            &&& body <= 336 && body <= surface.width - 12 && body <= desired.0 - 12
            &&& body == 336 || body == surface.width - 12 || body == desired.0 - 12
        }),
{
}

/// A frame is drawn wherever one is due and its size can be counted.
pub proof fn due_frames_are_drawn(
    surface: Surface,
    output_width: Option<i32>,
    words: nat,
    shown: bool,
    same_frame: bool,
)
    requires
        surface.configured,
        !surface.frame_pending,
        surface.layer,
        (surface.requested_size.0 as nat, surface.requested_size.1 as nat) == Surface::desired(
            output_width,
            words,
        ),
        !surface.rendered || !same_frame || shown != surface.visible || surface.screenshot,
    ensures
        ({
            let redraw = surface.due(output_width, words, shown, same_frame);
            &&& redraw is Draw <==> surface.width * surface.buffer_scale * 4 <= u32::MAX
                && surface.height * surface.buffer_scale <= u32::MAX
            &&& redraw == Redraw::WidthOverflow <==> surface.width * surface.buffer_scale
                > u32::MAX
        }),
{
    let wide = surface.width * surface.buffer_scale;
    assert(wide >= 0) by (nonlinear_arith)
        requires
            wide == surface.width * surface.buffer_scale,
    ;
}

} // verus!
