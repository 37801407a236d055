//! What holds of the display whatever it is told.

use crate::hud::layout::{last_space, line_break, wrap_end, wrapped};
use crate::hud::model::{
    is_active, lost_caption, phase_age, processing_display, recording_display, unknown_caption,
};
use crate::hud::present::{is_delivered, outcome_route, presented};
use crate::hud::{
    is_persistent, no_caption, since, CaptionView, FramePlan, Kind, ModelView, SignalHistory,
    Visibility, DISCONNECT_DELAY, NOTICE_HOLD, RESULT_FADE, SETTLE, SIGNAL_RETURN, SUCCESS_HOLD,
};
use crate::ipc::{
    stage_progress, AudioSignal, AudioWaveform, Cleanup, Completeness, StageView, StateKindView,
    StatusSnapshotView, TerminalOutcomeView,
};
use crate::text::{is_blank, is_white_space, trim_end, trim_start};
use vstd::prelude::*;

verus! {

/// Running work always wins: no finished operation is shown while another runs.
pub proof fn active_work_hides_results(model: ModelView, status: StatusSnapshotView, now: u64)
    requires
        is_active(status),
    ensures
        model.applied(status, now).result is None,
{
}

/// A success that was there before the display, or before this daemon process, is
/// never replayed: without a notice, the display stays empty.
pub proof fn cached_success_is_not_replayed(model: ModelView, status: StatusSnapshotView, now: u64)
    requires
        status.state == StateKindView::Idle,
        model.snapshot is None || model.epoch_changed(status),
        !model.active(),
        !model.lost_active,
        model.snapshot is None ==> model.result is None && model.interaction is None
            && model.outcome_event is None,
        match status.outcome {
            Some(outcome) => !is_persistent(outcome),
            None => true,
        },
    ensures
        model.applied(status, now).result is None,
        model.applied(status, now).interaction is None,
        model.applied(status, now).kind is None,
        model.applied(status, now).caption == no_caption(),
{
}

/// A dismissed outcome is not shown, neither now nor again.
pub proof fn dismissed_outcome_is_not_shown(
    model: ModelView,
    status: StatusSnapshotView,
    outcome: TerminalOutcomeView,
    now: u64,
)
    requires
        status.outcome == Some(outcome),
        outcome.dismissed,
    ensures
        !model.applied(status, now).shows(outcome.event_id),
{
}

/// An outcome that was seen before is not presented a second time: the result that
/// it leaves is the one shown already, with its time unchanged.
pub proof fn seen_outcome_cannot_extend_its_result(
    model: ModelView,
    status: StatusSnapshotView,
    outcome: TerminalOutcomeView,
    now: u64,
)
    requires
        status.outcome == Some(outcome),
        !model.epoch_changed(status),
        !model.outcome_fresh(outcome),
        !model.lost_active,
    ensures
        match model.applied(status, now).result {
            Some(result) => model.result is Some && result.visibility == model.result->0.visibility
                && result.kind == model.result->0.kind && result.caption.title
                == model.result->0.caption.title,
            None => true,
        },
{
}

/// Feedback on a request changes nothing but the feedback.
pub proof fn notice_leaves_the_operation_alone(
    model: ModelView,
    status: StatusSnapshotView,
    now: u64,
)
    requires
        is_active(status),
    ensures
        ({
            let quiet = StatusSnapshotView { notice: None, ..status };
            let with = model.applied(status, now);
            let without = model.applied(quiet, now);
            &&& with.kind == without.kind
            &&& with.caption == without.caption
            &&& with.progress == without.progress
            &&& with.waveform == without.waveform
            &&& with.result == without.result
            &&& with.signal == without.signal
            &&& with.track == without.track
        }),
{
    let quiet = StatusSnapshotView { notice: None, ..status };
    let restarted = model.epoch_changed(status);
    let interrupted = (model.lost_since is Some && model.lost_active) || (restarted
        && model.active());
    let initial = model.snapshot is None || restarted;
    let changed = model.capabilities_changed(status);
    let begun = model.begun(status, now);
    assert(begun == model.begun(quiet, now));
    let listened = begun.listened(status, now);
    assert(listened == begun.listened(quiet, now));
    let observed = listened.outcome_observed(status, now, initial, changed);
    assert(observed.result is None);
    assert(observed == listened.outcome_observed(quiet, now, initial, changed));
    let resumed = observed.resumed(status, now, interrupted, restarted);
    assert(resumed == observed);
    let with = ModelView { snapshot: Some(status), ..resumed.noticed(status, now, initial) };
    let without = ModelView { snapshot: Some(quiet), ..resumed.noticed(quiet, now, initial) };
    lemma_display_ignores_feedback(with, without, now);
}

proof fn lemma_display_ignores_feedback(with: ModelView, without: ModelView, now: u64)
    requires
        with.snapshot is Some,
        without.snapshot is Some,
        is_active(with.snapshot->0),
        without.snapshot->0 == (StatusSnapshotView { notice: None, ..with.snapshot->0 }),
        with.lost_since is None,
        with.result is None,
        without == (ModelView {
            snapshot: without.snapshot,
            interaction: without.interaction,
            notice_event: without.notice_event,
            ..with
        }),
    ensures
        with.refreshed(now).kind == without.refreshed(now).kind,
        with.refreshed(now).caption == without.refreshed(now).caption,
        with.refreshed(now).progress == without.refreshed(now).progress,
        with.refreshed(now).waveform == without.refreshed(now).waveform,
        with.refreshed(now).result == without.refreshed(now).result,
        with.refreshed(now).signal == without.refreshed(now).signal,
        with.refreshed(now).track == without.refreshed(now).track,
{
}

/// A result that needs a decision stays for as long as the daemon is idle and
/// tells nothing new.
pub proof fn persistent_result_stays(model: ModelView, now: u64)
    requires
        model.result is Some,
        model.result->0.visibility == Visibility::Persistent,
    ensures
        model.refreshed(now).result == model.result,
        model.snapshot is Some && model.snapshot->0.state == StateKindView::Idle
            && !model.lost_active ==> model.refreshed(now).kind == Some(model.result->0.kind)
            && model.refreshed(now).caption == model.result->0.caption,
{
}

/// Silence after real input never warns, and a warning clears only once input has
/// been back for long enough.
pub proof fn warning_is_initial_and_clears_late(
    history: SignalHistory,
    signal: Option<AudioSignal>,
    age: int,
    now: u64,
)
    ensures
        history.heard_input && !history.warning ==> !history.updated(signal, age, now).warning,
        history.warning && !history.updated(signal, age, now).warning ==> signal is Some
            && signal->0.level > 0 && history.returning_since is Some && since(
            now,
            history.returning_since->0,
        ) >= SIGNAL_RETURN,
        history.heard_input ==> history.updated(signal, age, now).heard_input,
        history.warning && !history.updated(signal, age, now).warning ==> history.updated(
            signal,
            age,
            now,
        ).heard_input,
{
}

/// A short outage of running work changes nothing that is shown, and moves nothing.
pub proof fn short_outage_is_coalesced(model: ModelView, now: u64)
    requires
        model.lost_active,
        model.lost_since is Some,
        since(now, model.lost_since->0) < DISCONNECT_DELAY,
        model.kind != Some(Kind::Attention),
    ensures
        model.refreshed(now).kind == model.kind,
        model.refreshed(now).caption == model.caption,
        model.refreshed(now).track == model.track,
        model.refreshed(now).frame_plan(now) == FramePlan::Presented,
        !model.refreshed(now).animated(true),
{
}

/// A long outage of running work is told, without words of measured progress or
/// input that nobody can measure any more.
pub proof fn long_outage_is_told(model: ModelView, now: u64)
    requires
        model.lost_active,
        model.lost_since is Some,
        since(now, model.lost_since->0) >= DISCONNECT_DELAY,
    ensures
        model.refreshed(now).kind == Some(Kind::Attention),
        model.refreshed(now).caption == lost_caption(),
        model.refreshed(now).waveform is None,
        model.refreshed(now).progress is None,
{
}

/// Progress is never invented: what is shown is what the last status measures, or
/// nothing, however much time goes by.
pub proof fn progress_is_never_invented(
    model: ModelView,
    status: StatusSnapshotView,
    now: u64,
    later: u64,
)
    ensures
        ({
            let measured = match (status.state, status.stage) {
                (StateKindView::Processing, Some(stage)) => stage_progress(stage),
                _ => None,
            };
            let shown = model.applied(status, now);
            &&& shown.progress == measured
            &&& shown.refreshed(later).progress == measured
            &&& shown.disconnected(later).progress == measured
        }),
{
}

/// Further failed requests do not restart an outage.
pub proof fn outage_is_dated_once(model: ModelView, first: u64, second: u64)
    requires
        model.lost_since is None,
    ensures
        model.disconnected(first).lost_since == Some(first),
        model.disconnected(first).disconnected(second).lost_since == Some(first),
        model.disconnected(first).lost_active == model.active(),
{
}

/// Time alone shows nothing new: a display that has been brought to an instant is
/// not changed by being brought there again.
pub proof fn refresh_is_stable(model: ModelView, now: u64)
    ensures
        model.refreshed(now).refreshed(now) == model.refreshed(now),
{
    let current = model.expired(now);
    let shown = model.refreshed(now);
    assert(shown.interaction == current.interaction && shown.result == current.result);
    assert(shown.expired(now) == shown);
    if current.lost_since is Some && current.lost_active {
        lemma_composition_is_stable(current, Some(Kind::Attention), lost_caption(), None, None, now);
    } else if current.snapshot is Some {
        lemma_display_is_stable(current, now);
    }
}

proof fn lemma_composition_is_stable(
    model: ModelView,
    kind: Option<Kind>,
    caption: CaptionView,
    progress: Option<(u32, u32)>,
    waveform: Option<AudioWaveform>,
    now: u64,
)
    ensures
        model.composed(kind, caption, progress, waveform, now).composed(
            kind,
            caption,
            progress,
            waveform,
            now,
        ) == model.composed(kind, caption, progress, waveform, now),
{
}

proof fn lemma_display_is_stable(model: ModelView, now: u64)
    requires
        model.snapshot is Some,
    ensures
        model.displayed(now).displayed(now) == model.displayed(now),
{
    let status = model.snapshot->0;
    let shown = model.displayed(now);
    match status.state {
        StateKindView::Recording => {
            let display = recording_display(
                status,
                model.signal,
                model.elapsed_label,
                phase_age(status, model.phase_since, now),
            );
            let waveform = match status.signal {
                Some(signal) => Some(signal.waveform),
                None => None,
            };
            assert(shown == model.composed(Some(display.0), display.1, None, waveform, now));
            lemma_composition_is_stable(model, Some(display.0), display.1, None, waveform, now);
        },
        StateKindView::Processing => {
            let display = processing_display(status);
            let progress = match status.stage {
                Some(stage) => stage_progress(stage),
                None => None,
            };
            assert(shown == model.composed(Some(display.0), display.1, progress, None, now));
            lemma_composition_is_stable(model, Some(display.0), display.1, progress, None, now);
        },
        StateKindView::Idle => {
            match model.result {
                Some(result) => {
                    lemma_composition_is_stable(
                        model,
                        Some(result.kind),
                        result.caption,
                        None,
                        None,
                        now,
                    );
                },
                None => {
                    let kind = if model.interaction is Some {
                        Some(Kind::Neutral)
                    } else {
                        None
                    };
                    lemma_composition_is_stable(model, kind, no_caption(), None, None, now);
                },
            }
        },
        StateKindView::Unknown(_) => {
            lemma_composition_is_stable(
                model,
                Some(Kind::Attention),
                unknown_caption(),
                None,
                None,
                now,
            );
        },
    }
}

/// Without labels, routine work needs no words, however long it takes.
pub proof fn routine_work_is_wordless(status: StatusSnapshotView)
    requires
        !status.hud.labels,
        status.stage != Some(StageView::Cancelling),
        status.stage != Some(StageView::RemovingRecording),
    ensures
        processing_display(status).1 == no_caption(),
{
}

/// An explicit preference wins over that of the desktop.
pub proof fn explicit_motion_preference_wins(
    model: ModelView,
    status: StatusSnapshotView,
    now: u64,
)
    ensures
        status.hud.reduced_motion is Some ==> model.applied(status, now).reduced_motion
            == status.hud.reduced_motion->0,
        status.hud.reduced_motion is None ==> model.applied(status, now).reduced_motion
            == model.desktop_reduced_motion,
{
}

/// Delivered text is shown at full opacity for the whole of its hold, after the
/// mark has settled, and is gone once it has faded.
pub proof fn success_holds_and_fades(
    outcome: TerminalOutcomeView,
    status: StatusSnapshotView,
    shown: u64,
    now: u64,
)
    requires
        outcome.completeness == Completeness::Complete,
        is_delivered(outcome.delivery),
        outcome.cleanup != Cleanup::Failed,
        shown + NOTICE_HOLD <= u64::MAX,
    ensures
        ({
            let result = presented(outcome, status, shown, false);
            &&& result.kind == Kind::Resolved
            &&& now <= shown + SETTLE + SUCCESS_HOLD ==> result.visibility.opacity(now, false)
                == Some(RESULT_FADE)
            &&& now >= shown + SETTLE + SUCCESS_HOLD + RESULT_FADE
                ==> result.visibility.opacity(now, false) is None
        }),
        ({
            let result = presented(outcome, status, shown, true);
            &&& now < shown + SUCCESS_HOLD ==> result.visibility.opacity(now, true) == Some(
                RESULT_FADE,
            )
            &&& now >= shown + SUCCESS_HOLD ==> result.visibility.opacity(now, true) is None
        }),
{
}

/// A cancelled or an empty take never asks for attention, saved audio or not.
pub proof fn deliberate_ends_stay_neutral(
    outcome: TerminalOutcomeView,
    status: StatusSnapshotView,
    now: u64,
    reduced_motion: bool,
)
    requires
        outcome.completeness == Completeness::Cancelled || outcome.completeness
            == Completeness::Empty,
    ensures
        presented(outcome, status, now, reduced_motion).kind == Kind::Neutral,
        presented(outcome, status, now, reduced_motion).visibility is Until,
{
}

/// No advice is given about a take that is not named.
pub proof fn advice_needs_a_named_take(
    outcome: TerminalOutcomeView,
    status: StatusSnapshotView,
)
    requires
        outcome.artifacts.take_id is None,
    ensures
        outcome_route(outcome, status.capabilities) == Seq::<char>::empty() || outcome_route(
            outcome,
            status.capabilities,
        ) == "Cantrip actions → Check setup"@,
{
}

/// A recording without a measurement is never shown as live input.
pub proof fn unmeasured_recording_is_not_live(
    status: StatusSnapshotView,
    signal: SignalHistory,
    label: Seq<char>,
    age: int,
)
    requires
        status.signal is None,
    ensures
        recording_display(status, signal, label, age).0 != Kind::Recording,
{
}

/// Dropping leading white space drops nothing else.
pub proof fn trim_start_drops_white_space(s: Seq<char>)
    ensures
        trim_start(s).len() <= s.len(),
        s == s.take(s.len() - trim_start(s).len()) + trim_start(s),
        is_blank(s.take(s.len() - trim_start(s).len())),
    decreases s.len(),
{
    if s.len() > 0 && is_white_space(s[0]) {
        let rest = s.skip(1);
        trim_start_drops_white_space(rest);
        let cut = s.len() - trim_start(s).len();
        assert(s.take(cut) =~= seq![s[0]] + rest.take(cut - 1));
        assert(s =~= seq![s[0]] + rest);
        assert(s =~= s.take(cut) + trim_start(s));
        assert forall|i: int| 0 <= i < cut implies is_white_space(#[trigger] s.take(cut)[i]) by {
            if i > 0 {
                assert(rest.take(cut - 1)[i - 1] == s.take(cut)[i]);
            }
        }
    } else {
        assert(s =~= s.take(0) + s);
    }
}

/// Dropping trailing white space drops nothing else.
pub proof fn trim_end_drops_white_space(s: Seq<char>)
    ensures
        trim_end(s).len() <= s.len(),
        s == trim_end(s) + s.skip(trim_end(s).len() as int),
        is_blank(s.skip(trim_end(s).len() as int)),
    decreases s.len(),
{
    if s.len() > 0 && is_white_space(s.last()) {
        let rest = s.drop_last();
        trim_end_drops_white_space(rest);
        let kept = trim_end(s).len() as int;
        assert(s.skip(kept) =~= rest.skip(kept).push(s.last()));
        assert(s =~= rest.push(s.last()));
        assert(s =~= trim_end(s) + s.skip(kept));
        assert forall|i: int| 0 <= i < s.skip(kept).len() implies is_white_space(
            #[trigger] s.skip(kept)[i],
        ) by {
            if i < rest.skip(kept).len() {
                assert(rest.skip(kept)[i] == s.skip(kept)[i]);
            }
        }
    } else {
        assert(s =~= s + s.skip(s.len() as int));
    }
}

proof fn lemma_wrap_end_bounds(s: Seq<char>, end: nat)
    ensures
        line_break(s) <= s.len(),
        last_space(s, end) <= end,
    decreases s.len() + end,
{
    if s.len() > 0 && s[0] != '\n' {
        lemma_wrap_end_bounds(s.skip(1), 0);
    }
    if end > 0 {
        lemma_wrap_end_bounds(s, (end - 1) as nat);
    }
}

/// Wrapping loses nothing but white space: the line, some white space and the rest
/// make up the text.
pub proof fn wrapping_loses_only_white_space(s: Seq<char>, max_chars: nat)
    ensures
        ({
            let (line, rest) = wrapped(s, max_chars);
            let gap = s.subrange(line.len() as int, s.len() - rest.len());
            &&& line.len() + rest.len() <= s.len()
            &&& s == line + gap + rest
            &&& is_blank(gap)
        }),
{
    let end = wrap_end(s, max_chars) as int;
    lemma_wrap_end_bounds(s, max_chars);
    let (line, rest) = wrapped(s, max_chars);
    let head = s.take(end);
    let tail = s.skip(end);
    trim_start_drops_white_space(tail);
    trim_end_drops_white_space(head);
    let gap = s.subrange(line.len() as int, s.len() - rest.len());
    let after = tail.take(tail.len() - rest.len());
    let before = head.skip(line.len() as int);
    assert(head =~= line + before);
    assert(is_blank(before));
    assert(gap =~= before + after);
    assert(tail =~= after + rest);
    assert(s =~= head + tail);
    assert(line + gap + rest =~= line + before + (after + rest));
    assert forall|i: int| 0 <= i < gap.len() implies is_white_space(#[trigger] gap[i]) by {
        if i < before.len() {
            assert(before[i] == gap[i]);
        } else {
            assert(after[i - before.len()] == gap[i]);
        }
    }
}

} // verus!
