//! What the actions window offers, says and does.

use crate::actions::offers::{
    ActionView, SetupOffer, StatusOffer, TakeHint, TakeOffer, WindowNote,
};
use crate::actions::panels::{
    kept_words, tenths_of_mebibytes, ListNote, ModelRow, RefreshPlace, ServiceRow,
};
use crate::actions::service::{refusal_words, service_failure, service_refusal, usable_report};
use crate::actions::window::{
    first_waiting, lane_of, revision_of, total_bytes, waiting_indices, ActionKind, ActionLane,
    ActionResult, ActionsWindowView, CloseEffect, HistoryRevisionView, Lanes, ObservationView,
};
use crate::actions::{
    detail_words, duration_words, facts_words, full_words, hero_words, line_value, month_name,
    padded_integer, property_value, report_line, row_after, row_announcement, row_words,
    short_words, stage_words, stamp_of, week_day_name, CalendarDays, LocalTime, RowKey, Stamp,
};
use crate::daemon::{CommandReplyView, CommandView, TakeView};
use crate::ipc::{Completeness, Delivery, StageView, StateKindView, StatusSnapshotView};
use crate::text::{decimal, pieces, separator_index, two_digits};
use vstd::prelude::*;

verus! {

/// While the daemon is idle, a recording can be forgotten wherever there is audio of it or it
/// waits for a decision, and nowhere else; while the daemon works or is not there, nothing
/// can.
pub proof fn forgetting_is_offered_while_idle(
    window: ActionsWindowView,
    take: TakeView,
    time: Option<LocalTime>,
    days: CalendarDays,
)
    ensures
        ({
            let offered = window.take_panel(take, time, days).forget;
            let idle = window.observation is Some && window.observation->0.status is Some
                && window.observation->0.status->0.state == StateKindView::Idle;
            &&& idle && take.audio_available ==> offered
            &&& idle && take.unresolved ==> offered
            &&& idle && !take.audio_available && !take.unresolved ==> !offered
            &&& !idle ==> !offered
        }),
{
}

/// Each action is offered for a recording exactly where what it needs is there: a text to
/// copy it, audio and the local model to recover it locally, audio and a provider to recover
/// it remotely, and a daemon that takes such requests.
pub proof fn actions_are_offered_where_they_can_be_done(
    window: ActionsWindowView,
    take: TakeView,
    time: Option<LocalTime>,
    days: CalendarDays,
)
    ensures
        ({
            let panel = window.take_panel(take, time, days);
            let running = window.observation is Some && window.observation->0.status is Some;
            let able = window.observation->0.status->0.capabilities;
            &&& panel.copy <==> running && able.copy && take.text_available
            &&& panel.local <==> running && able.recover && able.local_model
                && take.audio_available
            &&& panel.remote <==> running && able.recover && able.remote_configured
                && take.audio_available
            &&& panel.online <==> running
            &&& panel.enabled <==> window.observation is Some
                && !window.observation->0.history_unavailable && !window.lanes.command_running
            &&& panel.partial_text <==> take.text_available && take.partial
            &&& panel.no_audio <==> !take.audio_available
        }),
{
}

/// The recording in question may be forgotten while the daemon is idle, nothing else is
/// asked of it and the list is the one that stands.
pub proof fn forgetting_needs_an_idle_daemon(window: ActionsWindowView)
    ensures
        window.may_forget() <==> !window.lanes.command_running && window.observation is Some
            && !window.observation->0.history_unavailable && window.observation->0.status is Some
            && window.observation->0.status->0.state == StateKindView::Idle,
{
}

/// The details of a recording tell its text, its audio and whether it waits.
pub proof fn details_tell_the_recording(
    window: ActionsWindowView,
    take: TakeView,
    time: Option<LocalTime>,
    days: CalendarDays,
)
    ensures
        ({
            let panel = window.take_panel(take, time, days);
            &&& take.text_available && take.partial ==> panel.transcript == "Partial"@
            &&& take.text_available && !take.partial ==> panel.transcript == "Complete"@
            &&& !take.text_available ==> panel.transcript == "None"@
            &&& take.audio_available ==> panel.audio == "Kept on this computer"@
            &&& !take.audio_available ==> panel.audio == "Not kept"@
            &&& take.unresolved ==> panel.status == "Waiting for a decision"@
            &&& !take.unresolved ==> panel.status == "Resolved"@
            &&& panel.line == short_words(take.duration_ms) + " · "@ + take.id
        }),
{
}

/// What is offered for a recording asks for that recording: its text copied, or its audio
/// transcribed to the clipboard, with the local model exactly where that was chosen.
pub proof fn offers_ask_for_their_recording(take: TakeView)
    ensures
        TakeOffer::Copy.action(take) == ActionView::Command(CommandView::Copy { id: take.id }),
        TakeOffer::RecoverLocally.action(take) == ActionView::Command(
            CommandView::Recover { id: Some(take.id), local: true, clipboard: true },
        ),
        TakeOffer::RecoverWithProvider.action(take) == ActionView::Command(
            CommandView::Recover { id: Some(take.id), local: false, clipboard: true },
        ),
{
}

/// The first panel shows a button exactly where it does something, and lets it be used
/// while its own kind of request is not under way.
pub proof fn status_offers_follow_the_daemon(window: ActionsWindowView)
    ensures
        ({
            let panel = window.status_panel();
            let running = window.observation is Some && window.observation->0.status is Some;
            let able = window.observation->0.status->0.capabilities;
            &&& panel.start is Some <==> window.observation is Some && !running
            &&& panel.start is Some ==> panel.start->0 == !window.lanes.setup_running
            &&& panel.stop is Some <==> running && able.stop
            &&& panel.stop is Some ==> panel.stop->0 == !window.lanes.command_running
            &&& panel.cancel is Some <==> running && able.cancel
            &&& panel.cancel is Some ==> panel.cancel->0 == !window.lanes.cancel_running
            &&& panel.command_words is Some <==> window.lanes.command_running
            &&& panel.command_words is Some ==> panel.command_words->0 == window.busy_message
            &&& panel.cancel_words is Some <==> window.lanes.cancel_running
            &&& panel.cancel_words is Some ==> panel.cancel_words->0
                == "Requesting cancellation…"@
            &&& panel.setup_words is Some <==> window.lanes.setup_running
            &&& panel.setup_words is Some ==> panel.setup_words->0 == window.setup_message
        }),
{
}

/// An outcome that was not dismissed and a notice are shown as the daemon tells them, and an
/// outcome asks for attention exactly where it needs a decision.
pub proof fn banners_tell_what_the_daemon_told(window: ActionsWindowView)
    requires
        window.observation is Some,
        window.observation->0.status is Some,
    ensures
        ({
            let status = window.observation->0.status->0;
            let panel = window.status_panel();
            &&& panel.outcome is Some <==> status.outcome is Some && !status.outcome->0.dismissed
            &&& panel.outcome is Some ==> {
                let outcome = status.outcome->0;
                &&& panel.outcome->0.message == outcome.message
                &&& panel.outcome->0.error == outcome.error
                &&& panel.outcome->0.event_id == outcome.event_id
                &&& panel.outcome->0.attention <==> outcome.completeness == Completeness::Failed
                    || outcome.completeness == Completeness::Partial || (outcome.completeness
                    == Completeness::Complete && (outcome.delivery == Delivery::Failed
                    || outcome.delivery == Delivery::Deferred || outcome.delivery
                    == Delivery::Uncertain))
                &&& panel.outcome->0.dismiss is Some <==> status.capabilities.dismiss
                &&& panel.outcome->0.dismiss is Some ==> panel.outcome->0.dismiss->0
                    == !window.lanes.command_running
            }
            &&& panel.notice is Some <==> status.notice is Some
            &&& panel.notice is Some ==> {
                &&& panel.notice->0.message == status.notice->0.message
                &&& panel.notice->0.event_id == status.notice->0.event_id
                &&& panel.notice->0.error is None && !panel.notice->0.attention
                &&& panel.notice->0.dismiss is Some <==> status.capabilities.dismiss
                &&& panel.notice->0.dismiss is Some ==> panel.notice->0.dismiss->0
                    == !window.lanes.command_running
            }
        }),
{
}

/// Nothing is shown of an outcome or a notice while no daemon tells one.
pub proof fn silent_daemon_shows_no_banner(window: ActionsWindowView)
    requires
        window.observation is None || window.observation->0.status is None,
    ensures
        window.status_panel().outcome is None,
        window.status_panel().notice is None,
        window.status_panel().stop is None,
        window.status_panel().cancel is None,
{
}

/// Each offer of the first panel and of the setup panel asks for what it says.
pub proof fn offers_ask_for_what_they_say(event_id: u64)
    ensures
        StatusOffer::Start.action() == ActionView::StartDaemon,
        StatusOffer::Stop.action() == ActionView::Command(CommandView::Stop),
        StatusOffer::Cancel.action() == ActionView::Command(CommandView::Cancel),
        (StatusOffer::Dismiss { event_id }).action() == ActionView::Command(
            CommandView::Dismiss { event_id: Some(event_id) },
        ),
        StatusOffer::Start.label() == "Start Cantrip"@,
        StatusOffer::Stop.label() == "Stop recording"@,
        StatusOffer::Cancel.label() == "Cancel without delivering"@,
        (StatusOffer::Dismiss { event_id }).label() == "Dismiss"@,
        TakeOffer::Copy.label() == "Copy transcript"@,
        TakeOffer::RecoverLocally.label() == "Recover locally"@,
        TakeOffer::RecoverWithProvider.label() == "Recover with provider"@,
        SetupOffer::Install.action() == ActionView::InstallModel,
        SetupOffer::Reload.action() == ActionView::Command(CommandView::Reload),
        SetupOffer::Start.action() == ActionView::StartDaemon,
        SetupOffer::Check.action() == ActionView::Doctor,
        SetupOffer::Install.label() == "Install local model"@,
        SetupOffer::Reload.label() == "Reload configuration"@,
        SetupOffer::Check.label() == "Check setup"@,
{
}

/// Only a cancellation passes a running command, and only a setup action waits for another
/// one.
pub proof fn requests_wait_for_their_own_kind(command: CommandView)
    ensures
        lane_of(ActionView::Command(CommandView::Cancel).kind()) == ActionLane::Cancel,
        command != CommandView::Cancel ==> lane_of(ActionView::Command(command).kind())
            == ActionLane::Command,
        lane_of(ActionView::InstallModel.kind()) == ActionLane::Setup,
        lane_of(ActionView::Doctor.kind()) == ActionLane::Setup,
        lane_of(ActionView::StartDaemon.kind()) == ActionLane::Setup,
{
}

/// A request that finds its kind under way is not sent and changes nothing; any other is
/// sent, its kind is under way, and its words are shown.
pub proof fn one_request_of_a_kind_runs(
    window: ActionsWindowView,
    action: ActionView,
    message: Seq<char>,
)
    ensures
        ({
            let (after, sent) = window.started(action, message);
            let lane = lane_of(action.kind());
            let busy = match lane {
                ActionLane::Command => window.lanes.command_running,
                ActionLane::Cancel => window.lanes.cancel_running,
                ActionLane::Setup => window.lanes.setup_running,
            };
            &&& busy ==> sent is None && after == window
            &&& !busy ==> {
                &&& sent == Some(action)
                &&& lane == ActionLane::Command ==> after.lanes.command_running
                    && after.lanes.setup_running == window.lanes.setup_running
                    && after.lanes.cancel_running == window.lanes.cancel_running
                &&& lane == ActionLane::Cancel ==> after.lanes.cancel_running
                    && after.lanes.setup_running == window.lanes.setup_running
                    && after.lanes.command_running == window.lanes.command_running
                &&& lane == ActionLane::Setup ==> after.lanes.setup_running
                    && after.lanes.command_running == window.lanes.command_running
                    && after.lanes.cancel_running == window.lanes.cancel_running
                &&& lane == ActionLane::Setup ==> after.setup_message == message
                    && after.setup_status is None && after.message == window.message
                    && after.lanes.latest_command == window.lanes.latest_command
                &&& lane != ActionLane::Setup ==> after.busy_message == message
                    && after.message is None && after.setup_status == window.setup_status
                    && after.lanes.latest_command == lane
                &&& lane == ActionLane::Setup ==> (after.lanes.setup_close_guard <==> action
                    == ActionView::InstallModel || action == ActionView::StartDaemon)
            }
        }),
{
}

/// A request that ended frees its kind alone; its words are shown where it is the latest
/// command, those of a setup action in the setup panel, and everything is read again at once.
pub proof fn ended_request_is_told(
    window: ActionsWindowView,
    lane: ActionLane,
    result: Result<ActionResult, String>,
    due: u64,
)
    ensures
        ({
            let after = window.completed(lane, result, due);
            let words = match result {
                Ok(ActionResult::Message(message)) => Some((message@, false)),
                Ok(_) => None,
                Err(error) => Some((error@, true)),
            };
            &&& after.lanes.command_running <==> window.lanes.command_running && lane
                != ActionLane::Command
            &&& after.lanes.cancel_running <==> window.lanes.cancel_running && lane
                != ActionLane::Cancel
            &&& after.lanes.setup_running <==> window.lanes.setup_running && lane
                != ActionLane::Setup
            &&& lane == ActionLane::Setup ==> after.setup_status == words
                && !after.lanes.installing && !after.lanes.install_cancelled
                && !after.lanes.setup_close_guard && !after.lanes.close_after_setup
            &&& lane != ActionLane::Setup ==> after.setup_status == window.setup_status
                && after.lanes.installing == window.lanes.installing
                && after.lanes.setup_close_guard == window.lanes.setup_close_guard
            &&& lane != ActionLane::Setup && lane == window.lanes.latest_command ==> after.message
                == words
            &&& lane != window.lanes.latest_command ==> after.message == window.message
            &&& after.refresh_history
            &&& after.last_poll == due
            &&& result matches Ok(ActionResult::Diagnosis(report)) ==> after.diagnosis == Some(
                report@,
            )
            &&& !(result is Ok && result->Ok_0 is Diagnosis) ==> after.diagnosis
                == window.diagnosis
            &&& after.takes == window.takes && after.selected_id == window.selected_id
                && after.forget == window.forget
        }),
{
}

/// A window that was asked to close during setup closes exactly where the setup went well.
pub proof fn window_closes_after_its_setup(
    window: ActionsWindowView,
    lane: ActionLane,
    result: Result<ActionResult, String>,
)
    ensures
        window.completion_effect(lane, result) == CloseEffect::Close <==> lane == ActionLane::Setup
            && window.lanes.close_after_setup && result is Ok,
        window.completion_effect(lane, result) == CloseEffect::Close || window.completion_effect(
            lane,
            result,
        ) == CloseEffect::Stay,
{
}

/// A window closes at once unless something is being set up; an installation is stopped
/// first, a start is waited for.
pub proof fn closing_waits_for_setup(window: ActionsWindowView)
    ensures
        ({
            let (after, effect) = window.close_asked();
            &&& effect == CloseEffect::Close <==> !window.lanes.setup_close_guard
            &&& effect == CloseEffect::CancelInstallation <==> window.lanes.setup_close_guard
                && window.lanes.installing
            &&& effect == CloseEffect::Wait <==> window.lanes.setup_close_guard
                && !window.lanes.installing
            &&& effect == CloseEffect::Close ==> after == window
            &&& effect == CloseEffect::CancelInstallation ==> after.lanes.install_cancelled
                && after.setup_message
                == "Stopping model installation and cleaning temporary files before closing…"@
            &&& effect == CloseEffect::Wait ==> after.lanes.install_cancelled
                == window.lanes.install_cancelled && after.setup_message
                == "Finishing the bounded startup check before closing…"@
        }),
{
}

/// The answer to a confirmation is asked of the recording that was shown, and the question is
/// gone.
pub proof fn confirmed_recording_is_forgotten(window: ActionsWindowView)
    ensures
        window.forget_confirmed().0.forget is None,
        window.forget is None ==> window.forget_confirmed().1 is None,
        window.forget is Some && !window.lanes.command_running ==> window.forget_confirmed().1
            == Some(ActionView::Command(CommandView::Forget { id: window.forget->0.id }))
            && window.forget_confirmed().0.busy_message == "Forgetting this recording…"@
            && window.forget_confirmed().0.lanes.command_running,
        window.forget is Some && window.lanes.command_running
            ==> window.forget_confirmed().1 is None,
{
}

/// A list that was read replaces the one before it and what is waiting; one that could not
/// be read leaves both, and is read again.
pub proof fn lists_are_taken_as_read(
    window: ActionsWindowView,
    observation: ObservationView,
    history: Option<Seq<TakeView>>,
    bytes: Option<u64>,
    revision: HistoryRevisionView,
)
    ensures
        ({
            let after = window.observed(observation, history, bytes, revision);
            &&& after.observation == Some(observation)
            &&& !after.polling
            &&& history is Some ==> after.takes == history->0 && after.pending_indices
                == waiting_indices(history->0) && after.retained_audio_bytes == bytes
            &&& history is None ==> after.takes == window.takes && after.pending_indices
                == window.pending_indices && after.retained_audio_bytes
                == window.retained_audio_bytes
            &&& observation.history_unavailable ==> after.refresh_history
                && after.history_revision == window.history_revision
            &&& !observation.history_unavailable ==> after.refresh_history
                == window.refresh_history && after.history_revision == Some(revision)
            &&& window.forget is Some && !after.takes.contains(window.forget->0)
                ==> after.forget is None && after.message == Some(
                ("That recording changed. Review it before choosing Forget again."@, true),
            )
            &&& !(window.forget is Some && !after.takes.contains(window.forget->0))
                ==> after.forget == window.forget && after.message == window.message
        }),
{
}

/// The selection is made once, when the first list is read: the first recording that waits,
/// which then takes the focus. After that an observation leaves it alone.
pub proof fn selection_is_made_once(
    window: ActionsWindowView,
    observation: ObservationView,
    history: Option<Seq<TakeView>>,
    bytes: Option<u64>,
    revision: HistoryRevisionView,
)
    ensures
        ({
            let after = window.observed(observation, history, bytes, revision);
            &&& window.selection_initialized || history is None ==> after.selected_id
                == window.selected_id && after.selection_initialized
                == window.selection_initialized && after.focus_recording == window.focus_recording
            &&& !window.selection_initialized && history is Some ==> after.selection_initialized
                && after.selected_id == first_waiting(history->0, 0) && after.focus_recording
                == first_waiting(history->0, 0) is Some
        }),
{
}

/// The first recording that waits is the first of the list that does.
pub proof fn first_waiting_is_first(takes: Seq<TakeView>, at: nat, from: nat)
    requires
        from <= at,
        at < takes.len() ==> takes[at as int].unresolved,
        at <= takes.len(),
        forall|i: int| from <= i < at ==> !(#[trigger] takes[i]).unresolved,
    ensures
        at < takes.len() ==> first_waiting(takes, from) == Some(takes[at as int].id),
        at == takes.len() ==> first_waiting(takes, from) is None,
    decreases at - from,
{
    if from < at {
        assert(!takes[from as int].unresolved);
        first_waiting_is_first(takes, at, from + 1);
    }
}

/// The waiting recordings are all that wait and no others, in the order of the list.
pub proof fn waiting_recordings_are_listed(takes: Seq<TakeView>, at: int)
    requires
        takes.len() <= usize::MAX,
        0 <= at < takes.len(),
    ensures
        waiting_indices(takes).contains(at as usize) <==> takes[at].unresolved,
        forall|i: int, j: int|
            0 <= i < j < waiting_indices(takes).len() ==> (#[trigger] waiting_indices(takes)[i])
                < (#[trigger] waiting_indices(takes)[j]),
    decreases takes.len(),
{
    let earlier = takes.drop_last();
    let rows = waiting_indices(earlier);
    let last = (takes.len() - 1) as usize;
    crate::actions::window::waiting_rows_wait(earlier);
    if earlier.len() > 0 {
        waiting_recordings_are_listed(earlier, if at < last {
            at
        } else {
            0
        });
    }
    if takes.last().unresolved {
        let all = rows.push(last);
        assert(waiting_indices(takes) == all);
        if at == last {
            assert(all[all.len() - 1] == last);
        } else {
            assert(takes[at] == earlier[at]);
            if rows.contains(at as usize) {
                let i = choose|i: int| 0 <= i < rows.len() && rows[i] == at as usize;
                assert(all[i] == at as usize);
            }
            if all.contains(at as usize) {
                let i = choose|i: int| 0 <= i < all.len() && all[i] == at as usize;
                assert(rows[i] == at as usize);
            }
        }
    } else if at != last {
        assert(takes[at] == earlier[at]);
    }
}

/// The rows are all recordings or those that wait, and the selected row is the first that
/// bears the selected name.
pub proof fn selected_row_bears_the_name(window: ActionsWindowView, row: nat, from: nat)
    requires
        window.row_count() <= usize::MAX,
        from <= row < window.row_count(),
        window.selected_id == Some(window.row_take(row as int).id),
        forall|i: int|
            from <= i < row ==> window.selected_id != Some((#[trigger] window.row_take(i)).id),
    ensures
        window.selected_row(from) == Some(row as usize),
        window.show_history ==> window.row_take(row as int) == window.takes[row as int],
        !window.show_history ==> window.row_take(row as int)
            == window.takes[window.pending_indices[row as int] as int],
        window.show_history ==> window.row_count() == window.takes.len(),
        !window.show_history ==> window.row_count() == window.pending_indices.len(),
    decreases row - from,
{
    if from < row {
        selected_row_bears_the_name(window, row, from + 1);
    }
}

/// A lost observation leaves the list, says that it may be old, and reads it again.
pub proof fn lost_observation_is_told(window: ActionsWindowView, now: u64)
    ensures
        ({
            let after = window.observation_lost(now);
            &&& after.takes == window.takes && after.selected_id == window.selected_id
            &&& !after.polling && after.refresh_history && after.last_poll == now
            &&& window.observation is Some ==> after.observation is Some
                && after.observation->0.status is None && after.observation->0.history_unavailable
            &&& window.observation is None ==> after.observation is None
            &&& after.message is Some && (after.message->0).1
            &&& !after.may_forget()
        }),
{
}

/// A change of the daemon, of its latest outcome or of what waits makes another revision.
pub proof fn revisions_tell_changes(a: StatusSnapshotView, b: StatusSnapshotView)
    ensures
        revision_of(Some(a)) == revision_of(Some(b)) <==> a.epoch == b.epoch
            && a.pending_recordings == b.pending_recordings && (a.outcome is Some <==> b.outcome
            is Some) && (a.outcome is Some ==> a.outcome->0.event_id == b.outcome->0.event_id),
{
}

/// An installation is stopped once and only while it runs.
pub proof fn only_a_running_installation_is_stopped(window: ActionsWindowView)
    ensures
        ({
            let after = window.installation_cancelled();
            &&& !window.lanes.installing || window.lanes.install_cancelled ==> after == window
            &&& window.lanes.installing ==> after.lanes.install_cancelled
            &&& after.lanes.installing == window.lanes.installing && after.lanes.setup_running
                == window.lanes.setup_running && after.lanes.close_after_setup
                == window.lanes.close_after_setup
        }),
{
}

/// The head of the list counts what waits and what there is, and says what can be read.
pub proof fn head_counts_the_recordings(window: ActionsWindowView)
    ensures
        ({
            let panel = window.recordings_panel();
            let loaded = window.observation is Some;
            let stale = loaded && window.observation->0.history_unavailable;
            &&& loaded ==> panel.waiting == "Waiting "@ + decimal(window.pending_indices.len())
                && panel.all == "All "@ + decimal(window.takes.len())
            &&& !loaded ==> panel.waiting == "Waiting"@ && panel.all == "All"@
            &&& panel.refresh == RefreshPlace::Hidden <==> !loaded
            &&& panel.refresh == RefreshPlace::Warning <==> stale
            &&& panel.note == ListNote::Loading <==> !loaded
            &&& panel.note == ListNote::Unavailable <==> stale
            &&& panel.note == ListNote::Empty <==> loaded && !stale && window.takes.len() == 0
            &&& panel.note == ListNote::NothingWaiting <==> loaded && !stale && window.takes.len()
                > 0 && window.pending_indices.len() == 0 && !window.show_history
            &&& panel.kept is Some <==> window.retained_audio_bytes is Some
                && window.retained_audio_bytes->0 > 0
            &&& panel.kept is Some ==> panel.kept->0 == kept_words(window.retained_audio_bytes->0)
            &&& window.show_history && window.takes.len() <= usize::MAX ==> panel.rows
                == window.takes.len()
            &&& !window.show_history && window.pending_indices.len() <= usize::MAX ==> panel.rows
                == window.pending_indices.len()
        }),
{
}

/// The setup panel tells the model, the daemon and the configuration as they were seen, and
/// offers what can be done about them.
pub proof fn setup_is_told_as_seen(window: ActionsWindowView)
    ensures
        ({
            let panel = window.setup_panel();
            let seen = window.observation->0;
            let idle = !window.lanes.setup_running;
            &&& window.observation is None ==> panel.model == ModelRow::Unknown && panel.service
                == ServiceRow::Unknown && panel.config_ok is None && panel.key_id is None
            &&& window.observation is Some ==> {
                &&& window.lanes.installing ==> panel.model == (ModelRow::Installing {
                    cancelled: window.lanes.install_cancelled,
                })
                &&& !window.lanes.installing && seen.local_model ==> panel.model
                    == ModelRow::Installed
                &&& !window.lanes.installing && !seen.local_model ==> panel.model
                    == (ModelRow::Missing { install: idle })
                &&& seen.status is Some ==> panel.service == (ServiceRow::Running {
                    reload: idle && !window.lanes.command_running,
                })
                &&& seen.status is None ==> panel.service == (ServiceRow::Stopped { start: idle })
                &&& panel.config_ok == Some(seen.config_ok)
                &&& panel.key_id == seen.key_id
            }
            &&& panel.idle == idle
            &&& panel.status == window.setup_status
        }),
{
}

/// A part of a mebibyte is told to the nearest tenth.
pub proof fn kept_audio_is_rounded(bytes: u64)
    ensures
        ({
            let tenths = tenths_of_mebibytes(bytes);
            &&& tenths * 1_048_576 - 524_288 <= bytes * 10
            &&& bytes * 10 <= tenths * 1_048_576 + 524_288
        }),
        kept_words(bytes) == decimal((tenths_of_mebibytes(bytes) / 10) as nat) + "."@ + decimal(
            (tenths_of_mebibytes(bytes) % 10) as nat,
        ) + " MiB of audio kept on this computer. Kept until you forget it."@,
{
}

/// The bytes of all files are their sum, known only where each is and where it fits.
pub proof fn kept_bytes_are_summed(sizes: Seq<Option<u64>>, size: Option<u64>)
    ensures
        total_bytes(Seq::empty()) == Some(0u64),
        total_bytes(sizes) is None || size is None ==> total_bytes(sizes.push(size)) is None,
        total_bytes(sizes) is Some && size is Some ==> (total_bytes(sizes.push(size)) is Some
            <==> total_bytes(sizes)->0 + size->0 <= u64::MAX),
        total_bytes(sizes.push(size)) is Some ==> total_bytes(sizes.push(size))->0 == total_bytes(
            sizes,
        )->0 + size->0,
{
    assert(sizes.push(size).drop_last() =~= sizes);
}

/// The first line tells what the daemon does, in the same words whatever else it tells.
pub proof fn first_line_tells_the_daemon(status: StatusSnapshotView)
    ensures
        hero_words(false, Some(status)).title == "Connecting to Cantrip…"@,
        hero_words(false, None).title == "Connecting to Cantrip…"@,
        hero_words(true, None).title == "Cantrip isn't running"@,
        hero_words(true, None).stamp == Stamp::Attention,
        ({
            let hero = hero_words(true, Some(status));
            &&& status.stage is Some ==> hero.stamp == Stamp::Live && hero.title == stage_words(
                status.stage->0,
            )
            &&& status.stage is None && status.state == StateKindView::Idle ==> hero.stamp
                == Stamp::Idle && hero.title == "Ready"@
            &&& status.stage is None && status.state == StateKindView::Idle
                && status.pending_recordings == 0 ==> hero.sentence == "Nothing is waiting."@
            &&& status.stage is None && status.state == StateKindView::Idle
                && status.pending_recordings == 1 ==> hero.sentence
                == "1 recording is waiting for a decision."@
            &&& status.stage is None && status.state == StateKindView::Idle
                && status.pending_recordings > 1 ==> hero.sentence == decimal(
                status.pending_recordings as nat,
            ) + " recordings are waiting for a decision."@
            &&& status.stage is None && status.state == StateKindView::Recording ==> hero.stamp
                == Stamp::Live && (hero.elapsed is Some <==> status.signal is Some)
            &&& status.stage is None && status.state == StateKindView::Recording && status.signal
                is Some ==> hero.title == "Recording"@ && hero.elapsed == Some(
                decimal((status.elapsed / 60) as nat) + ":"@ + two_digits(
                    (status.elapsed % 60) as nat,
                ),
            )
            &&& status.stage is None && status.state == StateKindView::Recording && status.signal
                is None ==> hero.title == "Starting microphone…"@
            &&& status.stage is None && status.state == StateKindView::Processing ==> hero.stamp
                == Stamp::Live && hero.title == "Working"@
            &&& status.stage is None && status.state is Unknown ==> hero.stamp
                == Stamp::Attention && hero.title == "State unknown"@
        }),
{
}

/// A stage is told by what it does, and counted where it is divided.
pub proof fn stages_are_told(completed: u32, total: u32)
    ensures
        stage_words(StageView::FinalizingAudio) == "Finishing the recording"@,
        stage_words(StageView::CleaningUp) == "Cleaning up the text"@,
        stage_words(StageView::Delivering) == "Delivering text"@,
        stage_words(StageView::Cancelling) == "Cancelling…"@,
        stage_words(StageView::RemovingRecording) == "Removing saved audio…"@,
        total <= 1 ==> stage_words(StageView::Transcribing { completed, total })
            == "Transcribing"@,
        total > 1 ==> stage_words(StageView::Transcribing { completed, total })
            == "Transcribing · "@ + decimal(completed as nat) + " of "@ + decimal(total as nat),
{
}

/// A recording is marked by its text; without any it asks for attention exactly where its
/// audio waits for a decision.
pub proof fn recordings_are_marked_by_their_text(take: TakeView)
    ensures
        stamp_of(take) == Stamp::Complete <==> take.text_available && !take.partial,
        stamp_of(take) == Stamp::Partial <==> take.text_available && take.partial,
        stamp_of(take) == Stamp::Attention <==> !take.text_available && take.audio_available
            && take.unresolved,
        stamp_of(take) == Stamp::Rest <==> !take.text_available && !(take.audio_available
            && take.unresolved),
{
}

/// A row tells its text and its audio, and that it waits where it does.
pub proof fn rows_tell_their_recording(
    take: TakeView,
    time: Option<LocalTime>,
    days: CalendarDays,
)
    ensures
        take.text_available && take.partial && take.audio_available ==> facts_words(take)
            == "Partial text"@ + " · "@ + "audio kept"@,
        take.text_available && take.partial && !take.audio_available ==> facts_words(take)
            == "Partial text"@ + " · "@ + "audio not kept"@,
        take.text_available && !take.partial && take.audio_available ==> facts_words(take)
            == "Complete text"@ + " · "@ + "audio kept"@,
        take.text_available && !take.partial && !take.audio_available ==> facts_words(take)
            == "Complete text"@ + " · "@ + "audio not kept"@,
        !take.text_available && take.audio_available ==> facts_words(take) == "No transcript"@
            + " · "@ + "audio kept"@,
        !take.text_available && !take.audio_available ==> facts_words(take) == "No transcript"@
            + " · "@ + "audio not kept"@,
        row_announcement(take, time, days, true) == row_announcement(take, time, days, false)
            + ", waiting"@,
        row_announcement(take, time, days, false) == row_words(time, days) + ", "@ + facts_words(
            take,
        ) + ", "@ + short_words(take.duration_ms),
{
    let plain = row_words(time, days) + ", "@ + facts_words(take) + ", "@ + short_words(
        take.duration_ms,
    );
    assert(plain + Seq::<char>::empty() =~= plain);
}

/// A recording of today or yesterday is told so, an older one with its date, and one of
/// another year with that too.
pub proof fn days_are_told_by_their_distance(days: CalendarDays, time: LocalTime)
    ensures
        ({
            let words = days.day_words(time);
            let day = Some((time.year, time.year_day));
            let date = week_day_name(time.week_day) + " "@ + padded_integer(time.day as int, 1)
                + " "@ + month_name(time.month);
            &&& days.today == day ==> words == "Today"@
            &&& days.today != day && days.yesterday == day ==> words == "Yesterday"@
            &&& days.today != day && days.yesterday != day && days.today is Some && (
            days.today->0).0 != time.year ==> words == date + " "@ + padded_integer(
                time.year as int,
                1,
            )
            &&& days.today != day && days.yesterday != day && (days.today is None || (
            days.today->0).0 == time.year) ==> words == date
        }),
{
}

/// A time that is not known is told as such.
pub proof fn unknown_times_are_told(days: CalendarDays)
    ensures
        row_words(None, days) == "Time unavailable"@,
        detail_words(None, days) == "Capture time unavailable"@,
        full_words(None) == "Capture time unavailable"@,
        short_words(None) == "—"@,
        duration_words(None) == "duration unknown"@,
{
}

/// A time is told with its day, its hour, its minute and its second, each in two digits.
pub proof fn times_are_told_in_full(days: CalendarDays, time: LocalTime)
    ensures
        ({
            let clock = padded_integer(time.hour as int, 2) + ":"@ + padded_integer(
                time.minute as int,
                2,
            ) + ":"@ + padded_integer(time.second as int, 2);
            &&& row_words(Some(time), days) == days.day_words(time) + " "@ + clock
            &&& detail_words(Some(time), days) == days.day_words(time) + " at "@ + clock
            &&& full_words(Some(time)) == padded_integer(time.year as int, 4) + "-"@
                + padded_integer(time.month + 1, 2) + "-"@ + padded_integer(time.day as int, 2)
                + " "@ + clock + " local"@
        }),
        0 <= time.hour < 10 ==> padded_integer(time.hour as int, 2) =~= seq!['0'] + decimal(
            time.hour as nat,
        ),
        10 <= time.hour < 100 ==> padded_integer(time.hour as int, 2) =~= decimal(
            time.hour as nat,
        ),
{
    if 10 <= time.hour < 100 {
        assert(decimal((time.hour / 10) as nat).len() == 1);
        assert(decimal(time.hour as nat).len() == 2);
    }
}

/// A duration below a second is told in milliseconds, any other in minutes and seconds.
pub proof fn durations_are_told_by_their_length(minutes: nat, seconds: nat, ms: nat)
    requires
        seconds < 60,
        ms < 1000,
        minutes * 60_000 + seconds * 1000 + ms <= u64::MAX,
    ensures
        ({
            let duration = (minutes * 60_000 + seconds * 1000 + ms) as u64;
            &&& duration >= 1000 ==> short_words(Some(duration)) == decimal(minutes) + ":"@
                + two_digits(seconds) && duration_words(Some(duration)) == decimal(minutes)
                + "m "@ + two_digits(seconds) + "s"@
            &&& duration < 1000 ==> short_words(Some(duration)) == decimal(ms) + " ms"@
                && duration_words(Some(duration)) == decimal(ms) + " ms"@
        }),
{
    let duration = (minutes * 60_000 + seconds * 1000 + ms) as u64;
    assert(duration / 60_000 == minutes);
    assert(duration / 1000 == minutes * 60 + seconds);
    assert((minutes * 60 + seconds) % 60 == seconds);
}

/// Days of the week and months have their names.
pub proof fn calendar_is_named()
    ensures
        week_day_name(0) == "Sun"@ && week_day_name(1) == "Mon"@ && week_day_name(2) == "Tue"@
            && week_day_name(3) == "Wed"@ && week_day_name(4) == "Thu"@ && week_day_name(5)
            == "Fri"@ && week_day_name(6) == "Sat"@,
        month_name(0) == "Jan"@ && month_name(1) == "Feb"@ && month_name(2) == "Mar"@
            && month_name(3) == "Apr"@ && month_name(4) == "May"@ && month_name(5) == "Jun"@
            && month_name(6) == "Jul"@ && month_name(7) == "Aug"@ && month_name(8) == "Sep"@
            && month_name(9) == "Oct"@ && month_name(10) == "Nov"@ && month_name(11) == "Dec"@,
        forall|day: i32| day < 0 || day > 6 ==> #[trigger] week_day_name(day) == "?"@,
        forall|month: i32| month < 0 || month > 11 ==> #[trigger] month_name(month) == "?"@,
{
}

/// Arrows move by a row, pages by a page, each as far as the list goes; the ends are its
/// ends.
pub proof fn keys_move_the_selection(row: usize, count: usize, page: usize)
    requires
        row < count,
    ensures
        row_after(Some(row), count, RowKey::Home, page) == Some(0int),
        row_after(Some(row), count, RowKey::End, page) == Some(count - 1),
        row + 1 < count ==> row_after(Some(row), count, RowKey::ArrowDown, page) == Some(row + 1),
        row + 1 == count ==> row_after(Some(row), count, RowKey::ArrowDown, page) == Some(
            row as int,
        ),
        row > 0 ==> row_after(Some(row), count, RowKey::ArrowUp, page) == Some(row - 1),
        row == 0 ==> row_after(Some(row), count, RowKey::ArrowUp, page) == Some(0int),
        row + page < count ==> row_after(Some(row), count, RowKey::PageDown, page) == Some(
            row + page,
        ),
        row + page >= count ==> row_after(Some(row), count, RowKey::PageDown, page) == Some(
            count - 1,
        ),
        row >= page ==> row_after(Some(row), count, RowKey::PageUp, page) == Some(row - page),
        row < page ==> row_after(Some(row), count, RowKey::PageUp, page) == Some(0int),
        row_after(Some(row), count, RowKey::Other, page) == Some(row as int),
        row_after(None, count, RowKey::ArrowDown, page) == Some(0int),
        row_after(None, count, RowKey::PageDown, page) == Some(0int),
        row_after(None, count, RowKey::ArrowUp, page) == Some(count - 1),
        row_after(None, count, RowKey::PageUp, page) == Some(count - 1),
        row_after(None, count, RowKey::Other, page) is None,
        row_after(None, 0, RowKey::End, page) is None,
{
}

/// A line of a report gives a property's value exactly where the property's name stands
/// before the first sign of equality.
pub proof fn properties_are_read_from_lines(key: Seq<char>, value: Seq<char>)
    requires
        forall|i: int| 0 <= i < key.len() ==> #[trigger] key[i] != '=',
    ensures
        line_value(key + seq!['='] + value, key) == Some(value),
{
    let line = key + seq!['='] + value;
    lemma_separator(line, key.len(), 0);
    assert(line.take(key.len() as int) =~= key);
    assert(line.skip(key.len() as int + 1) =~= value);
}

proof fn lemma_separator(line: Seq<char>, at: nat, from: nat)
    requires
        from <= at < line.len(),
        line[at as int] == '=',
        forall|i: int| from <= i < at ==> #[trigger] line[i] != '=',
    ensures
        separator_index(line, '=', from) == at,
    decreases at - from,
{
    if from < at {
        lemma_separator(line, at, from + 1);
    }
}

/// The value of a property is that of the first line that gives one.
pub proof fn first_line_gives_the_value(lines: Seq<Seq<char>>, key: Seq<char>, at: nat, from: nat)
    requires
        from <= at < lines.len(),
        line_value(report_line(lines, at as int), key) is Some,
        forall|i: int|
            from <= i < at ==> line_value(#[trigger] report_line(lines, i), key) is None,
    ensures
        property_value(lines, key, from) == line_value(report_line(lines, at as int), key),
    decreases at - from,
{
    if from < at {
        assert(line_value(report_line(lines, from as int), key) is None);
        first_line_gives_the_value(lines, key, at, from + 1);
    }
}

/// A service that cannot be started is named by its state, and nothing is started beside it.
pub proof fn refused_service_is_named(state: Seq<char>)
    ensures
        service_refusal(Some(state)) == "Cantrip user service is "@ + state
            + "; repair or unmask that service before starting. No competing daemon was started."@,
        service_refusal(None)
            == "Cantrip service ownership is unknown; no competing daemon was started."@,
{
}

/// A failed service is told with its result and its exit status, as its report gives them.
pub proof fn failed_service_is_told(properties: Seq<char>)
    ensures
        ({
            let lines = pieces(properties, '\n');
            let result = property_value(lines, "Result"@, 0);
            let exit = property_value(lines, "ExecMainStatus"@, 0);
            let end = ". Open Settings to repair configuration, then try Start again."@;
            &&& result is Some && exit is Some ==> service_failure(properties)
                == "Cantrip user service failed: result="@ + result->0 + ", exit="@ + exit->0 + end
            &&& result is None && exit is None ==> service_failure(properties)
                == "Cantrip user service failed: result="@ + "unknown"@ + ", exit="@ + "unknown"@
                + end
        }),
{
}

/// A report can be used where the tool succeeded, or where it says that there is no such
/// service.
pub proof fn report_of_a_missing_service_is_usable(properties: Seq<char>, at: int)
    requires
        0 <= at < pieces(properties, '\n').len(),
    ensures
        usable_report(true, properties),
        report_line(pieces(properties, '\n'), at) == "LoadState=not-found"@ ==> usable_report(
            false,
            properties,
        ),
        usable_report(false, properties) ==> exists|i: int|
            0 <= i < pieces(properties, '\n').len() && #[trigger] report_line(
                pieces(properties, '\n'),
                i,
            ) == "LoadState=not-found"@,
{
}

/// A refused request is told by its error, else by its message.
pub proof fn refusals_are_told(reply: CommandReplyView)
    ensures
        reply.error is Some ==> refusal_words(reply) == reply.error->0,
        reply.error is None && reply.message is Some ==> refusal_words(reply)
            == reply.message->0,
        reply.error is None && reply.message is None ==> refusal_words(reply)
            == "Cantrip rejected this action."@,
{
}

/// Nothing runs in a new window, which knows nothing and asks for everything.
pub proof fn new_window_is_empty(last_poll: u64)
    ensures
        ({
            let window = ActionsWindowView::opened(last_poll);
            &&& window.takes.len() == 0 && window.observation is None && window.refresh_history
            &&& !window.polling && window.selected_id is None && !window.selection_initialized
            &&& window.forget is None && window.message is None && !window.show_history
            &&& window.last_poll == last_poll
            &&& !Lanes::free().occupied(ActionLane::Command)
            &&& !Lanes::free().occupied(ActionLane::Setup)
            &&& !Lanes::free().occupied(ActionLane::Cancel)
            &&& window.lanes == Lanes::free()
        }),
{
}

/// What one kind of request does leaves the others to theirs.
pub proof fn kinds_of_requests_are_independent(lanes: Lanes, kind: ActionKind, lane: ActionLane)
    ensures
        lanes.begun(kind).occupied(lane_of(kind)),
        lane != lane_of(kind) ==> lanes.begun(kind).occupied(lane) == lanes.occupied(lane),
        !lanes.ended(lane).occupied(lane),
        lane != lane_of(kind) ==> lanes.ended(lane).occupied(lane_of(kind)) == lanes.occupied(
            lane_of(kind),
        ),
{
}

/// What is said beside the actions on a recording.
pub proof fn hints_are_said()
    ensures
        TakeHint::Offline.text() == "Copy, recovery and Forget need Cantrip running."@,
        TakeHint::PartialText.text() == "Saved text is partial. Recover the whole take before replacing text in your document."@,
        TakeHint::NoAudio.text() == "No audio is available to transcribe again."@,
        TakeHint::Local.text() == "Recover locally transcribes again with installed Parakeet and copies the result. Audio stays here; no cloud cleanup."@,
        TakeHint::Remote.text() == "Recover with provider sends audio to your configured STT endpoint and copies the result; configured cleanup may also run. No automatic cloud fallback."@,
        TakeHint::Forget.text() == "Deletes retained audio and incomplete text. Complete transcript text is kept."@,
{
}

/// What is said in the window whatever it shows.
pub proof fn notes_are_said()
    ensures
        WindowNote::Privacy.text() == "Only recording details appear here. Copy replaces your clipboard; nothing is typed into another app."@,
        WindowNote::Gone.text() == "This recording is no longer available. Choose another recording explicitly."@,
        WindowNote::Model.text() == "Local recovery needs the Parakeet model. Downloads model files, not your recordings."@,
        WindowNote::Settings.text() == "Correct it in Settings; retained recordings are unchanged."@,
        WindowNote::ForgetDeletes.text() == "Deletes its retained audio and any incomplete transcript, and clears it from Waiting."@,
        WindowNote::ForgetKeeps.text() == "Keeps complete archived transcript text."@,
        WindowNote::ForgetLasts.text() == "This can't be undone."@,
        WindowNote::Keyring.text() == "The key is saved in the OS keyring, never in configuration. Use the same key ID in Settings; saving replaces any key with this ID."@,
        WindowNote::Keyboard.text() == "↑ ↓ browse recordings · Enter or Space chooses · Esc closes without deleting"@,
{
}

/// What is said while a request is under way, and of a list that cannot be shown.
pub proof fn progress_is_said(window: ActionsWindowView, take: TakeView, offer: TakeOffer, event_id: u64)
    requires
        !window.lanes.command_running,
    ensures
        StatusOffer::Start.progress() == "Starting Cantrip…"@,
        StatusOffer::Stop.progress() == "Applying action…"@,
        StatusOffer::Cancel.progress() == "Applying action…"@,
        (StatusOffer::Dismiss { event_id }).progress() == "Applying action…"@,
        SetupOffer::Install.progress() == "Downloading and verifying the local model…"@,
        SetupOffer::Reload.progress() == "Reloading configuration…"@,
        SetupOffer::Start.progress() == "Starting Cantrip…"@,
        SetupOffer::Check.progress() == "Checking setup…"@,
        window.take_clicked(take, offer).0.busy_message == "Applying recording action…"@,
        ListNote::Loading.text() == Some("Loading saved recordings…"@),
        ListNote::Unavailable.text() == Some(
            "Saved history could not be refreshed. Details shown may be out of date."@,
        ),
        ListNote::Empty.text() == Some(
            "No saved recordings yet. Every stopped take appears here."@,
        ),
        ListNote::NothingWaiting.text() == Some(
            "Nothing is waiting. Choose All to browse saved takes."@,
        ),
        ListNote::Listed.text() is None,
        window.observation_lost(0).message == Some(
            (
                "Status refresh stopped unexpectedly. Live state and saved history could not be checked."@,
                true,
            ),
        ),
{
}

/// The first line is explained in a sentence.
pub proof fn first_line_is_explained(status: StatusSnapshotView)
    ensures
        hero_words(false, None).sentence == "Reading live status and saved recordings."@,
        hero_words(true, None).sentence
            == "Live status is unknown. Saved recordings below are read from disk; actions need Cantrip running."@,
        ({
            let said = hero_words(true, Some(status)).sentence;
            &&& status.stage is Some ==> said == "Cantrip is working on the latest recording."@
            &&& status.stage is None && status.state == StateKindView::Processing ==> said
                == "Cantrip is working on the latest recording."@
            &&& status.stage is None && status.state == StateKindView::Recording && status.signal
                is None ==> said == "Recording begins as soon as the microphone answers."@
            &&& status.stage is None && status.state == StateKindView::Recording && status.signal
                is Some ==> said == "Stop to transcribe and deliver the text."@
            &&& status.stage is None && status.state is Unknown ==> said
                == "Cantrip reported a state this window doesn't recognise."@
        }),
{
}

/// A daemon that is not there has no revision of its own.
pub proof fn missing_daemon_has_no_revision()
    ensures
        revision_of(None).epoch.len() == 0,
        revision_of(None).event is None,
        revision_of(None).pending == 0,
{
}

/// An installation is under way from its start, and no other setup action makes or ends one
/// that is.
pub proof fn installations_are_known(lanes: Lanes)
    ensures
        lanes.begun(ActionKind::InstallModel).installing,
        !lanes.begun(ActionKind::InstallModel).install_cancelled,
        lanes.begun(ActionKind::StartDaemon).installing == lanes.installing,
        lanes.begun(ActionKind::Doctor).installing == lanes.installing,
        lanes.begun(ActionKind::StoreKey).installing == lanes.installing,
        lanes.begun(ActionKind::Doctor).install_cancelled == lanes.install_cancelled,
        !lanes.begun(ActionKind::Doctor).setup_close_guard,
        !lanes.begun(ActionKind::StoreKey).setup_close_guard,
        lanes.begun(ActionKind::InstallModel).setup_close_guard,
        lanes.begun(ActionKind::StartDaemon).setup_close_guard,
        lanes.begun(ActionKind::Command).installing == lanes.installing,
{
}

} // verus!
