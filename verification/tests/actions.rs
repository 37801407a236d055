use cantrip::actions::offers::{
    Action, SetupOffer, StatusOffer, TakeHint, TakeOffer, WindowNote,
};
use cantrip::actions::panels::{kept_audio, ListNote, ModelRow, RefreshPlace, ServiceRow};
use cantrip::actions::service::{
    check_result, command_result, direct_start, installation_result, key_result, report_usable,
    service_owner, service_start, ServiceDecision, StartStep,
};
use cantrip::actions::window::{
    completed_action, history_revision, retained_bytes, ActionKind, ActionLane, ActionPoll,
    ActionResult, ActionsWindow, CloseEffect, Observation, POLL,
};
use cantrip::actions::{
    detail_time, hero, keep_output, moved_recording_row, property, row_time, short_duration,
    stage_title, take_duration, take_facts, take_row, take_stamp, take_time, CalendarDays,
    LocalTime, RowKey, Stamp, OUTPUT_LIMIT,
};
use cantrip::daemon::{Command, CommandReply, Take};
use cantrip::hud::still::{preview_snapshot, SCREENSHOT_WAVEFORM};
use cantrip::ipc::{AudioSignal, Stage, StateKind, StatusSnapshot};

fn take(id: &str, audio: bool, text: bool, unresolved: bool) -> Take {
    Take {
        id: id.to_owned(),
        created_at_unix_ms: 1,
        duration_ms: Some(4_000),
        text_available: text,
        audio_available: audio,
        partial: false,
        unresolved,
    }
}

fn at(year: i32, year_day: i32, week_day: i32, month: i32, day: i32) -> LocalTime {
    LocalTime {
        year,
        year_day,
        week_day,
        month,
        day,
        hour: 9,
        minute: 30,
        second: 0,
    }
}

fn observation(status: Option<StatusSnapshot>) -> Observation {
    Observation {
        status,
        history_unavailable: false,
        local_model: true,
        config_ok: true,
        key_id: None,
    }
}

/// A window that shows two takes, the first of which waits.
fn filled_window() -> ActionsWindow {
    let mut window = ActionsWindow::new(0);
    let status = preview_snapshot(StateKind::Idle);
    let revision = history_revision(Some(&status));
    window.observe(
        observation(Some(status)),
        Some(vec![
            take("first", true, false, true),
            take("second", false, true, false),
        ]),
        Some(2_097_152),
        revision,
    );
    window
}

#[test]
fn keyboard_navigation_crosses_virtual_viewports_and_stops_at_boundaries() {
    assert_eq!(
        moved_recording_row(Some(0), 10_000, RowKey::End, 3),
        Some(9_999)
    );
    assert_eq!(
        moved_recording_row(Some(9_999), 10_000, RowKey::ArrowDown, 3),
        Some(9_999)
    );
    assert_eq!(
        moved_recording_row(Some(9_999), 10_000, RowKey::PageUp, 3),
        Some(9_996)
    );
    assert_eq!(
        moved_recording_row(Some(9_996), 10_000, RowKey::Home, 3),
        Some(0)
    );
    assert_eq!(moved_recording_row(Some(0), 0, RowKey::End, 3), None);
}

#[test]
fn keyboard_navigation_enters_a_list_from_either_end() {
    assert_eq!(moved_recording_row(None, 5, RowKey::ArrowDown, 3), Some(0));
    assert_eq!(moved_recording_row(None, 5, RowKey::ArrowUp, 3), Some(4));
    assert_eq!(moved_recording_row(None, 5, RowKey::PageUp, 3), Some(4));
    assert_eq!(moved_recording_row(None, 5, RowKey::Other, 3), None);
    assert_eq!(moved_recording_row(Some(9), 5, RowKey::Other, 3), Some(4));
    assert_eq!(
        moved_recording_row(Some(1), 5, RowKey::PageDown, 3),
        Some(4)
    );
}

#[test]
fn capture_days_are_relative_across_a_year_boundary() {
    let days = CalendarDays {
        today: Some((2027, 0)),
        yesterday: Some((2026, 364)),
    };
    assert_eq!(days.label(&at(2027, 0, 5, 0, 1)), "Today");
    assert_eq!(days.label(&at(2026, 364, 4, 11, 31)), "Yesterday");
    // Same day of year in another year is neither today nor yesterday.
    assert_eq!(days.label(&at(2026, 0, 4, 0, 1)), "Thu 1 Jan 2026");
    assert_eq!(days.label(&at(2026, 363, 3, 11, 30)), "Wed 30 Dec 2026");
}

#[test]
fn times_are_written_for_rows_and_details() {
    let days = CalendarDays {
        today: Some((2027, 0)),
        yesterday: None,
    };
    let time = at(2027, 0, 5, 0, 1);
    assert_eq!(row_time(Some(time), &days), "Today 09:30:00");
    assert_eq!(detail_time(Some(time), &days), "Today at 09:30:00");
    assert_eq!(take_time(Some(time)), "2027-01-01 09:30:00 local");
    assert_eq!(take_time(None), "Capture time unavailable");
    assert_eq!(row_time(None, &days), "Time unavailable");
    assert_eq!(detail_time(None, &days), "Capture time unavailable");
}

#[test]
fn durations_are_short_in_rows() {
    assert_eq!(short_duration(Some(65_000)), "1:05");
    assert_eq!(short_duration(None), "\u{2014}");
    assert_eq!(short_duration(Some(740)), "740 ms");
    assert_eq!(take_duration(Some(65_000)), "1m 05s");
    assert_eq!(take_duration(None), "duration unknown");
}

#[test]
fn stages_have_titles() {
    assert_eq!(stage_title(&Stage::CleaningUp), "Cleaning up the text");
    assert_eq!(
        stage_title(&Stage::Transcribing {
            completed: 1,
            total: 4
        }),
        "Transcribing \u{b7} 1 of 4"
    );
}

#[test]
fn a_take_is_stamped_by_what_is_left_of_it() {
    let waiting = take("one", true, false, true);
    assert_eq!(take_stamp(&waiting), Stamp::Attention);
    let complete = take("two", true, true, false);
    assert_eq!(take_stamp(&complete), Stamp::Complete);
    let row = take_row(
        &waiting,
        None,
        &CalendarDays {
            today: None,
            yesterday: None,
        },
        true,
    );
    assert!(row.waiting);
    assert_eq!(row.facts, take_facts(&waiting));
}

#[test]
fn kept_output_is_the_oldest() {
    let mut kept = vec![b'a'; OUTPUT_LIMIT - 2];
    keep_output(&mut kept, &b"bcd".to_vec());
    assert_eq!(kept.len(), OUTPUT_LIMIT);
    assert_eq!(&kept[OUTPUT_LIMIT - 3..], b"abc");
    keep_output(&mut kept, &vec![b'e'; 5]);
    assert_eq!(&kept[OUTPUT_LIMIT - 3..], b"abc");
}

#[test]
fn a_property_is_one_line_of_a_report() {
    let report = "LoadState=loaded\nActiveState=active\n";
    assert_eq!(property(report, "ActiveState").as_deref(), Some("active"));
    assert_eq!(property(report, "Active"), None);
}

#[test]
fn a_hidden_daemon_is_not_said_to_be_ready() {
    let unknown = hero(false, None);
    let absent = hero(true, None);
    assert_ne!(unknown, absent);
    let ready = hero(true, Some(&preview_snapshot(StateKind::Idle)));
    assert_eq!(ready.stamp, Stamp::Idle);
    assert_eq!(ready.sentence, "Nothing is waiting.");
    let mut status = preview_snapshot(StateKind::Recording);
    assert_eq!(hero(true, Some(&status)).title, "Starting microphone\u{2026}");
    status.elapsed = 75;
    status.signal = Some(AudioSignal {
        level: 94,
        silent: false,
        waveform: SCREENSHOT_WAVEFORM,
    });
    let recording = hero(true, Some(&status));
    assert_eq!(recording.stamp, Stamp::Live);
    assert_eq!(recording.elapsed.as_deref(), Some("1:15"));
}

#[test]
fn an_observation_fills_the_list_and_chooses_a_waiting_take() {
    let window = filled_window();
    assert_eq!(window.takes.len(), 2);
    assert_eq!(window.pending_indices, vec![0]);
    assert_eq!(window.selected_id.as_deref(), Some("first"));
    assert_eq!(window.selected_take().map(|take| take.id.as_str()), Some("first"));
    let panel = window.recordings_view();
    assert_eq!(panel.note, ListNote::Listed);
    assert_eq!(panel.rows, 1);
    assert_eq!(panel.refresh, RefreshPlace::Header);
    let setup = window.setup_view();
    assert_eq!(setup.model, ModelRow::Installed);
    assert_eq!(setup.service, ServiceRow::Running { reload: true });
}

#[test]
fn a_history_is_asked_for_when_it_may_have_changed() {
    let mut window = filled_window();
    let known = window.history_revision.take();
    let mut status = preview_snapshot(StateKind::Idle);
    assert!(!history_revision(Some(&status)).differs(&known));
    status.pending_recordings += 1;
    assert!(history_revision(Some(&status)).differs(&known));
    assert!(history_revision(Some(&status)).differs(&None));
}

#[test]
fn polls_follow_each_other_at_an_interval() {
    let mut window = ActionsWindow::new(0);
    assert!(window.poll(POLL).is_some());
    assert!(window.poll(3 * POLL).is_none(), "one poll at a time");
    window.poll_lost(3 * POLL);
    assert!(window.poll(3 * POLL + 1).is_none());
    assert!(window.poll(4 * POLL).is_some());
}

#[test]
fn a_lane_takes_one_action_at_a_time() {
    let mut window = filled_window();
    assert!(window.submit(ActionKind::Command, "Starting"));
    assert!(!window.submit(ActionKind::Command, "Starting again"));
    assert!(window.submit(ActionKind::Cancel, "Cancelling"));
    assert_eq!(
        window.complete(ActionLane::Command, Ok(ActionResult::CommandAccepted), POLL),
        CloseEffect::Stay
    );
    assert!(window.submit(ActionKind::Command, "Starting"));
}

#[test]
fn a_window_stays_while_an_installation_runs() {
    let mut window = filled_window();
    assert!(window.submit(ActionKind::InstallModel, "Installing"));
    assert_eq!(window.request_close(), CloseEffect::CancelInstallation);
    assert_eq!(
        window.complete(
            ActionLane::Setup,
            Ok(ActionResult::Message("Installed.".to_owned())),
            POLL
        ),
        CloseEffect::Close
    );
    assert_eq!(filled_window().request_close(), CloseEffect::Close);
}

#[test]
fn a_confirmation_forgets_the_take_that_was_asked_about() {
    let mut window = filled_window();
    window.ask_forget(take("first", true, false, true));
    window.select("second".to_owned());
    assert_eq!(
        window.answer_forget(true).map(|take| take.id),
        Some("first".to_owned())
    );
    assert_eq!(window.answer_forget(true), None);
    window.ask_forget(take("second", false, true, false));
    assert_eq!(window.answer_forget(false), None);
}

#[test]
fn arrows_move_the_selection() {
    let mut window = filled_window();
    window.show_history = true;
    assert_eq!(window.navigate(RowKey::ArrowDown, 3), Some(1));
    assert_eq!(window.selected_id.as_deref(), Some("second"));
    assert_eq!(window.navigate(RowKey::ArrowDown, 3), Some(1));
    assert_eq!(window.navigate(RowKey::Home, 3), Some(0));
}

#[test]
fn offers_follow_what_a_take_has() {
    let window = filled_window();
    let days = CalendarDays {
        today: None,
        yesterday: None,
    };
    let audio = window.take_view(&take("first", true, false, true), None, &days);
    assert!(audio.enabled && audio.local && !audio.copy);
    assert!(!audio.no_audio);
    let text = window.take_view(&take("second", false, true, false), None, &days);
    assert!(text.copy && !text.local && text.no_audio);
}

#[test]
fn a_key_needs_a_name_and_a_secret() {
    let window = filled_window();
    assert!(window.key_enabled("openai", "value"));
    assert!(!window.key_enabled(" ", "value"));
    assert!(!window.key_enabled("openai", ""));
}

#[test]
fn retained_audio_is_known_only_in_full() {
    assert_eq!(retained_bytes(&vec![Some(5), Some(7)]), Some(12));
    assert_eq!(retained_bytes(&vec![Some(5), None]), None);
    assert_eq!(retained_bytes(&Vec::new()), Some(0));
    assert_eq!(retained_bytes(&vec![Some(u64::MAX), Some(1)]), None);
    assert_eq!(
        kept_audio(2_202_010),
        "2.1 MiB of audio kept on this computer. Kept until you forget it."
    );
}

#[test]
fn an_action_that_vanished_has_failed() {
    assert_eq!(completed_action(ActionPoll::Pending), None);
    assert!(matches!(completed_action(ActionPoll::Lost), Some(Err(_))));
    assert_eq!(
        completed_action(ActionPoll::Done(Ok(ActionResult::CommandAccepted))),
        Some(Ok(ActionResult::CommandAccepted))
    );
}

fn reply(ok: bool, message: Option<&str>) -> CommandReply {
    CommandReply {
        ok,
        state: StateKind::Idle,
        message: message.map(str::to_owned),
        stage: None,
        outcome: None,
        error: None,
    }
}

#[test]
fn a_refused_command_is_an_error() {
    assert_eq!(
        command_result(reply(true, Some("Recording."))),
        Ok(ActionResult::CommandAccepted)
    );
    assert_eq!(
        command_result(reply(false, Some("Busy."))),
        Err("Busy.".to_owned())
    );
}

#[test]
fn a_service_is_used_where_it_is_loaded() {
    assert_eq!(
        service_owner("LoadState=loaded\nActiveState=inactive\n"),
        ServiceDecision::Service
    );
    assert_eq!(
        service_owner("LoadState=not-found\nActiveState=inactive\n"),
        ServiceDecision::Direct
    );
    assert!(matches!(
        service_owner("LoadState=masked\nActiveState=inactive\n"),
        ServiceDecision::Refused(_)
    ));
    assert!(report_usable(true, ""));
    assert!(report_usable(false, "LoadState=not-found\n"));
    assert!(report_usable(false, "Id=x\r\nLoadState=not-found\r\n"));
    assert!(!report_usable(false, "LoadState=loaded\n"));
}

#[test]
fn a_start_waits_until_it_is_answered_or_expires() {
    assert_eq!(
        service_start(true, "ActiveState=active\n", false),
        StartStep::Connected
    );
    assert_eq!(
        service_start(false, "ActiveState=activating\n", false),
        StartStep::Wait
    );
    assert_eq!(
        service_start(false, "ActiveState=failed\nResult=exit-code\n", false),
        StartStep::Failed(
            "Cantrip user service failed: result=exit-code, exit=unknown. Open Settings to \
             repair configuration, then try Start again."
                .to_owned()
        )
    );
    assert!(matches!(
        service_start(false, "ActiveState=activating\n", true),
        StartStep::Failed(_)
    ));
    assert_eq!(direct_start(None, true, false, ""), StartStep::Connected);
    assert_eq!(direct_start(None, false, false, ""), StartStep::Wait);
    assert_eq!(
        direct_start(Some("exit status: 1"), false, false, "no device\n"),
        StartStep::Failed("Cantrip exited during startup (exit status: 1). no device".to_owned())
    );
    assert!(matches!(
        direct_start(None, false, true, ""),
        StartStep::Failed(_)
    ));
}

#[test]
fn a_cancelled_installation_is_not_a_failure() {
    assert!(installation_result(true, None, false).is_ok());
    assert!(installation_result(false, Some("no space".to_owned()), false).is_err());
    assert!(installation_result(false, None, true).is_ok());
}

#[test]
fn offers_of_the_first_panel_send_their_commands() {
    let mut window = ActionsWindow::new(0);
    window.observe(observation(None), None, None, history_revision(None));
    assert_eq!(window.status_view().start, Some(true));
    assert_eq!(StatusOffer::Start.words(), "Start Cantrip");
    assert_eq!(
        window.click_status(StatusOffer::Start),
        Some(Action::StartDaemon)
    );
    assert_eq!(window.setup_message, "Starting Cantrip…");
    assert_eq!(window.click_status(StatusOffer::Start), None);

    for (offer, words, command) in [
        (StatusOffer::Stop, "Stop recording", Command::Stop),
        (
            StatusOffer::Cancel,
            "Cancel without delivering",
            Command::Cancel,
        ),
        (
            StatusOffer::Dismiss { event_id: 7 },
            "Dismiss",
            Command::Dismiss { event_id: Some(7) },
        ),
    ] {
        let mut window = ActionsWindow::new(0);
        assert_eq!(offer.words(), words);
        assert_eq!(window.click_status(offer), Some(Action::Command(command)));
        assert_eq!(window.busy_message, "Applying action…");
        assert_eq!(window.click_status(offer), None);
    }
}

#[test]
fn offers_for_a_recording_name_it_and_never_send_keys() {
    let kept = take("kept", true, true, true);
    for (offer, words, command) in [
        (
            TakeOffer::Copy,
            "Copy transcript",
            Command::Copy {
                id: "kept".to_owned(),
            },
        ),
        (
            TakeOffer::RecoverLocally,
            "Recover locally",
            Command::Recover {
                id: Some("kept".to_owned()),
                local: true,
                clipboard: true,
            },
        ),
        (
            TakeOffer::RecoverWithProvider,
            "Recover with provider",
            Command::Recover {
                id: Some("kept".to_owned()),
                local: false,
                clipboard: true,
            },
        ),
    ] {
        let mut window = ActionsWindow::new(0);
        assert_eq!(offer.words(), words);
        assert_eq!(
            window.click_take(&kept, offer),
            Some(Action::Command(command))
        );
        assert_eq!(window.busy_message, "Applying recording action…");
    }
    let mut window = ActionsWindow::new(0);
    assert_eq!(window.confirm_forget(), None);
    window.ask_forget(kept);
    assert_eq!(
        window.confirm_forget(),
        Some(Action::Command(Command::Forget {
            id: "kept".to_owned()
        }))
    );
    assert!(window.forget.is_none());
    assert_eq!(window.busy_message, "Forgetting this recording…");
}

#[test]
fn a_cancelled_installation_is_told_and_cannot_be_cancelled_again() {
    let mut window = ActionsWindow::new(0);
    let mut seen = observation(None);
    seen.local_model = false;
    window.observe(seen, None, None, history_revision(None));
    assert!(!window.cancel_installation());
    assert_eq!(
        window.click_setup(SetupOffer::Install),
        Some(Action::InstallModel)
    );
    assert_eq!(
        window.setup_message,
        "Downloading and verifying the local model…"
    );
    assert_eq!(
        window.setup_view().model,
        ModelRow::Installing { cancelled: false }
    );
    assert!(window.cancel_installation());
    assert_eq!(
        window.setup_message,
        "Stopping model installation and cleaning temporary files…"
    );
    assert_eq!(
        window.setup_view().model,
        ModelRow::Installing { cancelled: true }
    );
    assert!(!window.cancel_installation());
    let result = installation_result(true, None, false);
    window.complete(ActionLane::Setup, result, 0);
    assert_eq!(
        window.setup_view().model,
        ModelRow::Missing { install: true }
    );
    assert!(window.click_setup(SetupOffer::Install).is_some());
    assert_eq!(
        window.setup_view().model,
        ModelRow::Installing { cancelled: false }
    );
    assert_eq!(window.request_close(), CloseEffect::CancelInstallation);
    assert_eq!(
        window.setup_view().model,
        ModelRow::Installing { cancelled: true }
    );
}

#[test]
fn offers_of_the_setup_panel_send_their_actions() {
    for (offer, words, action, progress) in [
        (
            SetupOffer::Start,
            "Start Cantrip",
            Action::StartDaemon,
            "Starting Cantrip…",
        ),
        (
            SetupOffer::Check,
            "Check setup",
            Action::Doctor,
            "Checking setup…",
        ),
    ] {
        let mut window = ActionsWindow::new(0);
        assert_eq!(offer.words(), words);
        assert_eq!(window.click_setup(offer), Some(action));
        assert_eq!(window.setup_message, progress);
    }
    let mut window = ActionsWindow::new(0);
    assert_eq!(
        window.click_setup(SetupOffer::Reload),
        Some(Action::Command(Command::Reload))
    );
    assert_eq!(window.busy_message, "Reloading configuration…");
    let stored = window.store_key("id".to_owned(), "secret".to_owned());
    assert_eq!(
        stored,
        Some(Action::StoreKey {
            id: "id".to_owned(),
            secret: "secret".to_owned()
        })
    );
    assert_eq!(window.setup_message, "Saving the key in the OS keyring…");
}

#[test]
fn the_window_says_what_it_keeps_and_sends() {
    assert_eq!(
        ListNote::Unavailable.words(),
        Some("Saved history could not be refreshed. Details shown may be out of date.")
    );
    assert_eq!(ListNote::Listed.words(), None);
    assert!(TakeHint::Local
        .words()
        .ends_with("Audio stays here; no cloud cleanup."));
    assert!(TakeHint::Remote
        .words()
        .ends_with("No automatic cloud fallback."));
    assert_eq!(
        WindowNote::ForgetKeeps.words(),
        "Keeps complete archived transcript text."
    );
    assert!(key_result(true).is_ok());
    assert_eq!(
        key_result(false),
        Err(
            "Key was not saved. Unlock the desktop keyring and use a nonempty key without \
             whitespace."
                .to_owned()
        )
    );
    assert_eq!(
        check_result(true, "fine".to_owned()),
        Ok(ActionResult::Diagnosis("fine".to_owned()))
    );
    assert!(check_result(false, String::new()).is_err());
}
