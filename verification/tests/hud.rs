use cantrip::hud::layout::{
    available_width, caption_height, count_lines, text_lines, wrap_line, LineCapacity,
};
use cantrip::hud::preference::{desktop_kind, judge_hyprland, reduced_motion, DesktopKind};
use cantrip::hud::present::present_outcome;
use cantrip::hud::still::{
    fixture, preview_outcome, preview_snapshot, screenshot_model, screenshot_rgba, ScreenshotError,
    ScreenshotState, SCREENSHOT_WAVEFORM,
};
use cantrip::hud::surface::{
    refresh_due, screenshot_overdue, Redraw, Surface, SurfaceEvent, SurfaceLifecycle,
    SCREENSHOT_LIMIT,
};
use cantrip::hud::{
    format_elapsed, persistent, run, Caption, Kind, Model, Visibility, DISCONNECT_DELAY,
    MILLISECOND, MONITOR_DELAY, POLL_INTERVAL, RESULT_FADE, SECOND, SETTLE, SUCCESS_HOLD,
};
use cantrip::ipc::{
    Artifacts, AudioSignal, Completeness, Delivery, InteractionNotice, Stage, StateKind,
    StatusSnapshot, AUDIO_WAVEFORM_BINS,
};
use cantrip::json::Json;

const NOW: u64 = 1_000 * SECOND;

fn recording(elapsed: u64, signal: Option<AudioSignal>) -> StatusSnapshot {
    let mut status = preview_snapshot(StateKind::Recording);
    status.elapsed = elapsed;
    status.signal = signal;
    status
}

fn signal(active: bool) -> AudioSignal {
    AudioSignal {
        level: if active { 94 } else { 0 },
        silent: !active,
        waveform: if active {
            SCREENSHOT_WAVEFORM
        } else {
            [[0; 2]; AUDIO_WAVEFORM_BINS]
        },
    }
}

#[test]
fn no_input_warning_is_initial_only_and_clears_with_hysteresis() {
    let now = NOW;
    let mut model = Model::new(now);
    model.apply(recording(0, Some(signal(false))), now);
    model.apply(
        recording(4, Some(signal(false))),
        now + 4 * SECOND,
    );
    assert_eq!(model.kind, Some(Kind::Recording));
    model.apply(
        recording(9, Some(signal(false))),
        now + 9 * SECOND,
    );
    assert_eq!(model.kind, Some(Kind::Attention));
    model.apply(
        recording(9, Some(signal(true))),
        now + 9100 * MILLISECOND,
    );
    assert_eq!(model.kind, Some(Kind::Attention));
    model.apply(
        recording(9, Some(signal(true))),
        now + 9500 * MILLISECOND,
    );
    assert_eq!(model.kind, Some(Kind::Recording));
    assert_eq!(
        model.caption,
        Caption::default(),
        "a cleared warning must not latch words"
    );
    model.apply(
        recording(40, Some(signal(false))),
        now + 40 * SECOND,
    );
    assert_eq!(
        model.kind,
        Some(Kind::Recording),
        "thinking after real input must not warn"
    );
}

#[test]
fn startup_unknown_is_not_measured_capture() {
    let now = NOW;
    let mut model = Model::new(now);
    model.apply(recording(0, None), now);
    assert_eq!(model.kind, Some(Kind::Working));
    assert!(model.waveform.is_none());
    assert!(model.caption.title.is_empty());
    model.refresh(now + SECOND);
    assert_eq!(model.caption, Caption::default());
    model.refresh(now + MONITOR_DELAY);
    assert_eq!(model.kind, Some(Kind::Attention));
    assert!(
        !model.caption.action.is_empty(),
        "unconfirmed input needs a setup route"
    );
    model.apply(
        recording(6, Some(signal(true))),
        now + 6 * SECOND,
    );
    assert_eq!(model.kind, Some(Kind::Recording));
    assert_eq!(model.caption, Caption::default());
    model.apply(recording(7, None), now + 7 * SECOND);
    assert!(model.waveform.is_none());
    assert_eq!(model.kind, Some(Kind::Attention));
}

#[test]
fn routine_stages_stay_wordless_regardless_of_elapsed_time() {
    let now = NOW;
    let mut model = Model::new(now);
    model.apply(recording(900, Some(signal(true))), now);
    assert_eq!(model.caption, Caption::default());
    let mut status = preview_snapshot(StateKind::Processing);
    for (index, stage) in [
        Stage::FinalizingAudio,
        Stage::Transcribing {
            completed: 0,
            total: 1,
        },
        Stage::Transcribing {
            completed: 29,
            total: 30,
        },
        Stage::CleaningUp,
        Stage::Delivering,
    ]
    .into_iter()
    .enumerate()
    {
        let at = now + (index as u64 + 1) * 60 * SECOND;
        status.stage = Some(stage);
        model.apply(status.clone(), at);
        model.refresh(at + 30 * SECOND);
        assert_eq!(model.caption, Caption::default());
    }
    let mut idle = preview_snapshot(StateKind::Idle);
    idle.outcome = Some(preview_outcome(Completeness::Complete, Delivery::Pasted));
    model.apply(idle, now + 360 * SECOND);
    assert_eq!(model.kind, Some(Kind::Resolved));
    assert_eq!(model.caption, Caption::default());
}

#[test]
fn busy_feedback_never_replaces_or_replays_the_active_operation() {
    let now = NOW;
    let mut model = Model::new(now);
    let mut status = recording(2, Some(signal(true)));
    model.apply(status.clone(), now);
    status.notice = Some(InteractionNotice {
        event_id: 10,
        message: "Busy".to_owned(),
        error: None,
    });
    model.apply(status.clone(), now + 100 * MILLISECOND);
    assert_eq!(model.kind, Some(Kind::Recording));
    assert!(model.interaction.is_some());
    assert!(model.result.is_none());
    model.apply(status, now + 3 * SECOND);
    assert!(model.interaction.is_none());
    assert_eq!(model.kind, Some(Kind::Recording));
}

#[test]
fn persistent_failure_dismisses_without_replaying_after_a_new_take() {
    let now = NOW;
    let mut model = Model::new(now);
    let mut failed = preview_snapshot(StateKind::Idle);
    failed.outcome = Some(preview_outcome(Completeness::Failed, Delivery::Nothing));
    model.apply(failed.clone(), now);
    model.refresh(now + 60 * SECOND);
    assert_eq!(model.kind, Some(Kind::Attention));
    failed.outcome.as_mut().expect("outcome").dismissed = true;
    model.apply(failed.clone(), now + 61 * SECOND);
    assert!(model.kind.is_none());
    let mut next = recording(0, Some(signal(true)));
    next.operation_id = Some("other-take".to_owned());
    model.apply(next, now + 62 * SECOND);
    failed.outcome.as_mut().expect("outcome").dismissed = false;
    model.apply(failed, now + 63 * SECOND);
    assert!(
        model.kind.is_none(),
        "cached old event is not completion of a new take"
    );
}

#[test]
fn disconnect_coalesces_and_restart_does_not_replay_success() {
    let now = NOW;
    let mut model = Model::new(now);
    let mut cached = preview_snapshot(StateKind::Idle);
    cached.outcome = Some(preview_outcome(Completeness::Complete, Delivery::Pasted));
    model.apply(cached.clone(), now);
    assert!(model.kind.is_none());
    model.apply(
        recording(2, Some(signal(true))),
        now + SECOND,
    );
    model.disconnected(now + 2 * SECOND);
    assert_eq!(model.kind, Some(Kind::Recording));
    model.refresh(now + 2 * SECOND + DISCONNECT_DELAY);
    assert_eq!(model.kind, Some(Kind::Attention));
    cached.epoch = "restarted-epoch".to_owned();
    model.apply(cached, now + 3 * SECOND);
    assert_eq!(model.kind, Some(Kind::Neutral));
    assert!(!model.caption.title.is_empty());
}

#[test]
fn cancellation_and_empty_stay_neutral_even_when_they_preserve_audio() {
    let now = NOW;
    for completeness in [Completeness::Empty, Completeness::Cancelled] {
        let mut status = preview_snapshot(StateKind::Idle);
        let mut outcome = preview_outcome(completeness, Delivery::Nothing);
        outcome.artifacts = Artifacts {
            take_id: Some("saved".to_owned()),
            audio: true,
            text: false,
        };
        outcome.error = Some("not a reason to alarm on deliberate cancellation".to_owned());
        status.outcome = Some(outcome.clone());
        let view = present_outcome(&outcome, &status, now, false);
        assert_eq!(view.kind, Kind::Neutral);
        assert!(!matches!(view.visibility, Visibility::Persistent));
        assert!(
            !view.caption.action.is_empty(),
            "saved audio remains deliberately recoverable"
        );
    }
}

#[test]
fn labelled_success_is_short_and_an_idle_disconnect_cannot_pin_it() {
    let now = NOW;
    let mut model = Model::new(now);
    let mut active = recording(0, Some(signal(true)));
    active.hud.labels = true;
    model.apply(active, now);
    let mut idle = preview_snapshot(StateKind::Idle);
    idle.hud.labels = true;
    idle.outcome = Some(preview_outcome(Completeness::Complete, Delivery::Pasted));
    model.apply(idle, now + 100 * MILLISECOND);
    assert_eq!(model.kind, Some(Kind::Resolved));
    assert!(!model.caption.title.is_empty());
    model.disconnected(now + 200 * MILLISECOND);
    model.refresh(now + POLL_INTERVAL + SETTLE + SUCCESS_HOLD + RESULT_FADE);
    assert!(model.kind.is_none());
}

#[test]
fn a_copy_finishing_between_polls_still_reports_its_new_outcome() {
    let now = NOW;
    let mut model = Model::new(now);
    model.apply(recording(0, Some(signal(true))), now);
    let mut idle = preview_snapshot(StateKind::Idle);
    idle.outcome = Some(preview_outcome(Completeness::Complete, Delivery::Pasted));
    model.apply(idle.clone(), now + 100 * MILLISECOND);
    let outcome = idle.outcome.as_mut().expect("terminal result");
    outcome.event_id = 2;
    outcome.operation_id = Some("copy-another-recording".to_owned());
    outcome.delivery = Delivery::Copied;
    outcome.message = "Copied. Paste when ready.".to_owned();
    model.apply(idle, now + 300 * MILLISECOND);
    assert_eq!(model.kind, Some(Kind::Resolved));
    assert_eq!(
        model.result.as_ref().and_then(|result| result.event_id),
        Some(2)
    );
    assert!(!model.caption.title.is_empty());
}

#[test]
fn fresh_idle_outcome_wins_when_the_last_observed_operation_was_different() {
    let now = NOW;
    let mut model = Model::new(now);
    model.apply(recording(0, Some(signal(true))), now);
    let mut idle = preview_snapshot(StateKind::Idle);
    let mut outcome = preview_outcome(Completeness::Complete, Delivery::Copied);
    outcome.operation_id = Some("unobserved-short-operation".to_owned());
    outcome.message = "Copied. Paste when ready.".to_owned();
    idle.outcome = Some(outcome);
    model.apply(idle.clone(), now + POLL_INTERVAL);
    assert_eq!(model.kind, Some(Kind::Resolved));
    let mut next = recording(0, Some(signal(true)));
    next.operation_id = Some("new-active-operation".to_owned());
    next.outcome = idle.outcome;
    model.apply(next, now + POLL_INTERVAL * 2);
    assert_eq!(model.kind, Some(Kind::Recording));
    assert!(model.result.is_none());
}

#[test]
fn dismissing_a_notice_removes_feedback_without_hiding_the_take() {
    let now = NOW;
    let mut model = Model::new(now);
    let mut status = recording(0, Some(signal(true)));
    model.apply(status.clone(), now);
    status.notice = Some(InteractionNotice {
        event_id: 1,
        message: "Busy".to_owned(),
        error: None,
    });
    model.apply(status.clone(), now + POLL_INTERVAL);
    assert!(model.interaction.is_some());
    status.notice = None;
    model.apply(status, now + POLL_INTERVAL * 2);
    assert!(model.interaction.is_none());
    assert_eq!(model.kind, Some(Kind::Recording));
}

#[test]
fn compositor_close_waits_for_an_output_event_before_reopening() {
    let mut lifecycle = SurfaceLifecycle::Open;
    lifecycle.closed();
    assert!(
        !lifecycle.can_create(),
        "ordinary loop ticks must respect compositor closure"
    );
    lifecycle.output_changed();
    assert!(lifecycle.can_create(), "real hotplug permits a replacement");
    lifecycle.opened();
    assert!(
        !lifecycle.can_create(),
        "an existing surface must not be duplicated"
    );
}

#[test]
fn screenshot_ignores_shared_memory_slot_padding() {
    let mut bytes = [255_u8; 64];
    bytes[..4].copy_from_slice(&[10, 20, 30, 128]);
    let image = screenshot_rgba(&bytes.to_vec(), 1, 1).unwrap();
    assert_eq!(image, [60, 40, 20, 128]);
    assert_eq!(
        screenshot_rgba(&bytes[..3].to_vec(), 1, 1),
        Err(ScreenshotError::IncompleteBuffer)
    );
    assert_eq!(
        screenshot_rgba(&bytes.to_vec(), u32::MAX, u32::MAX),
        Err(ScreenshotError::SizeOverflow)
    );
}

#[test]
fn a_still_shows_its_own_fixture() {
    for state in [
        ScreenshotState::Idle,
        ScreenshotState::Recording,
        ScreenshotState::Failed,
        ScreenshotState::Disconnected,
        ScreenshotState::ReducedMotionSent,
        ScreenshotState::Dismissed,
    ] {
        let shown = screenshot_model(state, NOW);
        assert_eq!(
            shown.snapshot.as_ref().map(|status| &status.state),
            Some(&fixture(state).state)
        );
    }
    assert_eq!(screenshot_model(ScreenshotState::Idle, NOW).kind, None);
    assert_eq!(
        screenshot_model(ScreenshotState::Disconnected, NOW).kind,
        Some(Kind::Attention)
    );
}

#[test]
fn elapsed_time_has_two_digits() {
    assert_eq!(format_elapsed(0), "00:00");
    assert_eq!(format_elapsed(75), "01:15");
    assert_eq!(format_elapsed(6_000), "100:00");
}

#[test]
fn a_failed_delivery_stays_until_it_is_dismissed() {
    assert!(persistent(&preview_outcome(
        Completeness::Complete,
        Delivery::Uncertain
    )));
    assert!(!persistent(&preview_outcome(
        Completeness::Complete,
        Delivery::Pasted
    )));
    assert!(!persistent(&preview_outcome(
        Completeness::Cancelled,
        Delivery::Failed
    )));
}

#[test]
fn a_fade_is_a_share_of_its_length() {
    let until = Visibility::Until(NOW);
    assert_eq!(until.alpha(NOW - RESULT_FADE, false), Some(RESULT_FADE));
    assert_eq!(until.alpha(NOW - RESULT_FADE / 2, false), Some(RESULT_FADE / 2));
    assert_eq!(until.alpha(NOW, false), None);
    assert_eq!(until.alpha(NOW - 1, true), Some(RESULT_FADE));
    assert_eq!(Visibility::Persistent.alpha(NOW, false), Some(RESULT_FADE));
}

#[test]
fn lines_break_at_spaces() {
    assert_eq!(wrap_line("two words", 5), ("two", "words"));
    assert_eq!(wrap_line("unbroken", 3), ("unb", "roken"));
    assert_eq!(wrap_line("short", 9), ("short", ""));
    assert_eq!(count_lines("one two three", 5, 9), 3);
    assert_eq!(text_lines("one two three", 5, 2), vec!["one", "two\u{2026}"]);
}

#[test]
fn a_caption_needs_room() {
    let capacity = LineCapacity {
        title: 20,
        detail: 20,
        action: 20,
    };
    let none = caption_height(&Caption::default(), None, capacity);
    let one = caption_height(&Caption::full("Title", "", ""), None, capacity);
    let two = caption_height(&Caption::full("Title", "Detail", ""), None, capacity);
    assert!(none < one && one < two);
    assert_eq!(available_width(Some(1_920)), 420);
}

#[test]
fn preferences_follow_the_desktop() {
    assert_eq!(desktop_kind("Hyprland"), Some(DesktopKind::Hyprland));
    assert_eq!(desktop_kind("ubuntu:GNOME"), Some(DesktopKind::Gnome));
    assert_eq!(desktop_kind("KDE"), None);
    let mut option = Json::object();
    option.set("bool", Json::Bool(false));
    assert_eq!(judge_hyprland(Some(option)), Some(true));
    assert_eq!(judge_hyprland(None), None);
    assert_eq!(
        reduced_motion(DesktopKind::Hyprland, r#"{"bool":true}"#),
        Some(false)
    );
    assert_eq!(reduced_motion(DesktopKind::Gnome, "false\n"), Some(true));
    assert_eq!(reduced_motion(DesktopKind::Gnome, "unset"), None);
}

#[test]
fn a_surface_is_drawn_once_it_is_configured() {
    let capacity = LineCapacity {
        title: 20,
        detail: 20,
        action: 20,
    };
    let mut surface = Surface::new(false);
    assert!(surface.wants_layer(true));
    assert_eq!(
        surface.redraw(None, &Caption::default(), None, capacity, true, false),
        Redraw::Wait
    );
    surface.handle(SurfaceEvent::Created);
    assert!(!surface.wants_layer(true));
    surface.handle(SurfaceEvent::Configured {
        width: 420,
        height: 56,
    });
    assert_eq!(
        surface.redraw(None, &Caption::default(), None, capacity, true, false),
        Redraw::Draw {
            width: 420,
            height: 56,
            stride: 1_680
        }
    );
    surface.committed(true);
    assert!(surface.visible);
    surface.handle(SurfaceEvent::Closed);
    assert!(!surface.wants_layer(true));
    surface.handle(SurfaceEvent::NewOutput);
    assert!(surface.wants_layer(true));
}

#[test]
fn a_failed_display_is_only_a_warning() {
    assert_eq!(run(false, Err("no compositor")), (Ok(()), Some("no compositor")));
    assert_eq!(run(true, Err("no compositor")), (Err("no compositor"), None));
    assert_eq!(run::<&str>(false, Ok(())), (Ok(()), None));
}

#[test]
fn refreshes_and_stills_are_timed() {
    assert!(!refresh_due(NOW, NOW));
    assert!(refresh_due(NOW + POLL_INTERVAL, NOW));
    assert!(!screenshot_overdue(NOW, NOW));
    assert!(screenshot_overdue(NOW + SCREENSHOT_LIMIT + 1, NOW));
}
