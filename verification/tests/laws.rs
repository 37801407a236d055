//! What holds of the library as a whole, on chosen values.

use cantrip::archive::record::{merge, new_record};
use cantrip::archive::Entry;
use cantrip::config::{Config, InjectionMode, SttConfig};
use cantrip::daemon::audio::{AudioAction, AudioEvent, AudioJob};
use cantrip::daemon::control::{setup_failure, Readiness, Step};
use cantrip::daemon::delivery::{
    begin_delivery, continue_delivery, unknown_destination, DeliveryReport, DeliveryStep,
};
use cantrip::daemon::worker::{
    resolved_artifacts, PipelineOutcome, PostprocStatus, SavedArtifacts, WorkerContext,
};
use cantrip::daemon::{Command, Daemon, Take};
use cantrip::desktop::events::{Drain, DrainStep, StreamRead};
use cantrip::desktop::parse::parse_focus;
use cantrip::desktop::{History, SafetyError, Stamp};
use cantrip::gallery::replay::{Gallery, ViewOptions};
use cantrip::hud::layout::{caption_height, wrap_line, LineCapacity};
use cantrip::hud::present::present_outcome;
use cantrip::hud::still::{preview_outcome, preview_snapshot};
use cantrip::hud::words::{plan_words, track_tone, Tone, LINE_GAP};
use cantrip::hud::{Caption, Kind, Model, DISCONNECT_DELAY, SECOND, SURFACE_HEIGHT};
use cantrip::ipc::{Artifacts, Completeness, Delivery, Stage, StateKind};
use cantrip::json::Json;

const NOW: u64 = 1_000 * SECOND;
const READY: Readiness = Readiness {
    configured: true,
    default_model: true,
};

fn daemon() -> Daemon {
    let take = Take {
        id: "kept".to_owned(),
        created_at_unix_ms: 1,
        duration_ms: Some(4_000),
        text_available: true,
        audio_available: true,
        partial: false,
        unresolved: true,
    };
    Daemon::new(Config::default(), vec![take], true, "epoch".to_owned())
}

#[test]
fn a_copy_only_asks_for_the_clipboard() {
    let mut daemon = daemon();
    daemon.config.injection = InjectionMode::Type;
    let Step::Dispatch(job) = daemon.execute(
        Command::Copy {
            id: "kept".to_owned(),
        },
        READY,
        NOW,
    ) else {
        panic!("a saved text is copied");
    };
    assert_eq!(job.operation.identity.take_id, "kept");
    for partial in [false, true] {
        assert_eq!(
            begin_delivery(job.config.injection, partial, false),
            DeliveryStep::Inject(InjectionMode::Clipboard)
        );
    }
}

#[test]
fn events_are_numbered_upwards() {
    let mut daemon = daemon();
    let mut last = 0;
    for _ in 0..3 {
        let step = daemon.execute(Command::Stop, READY, NOW);
        assert!(matches!(step, Step::Reply(reply) if !reply.ok));
        let event = daemon.notice.as_ref().map(|notice| notice.event_id);
        assert!(event > Some(last));
        last = event.unwrap_or(last);
    }
    assert!(daemon.outcome.is_none());
}

#[test]
fn a_cancelled_recording_has_no_permit_and_is_acknowledged_once() {
    let mut daemon = daemon();
    daemon.capture_started("new".to_owned(), None, true, NOW);
    let Step::Dispatch(job) = daemon.execute(Command::Cancel, READY, NOW) else {
        panic!("a cancelled recording is still finished");
    };
    assert!(!job.guarded);
    assert!(daemon.delivery_revoked(&job.operation));
    assert!(daemon.dispatched(&job, true, NOW).ok);
    let Step::Reply(again) = daemon.execute(Command::Cancel, READY, NOW) else {
        panic!("a second cancellation starts nothing");
    };
    assert!(!again.ok);
}

fn pipeline() -> PipelineOutcome {
    PipelineOutcome {
        text: Ok("words".to_owned()),
        partial: false,
        cancelled: false,
        local_fallback: false,
        archive_failed: false,
        postproc: PostprocStatus::Off,
        usage: None,
        stt_elapsed_ms: 1,
    }
}

fn saved() -> SavedArtifacts {
    SavedArtifacts {
        artifacts: Artifacts::default(),
        durable_audio: true,
        durable_text: true,
        audio_conflict: false,
        warning: false,
    }
}

fn report(delivery: Delivery) -> DeliveryReport {
    DeliveryReport {
        delivery,
        error: None,
        elapsed_ms: Some(1),
        backend: None,
    }
}

#[test]
fn a_cancelled_delivery_is_an_incomplete_attempt() {
    let mut job = AudioJob::begin(&pipeline(), false);
    job.advance(AudioEvent::Saved(saved()));
    job.advance(AudioEvent::Delivered(report(Delivery::Cancelled)));
    assert_eq!(job.action, AudioAction::SaveCancelled);
    assert_eq!(job.completeness, Completeness::Cancelled);
}

#[test]
fn a_late_cancellation_keeps_what_arrived() {
    let mut daemon = daemon();
    let context = WorkerContext {
        operation: daemon.operation("kept".to_owned(), None, NOW),
        config: Config::default(),
    };
    for delivery in [Delivery::Typed, Delivery::Uncertain] {
        let mut job = AudioJob::begin(&pipeline(), false);
        job.advance(AudioEvent::Saved(saved()));
        job.advance(AudioEvent::Delivered(report(delivery)));
        let outcome = job.finish_audio(&context, &pipeline(), true);
        assert_eq!(outcome.delivery, delivery);
        assert_eq!(outcome.completeness, Completeness::Complete);
    }
}

#[test]
fn a_failed_look_revokes_permits() {
    let stamp = Stamp {
        focus: parse_focus(b"focus|0x42|100|123").unwrap(),
        generation: 4,
        suspend_offset: 0,
        compositor: 123,
    };
    let mut history = History {
        generation: 4,
        alive: true,
        last_poll: NOW,
        cached: Ok(stamp),
        refresh_requested: true,
    };
    assert!(!history.sample_due(Some(4), NOW, NOW + 1));
    assert!(history.sample_due(Some(4), NOW, NOW));
    assert!(!history.sample_due(Some(4), NOW, NOW), "one request, one look");
    assert!(history.sample_due(None, NOW, NOW + 1));
    history.publish(Ok(stamp));
    assert_eq!(history.check_stamp(stamp, Some(NOW), Some(0)), Ok(()));
    history.publish(Err(SafetyError::LayerOpen));
    assert_eq!(
        history.check_stamp(stamp, Some(NOW), Some(0)),
        Err(SafetyError::Changed)
    );
}

#[test]
fn progress_is_what_was_measured() {
    let mut model = Model::new(NOW);
    let mut status = preview_snapshot(StateKind::Processing);
    status.stage = Some(Stage::Transcribing {
        completed: 12,
        total: 30,
    });
    model.apply(status.clone(), NOW);
    assert_eq!(model.progress, Some((12, 30)));
    model.refresh(NOW + 60 * SECOND);
    assert_eq!(model.progress, Some((12, 30)));
    model.disconnected(NOW + 60 * SECOND);
    assert_eq!(model.progress, Some((12, 30)));
    status.stage = Some(Stage::Transcribing {
        completed: 0,
        total: 1,
    });
    model.apply(status, NOW + 61 * SECOND);
    assert_eq!(model.progress, None);
}

#[test]
fn an_outage_is_dated_once_and_shown_once() {
    let mut model = Model::new(NOW);
    model.apply(preview_snapshot(StateKind::Processing), NOW);
    model.disconnected(NOW + 1);
    model.disconnected(NOW + 2);
    assert_eq!(model.lost_since, Some(NOW + 1));
    model.refresh(NOW + 1 + DISCONNECT_DELAY);
    assert_eq!(model.kind, Some(Kind::Attention));
    let steps = model.take_track();
    assert!(!steps.is_empty());
    let revision = model.caption_revision;
    model.refresh(NOW + 1 + DISCONNECT_DELAY);
    assert_eq!(model.caption_revision, revision);
    assert!(model.take_track().is_empty());
}

#[test]
fn a_take_without_a_name_has_no_advice() {
    let outcome = preview_outcome(Completeness::Failed, Delivery::Nothing);
    let mut named = outcome.clone();
    named.artifacts = Artifacts {
        take_id: Some("kept".to_owned()),
        audio: true,
        text: false,
    };
    let mut unnamed = named.clone();
    unnamed.artifacts.take_id = None;
    let status = preview_snapshot(StateKind::Idle);
    let action = |outcome| present_outcome(outcome, &status, NOW, false).caption.action;
    assert!(action(&named).contains("Recover locally"));
    assert!(!action(&unnamed).contains("Recover"));
}

#[test]
fn wrapping_loses_no_words() {
    let text = "  a longer text,\twith  several words\nand lines";
    for width in 1..40 {
        let mut rest = text;
        let mut words = String::new();
        while !rest.is_empty() {
            let (line, next) = wrap_line(rest, width);
            words.extend(line.chars().filter(|c| !c.is_whitespace()));
            rest = next;
        }
        let all: String = text.chars().filter(|c| !c.is_whitespace()).collect();
        assert_eq!(words, all, "width {width}");
    }
}

#[test]
fn a_merged_record_names_its_take() {
    let entry = Entry {
        take_id: None,
        source: "dictation".to_owned(),
        raw_transcript: "words".to_owned(),
        postprocessed_transcript: None,
        audio_duration_ms: None,
        pipeline_elapsed_ms: 1,
        stt_model: "model".to_owned(),
        stt_remote: true,
        stt_elapsed_ms: 1,
        stt_api_cost_usd: None,
        partial: false,
        cancelled: false,
        postproc_status: "off".to_owned(),
        postproc_model: None,
        postproc_elapsed_ms: None,
        postproc_passes: None,
        postproc_prompt_version: None,
        postproc_instructions: None,
        postproc_prompt_tokens: None,
        postproc_completion_tokens: None,
        postproc_total_tokens: None,
        postproc_reasoning_tokens: None,
        postproc_cached_tokens: None,
        postproc_reported_cost_usd: None,
        postproc_usage_requests: None,
        postproc_usage_responses: None,
    };
    let mut old = Json::object();
    old.set("session_id", Json::text("one"));
    old.set("raw_transcript", Json::text("earlier"));
    old.set("completed_at_unix_ms", Json::Unsigned(3));
    let merged = merge(Some(old), new_record(&entry, "one", 5), &entry, 9);
    assert_eq!(merged.text_member("session_id").map(String::as_str), Some("one"));
    assert_eq!(
        merged.text_member("raw_transcript").map(String::as_str),
        Some("words")
    );
    let recovery = merged.get("recovery").expect("a recovery block");
    assert_eq!(
        recovery.get("created_at_unix_ms").and_then(Json::as_unsigned),
        Some(3)
    );
}

#[test]
fn nothing_leaves_the_machine_by_default() {
    let config = Config::default();
    assert_eq!(config.stt.endpoint, None);
    assert!(!config.postproc.enabled);
    assert!(!config.telemetry.enabled);
}

#[test]
fn options_change_the_script_and_keep_the_choice() {
    let mut gallery = Gallery::new();
    gallery.select(2);
    gallery.set_options(ViewOptions {
        labels: true,
        reduced_motion: true,
    });
    assert_eq!(gallery.selected, 2);
    assert!(gallery.options.reduced_motion);
    assert!(gallery.replay.frame.is_some());
}

#[test]
fn words_stay_inside_the_surface() {
    let caption = Caption {
        title: "A title that takes two lines".to_owned(),
        detail: "one detail".to_owned(),
        action: "Act".to_owned(),
    };
    let capacity = LineCapacity {
        title: 16,
        detail: 20,
        action: 20,
    };
    let feedback = Some("Nothing is recording.");
    let plan = plan_words(&caption, feedback, capacity, Kind::Attention);
    assert_eq!(plan.title.lines, ["A title that", "takes two lines"]);
    assert_eq!((plan.title.top, plan.title.size), (50, 12));
    let detail = plan.detail.expect("a detail");
    assert_eq!((detail.top, detail.size, detail.tone), (87, 11, Tone::Foreground));
    let action = plan.action.expect("an action");
    assert_eq!((action.top, action.size, action.tone), (110, 10, Tone::Attention));
    assert_eq!(plan.rule, Some(132));
    let feedback_block = plan.feedback.expect("feedback");
    assert_eq!(feedback_block.top, 138);
    assert_eq!(feedback_block.lines, ["Nothing is", "recording."]);
    let end = 138 + 2 * (11 + LINE_GAP);
    let height = caption_height(&caption, feedback, capacity);
    assert_eq!(height, 34 + 19 + 22 + 46 + 12);
    assert!(end + 12 <= SURFACE_HEIGHT - 6 + height);
    assert_eq!(track_tone(Kind::Working), Tone::Accent);
    assert_eq!(track_tone(Kind::Neutral), Tone::Foreground);
}

#[test]
fn a_lost_confirmation_lists_what_is_there() {
    let take = |audio, text| Take {
        id: "kept".to_owned(),
        created_at_unix_ms: 1,
        duration_ms: None,
        text_available: text,
        audio_available: audio,
        partial: false,
        unresolved: false,
    };
    let whole = take(true, true);
    let words = Some("words");
    let confirmed = resolved_artifacts("kept", Some(&whole), None, words, words);
    assert!(confirmed.durable_text && confirmed.durable_audio && !confirmed.warning);
    let lost = resolved_artifacts("kept", None, Some(&whole), words, words);
    assert!(!lost.durable_text && !lost.durable_audio && lost.warning);
    assert!(lost.artifacts.audio && lost.artifacts.text);
}

#[test]
fn a_job_without_a_permit_sends_nothing() {
    let result = unknown_destination();
    assert_eq!(
        continue_delivery(InjectionMode::Type, &result, false, 3),
        DeliveryStep::Done(DeliveryReport {
            delivery: Delivery::Deferred,
            error: Some("injection-deferred"),
            elapsed_ms: Some(3),
            backend: None,
        })
    );
}

#[test]
fn a_remote_configuration_warms_the_local_fallback() {
    let mut stt = SttConfig::default();
    stt.model = "other".to_owned();
    assert_eq!(stt.warm_model(), "other");
    stt.endpoint = Some("https://stt.example".to_owned());
    assert_eq!(stt.warm_model(), SttConfig::default().model);
}

#[test]
fn incomplete_recordings_are_told() {
    let mut daemon = daemon();
    daemon.recordings_incomplete();
    let notice = daemon.notice.expect("feedback");
    assert_eq!(notice.event_id, 1);
    assert_eq!(notice.error.as_deref(), Some("storage-failed"));
    assert!(notice.message.starts_with("Saved recordings could not all be loaded"));
}

#[test]
fn a_status_agrees_with_the_recordings_and_the_operation() {
    let mut daemon = daemon();
    let status = daemon.snapshot(NOW);
    assert_eq!(status.pending_recordings, 1);
    assert!(status.capabilities.recover && status.capabilities.copy);
    assert!(!status.capabilities.stop && !status.capabilities.cancel);

    assert!(daemon.capture_started("new".to_owned(), None, true, NOW).ok);
    let status = daemon.snapshot(NOW);
    assert!(status.capabilities.stop && status.capabilities.cancel);
    assert!(!status.capabilities.recover && !status.capabilities.copy);

    let Step::Dispatch(job) = daemon.execute(Command::Stop, READY, NOW) else {
        panic!("a recording is processed");
    };
    assert!(daemon.dispatched(&job, true, NOW).ok);
    let status = daemon.snapshot(NOW);
    assert!(!status.capabilities.stop && status.capabilities.cancel);
    assert!(status.signal.is_none());

    let identity = job.operation.identity.clone();
    assert!(daemon.seal(&job.operation));
    assert!(!daemon.snapshot(NOW).capabilities.cancel);

    let outcome = setup_failure("Nothing was heard.", "empty");
    daemon.apply_worker_result(&identity, outcome, Some(Vec::new()));
    let status = daemon.snapshot(NOW);
    assert_eq!(status.pending_recordings, 0);
    assert!(!status.capabilities.recover && !status.capabilities.copy);
}

#[test]
fn a_revoked_operation_cannot_be_cancelled_again() {
    let mut daemon = daemon();
    assert!(!daemon.revoke());
    assert!(daemon.capture_started("new".to_owned(), None, true, NOW).ok);
    assert!(!daemon.revoke());
    assert!(daemon.snapshot(NOW).capabilities.stop);
    let Step::Dispatch(job) = daemon.execute(Command::Stop, READY, NOW) else {
        panic!("a recording is processed");
    };
    assert!(daemon.revoke());
    assert!(!daemon.snapshot(NOW).capabilities.cancel);
    assert!(daemon.delivery_revoked(&job.operation));
    assert!(!daemon.seal(&job.operation));
}

#[test]
fn reads_can_be_cut_anywhere() {
    let stream = b"activewindowv2>>42\nopenwindow>>x\nopenlayer>>bar\nclose";
    let awaited = b"openwindow>>x".as_slice();
    let read = |pieces: &[&[u8]]| {
        let mut history = History::new();
        let mut pending = Vec::new();
        let mut drain = Drain::new();
        for piece in pieces {
            let step = drain.step(
                StreamRead::Data(piece.to_vec()),
                &mut pending,
                &mut history,
                Some(awaited),
            );
            assert_eq!(step, DrainStep::Continue);
        }
        (pending, drain.matched, history.generation)
    };
    let whole = read(&[stream.as_slice()]);
    assert_eq!(whole.0, b"close");
    assert!(whole.1);
    assert_eq!(whole.2, History::new().generation.wrapping_add(2));
    for cut in 0..=stream.len() {
        assert_eq!(read(&[&stream[..cut], &stream[cut..]]), whole);
    }
}

#[test]
fn a_window_that_is_named_is_read_back() {
    let focus = parse_focus(b"focus|0xffffffffffffffff|1a2b|4294967295\n").expect("a window");
    assert_eq!(focus.address, u64::MAX);
    assert_eq!(focus.stable_id, 0x1a2b);
    assert_eq!(focus.pid, u32::MAX);
    let text = format!(
        "focus|{:#x}|{:x}|{}",
        focus.address, focus.stable_id, focus.pid
    );
    assert_eq!(parse_focus(text.as_bytes()), Ok(focus));
}
