use cantrip::config::{Config, InjectionMode};
use cantrip::daemon::audio::{may_remove_source, AudioAction, AudioEvent, AudioJob};
use cantrip::daemon::control::{select_take, setup_failure, summarize, Need, Readiness, Step};
use cantrip::daemon::delivery::{begin_delivery, DeliveryReport, DeliveryStep};
use cantrip::daemon::server::{
    admits_client, check_runtime, decode_request, frame_reply, hud_spawn_due, known_request, Answer,
    ClientPlan, ClientPoll, HistoryReader, HistoryStep, PendingClient, ReadResult, Request,
    RequestError, RuntimeError, WriteResult, CLIENT_DEADLINE, HUD_SPAWN_COOLDOWN, REPLY_DEADLINE,
    WRITE_CHUNK,
};
use cantrip::daemon::settle::{Settlement, ShutdownWork};
use cantrip::daemon::worker::{
    describe_artifacts, persist_attempt, remove_runtime, saved_artifacts, storage_warning,
    AudioCheck, PipelineOutcome, PostprocStatus, SaveResult, SavedArtifacts, Source, WorkerContext,
};
use cantrip::daemon::{
    Command, CommandReply, Daemon, Identity, Job, Operation, State, Take, Work, WorkKind,
};
use cantrip::hud::still::SCREENSHOT_WAVEFORM;
use cantrip::ipc::{
    Artifacts, AudioSignal, Cleanup, Completeness, Delivery, OperationKind, Stage, StateKind,
    TerminalOutcome,
};

const SECOND: u64 = 1_000_000_000;
const NOW: u64 = 1_000 * SECOND;
const LIMIT: usize = 4_096;
const READY: Readiness = Readiness {
    configured: true,
    default_model: true,
};

fn take(id: &str, audio: bool, text: bool) -> Take {
    Take {
        id: id.to_owned(),
        created_at_unix_ms: 1,
        duration_ms: Some(4_000),
        text_available: text,
        audio_available: audio,
        partial: false,
        unresolved: audio,
    }
}

fn idle_daemon() -> Daemon {
    Daemon::new(
        Config::default(),
        vec![take("keep-me", true, true)],
        false,
        "epoch".to_owned(),
    )
}

fn processing(kind: WorkKind) -> (Daemon, Operation) {
    let mut daemon = idle_daemon();
    let operation = daemon.operation("keep-me".to_owned(), Some(OperationKind::Dictation), NOW);
    daemon.begin(
        operation.clone(),
        Stage::Transcribing {
            completed: 0,
            total: 2,
        },
        kind,
        NOW,
    );
    (daemon, operation)
}

fn recording(take_id: &str, config: Config, next_signal_sample: u64) -> Daemon {
    let mut daemon = idle_daemon();
    let operation = daemon.operation(take_id.to_owned(), Some(OperationKind::Dictation), NOW);
    daemon.state = State::Recording {
        operation,
        config,
        started: NOW,
        signal: None,
        next_signal_sample,
    };
    daemon
}

fn replied(step: Step) -> CommandReply {
    match step {
        Step::Reply(reply) => reply,
        other => panic!("a reply was expected, not {other:?}"),
    }
}

fn dispatched_job(step: Step) -> Job {
    match step {
        Step::Dispatch(job) => job,
        other => panic!("a job was expected, not {other:?}"),
    }
}

fn must_not_deliver(mode: InjectionMode, partial: bool, cancelled: bool) -> Delivery {
    match begin_delivery(mode, partial, cancelled) {
        DeliveryStep::Done(report) => report.delivery,
        DeliveryStep::Inject(mode) => panic!("{mode:?} must not reach desktop delivery"),
    }
}

#[test]
fn status_size_is_independent_of_history_size() {
    let mut daemon = idle_daemon();
    let baseline = format!("{:?}", daemon.snapshot(NOW)).len();
    daemon.replace_recordings(
        (0..10_000)
            .map(|id| take(&format!("take-{id}"), true, true))
            .collect(),
    );
    let snapshot = daemon.snapshot(NOW);
    assert_eq!(snapshot.pending_recordings, 10_000);
    assert!(format!("{snapshot:?}").len() < baseline + 10);
}

#[test]
fn capture_signal_none_is_starting_not_proved_listening() {
    let daemon = recording("new", Config::default(), NOW + 30 * SECOND);
    assert!(daemon.snapshot(NOW).signal.is_none());
    assert_eq!(
        daemon.snapshot(NOW).operation_kind,
        Some(OperationKind::Dictation)
    );
}

#[test]
fn busy_notice_does_not_replace_active_or_outcome() {
    let (mut daemon, _) = processing(WorkKind::Transcription);
    let reply = replied(daemon.execute(Command::Start { postproc: None }, READY, NOW));
    assert!(!reply.ok);
    assert_eq!(reply.error.as_deref(), Some("busy"));
    assert!(matches!(daemon.state, State::Processing { .. }));
    assert!(daemon.outcome.is_none());
    assert_eq!(
        daemon.notice.as_ref().unwrap().error.as_deref(),
        Some("busy")
    );
}

#[test]
fn processing_cancel_acknowledges_without_settling() {
    let (mut daemon, operation) = processing(WorkKind::Transcription);
    let reply = replied(daemon.execute(Command::Cancel, READY, NOW));
    assert!(reply.ok);
    assert_eq!(reply.stage, Some(Stage::Cancelling));
    assert!(daemon.delivery_revoked(&operation));
    assert!(matches!(
        daemon.state,
        State::Processing {
            stage: Stage::Cancelling,
            ..
        }
    ));
}

#[test]
fn cancelling_capture_revokes_delivery_before_finalization() {
    let mut daemon = recording("cancelled-take", Config::default(), NOW);
    let job = dispatched_job(daemon.execute(Command::Cancel, READY, NOW));
    assert!(daemon.dispatched(&job, true, NOW).ok);
    assert_eq!(
        must_not_deliver(
            InjectionMode::Clipboard,
            false,
            daemon.delivery_revoked(&job.operation)
        ),
        Delivery::Cancelled
    );
    assert_eq!(daemon.snapshot(NOW).stage, Some(Stage::Cancelling));
}

#[test]
fn stale_worker_result_cannot_replace_a_newer_operation() {
    let (mut daemon, old) = processing(WorkKind::Transcription);
    let newer = daemon.operation("keep-me".to_owned(), Some(OperationKind::Replay), NOW);
    daemon.begin(newer.clone(), Stage::Delivering, WorkKind::Delivery, NOW);
    let settled = daemon.apply_worker_result(
        &old.identity,
        TerminalOutcome {
            event_id: 0,
            operation_id: Some("old".to_owned()),
            message: "should not appear".to_owned(),
            completeness: Completeness::Complete,
            delivery: Delivery::Pasted,
            cleanup: Cleanup::Off,
            error: None,
            artifacts: Artifacts::default(),
            dismissed: false,
        },
        Some(Vec::new()),
    );
    assert_eq!(settled, Settlement::Stale);
    assert!(matches!(daemon.state, State::Processing { .. }));
    assert!(daemon.outcome.is_none());
    assert_eq!(
        daemon.state.operation().unwrap().identity.operation_id,
        newer.identity.operation_id
    );
    assert_eq!(daemon.snapshot(NOW).pending_recordings, 1);
}

#[test]
fn targeted_dismiss_does_not_hide_an_independent_notice_or_delete_artifacts() {
    let mut daemon = idle_daemon();
    daemon.notice("busy", Some("busy"));
    daemon.publish(TerminalOutcome {
        event_id: 0,
        operation_id: Some("op".to_owned()),
        message: "Partial text copied (4 chars).".to_owned(),
        completeness: Completeness::Partial,
        delivery: Delivery::Copied,
        cleanup: Cleanup::Off,
        error: Some("stt-partial".to_owned()),
        artifacts: Artifacts {
            take_id: Some("keep-me".to_owned()),
            audio: true,
            text: true,
        },
        dismissed: false,
    });
    let event = daemon.outcome.as_ref().unwrap().event_id;
    let reply = replied(daemon.execute(
        Command::Dismiss {
            event_id: Some(event),
        },
        READY,
        NOW,
    ));
    assert!(reply.ok);
    assert!(daemon.notice.is_some());
    let outcome = daemon.outcome.unwrap();
    assert!(outcome.dismissed);
    assert!(outcome.artifacts.audio);
    assert_eq!(outcome.artifacts.take_id.as_deref(), Some("keep-me"));
}

#[test]
fn recover_rejects_unknown_identity_instead_of_retargeting() {
    let mut daemon = idle_daemon();
    let reply = replied(daemon.execute(
        Command::Recover {
            id: Some("missing".to_owned()),
            local: false,
            clipboard: true,
        },
        READY,
        NOW,
    ));
    assert!(!reply.ok);
    assert_eq!(reply.error.as_deref(), Some("no-recording"));
    assert!(matches!(daemon.state, State::Idle));
}

#[test]
fn stage_updates_match_epoch_and_preserve_elapsed_chunk_phase() {
    let (mut daemon, operation) = processing(WorkKind::Transcription);
    if let State::Processing { phase_started, .. } = &mut daemon.state {
        *phase_started = NOW - 60 * SECOND;
    }
    daemon.observe_stage(
        &operation.identity,
        Stage::Transcribing {
            completed: 1,
            total: 2,
        },
        NOW,
    );
    let foreign = Identity {
        epoch: "other-epoch".to_owned(),
        operation_id: operation.identity.operation_id.clone(),
        take_id: operation.identity.take_id.clone(),
        kind: operation.identity.kind,
    };
    daemon.observe_stage(&foreign, Stage::Delivering, NOW);
    assert_eq!(
        daemon.snapshot(NOW).stage,
        Some(Stage::Transcribing {
            completed: 1,
            total: 2
        })
    );
    assert!(daemon.snapshot(NOW).elapsed >= 60);
    daemon.observe_stage(&operation.identity, Stage::CleaningUp, NOW);
    assert!(daemon.snapshot(NOW).elapsed < 10);
    assert!(replied(daemon.execute(Command::Cancel, READY, NOW)).ok);
    daemon.observe_stage(&operation.identity, Stage::Delivering, NOW);
    assert_eq!(daemon.snapshot(NOW).stage, Some(Stage::Cancelling));
}

#[test]
fn cancellation_after_settlement_is_rejected() {
    let (mut daemon, operation) = processing(WorkKind::Delivery);
    assert!(daemon.seal(&operation));
    assert!(!replied(daemon.execute(Command::Cancel, READY, NOW)).ok);
    assert!(!daemon.delivery_revoked(&operation));
}

#[test]
fn an_operation_that_does_not_run_has_its_own_control() {
    let mut daemon = idle_daemon();
    let operation = daemon.operation("take".to_owned(), Some(OperationKind::Replay), NOW);
    assert!(matches!(daemon.state, State::Idle));
    assert!(!daemon.delivery_revoked(&operation));
    assert!(daemon.seal(&operation));
    assert!(!daemon.seal(&operation));
    assert!(!daemon.request_cancel(&operation));
    assert!(!daemon.delivery_revoked(&operation));

    // What was settled before it is entered stays settled.
    daemon.begin(operation.clone(), Stage::Delivering, WorkKind::Delivery, NOW);
    assert!(!daemon.snapshot(NOW).capabilities.cancel);
    assert!(!replied(daemon.execute(Command::Cancel, READY, NOW)).ok);

    let next = daemon.operation("take".to_owned(), Some(OperationKind::Replay), NOW);
    assert!(daemon.request_cancel(&next));
    assert!(daemon.delivery_revoked(&next));
    assert!(!daemon.delivery_revoked(&operation));
    daemon.close(&next);
    assert!(daemon.delivery_revoked(&next));
    assert!(!daemon.request_cancel(&next));
}

#[test]
fn an_operation_lost_with_the_worker_is_revoked() {
    let (mut daemon, operation) = processing(WorkKind::Delivery);
    daemon.worker_lost(Artifacts::default(), None);
    assert!(matches!(daemon.state, State::Idle));
    assert!(daemon.delivery_revoked(&operation));
    assert!(!daemon.seal(&operation));
}

#[test]
fn a_settled_operation_is_closed_but_not_revoked() {
    let (mut daemon, operation) = processing(WorkKind::Delivery);
    let outcome = setup_failure("Failed.", "failed");
    daemon.apply_worker_result(&operation.identity, outcome, None);
    assert!(!daemon.delivery_revoked(&operation));
    assert!(!daemon.seal(&operation));
    assert!(!daemon.request_cancel(&operation));
}

#[test]
fn accepted_cancellation_prevents_successful_settlement() {
    let (mut daemon, operation) = processing(WorkKind::Transcription);
    assert!(replied(daemon.execute(Command::Cancel, READY, NOW)).ok);
    assert!(!daemon.seal(&operation));
    assert!(!daemon.request_cancel(&operation));
    assert_eq!(daemon.snapshot(NOW).stage, Some(Stage::Cancelling));
}

#[test]
fn present_audio_without_durability_cannot_authorize_source_deletion() {
    let take = take("present-not-synced", true, false);
    let saved = saved_artifacts(&take.id, Some(&take), false, None, None, true, false);
    assert!(saved.artifacts.audio);
    assert!(!saved.durable_audio);
    assert!(!saved.durable_text);
    assert!(saved.warning);
    assert!(!may_remove_source(Source::Dictation, &saved));
}

#[test]
fn shutdown_revokes_processing_delivery() {
    let (mut daemon, operation) = processing(WorkKind::Transcription);
    assert_eq!(daemon.shutdown_state(NOW), ShutdownWork::Revoked);
    assert_eq!(
        must_not_deliver(
            InjectionMode::Auto,
            false,
            daemon.delivery_revoked(&operation)
        ),
        Delivery::Cancelled
    );
}

#[test]
fn capture_policy_survives_live_configuration_change() {
    let mut daemon = idle_daemon();
    daemon.config.injection = InjectionMode::Type;
    daemon.config.hud.labels = true;
    let operation = daemon.operation("stable-take".to_owned(), Some(OperationKind::Dictation), NOW);
    daemon.state = State::Recording {
        operation,
        config: daemon.config.clone(),
        started: NOW,
        signal: None,
        next_signal_sample: NOW,
    };
    daemon.config.injection = InjectionMode::Clipboard;
    daemon.config.hud.labels = false;
    let job = dispatched_job(daemon.execute(Command::Stop, READY, NOW));
    assert!(daemon.dispatched(&job, true, NOW).ok);
    assert!(matches!(job.work, Work::Capture { .. }));
    assert!(daemon.snapshot(NOW).hud.labels);
    assert_eq!(
        must_not_deliver(
            job.config.injection,
            true,
            daemon.delivery_revoked(&job.operation)
        ),
        Delivery::Deferred
    );
}

#[test]
fn blocked_reply_does_not_block_another_status_client() {
    let mut slow = PendingClient::accept(NOW);
    slow.respond(vec![b'x'; 2_000_000], NOW);
    for round in 0..64 {
        assert!(matches!(slow.plan(NOW), ClientPlan::Write { .. }));
        let result = if round == 0 {
            WriteResult::Wrote(WRITE_CHUNK)
        } else {
            WriteResult::Blocked
        };
        assert_eq!(slow.wrote(result), ClientPoll::Pending);
    }
    let mut client = PendingClient::accept(NOW);
    assert_eq!(client.plan(NOW), ClientPlan::Read);
    assert_eq!(
        client.received(ReadResult::Data(b"status\n".to_vec()), LIMIT),
        ClientPoll::Ready(Ok("status".to_owned()))
    );
    let (mut daemon, _) = processing(WorkKind::Delivery);
    let epoch = daemon.epoch.clone();
    let Answer::Status(snapshot) = daemon.serve_request(Ok(Request::Status), READY, NOW) else {
        panic!("a status request is answered with the status");
    };
    client.respond(b"{}\n".to_vec(), NOW);
    assert_eq!(client.plan(NOW), ClientPlan::Write { start: 0, end: 3 });
    assert_eq!(client.wrote(WriteResult::Wrote(3)), ClientPoll::Closed);
    assert_eq!(snapshot.epoch, epoch);
    assert_eq!(snapshot.state, StateKind::Processing);
    assert!(snapshot.capabilities.cancel);
}

#[test]
fn unterminated_and_invalid_utf8_requests_are_rejected() {
    let mut pending = PendingClient::accept(NOW);
    assert_eq!(
        pending.received(ReadResult::Data(b"status".to_vec()), LIMIT),
        ClientPoll::Continue
    );
    assert!(matches!(
        pending.received(ReadResult::Closed, LIMIT),
        ClientPoll::Ready(Err(_))
    ));
    assert!(decode_request(&[0xff]).is_err());
    assert_eq!(decode_request(b"start"), Ok("start".to_owned()));
}

#[test]
fn a_request_comes_in_parts_and_within_a_limit() {
    let mut client = PendingClient::accept(NOW);
    assert_eq!(
        client.received(ReadResult::Interrupted, LIMIT),
        ClientPoll::Continue
    );
    assert_eq!(
        client.received(ReadResult::Data(b"sta".to_vec()), 8),
        ClientPoll::Continue
    );
    assert_eq!(
        client.received(ReadResult::WouldBlock, 8),
        ClientPoll::Pending
    );
    assert_eq!(
        client.received(ReadResult::Data(b"tus and more".to_vec()), 8),
        ClientPoll::Ready(Err(RequestError::TooLarge))
    );
    assert_eq!(
        client.received(ReadResult::Data(b"rt\nrest".to_vec()), 8),
        ClientPoll::Ready(Ok("start".to_owned()))
    );
    assert_eq!(
        PendingClient::accept(NOW).received(ReadResult::Closed, 8),
        ClientPoll::Closed
    );
    assert_eq!(
        PendingClient::accept(NOW).received(ReadResult::Failed, 8),
        ClientPoll::Closed
    );
}

#[test]
fn clients_have_deadlines() {
    let mut client = PendingClient::accept(NOW);
    assert_eq!(client.plan(NOW), ClientPlan::Read);
    assert_eq!(
        client.plan(NOW + CLIENT_DEADLINE),
        ClientPlan::Refuse(RequestError::TimedOut)
    );
    client.await_history(NOW);
    assert_eq!(client.plan(NOW + CLIENT_DEADLINE), ClientPlan::Wait);
    client.respond(vec![1, 2], NOW);
    assert_eq!(client.plan(NOW + REPLY_DEADLINE), ClientPlan::Close);
    assert_eq!(client.wrote(WriteResult::Wrote(0)), ClientPoll::Closed);
    assert_eq!(client.wrote(WriteResult::Failed), ClientPoll::Closed);
}

#[test]
fn replies_end_with_a_line_end_and_fit() {
    assert_eq!(frame_reply(b"{}".to_vec(), 3), Some(b"{}\n".to_vec()));
    assert_eq!(frame_reply(b"{}".to_vec(), 2), None);
    assert!(admits_client(63));
    assert!(!admits_client(64));
}

#[test]
fn an_old_history_is_read_again() {
    let mut reader = HistoryReader { active: false };
    assert_eq!(reader.request(true), Ok(()));
    assert_eq!(reader.received(1, 2, true), HistoryStep::Again);
    let mut reader = HistoryReader { active: true };
    assert_eq!(reader.received(2, 2, true), HistoryStep::Answer);
    let mut reader = HistoryReader { active: false };
    assert_eq!(reader.request(false), Err(()));
}

#[test]
fn the_display_is_not_started_in_a_loop() {
    assert!(!hud_spawn_due(NOW + HUD_SPAWN_COOLDOWN - 1, NOW));
    assert!(hud_spawn_due(NOW + HUD_SPAWN_COOLDOWN, NOW));
}

#[test]
fn a_runtime_directory_must_be_ours() {
    assert_eq!(
        check_runtime(true, true, true, 0o700),
        Err(RuntimeError::Symlink)
    );
    assert_eq!(
        check_runtime(false, false, true, 0o700),
        Err(RuntimeError::NoDirectory)
    );
    assert_eq!(
        check_runtime(false, true, false, 0o700),
        Err(RuntimeError::Foreign)
    );
    assert_eq!(check_runtime(false, true, true, 0o40700), Ok(false));
    assert_eq!(check_runtime(false, true, true, 0o40755), Ok(true));
}

#[test]
fn refused_requests_say_why() {
    let mut daemon = idle_daemon();
    for error in [
        RequestError::TimedOut,
        RequestError::Incomplete,
        RequestError::TooLarge,
        RequestError::Invalid,
        RequestError::Unknown,
    ] {
        let Answer::Refused(reply) = daemon.serve_request(Err(error), READY, NOW) else {
            panic!("a broken request is refused");
        };
        assert!(!reply.ok);
        assert_eq!(reply.message.as_deref(), Some(error.message()));
    }
    assert_eq!(known_request::<u8>(None), Err(RequestError::Unknown));
    assert_eq!(known_request(Some(3_u8)), Ok(3));
    assert_eq!(
        daemon.serve_request(Ok(Request::Recordings), READY, NOW),
        Answer::History
    );
    assert!(!daemon.too_many_clients().ok);
    assert!(!daemon.history_unavailable().ok);
}

#[test]
fn a_capture_starts_and_stops() {
    let mut daemon = idle_daemon();
    daemon.config.postproc.model = "llama3".to_owned();
    let Step::Capture { postproc } =
        daemon.execute(Command::Toggle { postproc: Some(true) }, READY, NOW)
    else {
        panic!("a ready daemon starts to record");
    };
    assert_eq!(postproc, Some(true));
    let reply = daemon.capture_started("new-take".to_owned(), postproc, true, NOW);
    assert!(reply.ok);
    assert_eq!(reply.state, StateKind::Recording);
    assert!(daemon.signal_due(NOW));
    let signal = AudioSignal {
        level: 94,
        silent: false,
        waveform: SCREENSHOT_WAVEFORM,
    };
    daemon.refresh_recording_signal(Some(signal), NOW);
    assert!(!daemon.signal_due(NOW));
    assert_eq!(daemon.snapshot(NOW).signal, Some(signal));
    let job = dispatched_job(daemon.execute(
        Command::Toggle { postproc: None },
        READY,
        NOW + 3 * SECOND,
    ));
    assert_eq!(job.work, Work::Capture { duration_ms: 3_000 });
    assert!(job.config.postproc.enabled);
    assert_eq!(job.operation.identity.take_id, "new-take");
    assert!(daemon.dispatched(&job, true, NOW + 3 * SECOND).ok);
    assert_eq!(
        daemon.snapshot(NOW + 3 * SECOND).stage,
        Some(Stage::FinalizingAudio)
    );
}

#[test]
fn an_unprepared_daemon_does_not_record() {
    let mut daemon = idle_daemon();
    let reply = replied(daemon.execute(
        Command::Start { postproc: None },
        Readiness {
            configured: false,
            default_model: false,
        },
        NOW,
    ));
    assert!(!reply.ok);
    assert!(matches!(daemon.state, State::Idle));
    assert!(replied(daemon.execute(Command::Ping, READY, NOW)).ok);
    assert!(matches!(
        daemon.execute(Command::Reload, READY, NOW),
        Step::Reload
    ));
    assert!(!daemon.reload(None, false).ok);
    assert!(daemon.reload(Some(Config::default()), true).ok);
    assert!(daemon.local_model);
}

#[test]
fn numbers_tell_operations_apart() {
    let mut daemon = idle_daemon();
    let first = daemon.operation("same".to_owned(), None, NOW);
    let second = daemon.operation("same".to_owned(), None, NOW);
    assert_ne!(first.identity.operation_id, second.identity.operation_id);
    assert!(!first.identity.same(&second.identity));
    assert!(first.identity.same(&first.identity));
}

#[test]
fn a_result_ends_its_operation() {
    let (mut daemon, operation) = processing(WorkKind::Transcription);
    assert!(daemon.is_running(&operation.identity));
    let context = WorkerContext {
        operation: operation.clone(),
        config: Config::default(),
    };
    let outcome = context.outcome(
        Completeness::Complete,
        Delivery::Pasted,
        Artifacts::default(),
    );
    let settled = daemon.apply_worker_result(&operation.identity, outcome, None);
    assert!(matches!(settled, Settlement::Published { .. }));
    assert!(matches!(daemon.state, State::Idle));
    assert!(!daemon.is_running(&operation.identity));
    assert_eq!(
        daemon.outcome.as_ref().unwrap().delivery,
        Delivery::Pasted
    );
}

#[test]
fn a_lost_worker_ends_what_it_did() {
    let (mut daemon, _) = processing(WorkKind::Transcription);
    daemon.worker_lost(Artifacts::default(), None);
    assert!(matches!(daemon.state, State::Idle));
    assert!(!daemon.worker_available);
    assert_eq!(
        daemon.outcome.as_ref().unwrap().completeness,
        Completeness::Failed
    );
}

#[test]
fn a_recording_is_kept_at_shutdown() {
    let mut daemon = recording("kept", Config::default(), NOW);
    assert_eq!(
        daemon.shutdown_state(NOW + 2 * SECOND),
        ShutdownWork::Retain {
            take_id: "kept".to_owned(),
            duration_ms: 2_000
        }
    );
    assert_eq!(idle_daemon().shutdown_state(NOW), ShutdownWork::Nothing);
}

#[test]
fn the_newest_fitting_take_is_chosen() {
    let takes = vec![
        take("no-audio", false, true),
        take("both", true, true),
        take("audio", true, false),
    ];
    let chosen = |id: Option<&str>, need| {
        select_take(&takes, id.map(str::to_owned).as_ref(), need).map(|take| take.id)
    };
    assert_eq!(chosen(None, Need::Audio).as_deref(), Some("both"));
    assert_eq!(chosen(None, Need::Text).as_deref(), Some("no-audio"));
    assert_eq!(chosen(Some("no-audio"), Need::Audio), None);
    assert_eq!(
        chosen(Some("no-audio"), Need::Anything).as_deref(),
        Some("no-audio")
    );
    let summary = summarize(&takes);
    assert_eq!(summary.pending, 2);
    assert!(summary.audio && summary.text);
}

fn pipeline(text: &str, partial: bool) -> PipelineOutcome {
    PipelineOutcome {
        text: Ok(text.to_owned()),
        partial,
        cancelled: false,
        local_fallback: false,
        archive_failed: false,
        postproc: PostprocStatus::Off,
        usage: None,
        stt_elapsed_ms: 12,
    }
}

fn durable(text: bool) -> SavedArtifacts {
    SavedArtifacts {
        artifacts: Artifacts {
            take_id: Some("keep-me".to_owned()),
            audio: true,
            text,
        },
        durable_audio: true,
        durable_text: text,
        audio_conflict: false,
        warning: false,
    }
}

#[test]
fn a_transcription_is_saved_delivered_sealed_and_resolved() {
    let (_, operation) = processing(WorkKind::Transcription);
    let context = WorkerContext {
        operation,
        config: Config::default(),
    };
    let pipeline = pipeline("words", false);
    let mut job = AudioJob::begin(&pipeline, false);
    assert_eq!(job.action, AudioAction::Save { partial: false });
    job.advance(AudioEvent::Saved(durable(true)));
    assert_eq!(job.action, AudioAction::Deliver { partial: false });
    job.advance(AudioEvent::Delivered(DeliveryReport {
        delivery: Delivery::Pasted,
        error: None,
        elapsed_ms: Some(3),
        backend: None,
    }));
    assert_eq!(job.action, AudioAction::Seal);
    job.advance(AudioEvent::Sealed(true));
    assert_eq!(job.action, AudioAction::Resolve);
    job.advance(AudioEvent::Resolved {
        resolved: true,
        saved: durable(true),
    });
    assert_eq!(job.action, AudioAction::Finish);
    let outcome = job.finish_audio(&context, &pipeline, false);
    assert_eq!(outcome.completeness, Completeness::Complete);
    assert_eq!(outcome.delivery, Delivery::Pasted);
    assert!(may_remove_source(Source::Dictation, &job.saved));
    assert!(!may_remove_source(Source::Recover, &job.saved));
    let telemetry = context.audio_telemetry(
        Source::Dictation,
        4_000,
        &pipeline,
        &job.report,
        &outcome,
        40,
    );
    assert_eq!(telemetry.is_some(), context.config.telemetry.enabled);
}

#[test]
fn a_cancelled_transcription_is_saved_and_not_delivered() {
    let (_, operation) = processing(WorkKind::Transcription);
    let context = WorkerContext {
        operation,
        config: Config::default(),
    };
    let pipeline = pipeline("words", false);
    let mut job = AudioJob::begin(&pipeline, true);
    for _ in 0..8 {
        match job.action {
            AudioAction::Finish => break,
            AudioAction::Deliver { .. } => panic!("cancelled words must not be delivered"),
            AudioAction::Save { .. } | AudioAction::SaveCancelled => {
                job.advance(AudioEvent::Saved(durable(false)));
            }
            AudioAction::Seal => job.advance(AudioEvent::Sealed(false)),
            AudioAction::Resolve => panic!("cancelled work resolves nothing"),
        }
    }
    let outcome = job.finish_audio(&context, &pipeline, true);
    assert_eq!(outcome.completeness, Completeness::Cancelled);
}

#[test]
fn artifacts_are_told_in_words() {
    let (_, operation) = processing(WorkKind::Transcription);
    let context = WorkerContext {
        operation,
        config: Config::default(),
    };
    assert_eq!(context.id(), "keep-me");
    let mut outcome = context.outcome(
        Completeness::Failed,
        Delivery::Nothing,
        Artifacts {
            take_id: Some("keep-me".to_owned()),
            audio: true,
            text: false,
        },
    );
    outcome.message = "Transcription failed.".to_owned();
    describe_artifacts(&mut outcome);
    assert_eq!(
        outcome.message,
        "Transcription failed. Saved audio is available."
    );
    let before = outcome.message.clone();
    storage_warning(&mut outcome, false);
    remove_runtime(&mut outcome, true);
    assert_eq!(outcome.message, before);
    let mut kept = outcome.clone();
    remove_runtime(&mut kept, false);
    storage_warning(&mut outcome, true);
    assert_ne!(outcome.message, before);
    assert_eq!(kept.message, outcome.message);
}

#[test]
fn a_save_confirms_what_is_durable() {
    let saved = persist_attempt(
        "keep-me",
        &SaveResult::Written {
            take: take("keep-me", true, true),
        },
        Some("words"),
        true,
        false,
    );
    assert!(saved.durable_audio && saved.durable_text);
    assert!(!saved.warning);
    let broken = persist_attempt(
        "keep-me",
        &SaveResult::Broken {
            mismatch: true,
            present: Some(take("keep-me", true, false)),
            confirmed: None,
            stored: None,
            audio: Some(AudioCheck::Mismatch),
        },
        Some("words"),
        true,
        false,
    );
    assert!(broken.artifacts.audio && broken.audio_conflict && broken.warning);
    assert!(!broken.durable_audio && !broken.durable_text);
}
