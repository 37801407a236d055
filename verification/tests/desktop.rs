use cantrip::desktop::events::{
    invalidates_focus, owner_change_ends, signal_invalidates, Drain, DrainStep, PropertiesRead,
    StreamRead, PENDING_LIMIT, READ_ROUNDS,
};
use cantrip::desktop::parse::{
    check_config_errors, check_direct_desktop, check_session, check_unlocked, compositor_session_id,
    delivery_nonce, judge_desktop, judge_diagnostics, judge_lock, nonce_command, nonce_event,
    parse_controller, parse_focus, trusted_entry, valid_instance, wayland_socket, SessionFacts,
    SocketError, SocketFacts, SocketPlace,
};
use cantrip::desktop::{
    answer_request, clock_ns, reconnect_delay, suspend_offset, Guard, History, SafetyError, Sample,
    Stamp, OBSERVER_GAP, RECONNECT_DELAY, RECONNECT_LIMIT,
};
use cantrip::json::Json;

const NOW: u64 = 5_000_000_000;
const SUSPENDED: u64 = 77;

#[test]
fn blank_diagnostic_entries_are_not_errors_but_real_diagnostics_still_block() {
    for (reply, allowed) in [
        (br#"["", "  \n"]"#.as_slice(), true),
        (
            br#"["", "invalid desktop configuration"]"#.as_slice(),
            false,
        ),
    ] {
        assert_eq!(check_config_errors(reply).is_ok(), allowed);
    }
}

#[test]
fn controller_authority_requires_one_complete_unique_bus_name() {
    assert_eq!(
        parse_controller(b"UID=1000\nCONTROLLER=:1.27\nACTIVE=1\n").unwrap(),
        ":1.27"
    );
    for record in [
        b"UID=1000\n".as_slice(),
        b"CONTROLLER=org.freedesktop.login1\n",
        b"CONTROLLER=:1.27\nCONTROLLER=:1.28\n",
        b"CONTROLLER=:1.27",
        b"CONTROLLER=:\n",
        b"CONTROLLER=:1..27\n",
        b"CONTROLLER=:1.27/other\n",
    ] {
        assert!(parse_controller(record).is_err());
    }
}

#[test]
fn focus_identity_rejects_unknown_layers_and_reused_window_addresses() {
    let first = parse_focus(b"focus|0x42|100|123").unwrap();
    let reused = parse_focus(b"focus|0x42|101|123").unwrap();
    assert_ne!(first, reused);
    for reply in [
        b"layer".as_slice(),
        b"none",
        b"cantrip",
        b"unknown",
        b"ok",
        b"focus|0x0|1|2",
        b"focus|0x42|1|0",
        b"focus|0x42|1|2|extra",
    ] {
        assert!(parse_focus(reply).is_err());
    }
}

#[test]
fn each_focus_reply_has_its_own_reason() {
    assert_eq!(parse_focus(b"layer"), Err(SafetyError::LayerOpen));
    assert_eq!(parse_focus(b"none"), Err(SafetyError::NoDestination));
    assert_eq!(parse_focus(b"cantrip"), Err(SafetyError::OwnWindow));
    assert_eq!(parse_focus(b"ok"), Err(SafetyError::Unknown));
    assert_eq!(parse_focus(&[0xff]), Err(SafetyError::Unknown));
    let focus = parse_focus(b"focus|0x42|100|123").unwrap();
    assert_eq!((focus.address, focus.stable_id, focus.pid), (0x42, 0x100, 123));
}

#[test]
fn nested_or_unknown_backends_do_not_authorize_automatic_delivery() {
    assert!(check_direct_desktop(br#"{"backend":"drm","configProvider":"lua"}"#).is_ok());
    for status in [
        br#"{"backend":"wayland","configProvider":"lua"}"#.as_slice(),
        br#"{"backend":"error","configProvider":"lua"}"#,
        br#"{"backend":"headless","configProvider":"lua"}"#,
        br#"{"backend":"drm","configProvider":"hyprlang"}"#,
        br#"{}"#,
    ] {
        assert!(check_direct_desktop(status).is_err());
    }
}

fn captured_monitor() -> (Guard, History) {
    let stamp = Ok(Stamp {
        focus: parse_focus(b"focus|0x42|100|123").unwrap(),
        generation: 4,
        suspend_offset: SUSPENDED,
        compositor: 123,
    });
    let guard = Guard {
        observed: true,
        stamp,
    };
    let history = History {
        generation: 4,
        alive: true,
        last_poll: NOW,
        cached: stamp,
        refresh_requested: false,
    };
    (guard, history)
}

/// Read all that a stream brings, and nothing more.
fn drain(
    data: &[u8],
    pending: &mut Vec<u8>,
    history: &mut History,
    awaited: Option<&[u8]>,
) -> DrainStep {
    let mut drain = Drain::new();
    let mut step = drain.step(StreamRead::Data(data.to_vec()), pending, history, awaited);
    while step == DrainStep::Continue {
        step = drain.step(StreamRead::WouldBlock, pending, history, awaited);
    }
    step
}

#[test]
fn lock_and_unlock_history_rejects_the_original_destination_permit() {
    let (guard, mut history) = captured_monitor();
    assert!(guard
        .check_history(&history, Some(NOW), Some(SUSPENDED))
        .is_ok());
    drain(
        b"activewindowv2>>\nactivewindowv2>>42\n",
        &mut Vec::new(),
        &mut history,
        None,
    );
    // Same destination after unlock is not permission to replay old input.
    assert!(guard
        .check_history(&history, Some(NOW), Some(SUSPENDED))
        .is_err());
}

#[test]
fn a_reconnected_monitor_accepts_fresh_captures_but_never_old_permits() {
    let (old, mut history) = captured_monitor();
    assert!(old
        .check_history(&history, Some(NOW), Some(SUSPENDED))
        .is_ok());
    history.invalidate_history();
    assert!(old
        .check_history(&history, Some(NOW), Some(SUSPENDED))
        .is_err());
    assert!(history
        .cached_stamp(true, Some(NOW), Some(SUSPENDED))
        .is_err());
    let mut baseline = old.stamp.unwrap();
    baseline.generation = history.generation;
    history.last_poll = NOW;
    history.alive = true;
    history.cached = Ok(baseline);
    let fresh = Guard {
        observed: true,
        stamp: history.cached_stamp(true, Some(NOW), Some(SUSPENDED)),
    };
    assert!(fresh
        .check_history(&history, Some(NOW), Some(SUSPENDED))
        .is_ok());
    assert!(old
        .check_history(&history, Some(NOW), Some(SUSPENDED))
        .is_err());
}

#[test]
fn cached_capture_defers_immediately_when_a_snapshot_is_being_published() {
    let (_, mut history) = captured_monitor();
    assert!(history
        .cached_stamp(false, Some(NOW), Some(SUSPENDED))
        .is_err());
    assert!(history.refresh_requested);
}

#[test]
fn cached_destinations_reject_stale_generation_suspend_and_observer_gaps() {
    let (guard, mut history) = captured_monitor();
    assert!(history
        .cached_stamp(true, Some(NOW), Some(SUSPENDED))
        .is_ok());
    history.generation += 1;
    assert!(history
        .cached_stamp(true, Some(NOW), Some(SUSPENDED))
        .is_err());

    let mut baseline = guard.stamp.unwrap();
    baseline.generation = history.generation;
    baseline.suspend_offset = SUSPENDED.saturating_add(20_000_000);
    history.cached = Ok(baseline);
    assert!(history
        .cached_stamp(true, Some(NOW), Some(SUSPENDED))
        .is_err());

    baseline.suspend_offset = SUSPENDED;
    history.cached = Ok(baseline);
    history.last_poll = 0;
    assert!(history
        .cached_stamp(true, Some(NOW), Some(SUSPENDED))
        .is_err());

    history.last_poll = NOW;
    history.alive = false;
    assert!(history
        .cached_stamp(true, Some(NOW), Some(SUSPENDED))
        .is_err());
}

#[test]
fn subscription_requires_the_complete_matching_nonce_without_losing_focus_events() {
    let (_, mut history) = captured_monitor();
    let expected = b"custom>>cantrip-delivery-ready:42".as_slice();
    let mut pending = Vec::new();
    assert_eq!(
        drain(
            b"custom>>cantrip-delivery-ready:41\ncustom>>cantrip-delivery-ready:4",
            &mut pending,
            &mut history,
            Some(expected)
        ),
        DrainStep::Done(false)
    );
    assert_eq!(
        drain(
            b"2\nactivewindowv2>>\n",
            &mut pending,
            &mut history,
            Some(expected)
        ),
        DrainStep::Done(true)
    );
    assert_ne!(history.generation, 4);
}

#[test]
fn incomplete_focus_event_is_not_treated_as_unchanged_history() {
    let (_, mut history) = captured_monitor();
    let mut pending = Vec::new();
    drain(b"activewindowv2>", &mut pending, &mut history, None);
    assert_ne!(history.generation, 4);
    drain(b">42\n", &mut pending, &mut history, None);
    assert!(pending.is_empty());
}

#[test]
fn a_stream_that_never_ends_is_given_up() {
    let (_, mut history) = captured_monitor();
    let mut pending = Vec::new();
    let mut drain = Drain::new();
    for _ in 1..READ_ROUNDS {
        assert_eq!(
            drain.step(StreamRead::Interrupted, &mut pending, &mut history, None),
            DrainStep::Continue
        );
    }
    assert_eq!(
        drain.step(StreamRead::Interrupted, &mut pending, &mut history, None),
        DrainStep::Failed
    );
    assert_eq!(
        Drain::new().step(
            StreamRead::Data(vec![b'x'; PENDING_LIMIT + 1]),
            &mut pending,
            &mut history,
            None
        ),
        DrainStep::Failed
    );
    assert_eq!(
        Drain::new().step(StreamRead::Closed, &mut pending, &mut history, None),
        DrainStep::Failed
    );
    assert_eq!(
        Drain::new().step(StreamRead::Failed, &mut pending, &mut history, None),
        DrainStep::Failed
    );
}

#[test]
fn only_focus_events_move_the_history() {
    assert!(invalidates_focus(b"activewindowv2>>42"));
    assert!(invalidates_focus(b"openlayer>>menu"));
    assert!(!invalidates_focus(b"custom>>activewindowv2"));
}

#[test]
fn session_signals_move_the_history() {
    let names = |name: &str| PropertiesRead::Read {
        interface: "org.freedesktop.login1.Session".to_owned(),
        names: vec![name.to_owned()],
    };
    let session = "/org/freedesktop/login1/session/_31";
    assert!(signal_invalidates(
        session,
        "PropertiesChanged",
        session,
        &names("LockedHint")
    ));
    assert!(!signal_invalidates(
        session,
        "PropertiesChanged",
        session,
        &names("IdleHint")
    ));
    assert!(signal_invalidates(
        session,
        "PropertiesChanged",
        session,
        &PropertiesRead::Unreadable
    ));
    assert!(owner_change_ends(Some(":1.27"), Some(":1.27")));
    assert!(!owner_change_ends(Some(":1.28"), Some(":1.27")));
}

#[test]
fn judgements_are_those_of_the_parsed_reply() {
    let mut status = Json::object();
    status.set("backend", Json::text("drm"));
    status.set("configProvider", Json::text("lua"));
    assert_eq!(judge_desktop(Some(status)), Ok(()));
    assert_eq!(judge_desktop(None), Err(SafetyError::Unknown));
    let mut locked = Json::object();
    locked.set("locked", Json::Bool(true));
    assert_eq!(judge_lock(Some(locked)), Err(SafetyError::Locked));
    let mut unlocked = Json::object();
    unlocked.set("locked", Json::Bool(false));
    assert_eq!(judge_lock(Some(unlocked)), Ok(()));
    assert_eq!(check_unlocked(br#"{"locked":true}"#), Err(SafetyError::Locked));
    assert_eq!(check_unlocked(br#"{"locked":false}"#), Ok(()));
    assert_eq!(check_unlocked(b"{"), Err(SafetyError::Unknown));
    assert_eq!(
        judge_diagnostics(Some(Json::Array(vec![Json::text("broken")]))),
        Err(SafetyError::ConfigErrors)
    );
    assert_eq!(
        judge_diagnostics(Some(Json::Array(vec![Json::text(" ")]))),
        Ok(())
    );
}

#[test]
fn a_session_must_be_active_local_and_unlocked() {
    let session = |active: bool, locked: bool| SessionFacts {
        active: Some(active),
        locked: Some(locked),
        remote: Some(false),
        kind: Some("wayland".to_owned()),
        state: Some("active".to_owned()),
    };
    assert_eq!(check_session(&session(true, false), Some(false)), Ok(()));
    assert_eq!(
        check_session(&session(false, false), Some(false)),
        Err(SafetyError::SessionInactive)
    );
    assert!(check_session(&session(true, true), Some(false)).is_err());
    assert_eq!(
        check_session(&session(true, false), Some(true)),
        Err(SafetyError::Sleeping)
    );
    assert!(check_session(&session(true, false), None).is_err());
}

#[test]
fn a_session_id_is_read_from_an_environment() {
    assert_eq!(
        compositor_session_id(b"HOME=/root\0XDG_SESSION_ID=7\0").as_deref(),
        Ok("7")
    );
    assert!(compositor_session_id(b"HOME=/root\0").is_err());
}

#[test]
fn a_subscription_is_told_apart_by_its_nonce() {
    let nonce = delivery_nonce(12, 34, 56);
    assert_ne!(nonce, delivery_nonce(12, 34, 57));
    assert!(nonce_event(&nonce).contains(&nonce));
    assert!(nonce_command(&nonce).contains(&nonce));
}

#[test]
fn instances_and_sockets_are_checked() {
    assert!(valid_instance("abc_123"));
    assert!(!valid_instance(""));
    assert!(!valid_instance("../other"));
    let facts = SocketFacts {
        preopened: false,
        display: true,
        display_absolute: false,
        display_components: 1,
        runtime: true,
        runtime_absolute: true,
    };
    assert_eq!(wayland_socket(facts), Ok(SocketPlace::Runtime));
    assert_eq!(
        wayland_socket(SocketFacts {
            preopened: true,
            ..facts
        }),
        Err(SocketError::Preopened)
    );
    assert_eq!(
        wayland_socket(SocketFacts {
            display: false,
            ..facts
        }),
        Err(SocketError::NoDisplay)
    );
    assert_eq!(
        wayland_socket(SocketFacts {
            runtime: false,
            ..facts
        }),
        Err(SocketError::NoRuntime)
    );
    assert_eq!(
        wayland_socket(SocketFacts {
            display_components: 2,
            ..facts
        }),
        Err(SocketError::InvalidPath)
    );
    assert_eq!(
        wayland_socket(SocketFacts {
            display_absolute: true,
            display_components: 4,
            ..facts
        }),
        Ok(SocketPlace::Display)
    );
    assert!(trusted_entry(true, 0, 0o100755));
    assert!(!trusted_entry(true, 0, 0o100757));
    assert!(!trusted_entry(false, 0, 0o100755));
}

#[test]
fn a_sample_holds_only_if_nothing_moved() {
    let focus = parse_focus(b"focus|0x42|100|123").unwrap();
    let sample = Sample::begin(false, 4, Some(SUSPENDED), 123).unwrap();
    let stamp = sample.finish(focus, false, 4, Some(SUSPENDED)).unwrap();
    assert_eq!(stamp.generation, 4);
    assert!(sample.finish(focus, false, 5, Some(SUSPENDED)).is_err());
    assert!(sample.finish(focus, true, 4, Some(SUSPENDED)).is_err());
    assert!(Sample::begin(true, 4, Some(SUSPENDED), 123).is_err());
    assert!(Sample::begin(false, 4, None, 123).is_err());
    assert_eq!(answer_request(4, Ok(stamp)), Ok(stamp));
    assert_eq!(answer_request(5, Ok(stamp)), Err(SafetyError::Changed));
}

#[test]
fn a_confirmation_needs_the_same_destination() {
    let (guard, history) = captured_monitor();
    let stamp = guard.stamp.unwrap();
    assert_eq!(guard.confirm(Ok(stamp)), Ok(()));
    let mut other = stamp;
    other.focus = parse_focus(b"focus|0x43|100|123").unwrap();
    assert_eq!(guard.confirm(Ok(other)), Err(SafetyError::Changed));
    assert_eq!(guard.compositor(), Ok(123));
    assert_eq!(history.request(), Ok(4));
    let blind = Guard::capture(None, true, Some(NOW), Some(SUSPENDED));
    assert!(blind.stamp.is_err());
}

#[test]
fn an_observer_that_fell_behind_moves_the_history() {
    let (_, mut history) = captured_monitor();
    assert_eq!(history.tick(NOW + 1, SUSPENDED, SUSPENDED), SUSPENDED);
    assert_eq!(history.generation, 4);
    history.tick(NOW + 2 * OBSERVER_GAP + 2, SUSPENDED, SUSPENDED);
    assert_ne!(history.generation, 4);
}

#[test]
fn reconnections_wait_longer_each_time() {
    assert_eq!(
        reconnect_delay(RECONNECT_DELAY, false),
        (RECONNECT_DELAY, 2 * RECONNECT_DELAY)
    );
    assert_eq!(
        reconnect_delay(RECONNECT_LIMIT, false),
        (RECONNECT_LIMIT, RECONNECT_LIMIT)
    );
    assert_eq!(reconnect_delay(RECONNECT_LIMIT, true).0, RECONNECT_DELAY);
}

#[test]
fn the_suspended_time_is_what_the_clocks_differ_by() {
    assert_eq!(clock_ns(2, 5), 2_000_000_005);
    assert_eq!(clock_ns(u64::MAX, 0), u64::MAX);
    assert_eq!(suspend_offset(Some(9), Some(4)), Some(5));
    assert_eq!(suspend_offset(None, Some(4)), None);
}

#[test]
fn every_refusal_has_words() {
    let errors = [
        SafetyError::Unknown,
        SafetyError::Changed,
        SafetyError::Locked,
        SafetyError::Nested,
        SafetyError::NoLayerMetadata,
        SafetyError::ConfigErrors,
        SafetyError::LayerOpen,
        SafetyError::OwnWindow,
        SafetyError::NoDestination,
        SafetyError::SessionInactive,
        SafetyError::Sleeping,
    ];
    for (index, error) in errors.into_iter().enumerate() {
        assert!(!error.message().is_empty());
        for other in &errors[index + 1..] {
            assert_ne!(error.message(), other.message());
        }
    }
}
