use cantrip::config::InjectionMode;
use cantrip::daemon::delivery::{
    begin_delivery, continue_delivery, describe_delivery, milliseconds, DeliveryReport,
    DeliveryStep, InjectionFailure, InjectionFailureKind, InjectionOutcome,
};
use cantrip::hud::still::preview_outcome;
use cantrip::ipc::{Completeness, Delivery};

/// Deliver with a backend, which may ask for cancellation while it works.
fn deliver_with(
    mode: InjectionMode,
    partial: bool,
    cancel: &mut bool,
    mut inject: impl FnMut(InjectionMode, &mut bool) -> Result<InjectionOutcome, InjectionFailure>,
) -> DeliveryReport {
    let mut step = begin_delivery(mode, partial, *cancel);
    loop {
        match step {
            DeliveryStep::Done(report) => return report,
            DeliveryStep::Inject(mode) => {
                let result = inject(mode, cancel);
                step = continue_delivery(mode, &result, *cancel, 7);
            }
        }
    }
}

fn failure(kind: InjectionFailureKind, message: &str) -> InjectionFailure {
    InjectionFailure {
        kind,
        message: message.to_owned(),
    }
}

#[test]
fn cancellation_prevents_every_delivery_mode() {
    for mode in [
        InjectionMode::Auto,
        InjectionMode::Type,
        InjectionMode::Paste,
        InjectionMode::Clipboard,
    ] {
        let report = deliver_with(mode, false, &mut true, |_, _| {
            panic!("cancelled work must not reach the delivery boundary");
        });
        assert_eq!(report.delivery, Delivery::Cancelled);
    }
}

#[test]
fn partial_text_never_reaches_keyboard_or_paste_delivery() {
    let mut cancel = false;
    let strict = deliver_with(InjectionMode::Type, true, &mut cancel, |_, _| {
        panic!("strict typing cannot fall back to clipboard");
    });
    assert_eq!(strict.delivery, Delivery::Deferred);
    for requested in [
        InjectionMode::Auto,
        InjectionMode::Paste,
        InjectionMode::Clipboard,
    ] {
        let report = deliver_with(requested, true, &mut cancel, |actual, _| {
            assert_eq!(actual, InjectionMode::Clipboard);
            Ok(InjectionOutcome::Clipboard)
        });
        assert_eq!(report.delivery, Delivery::Copied);
    }
}

#[test]
fn uncertain_delivery_never_starts_a_second_backend() {
    let mut calls = 0;
    let report = deliver_with(InjectionMode::Auto, false, &mut false, |_, _| {
        calls += 1;
        Err(failure(InjectionFailureKind::Uncertain, "not payload"))
    });
    assert_eq!(calls, 1);
    assert_eq!(report.delivery, Delivery::Uncertain);
    assert_eq!(report.error, Some("injection-uncertain"));
}

#[test]
fn focus_deferral_copies_only_when_policy_allows_and_not_after_cancel() {
    let mut cancel = false;
    let mut modes = Vec::new();
    let report = deliver_with(InjectionMode::Paste, false, &mut cancel, |mode, _| {
        modes.push(mode);
        if mode == InjectionMode::Clipboard {
            Ok(InjectionOutcome::Clipboard)
        } else {
            Err(failure(InjectionFailureKind::Deferred, ""))
        }
    });
    assert_eq!(report.delivery, Delivery::Copied);
    assert_eq!(modes, [InjectionMode::Paste, InjectionMode::Clipboard]);
    let mut calls = 0;
    let interrupted = deliver_with(InjectionMode::Auto, false, &mut cancel, |_, cancel| {
        calls += 1;
        *cancel = true;
        Err(failure(InjectionFailureKind::Deferred, ""))
    });
    assert_eq!(calls, 1);
    assert_eq!(interrupted.delivery, Delivery::Cancelled);
}

#[test]
fn completed_delivery_is_not_relabelled_as_cancellation() {
    let mut cancel = false;
    let report = deliver_with(InjectionMode::Type, false, &mut cancel, |_, cancel| {
        *cancel = true;
        Ok(InjectionOutcome::Typed("wayland"))
    });
    assert_eq!(report.delivery, Delivery::Typed);
    assert_eq!(report.backend, Some("typed-wayland"));
    assert_eq!(report.elapsed_ms, Some(7));
}

#[test]
fn typing_is_never_replaced_by_a_copy() {
    let mut modes = Vec::new();
    let report = deliver_with(InjectionMode::Type, false, &mut false, |mode, _| {
        modes.push(mode);
        Err(failure(InjectionFailureKind::Deferred, ""))
    });
    assert_eq!(modes, [InjectionMode::Type]);
    assert_eq!(report.delivery, Delivery::Deferred);
}

#[test]
fn each_failure_has_its_own_report() {
    for (kind, delivery) in [
        (InjectionFailureKind::Cancelled, Delivery::Cancelled),
        (InjectionFailureKind::Deferred, Delivery::Deferred),
        (InjectionFailureKind::Failed, Delivery::Failed),
        (InjectionFailureKind::Uncertain, Delivery::Uncertain),
    ] {
        let report = deliver_with(InjectionMode::Type, false, &mut false, |_, _| {
            Err(failure(kind, "not payload"))
        });
        assert_eq!(report.delivery, delivery);
        assert!(!report.delivered());
    }
    assert!(!DeliveryReport::none().delivered());
}

#[test]
fn a_delivery_is_described() {
    let copied = preview_outcome(Completeness::Complete, Delivery::Copied);
    let pasted = preview_outcome(Completeness::Complete, Delivery::Pasted);
    assert_eq!(
        describe_delivery(&copied, InjectionMode::Clipboard),
        "Copied. Paste when ready."
    );
    assert_eq!(
        describe_delivery(&copied, InjectionMode::Auto),
        "Copied instead. Paste when ready."
    );
    assert_eq!(describe_delivery(&pasted, InjectionMode::Auto), "Pasted.");
}

#[test]
fn long_times_saturate() {
    assert_eq!(milliseconds(5), 5);
    assert_eq!(milliseconds(u128::MAX), u64::MAX);
}
