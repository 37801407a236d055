//! How text is delivered: which mode is tried, when a second one is, and what is
//! reported.

use crate::config::InjectionMode;
use crate::ipc::{Completeness, Delivery, TerminalOutcome};
use vstd::prelude::*;
use vstd::string::*;

verus! {

/// How text reached the application.
#[derive(Clone, Copy, Debug, PartialEq, Eq)]
pub enum InjectionOutcome {
    /// By keys, through the named backend.
    Typed(&'static str),
    /// By the clipboard and a paste key.
    Pasted,
    /// On the clipboard only.
    Clipboard,
}

/// Why text did not provably reach the application.
#[derive(Clone, Copy, Debug, PartialEq, Eq, Structural)]
pub enum InjectionFailureKind {
    /// It was cancelled before anything was sent.
    Cancelled,
    /// The destination could not be verified; no keys were initiated.
    Deferred,
    /// It failed before anything was sent.
    Failed,
    /// Something may have been sent.
    Uncertain,
}

/// A delivery that failed.
#[derive(Debug, PartialEq, Eq)]
pub struct InjectionFailure {
    pub kind: InjectionFailureKind,
    pub message: String,
}

/// The result of a delivery without a permit: nothing is sent to a destination that
/// nobody verified.
pub fn unknown_destination() -> (result: Result<InjectionOutcome, InjectionFailure>)
    ensures
        result is Err,
        result->Err_0.kind == InjectionFailureKind::Deferred,
        result->Err_0.message@ == "The intended destination is unknown."@,
{
    Err(
        InjectionFailure {
            kind: InjectionFailureKind::Deferred,
            message: "The intended destination is unknown.".to_owned(),
        },
    )
}

/// What a delivery came to.
#[derive(Clone, Copy, Debug, PartialEq, Eq)]
pub struct DeliveryReport {
    pub delivery: Delivery,
    pub error: Option<&'static str>,
    pub elapsed_ms: Option<u64>,
    pub backend: Option<&'static str>,
}

/// What a [`DeliveryReport`] holds.
pub struct DeliveryReportView {
    pub delivery: Delivery,
    pub error: Option<Seq<char>>,
    pub elapsed_ms: Option<u64>,
    pub backend: Option<Seq<char>>,
}

impl View for DeliveryReport {
    type V = DeliveryReportView;

    open spec fn view(&self) -> DeliveryReportView {
        DeliveryReportView {
            delivery: self.delivery,
            error: match self.error {
                Some(error) => Some(error@),
                None => None,
            },
            elapsed_ms: self.elapsed_ms,
            backend: match self.backend {
                Some(backend) => Some(backend@),
                None => None,
            },
        }
    }
}

/// A report of nothing.
pub open spec fn no_report() -> DeliveryReportView {
    DeliveryReportView {
        delivery: Delivery::Nothing,
        error: None,
        elapsed_ms: None,
        backend: None,
    }
}

/// Whether text is where the user can use it.
pub open spec fn reached_user(delivery: Delivery) -> bool {
    delivery == Delivery::Typed || delivery == Delivery::Pasted || delivery == Delivery::Copied
}

impl DeliveryReport {
    /// A report of nothing.
    pub fn none() -> (result: Self)
        ensures
            result@ == no_report(),
    {
        DeliveryReport {
            delivery: Delivery::Nothing,
            error: None,
            elapsed_ms: None,
            backend: None,
        }
    }

    /// Whether text is where the user can use it.
    pub fn delivered(&self) -> (result: bool)
        ensures
            result == reached_user(self.delivery),
    {
        matches!(self.delivery, Delivery::Typed | Delivery::Pasted | Delivery::Copied)
    }
}

/// A time in milliseconds; one that does not fit counts as the last one that does.
pub fn milliseconds(ms: u128) -> (result: u64)
    ensures
        result == if ms <= u64::MAX {
            ms as u64
        } else {
            u64::MAX
        },
{
    if ms <= u64::MAX as u128 {
        ms as u64
    } else {
        u64::MAX
    }
}

/// Where a delivery stands.
#[derive(Clone, Copy, Debug, PartialEq, Eq)]
pub enum DeliveryStep {
    /// Try a mode.
    Inject(InjectionMode),
    /// It is over.
    Done(DeliveryReport),
}

/// What a [`DeliveryStep`] holds.
pub enum DeliveryStepView {
    Inject(InjectionMode),
    Done(DeliveryReportView),
}

impl View for DeliveryStep {
    type V = DeliveryStepView;

    open spec fn view(&self) -> DeliveryStepView {
        match *self {
            DeliveryStep::Inject(mode) => DeliveryStepView::Inject(mode),
            DeliveryStep::Done(report) => DeliveryStepView::Done(report@),
        }
    }
}

/// The first step: cancelled work is not delivered, and partial text is never put
/// into a document, only on the clipboard.
pub open spec fn first_step(
    requested: InjectionMode,
    partial: bool,
    cancelled: bool,
) -> DeliveryStepView {
    if cancelled {
        DeliveryStepView::Done(
            DeliveryReportView { delivery: Delivery::Cancelled, ..no_report() },
        )
    } else if partial && requested == InjectionMode::Type {
        DeliveryStepView::Done(
            DeliveryReportView {
                delivery: Delivery::Deferred,
                error: Some("stt-partial"@),
                ..no_report()
            },
        )
    } else if partial {
        DeliveryStepView::Inject(InjectionMode::Clipboard)
    } else {
        DeliveryStepView::Inject(requested)
    }
}

/// Whether the clipboard is tried after a mode: only where the destination could not
/// be verified, the mode may fall back, and nothing was cancelled.
pub open spec fn falls_back(
    mode: InjectionMode,
    result: Result<InjectionOutcome, InjectionFailure>,
    cancelled: bool,
) -> bool {
    &&& result is Err
    &&& result->Err_0.kind == InjectionFailureKind::Deferred
    &&& mode == InjectionMode::Auto || mode == InjectionMode::Paste
    &&& !cancelled
}

/// The report on a last result. A cancellation is reported only where nothing was
/// sent: what was delivered, or may have been, keeps its name.
pub open spec fn reported(
    result: Result<InjectionOutcome, InjectionFailure>,
    cancelled: bool,
    elapsed_ms: u64,
) -> DeliveryReportView {
    let (delivery, backend, error) = match result {
        Ok(InjectionOutcome::Typed(_)) => (Delivery::Typed, Some("typed-wayland"@), None),
        Ok(InjectionOutcome::Pasted) => (Delivery::Pasted, Some("pasted"@), None),
        Ok(InjectionOutcome::Clipboard) => (Delivery::Copied, Some("clipboard"@), None),
        Err(failure) => match failure.kind {
            InjectionFailureKind::Cancelled => (Delivery::Cancelled, None, None),
            InjectionFailureKind::Deferred => if cancelled {
                (Delivery::Cancelled, None, None)
            } else {
                (Delivery::Deferred, None, Some("injection-deferred"@))
            },
            InjectionFailureKind::Failed => if cancelled {
                (Delivery::Cancelled, None, None)
            } else {
                (Delivery::Failed, None, Some("injection-failed"@))
            },
            InjectionFailureKind::Uncertain => (
                Delivery::Uncertain,
                None,
                Some("injection-uncertain"@),
            ),
        },
    };
    DeliveryReportView { delivery, error, elapsed_ms: Some(elapsed_ms), backend }
}

/// The step after a result.
pub open spec fn next_step(
    mode: InjectionMode,
    result: Result<InjectionOutcome, InjectionFailure>,
    cancelled: bool,
    elapsed_ms: u64,
) -> DeliveryStepView {
    if falls_back(mode, result, cancelled) {
        DeliveryStepView::Inject(InjectionMode::Clipboard)
    } else {
        DeliveryStepView::Done(reported(result, cancelled, elapsed_ms))
    }
}

/// Begin a delivery.
pub fn begin_delivery(requested: InjectionMode, partial: bool, cancelled: bool) -> (result:
    DeliveryStep)
    ensures
        result@ == first_step(requested, partial, cancelled),
{
    if cancelled {
        return DeliveryStep::Done(
            DeliveryReport {
                delivery: Delivery::Cancelled,
                error: None,
                elapsed_ms: None,
                backend: None,
            },
        );
    }
    if partial && requested == InjectionMode::Type {
        return DeliveryStep::Done(
            DeliveryReport {
                delivery: Delivery::Deferred,
                error: Some("stt-partial"),
                elapsed_ms: None,
                backend: None,
            },
        );
    }
    if partial {
        DeliveryStep::Inject(InjectionMode::Clipboard)
    } else {
        DeliveryStep::Inject(requested)
    }
}

/// Go on with a delivery after a mode was tried.
pub fn continue_delivery(
    mode: InjectionMode,
    result: &Result<InjectionOutcome, InjectionFailure>,
    cancelled: bool,
    elapsed_ms: u64,
) -> (step: DeliveryStep)
    ensures
        step@ == next_step(mode, *result, cancelled, elapsed_ms),
{
    let deferred = match result {
        Err(failure) => failure.kind == InjectionFailureKind::Deferred,
        Ok(_) => false,
    };
    if deferred && matches!(mode, InjectionMode::Auto | InjectionMode::Paste) && !cancelled {
        // A deferral guarantees that no keys were initiated.
        return DeliveryStep::Inject(InjectionMode::Clipboard);
    }
    let (delivery, backend, error): (Delivery, Option<&'static str>, Option<&'static str>) =
        match result {
        Ok(InjectionOutcome::Typed(_)) => (Delivery::Typed, Some("typed-wayland"), None),
        Ok(InjectionOutcome::Pasted) => (Delivery::Pasted, Some("pasted"), None),
        Ok(InjectionOutcome::Clipboard) => (Delivery::Copied, Some("clipboard"), None),
        Err(failure) => match failure.kind {
            InjectionFailureKind::Cancelled => (Delivery::Cancelled, None, None),
            InjectionFailureKind::Deferred => {
                if cancelled {
                    (Delivery::Cancelled, None, None)
                } else {
                    (Delivery::Deferred, None, Some("injection-deferred"))
                }
            },
            InjectionFailureKind::Failed => {
                if cancelled {
                    (Delivery::Cancelled, None, None)
                } else {
                    (Delivery::Failed, None, Some("injection-failed"))
                }
            },
            InjectionFailureKind::Uncertain => (
                Delivery::Uncertain,
                None,
                Some("injection-uncertain"),
            ),
        },
    };
    DeliveryStep::Done(DeliveryReport { delivery, error, elapsed_ms: Some(elapsed_ms), backend })
}

/// What is told of a delivery.
pub open spec fn delivery_words(
    completeness: Completeness,
    delivery: Delivery,
    requested: InjectionMode,
) -> Seq<char> {
    match completeness {
        Completeness::Cancelled => "Cancelled."@,
        Completeness::Empty => "No text returned."@,
        Completeness::Failed => "Transcription failed."@,
        Completeness::Partial => match delivery {
            Delivery::Copied => "Partial text copied. Review before pasting."@,
            Delivery::Uncertain => "Partial text copy is uncertain."@,
            _ => "Partial text was not delivered."@,
        },
        Completeness::Complete => match delivery {
            Delivery::Typed => "Typed."@,
            Delivery::Pasted => "Pasted."@,
            Delivery::Copied => if requested == InjectionMode::Clipboard {
                "Copied. Paste when ready."@
            } else {
                "Copied instead. Paste when ready."@
            },
            Delivery::Uncertain => "Delivery is uncertain; check the destination before trying again."@,
            Delivery::Deferred => "Not delivered to the changed or unverified destination."@,
            Delivery::Failed => "Delivery failed."@,
            _ => "No text delivered."@,
        },
    }
}

/// Tell of a delivery.
pub fn describe_delivery(outcome: &TerminalOutcome, requested: InjectionMode) -> (result: String)
    ensures
        result@ == delivery_words(outcome.completeness, outcome.delivery, requested),
{
    match (outcome.completeness, outcome.delivery) {
        (Completeness::Cancelled, _) => "Cancelled.".to_owned(),
        (Completeness::Empty, _) => "No text returned.".to_owned(),
        (Completeness::Failed, _) => "Transcription failed.".to_owned(),
        (Completeness::Partial, Delivery::Copied) => {
            "Partial text copied. Review before pasting.".to_owned()
        },
        (Completeness::Partial, Delivery::Uncertain) => {
            "Partial text copy is uncertain.".to_owned()
        },
        (Completeness::Partial, _) => "Partial text was not delivered.".to_owned(),
        (_, Delivery::Typed) => "Typed.".to_owned(),
        (_, Delivery::Pasted) => "Pasted.".to_owned(),
        (_, Delivery::Copied) => {
            if requested == InjectionMode::Clipboard {
                "Copied. Paste when ready.".to_owned()
            } else {
                "Copied instead. Paste when ready.".to_owned()
            }
        },
        (_, Delivery::Uncertain) => {
            "Delivery is uncertain; check the destination before trying again.".to_owned()
        },
        (_, Delivery::Deferred) => {
            "Not delivered to the changed or unverified destination.".to_owned()
        },
        (_, Delivery::Failed) => "Delivery failed.".to_owned(),
        _ => "No text delivered.".to_owned(),
    }
}

/// Cancelled work never reaches a destination.
pub proof fn cancelled_work_is_not_delivered(requested: InjectionMode, partial: bool)
    ensures
        first_step(requested, partial, true) == DeliveryStepView::Done(
            DeliveryReportView { delivery: Delivery::Cancelled, ..no_report() },
        ),
{
}

/// Partial text is never typed or pasted, whatever is asked for and whatever comes
/// back.
pub proof fn partial_text_is_only_copied(
    requested: InjectionMode,
    cancelled: bool,
    result: Result<InjectionOutcome, InjectionFailure>,
    later_cancelled: bool,
    elapsed_ms: u64,
)
    ensures
        match first_step(requested, true, cancelled) {
            DeliveryStepView::Inject(mode) => mode == InjectionMode::Clipboard && !(next_step(
                mode,
                result,
                later_cancelled,
                elapsed_ms,
            ) is Inject),
            DeliveryStepView::Done(report) => !reached_user(report.delivery),
        },
{
}

/// What may have been sent is never sent again, and keeps its name.
pub proof fn uncertain_delivery_is_final(
    mode: InjectionMode,
    failure: InjectionFailure,
    cancelled: bool,
    elapsed_ms: u64,
)
    requires
        failure.kind == InjectionFailureKind::Uncertain,
    ensures
        next_step(mode, Err(failure), cancelled, elapsed_ms) is Done,
        next_step(mode, Err(failure), cancelled, elapsed_ms)->Done_0.delivery
            == Delivery::Uncertain,
{
}

/// A delivery that happened is not relabelled as a cancellation.
pub proof fn completed_delivery_keeps_its_name(
    mode: InjectionMode,
    outcome: InjectionOutcome,
    cancelled: bool,
    elapsed_ms: u64,
)
    ensures
        next_step(mode, Ok(outcome), cancelled, elapsed_ms) is Done,
        reached_user(next_step(mode, Ok(outcome), cancelled, elapsed_ms)->Done_0.delivery),
{
}

/// There are at most two attempts, and the second one is a copy.
pub proof fn second_attempt_is_the_last(
    mode: InjectionMode,
    first: Result<InjectionOutcome, InjectionFailure>,
    second: Result<InjectionOutcome, InjectionFailure>,
    cancelled: bool,
    later_cancelled: bool,
    elapsed_ms: u64,
)
    ensures
        match next_step(mode, first, cancelled, elapsed_ms) {
            DeliveryStepView::Inject(next) => next == InjectionMode::Clipboard && next_step(
                next,
                second,
                later_cancelled,
                elapsed_ms,
            ) is Done,
            DeliveryStepView::Done(_) => true,
        },
{
}

/// Strict typing never falls back to the clipboard.
pub proof fn typing_never_falls_back(
    result: Result<InjectionOutcome, InjectionFailure>,
    cancelled: bool,
    elapsed_ms: u64,
)
    ensures
        next_step(InjectionMode::Type, result, cancelled, elapsed_ms) is Done,
{
}

} // verus!
