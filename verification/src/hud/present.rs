//! The words and the dwell of a finished operation.

use crate::hud::{
    is_persistent, persistent, undelivered, Caption, CaptionView, Kind, ResultView, ShownResult,
    Visibility, NOTICE_HOLD, RESULT_FADE, SETTLE, SUCCESS_HOLD,
};
use crate::ipc::{
    Capabilities, Cleanup, Completeness, Delivery, StatusSnapshot, StatusSnapshotView,
    TerminalOutcome, TerminalOutcomeView,
};
use vstd::prelude::*;
use vstd::string::*;

verus! {

/// Whether the text reached the application by itself.
pub open spec fn is_delivered(delivery: Delivery) -> bool {
    delivery == Delivery::Typed || delivery == Delivery::Pasted
}

/// What a result is shown as: delivered or copied complete text is resolved, what
/// needs a decision asks for attention, the rest is neutral.
pub open spec fn outcome_kind(outcome: TerminalOutcomeView) -> Kind {
    if is_persistent(outcome) {
        Kind::Attention
    } else if outcome.completeness == Completeness::Complete && (is_delivered(outcome.delivery)
        || outcome.delivery == Delivery::Copied) {
        Kind::Resolved
    } else {
        Kind::Neutral
    }
}

/// The title of a result.
pub open spec fn outcome_title(outcome: TerminalOutcomeView, labels: bool) -> Seq<char> {
    let copied = outcome.delivery == Delivery::Copied;
    if outcome.cleanup == Cleanup::Failed && copied {
        "Original text copied. Cleanup unavailable."@
    } else if outcome.cleanup == Cleanup::Failed && is_delivered(outcome.delivery) {
        "Original text sent. Cleanup unavailable."@
    } else {
        match outcome.completeness {
            Completeness::Cancelled => "Cancelled"@,
            Completeness::Empty => if outcome.artifacts.audio {
                "No transcript produced. Audio saved."@
            } else {
                "No speech found"@
            },
            Completeness::Partial => if copied {
                "Partial text copied."@
            } else if outcome.artifacts.text {
                "Partial transcript saved."@
            } else {
                "Partial transcription"@
            },
            Completeness::Failed => outcome.message,
            Completeness::Complete => match outcome.delivery {
                Delivery::Uncertain => "Delivery uncertain. Check the app."@,
                Delivery::Deferred => "Delivery paused. Text was not inserted."@,
                Delivery::Failed => "Delivery failed."@,
                Delivery::Cancelled => "Cancelled"@,
                Delivery::Copied | Delivery::Nothing => outcome.message,
                Delivery::Typed | Delivery::Pasted => if labels {
                    "Sent"@
                } else {
                    Seq::empty()
                },
            },
        }
    }
}

/// What is said about saved recordings.
pub open spec fn outcome_detail(outcome: TerminalOutcomeView) -> Seq<char> {
    let artifacts = outcome.artifacts;
    if outcome.completeness == Completeness::Partial || outcome.completeness
        == Completeness::Failed || undelivered(outcome.delivery) {
        if artifacts.audio && artifacts.text {
            "Audio and text saved."@
        } else if artifacts.audio {
            "Audio saved."@
        } else if artifacts.text {
            "Text saved. No saved audio is available."@
        } else {
            "No saved audio or text is available."@
        }
    } else if outcome.completeness == Completeness::Cancelled && artifacts.audio {
        "Audio saved."@
    } else {
        Seq::empty()
    }
}

/// The menu entry that helps. It names an artifact of this take that exists and
/// that the daemon can act on; it never retargets another take.
pub open spec fn outcome_route(
    outcome: TerminalOutcomeView,
    capabilities: Capabilities,
) -> Seq<char> {
    let complete = outcome.completeness == Completeness::Complete;
    let named = outcome.artifacts.take_id is Some;
    let audio = named && outcome.artifacts.audio;
    let text = named && outcome.artifacts.text;
    if is_delivered(outcome.delivery) || (outcome.delivery == Delivery::Copied && complete) {
        Seq::empty()
    } else if text && capabilities.copy && complete {
        "Cantrip actions → Copy this transcript"@
    } else if audio && capabilities.recover && capabilities.local_model {
        "Cantrip actions → Recover locally to clipboard"@
    } else if audio && capabilities.recover && capabilities.remote_configured {
        "Cantrip actions → Recover with configured provider to clipboard"@
    } else if audio && !capabilities.local_model {
        "Cantrip actions → Install local model"@
    } else if text && capabilities.copy {
        "Cantrip actions → Copy this transcript"@
    } else if is_persistent(outcome) {
        "Cantrip actions → Check setup"@
    } else {
        Seq::empty()
    }
}

/// The menu entry, followed by the way to dismiss an outcome that stays.
pub open spec fn outcome_action(
    outcome: TerminalOutcomeView,
    capabilities: Capabilities,
) -> Seq<char> {
    let route = outcome_route(outcome, capabilities);
    if is_persistent(outcome) && capabilities.dismiss {
        (if route.len() == 0 {
            route
        } else {
            route.push('\n')
        }) + "Dismiss outcome keeps saved recordings."@
    } else {
        route
    }
}

/// How long a result that needs no decision stays.
pub open spec fn outcome_dwell(outcome: TerminalOutcomeView, reduced_motion: bool) -> u64 {
    if outcome_kind(outcome) == Kind::Resolved && is_delivered(outcome.delivery)
        && outcome.cleanup != Cleanup::Failed {
        if reduced_motion {
            SUCCESS_HOLD
        } else {
            (SETTLE + SUCCESS_HOLD + RESULT_FADE) as u64
        }
    } else {
        NOTICE_HOLD
    }
}

/// A finished operation as it is shown from `now` on.
pub open spec fn presented(
    outcome: TerminalOutcomeView,
    status: StatusSnapshotView,
    now: u64,
    reduced_motion: bool,
) -> ShownResult {
    ShownResult {
        event_id: Some(outcome.event_id),
        kind: outcome_kind(outcome),
        caption: CaptionView {
            title: outcome_title(outcome, status.hud.labels),
            detail: outcome_detail(outcome),
            action: outcome_action(outcome, status.capabilities),
        },
        visibility: if is_persistent(outcome) {
            Visibility::Persistent
        } else {
            Visibility::Until((now + outcome_dwell(outcome, reduced_motion)) as u64)
        },
    }
}

/// Words, kind and dwell of a finished operation.
pub fn present_outcome(
    outcome: &TerminalOutcome,
    status: &StatusSnapshot,
    now: u64,
    reduced_motion: bool,
) -> (result: ResultView)
    requires
        now + NOTICE_HOLD <= u64::MAX,
    ensures
        result@ == presented(outcome@, status@, now, reduced_motion),
{
    let attention = persistent(outcome);
    let delivered = matches!(outcome.delivery, Delivery::Typed | Delivery::Pasted);
    let copied = outcome.delivery == Delivery::Copied;
    let mut caption: Caption = Caption::default();
    let mut kind: Kind = if attention {
        Kind::Attention
    } else {
        Kind::Neutral
    };
    match outcome.completeness {
        Completeness::Cancelled => {
            caption.title = "Cancelled".to_owned();
            if outcome.artifacts.audio {
                caption.detail = "Audio saved.".to_owned();
            }
        },
        Completeness::Empty => {
            caption.title = if outcome.artifacts.audio {
                "No transcript produced. Audio saved.".to_owned()
            } else {
                "No speech found".to_owned()
            };
        },
        Completeness::Partial => {
            caption.title = if copied {
                "Partial text copied.".to_owned()
            } else if outcome.artifacts.text {
                "Partial transcript saved.".to_owned()
            } else {
                "Partial transcription".to_owned()
            };
        },
        Completeness::Failed => {
            caption.title = outcome.message.clone();
        },
        Completeness::Complete => match outcome.delivery {
            Delivery::Uncertain => {
                caption.title = "Delivery uncertain. Check the app.".to_owned();
            },
            Delivery::Deferred => {
                caption.title = "Delivery paused. Text was not inserted.".to_owned();
            },
            Delivery::Failed => {
                caption.title = "Delivery failed.".to_owned();
            },
            Delivery::Cancelled => {
                caption.title = "Cancelled".to_owned();
            },
            Delivery::Copied => {
                kind = Kind::Resolved;
                caption.title = outcome.message.clone();
            },
            Delivery::Typed | Delivery::Pasted => {
                kind = Kind::Resolved;
                if status.hud.labels {
                    caption.title = "Sent".to_owned();
                }
            },
            Delivery::Nothing => {
                caption.title = outcome.message.clone();
            },
        },
    }
    if outcome.cleanup == Cleanup::Failed && (delivered || copied) {
        caption.title = if copied {
            "Original text copied. Cleanup unavailable.".to_owned()
        } else {
            "Original text sent. Cleanup unavailable.".to_owned()
        };
    }
    if matches!(outcome.completeness, Completeness::Partial | Completeness::Failed) || matches!(
        outcome.delivery,
        Delivery::Failed | Delivery::Uncertain | Delivery::Deferred
    ) {
        caption.detail = match (outcome.artifacts.audio, outcome.artifacts.text) {
            (true, true) => "Audio and text saved.".to_owned(),
            (true, false) => "Audio saved.".to_owned(),
            (false, true) => "Text saved. No saved audio is available.".to_owned(),
            (false, false) => "No saved audio or text is available.".to_owned(),
        };
    }
    let named = outcome.artifacts.take_id.is_some();
    let audio = named && outcome.artifacts.audio;
    let text = named && outcome.artifacts.text;
    let complete = outcome.completeness == Completeness::Complete;
    if !delivered && !(copied && complete) {
        caption.action = if text && status.capabilities.copy && complete {
            "Cantrip actions → Copy this transcript".to_owned()
        } else if audio && status.capabilities.recover && status.capabilities.local_model {
            "Cantrip actions → Recover locally to clipboard".to_owned()
        } else if audio && status.capabilities.recover && status.capabilities.remote_configured {
            "Cantrip actions → Recover with configured provider to clipboard".to_owned()
        } else if audio && !status.capabilities.local_model {
            "Cantrip actions → Install local model".to_owned()
        } else if text && status.capabilities.copy {
            "Cantrip actions → Copy this transcript".to_owned()
        } else if attention {
            "Cantrip actions → Check setup".to_owned()
        } else {
            String::new()
        };
    }
    assert(caption.action@ == outcome_route(outcome@, status@.capabilities));
    if attention && status.capabilities.dismiss {
        if !caption.action.as_str().is_empty() {
            caption.action.push('\n');
        }
        caption.action.append("Dismiss outcome keeps saved recordings.");
    }
    assert(caption.action@ =~= outcome_action(outcome@, status@.capabilities));
    let dwell: u64 = if kind == Kind::Resolved && delivered && outcome.cleanup != Cleanup::Failed {
        if reduced_motion {
            SUCCESS_HOLD
        } else {
            SETTLE + SUCCESS_HOLD + RESULT_FADE
        }
    } else {
        NOTICE_HOLD
    };
    ResultView {
        event_id: Some(outcome.event_id),
        kind,
        caption,
        visibility: if attention {
            Visibility::Persistent
        } else {
            Visibility::Until(now + dwell)
        },
    }
}

} // verus!
