//! Scripted histories of the display, and seeking in them.

pub mod laws;
pub mod replay;
pub mod scripts;
pub mod story_laws;
pub mod timeline;

use crate::hud::still::ScreenshotState;
use vstd::prelude::*;
use vstd::string::*;

verus! {

/// A scripted sequence of phases.
#[derive(Clone, Copy, Debug, PartialEq, Eq, Structural)]
pub enum Journey {
    Measured,
    Raw,
    Cancellation,
    Interruption,
    Failure,
    Uncertain,
    Deferred,
    Reconnect,
    Restart,
}

/// A journey's name.
pub open spec fn journey_title(journey: Journey) -> Seq<char> {
    match journey {
        Journey::Measured => "Measured dictation"@,
        Journey::Raw => "Single chunk, raw text"@,
        Journey::Cancellation => "Cancel during transcription"@,
        Journey::Interruption => "Next take interrupts success"@,
        Journey::Failure => "Failure and dismissal"@,
        Journey::Uncertain => "Uncertain delivery"@,
        Journey::Deferred => "Deferred delivery"@,
        Journey::Reconnect => "Disconnect and reconnect"@,
        Journey::Restart => "Daemon epoch changes"@,
    }
}

/// What a journey goes through.
pub open spec fn journey_description(journey: Journey) -> Seq<char> {
    match journey {
        Journey::Measured => "Recorded PCM fixture, a speech gap, reported chunk completions, cleanup, delivery, success hold, fade, and idle."@,
        Journey::Raw => "One backend chunk stays indeterminate. Its completion goes directly to delivery without cleanup, then success fades to idle."@,
        Journey::Cancellation => "A cancellation request waits for current work, then a cancelled outcome expires. No backend work runs here."@,
        Journey::Interruption => "A new operation arrives during the success transition. The next take owns the instrument immediately and completes independently."@,
        Journey::Failure => "A failed take remains actionable until its fixture outcome is dismissed. Dismissal does not remove the saved-recording metadata."@,
        Journey::Uncertain => "Delivery cannot be confirmed. The production outcome remains visible until the fixture dismisses it; no retry or insertion is attempted."@,
        Journey::Deferred => "Text was not inserted. Review the persistent recovery guidance and its dismissal without touching any real clipboard or recording."@,
        Journey::Reconnect => "A brief outage is coalesced, a longer one becomes visible, then the same epoch returns idle with the previous take's result unknown."@,
        Journey::Restart => "Recording loses its connection. An idle snapshot from a new epoch clears stale event history and presents the production restart notice."@,
    }
}

impl Journey {
    /// The journey's name.
    pub fn title(self) -> (result: &'static str)
        ensures
            result@ == journey_title(self),
    {
        match self {
            Journey::Measured => "Measured dictation",
            Journey::Raw => "Single chunk, raw text",
            Journey::Cancellation => "Cancel during transcription",
            Journey::Interruption => "Next take interrupts success",
            Journey::Failure => "Failure and dismissal",
            Journey::Uncertain => "Uncertain delivery",
            Journey::Deferred => "Deferred delivery",
            Journey::Reconnect => "Disconnect and reconnect",
            Journey::Restart => "Daemon epoch changes",
        }
    }

    /// What the journey goes through.
    pub fn description(self) -> (result: &'static str)
        ensures
            result@ == journey_description(self),
    {
        match self {
            Journey::Measured => "Recorded PCM fixture, a speech gap, reported chunk completions, cleanup, delivery, success hold, fade, and idle.",
            Journey::Raw => "One backend chunk stays indeterminate. Its completion goes directly to delivery without cleanup, then success fades to idle.",
            Journey::Cancellation => "A cancellation request waits for current work, then a cancelled outcome expires. No backend work runs here.",
            Journey::Interruption => "A new operation arrives during the success transition. The next take owns the instrument immediately and completes independently.",
            Journey::Failure => "A failed take remains actionable until its fixture outcome is dismissed. Dismissal does not remove the saved-recording metadata.",
            Journey::Uncertain => "Delivery cannot be confirmed. The production outcome remains visible until the fixture dismisses it; no retry or insertion is attempted.",
            Journey::Deferred => "Text was not inserted. Review the persistent recovery guidance and its dismissal without touching any real clipboard or recording.",
            Journey::Reconnect => "A brief outage is coalesced, a longer one becomes visible, then the same epoch returns idle with the previous take's result unknown.",
            Journey::Restart => "Recording loses its connection. An idle snapshot from a new epoch clears stale event history and presents the production restart notice.",
        }
    }
}

/// What a catalog entry replays.
#[derive(Clone, Copy, Debug, PartialEq, Eq, Structural)]
pub enum Source {
    Journey(Journey),
    State(ScreenshotState),
}

impl Source {
    /// The entry's name.
    pub open spec fn name(self) -> Seq<char> {
        match self {
            Source::Journey(journey) => journey_title(journey),
            Source::State(state) => state.label(),
        }
    }

    /// What the entry shows.
    pub open spec fn explanation(self) -> Seq<char> {
        match self {
            Source::Journey(journey) => journey_description(journey),
            Source::State(ScreenshotState::Disconnected) | Source::State(ScreenshotState::Reconnected) => "Connection events are replayed, not represented by an idle snapshot alone. The fixture includes the grace interval and recovery notice."@,
            Source::State(ScreenshotState::Dismissed) => "The failed outcome is first presented, then dismissed by a later status event. Seek backward to inspect the undismissed result."@,
            Source::State(ScreenshotState::Interrupted) => journey_description(Journey::Interruption),
            Source::State(ScreenshotState::ReducedMotion)
            | Source::State(ScreenshotState::ReducedMotionCleaning)
            | Source::State(ScreenshotState::ReducedMotionSent) => "This fixture starts with reduced motion enabled. Its full history uses the production reduced-motion transitions and outcome lifetime."@,
            Source::State(ScreenshotState::Idle) => "Idle is a transparent production surface. The preview boundary belongs to the gallery, not to the HUD."@,
            Source::State(_) => "Paused at the named production screenshot fixture. Replay starts earlier and includes its transition history, result lifetime, and return to idle."@,
        }
    }

    /// The entry's name.
    pub fn title(self) -> (result: &'static str)
        ensures
            result@ == self.name(),
    {
        match self {
            Source::Journey(journey) => journey.title(),
            Source::State(state) => state.name(),
        }
    }

    /// What the entry shows.
    pub fn description(self) -> (result: &'static str)
        ensures
            result@ == self.explanation(),
    {
        match self {
            Source::Journey(journey) => journey.description(),
            Source::State(ScreenshotState::Disconnected | ScreenshotState::Reconnected) => "Connection events are replayed, not represented by an idle snapshot alone. The fixture includes the grace interval and recovery notice.",
            Source::State(ScreenshotState::Dismissed) => "The failed outcome is first presented, then dismissed by a later status event. Seek backward to inspect the undismissed result.",
            Source::State(ScreenshotState::Interrupted) => Journey::Interruption.description(),
            Source::State(
                ScreenshotState::ReducedMotion
                | ScreenshotState::ReducedMotionCleaning
                | ScreenshotState::ReducedMotionSent,
            ) => "This fixture starts with reduced motion enabled. Its full history uses the production reduced-motion transitions and outcome lifetime.",
            Source::State(ScreenshotState::Idle) => "Idle is a transparent production surface. The preview boundary belongs to the gallery, not to the HUD.",
            Source::State(_) => "Paused at the named production screenshot fixture. Replay starts earlier and includes its transition history, result lifetime, and return to idle.",
        }
    }

    /// Whether the entry starts with reduced motion.
    pub fn reduced_motion(self) -> (result: bool)
        ensures
            result == (self == Source::State(ScreenshotState::ReducedMotion) || self
                == Source::State(ScreenshotState::ReducedMotionCleaning) || self
                == Source::State(ScreenshotState::ReducedMotionSent)),
    {
        matches!(
            self,
            Source::State(
                ScreenshotState::ReducedMotion
                    | ScreenshotState::ReducedMotionCleaning
                    | ScreenshotState::ReducedMotionSent
            )
        )
    }
}

/// The journeys, then every still, in the order of the catalog.
pub open spec fn catalog_sources() -> Seq<Source> {
    seq![
        Source::Journey(Journey::Measured),
        Source::Journey(Journey::Raw),
        Source::Journey(Journey::Cancellation),
        Source::Journey(Journey::Interruption),
        Source::Journey(Journey::Failure),
        Source::Journey(Journey::Uncertain),
        Source::Journey(Journey::Deferred),
        Source::Journey(Journey::Reconnect),
        Source::Journey(Journey::Restart),
        Source::State(ScreenshotState::Idle),
        Source::State(ScreenshotState::Recording),
        Source::State(ScreenshotState::LongRecording),
        Source::State(ScreenshotState::Starting),
        Source::State(ScreenshotState::MonitoringUnavailable),
        Source::State(ScreenshotState::NoSignal),
        Source::State(ScreenshotState::Working),
        Source::State(ScreenshotState::Transcribing),
        Source::State(ScreenshotState::ProgressZero),
        Source::State(ScreenshotState::Progress),
        Source::State(ScreenshotState::ProgressComplete),
        Source::State(ScreenshotState::FinalizingAudio),
        Source::State(ScreenshotState::RemovingRecording),
        Source::State(ScreenshotState::Cleaning),
        Source::State(ScreenshotState::Delivering),
        Source::State(ScreenshotState::Cancelling),
        Source::State(ScreenshotState::Sent),
        Source::State(ScreenshotState::SentSettling),
        Source::State(ScreenshotState::Copied),
        Source::State(ScreenshotState::CopiedInstead),
        Source::State(ScreenshotState::CleanupFallback),
        Source::State(ScreenshotState::Empty),
        Source::State(ScreenshotState::EmptySaved),
        Source::State(ScreenshotState::Failed),
        Source::State(ScreenshotState::StorageFailed),
        Source::State(ScreenshotState::Partial),
        Source::State(ScreenshotState::PartialSaved),
        Source::State(ScreenshotState::DeliveryFailed),
        Source::State(ScreenshotState::DeliveryUncertain),
        Source::State(ScreenshotState::Deferred),
        Source::State(ScreenshotState::Cancelled),
        Source::State(ScreenshotState::Disconnected),
        Source::State(ScreenshotState::Reconnected),
        Source::State(ScreenshotState::SetupMissing),
        Source::State(ScreenshotState::Busy),
        Source::State(ScreenshotState::Recovery),
        Source::State(ScreenshotState::ReducedMotion),
        Source::State(ScreenshotState::ReducedMotionCleaning),
        Source::State(ScreenshotState::ReducedMotionSent),
        Source::State(ScreenshotState::Settling),
        Source::State(ScreenshotState::Interrupted),
        Source::State(ScreenshotState::Dismissed),
    ]
}

/// The journeys, then every still, in the order of the catalog.
pub fn catalog() -> (result: Vec<Source>)
    ensures
        result@ == catalog_sources(),
{
    let result: Vec<Source> = vec![
        Source::Journey(Journey::Measured),
        Source::Journey(Journey::Raw),
        Source::Journey(Journey::Cancellation),
        Source::Journey(Journey::Interruption),
        Source::Journey(Journey::Failure),
        Source::Journey(Journey::Uncertain),
        Source::Journey(Journey::Deferred),
        Source::Journey(Journey::Reconnect),
        Source::Journey(Journey::Restart),
        Source::State(ScreenshotState::Idle),
        Source::State(ScreenshotState::Recording),
        Source::State(ScreenshotState::LongRecording),
        Source::State(ScreenshotState::Starting),
        Source::State(ScreenshotState::MonitoringUnavailable),
        Source::State(ScreenshotState::NoSignal),
        Source::State(ScreenshotState::Working),
        Source::State(ScreenshotState::Transcribing),
        Source::State(ScreenshotState::ProgressZero),
        Source::State(ScreenshotState::Progress),
        Source::State(ScreenshotState::ProgressComplete),
        Source::State(ScreenshotState::FinalizingAudio),
        Source::State(ScreenshotState::RemovingRecording),
        Source::State(ScreenshotState::Cleaning),
        Source::State(ScreenshotState::Delivering),
        Source::State(ScreenshotState::Cancelling),
        Source::State(ScreenshotState::Sent),
        Source::State(ScreenshotState::SentSettling),
        Source::State(ScreenshotState::Copied),
        Source::State(ScreenshotState::CopiedInstead),
        Source::State(ScreenshotState::CleanupFallback),
        Source::State(ScreenshotState::Empty),
        Source::State(ScreenshotState::EmptySaved),
        Source::State(ScreenshotState::Failed),
        Source::State(ScreenshotState::StorageFailed),
        Source::State(ScreenshotState::Partial),
        Source::State(ScreenshotState::PartialSaved),
        Source::State(ScreenshotState::DeliveryFailed),
        Source::State(ScreenshotState::DeliveryUncertain),
        Source::State(ScreenshotState::Deferred),
        Source::State(ScreenshotState::Cancelled),
        Source::State(ScreenshotState::Disconnected),
        Source::State(ScreenshotState::Reconnected),
        Source::State(ScreenshotState::SetupMissing),
        Source::State(ScreenshotState::Busy),
        Source::State(ScreenshotState::Recovery),
        Source::State(ScreenshotState::ReducedMotion),
        Source::State(ScreenshotState::ReducedMotionCleaning),
        Source::State(ScreenshotState::ReducedMotionSent),
        Source::State(ScreenshotState::Settling),
        Source::State(ScreenshotState::Interrupted),
        Source::State(ScreenshotState::Dismissed),
    ];
    assert(result@ =~= catalog_sources());
    result
}

} // verus!
