//! What the on-screen display shows: the state kept between status polls, the
//! words for each outcome, and the motion plan of the signal track.
//!
//! Instants are nanoseconds of a monotonic clock. Track geometry itself is drawn
//! by the program: the model records, in order, the steps that the track takes.

pub mod display_laws;
pub mod laws;
pub mod layout;
pub mod model;
pub mod preference;
pub mod present;
pub mod still;
pub mod still_laws;
pub mod surface;
pub mod words;

use crate::ipc::{
    optional_text, AudioSignal, AudioWaveform, Completeness, Delivery, StatusSnapshot,
    StatusSnapshotView, TerminalOutcome, TerminalOutcomeView, AUDIO_WAVEFORM_BINS,
};
use crate::text::{push_two_digits, two_digits};
use vstd::prelude::*;
use vstd::string::*;

verus! {

/// Nanoseconds in a second.
pub const SECOND: u64 = 1_000_000_000;

/// Nanoseconds in a millisecond.
pub const MILLISECOND: u64 = 1_000_000;

/// Time between status requests.
pub const POLL_INTERVAL: u64 = 100_000_000;

/// Time between animation frames.
pub const FRAME_INTERVAL: u64 = 16_000_000;

/// Age at which missing input becomes worth a warning.
pub const SIGNAL_GRACE: u64 = 8_000_000_000;

/// How long input must be back before a warning clears.
pub const SIGNAL_RETURN: u64 = 300_000_000;

/// How long a recording may wait for its first measurement.
pub const MONITOR_DELAY: u64 = 5_000_000_000;

/// Outages shorter than this are not shown.
pub const DISCONNECT_DELAY: u64 = 450_000_000;

/// Age at which the last status no longer proves a live daemon.
pub const STATUS_STALE_AFTER: u64 = 2_000_000_000;

/// Time to cover most of a measured change.
pub const WAVEFORM_EASE: u64 = 100_000_000;

/// Time for a phase change to settle.
pub const SETTLE: u64 = 280_000_000;

/// Full-opacity dwell after the completion mark has finished settling.
pub const SUCCESS_HOLD: u64 = 700_000_000;

/// Time for a result to fade away.
pub const RESULT_FADE: u64 = 140_000_000;

/// Dwell of a result that asks for no action.
pub const NOTICE_HOLD: u64 = 4_000_000_000;

/// Dwell of feedback on a request.
pub const INTERACTION_HOLD: u64 = 2_000_000_000;

/// Width of the display's surface.
pub const SURFACE_WIDTH: u32 = 420;

/// Height of the display's surface without any words.
pub const SURFACE_HEIGHT: u32 = 56;

/// Cells of the signal track.
pub const CELLS: usize = AUDIO_WAVEFORM_BINS;

/// What the display's body stands for.
#[derive(Clone, Copy, Debug, PartialEq, Eq, Structural)]
pub enum Kind {
    Recording,
    Working,
    Finishing,
    Resolved,
    Neutral,
    Attention,
}

/// The words under the track.
#[derive(Debug, PartialEq, Eq)]
pub struct Caption {
    pub title: String,
    pub detail: String,
    pub action: String,
}

/// What a [`Caption`] holds.
pub struct CaptionView {
    pub title: Seq<char>,
    pub detail: Seq<char>,
    pub action: Seq<char>,
}

impl View for Caption {
    type V = CaptionView;

    open spec fn view(&self) -> CaptionView {
        CaptionView {
            title: self.title@,
            detail: self.detail@,
            action: self.action@,
        }
    }
}

impl Clone for Caption {
    fn clone(&self) -> (result: Self)
        ensures
            result@ == self@,
    {
        Caption {
            title: self.title.clone(),
            detail: self.detail.clone(),
            action: self.action.clone(),
        }
    }
}

impl Default for Caption {
    fn default() -> (result: Self)
        ensures
            result@ == no_caption(),
    {
        Caption { title: String::new(), detail: String::new(), action: String::new() }
    }
}

/// No words at all.
pub open spec fn no_caption() -> CaptionView {
    CaptionView { title: Seq::empty(), detail: Seq::empty(), action: Seq::empty() }
}

/// A title alone.
pub open spec fn title_caption(title: Seq<char>) -> CaptionView {
    CaptionView { title, detail: Seq::empty(), action: Seq::empty() }
}

impl Caption {
    /// A caption that is a title alone.
    pub fn title(title: String) -> (result: Self)
        ensures
            result@ == title_caption(title@),
    {
        Caption { title, detail: String::new(), action: String::new() }
    }

    /// A caption with all three parts.
    pub fn full(title: &str, detail: &str, action: &str) -> (result: Self)
        ensures
            result@ == (CaptionView { title: title@, detail: detail@, action: action@ }),
    {
        Caption {
            title: title.to_owned(),
            detail: detail.to_owned(),
            action: action.to_owned(),
        }
    }

    /// Whether two captions hold the same words.
    pub fn same(&self, other: &Caption) -> (result: bool)
        ensures
            result == (self@ == other@),
    {
        self.title == other.title && self.detail == other.detail && self.action == other.action
    }
}

/// How long a result stays.
#[derive(Clone, Copy, Debug, PartialEq, Eq, Structural)]
pub enum Visibility {
    Persistent,
    Until(u64),
}

/// Nanoseconds from `then` to `now`; zero where `now` is the earlier one.
pub open spec fn since(now: u64, then: u64) -> int {
    if now >= then {
        now - then
    } else {
        0
    }
}

/// Nanoseconds from `then` to `now`; zero where `now` is the earlier one.
pub fn elapsed_since(now: u64, then: u64) -> (result: u64)
    ensures
        result == since(now, then),
{
    if now >= then {
        now - then
    } else {
        0
    }
}

impl Visibility {
    /// Opacity in units of one nanosecond of the fade; `None` once it is over.
    pub open spec fn opacity(self, now: u64, reduced: bool) -> Option<u64> {
        match self {
            Visibility::Persistent => Some(RESULT_FADE),
            Visibility::Until(until) => if now >= until {
                None
            } else if reduced || until - now >= RESULT_FADE {
                Some(RESULT_FADE)
            } else {
                Some((until - now) as u64)
            },
        }
    }

    /// The opacity at an instant, as a share of [`RESULT_FADE`]; `None` when the
    /// result is no longer shown.
    pub fn alpha(self, now: u64, reduced: bool) -> (result: Option<u64>)
        ensures
            result == self.opacity(now, reduced),
    {
        match self {
            Visibility::Persistent => Some(RESULT_FADE),
            Visibility::Until(until) => {
                if now >= until {
                    None
                } else if reduced || until - now >= RESULT_FADE {
                    Some(RESULT_FADE)
                } else {
                    Some(until - now)
                }
            },
        }
    }
}

/// A finished operation as it is shown.
#[derive(Debug, PartialEq, Eq)]
pub struct ResultView {
    pub event_id: Option<u64>,
    pub kind: Kind,
    pub caption: Caption,
    pub visibility: Visibility,
}

/// What a [`ResultView`] holds.
pub struct ShownResult {
    pub event_id: Option<u64>,
    pub kind: Kind,
    pub caption: CaptionView,
    pub visibility: Visibility,
}

impl View for ResultView {
    type V = ShownResult;

    open spec fn view(&self) -> ShownResult {
        ShownResult {
            event_id: self.event_id,
            kind: self.kind,
            caption: self.caption@,
            visibility: self.visibility,
        }
    }
}

/// Signal absence at the beginning is actionable; silence after real input is
/// usually thinking. An amplitude meter cannot diagnose mute or device failure.
#[derive(Clone, Copy, Debug, PartialEq, Eq, Structural)]
pub struct SignalHistory {
    pub monitored: bool,
    pub heard_input: bool,
    pub warning: bool,
    pub returning_since: Option<u64>,
}

/// A history in which nothing was measured.
pub open spec fn no_signal_history() -> SignalHistory {
    SignalHistory { monitored: false, heard_input: false, warning: false, returning_since: None }
}

impl Default for SignalHistory {
    fn default() -> (result: Self)
        ensures
            result == no_signal_history(),
    {
        SignalHistory {
            monitored: false,
            heard_input: false,
            warning: false,
            returning_since: None,
        }
    }
}

impl SignalHistory {
    /// The history after one more status: a warning starts only before any input
    /// was heard, and clears once input has been back for [`SIGNAL_RETURN`].
    pub open spec fn updated(self, signal: Option<AudioSignal>, age: int, now: u64) -> SignalHistory {
        match signal {
            None => SignalHistory { returning_since: None, ..self },
            Some(signal) => if signal.level == 0 {
                SignalHistory {
                    monitored: true,
                    returning_since: None,
                    warning: self.warning || (!self.heard_input && signal.silent && age
                        >= SIGNAL_GRACE),
                    ..self
                }
            } else if !self.warning {
                SignalHistory { monitored: true, heard_input: true, ..self }
            } else {
                let start = match self.returning_since {
                    Some(start) => start,
                    None => now,
                };
                let returned = since(now, start) >= SIGNAL_RETURN;
                SignalHistory {
                    monitored: true,
                    heard_input: self.heard_input || returned,
                    warning: !returned,
                    returning_since: Some(start),
                }
            },
        }
    }

    /// Take in one status of a recording.
    pub fn update(&mut self, signal: Option<AudioSignal>, age: u128, now: u64)
        ensures
            *final(self) == old(self).updated(signal, age as int, now),
    {
        match signal {
            Some(signal) => {
                self.monitored = true;
                if signal.level > 0 {
                    if self.warning {
                        let start: u64 = match self.returning_since {
                            Some(start) => start,
                            None => now,
                        };
                        self.returning_since = Some(start);
                        if elapsed_since(now, start) >= SIGNAL_RETURN {
                            self.warning = false;
                            self.heard_input = true;
                        }
                    } else {
                        self.heard_input = true;
                    }
                } else {
                    self.returning_since = None;
                    if !self.heard_input && signal.silent && age >= SIGNAL_GRACE as u128 {
                        self.warning = true;
                    }
                }
            },
            None => {
                self.returning_since = None;
            },
        }
    }
}

/// A shape that the track moves toward.
#[derive(Clone, Copy, Debug, PartialEq, Eq)]
pub enum TrackShape {
    /// The measured waveform, or rest where nothing was measured.
    Recording(Option<AudioWaveform>),
    /// Flowing activity of the given age, over a measured share where there is one.
    Activity { kind: Kind, age: u64, progress: Option<(u32, u32)>, reduced: bool },
    /// The completion mark.
    Resolved,
    /// The attention line.
    Attention,
    /// The resting line.
    Quiet,
}

/// Which frame an instant shows.
#[derive(Clone, Copy, Debug, PartialEq, Eq)]
pub enum FramePlan {
    /// The frame shown last: the connection is lost, and nothing may move.
    Presented,
    /// The target itself.
    Still(FrameTarget),
    /// The track's motion toward the target.
    Toward(FrameTarget),
}

/// The end of the track's motion.
#[derive(Clone, Copy, Debug, PartialEq, Eq)]
pub enum FrameTarget {
    /// Where the last step sent the track.
    Destination,
    /// Activity, which moves on by itself.
    Activity { kind: Kind, age: u64, progress: Option<(u32, u32)>, reduced: bool },
}

/// One step of the track.
#[derive(Clone, Copy, Debug, PartialEq, Eq)]
pub enum TrackStep {
    /// Start again from rest.
    Reset { at: u64 },
    /// Move to a shape: from the presented frame on a change of state, else from
    /// the frame of that instant.
    Target { shape: TrackShape, at: u64, duration: u64, state_change: bool, reduced: bool },
    /// Take the track's own frame of an instant as presented.
    PresentTrack { at: u64 },
    /// Take a planned frame of an instant as presented.
    PresentFrame { at: u64, plan: FramePlan },
    /// Date the running motion back.
    Since { at: u64 },
}

/// The display's state between polls.
#[derive(Debug, PartialEq, Eq)]
pub struct Model {
    pub snapshot: Option<StatusSnapshot>,
    pub operation: Option<String>,
    pub phase_since: u64,
    pub signal: SignalHistory,
    pub outcome_event: Option<u64>,
    pub notice_event: Option<u64>,
    pub result: Option<ResultView>,
    pub interaction: Option<(String, u64)>,
    pub lost_since: Option<u64>,
    pub lost_active: bool,
    pub kind: Option<Kind>,
    pub caption: Caption,
    pub activity_since: u64,
    pub caption_revision: u64,
    pub progress: Option<(u32, u32)>,
    pub waveform: Option<AudioWaveform>,
    pub elapsed_label: String,
    pub elapsed_value: Option<u64>,
    pub reduced_motion: bool,
    pub desktop_reduced_motion: bool,
    pub track: Vec<TrackStep>,
}

/// What a [`Model`] holds.
pub struct ModelView {
    pub snapshot: Option<StatusSnapshotView>,
    pub operation: Option<Seq<char>>,
    pub phase_since: u64,
    pub signal: SignalHistory,
    pub outcome_event: Option<u64>,
    pub notice_event: Option<u64>,
    pub result: Option<ShownResult>,
    pub interaction: Option<(Seq<char>, u64)>,
    pub lost_since: Option<u64>,
    pub lost_active: bool,
    pub kind: Option<Kind>,
    pub caption: CaptionView,
    pub activity_since: u64,
    pub caption_revision: u64,
    pub progress: Option<(u32, u32)>,
    pub waveform: Option<AudioWaveform>,
    pub elapsed_label: Seq<char>,
    pub elapsed_value: Option<u64>,
    pub reduced_motion: bool,
    pub desktop_reduced_motion: bool,
    pub track: Seq<TrackStep>,
}

impl View for Model {
    type V = ModelView;

    open spec fn view(&self) -> ModelView {
        ModelView {
            snapshot: match self.snapshot {
                Some(inner) => Some(inner@),
                None => None,
            },
            operation: optional_text(self.operation),
            phase_since: self.phase_since,
            signal: self.signal,
            outcome_event: self.outcome_event,
            notice_event: self.notice_event,
            result: match self.result {
                Some(inner) => Some(inner@),
                None => None,
            },
            interaction: match self.interaction {
                Some(inner) => Some((inner.0@, inner.1)),
                None => None,
            },
            lost_since: self.lost_since,
            lost_active: self.lost_active,
            kind: self.kind,
            caption: self.caption@,
            activity_since: self.activity_since,
            caption_revision: self.caption_revision,
            progress: self.progress,
            waveform: self.waveform,
            elapsed_label: self.elapsed_label@,
            elapsed_value: self.elapsed_value,
            reduced_motion: self.reduced_motion,
            desktop_reduced_motion: self.desktop_reduced_motion,
            track: self.track@,
        }
    }
}

/// Minutes and seconds, each at least two digits.
pub open spec fn clock_text(seconds: nat) -> Seq<char> {
    two_digits(seconds / 60) + seq![':'] + two_digits(seconds % 60)
}

/// Render a duration as minutes and seconds.
pub fn format_elapsed(seconds: u64) -> (result: String)
    ensures
        result@ == clock_text(seconds as nat),
{
    let mut result: String = String::new();
    push_two_digits(&mut result, seconds / 60);
    result.push(':');
    push_two_digits(&mut result, seconds % 60);
    assert(result@ =~= clock_text(seconds as nat));
    result
}

/// Cells of the track that a measured share fills; none where it measures nothing.
pub fn completed_cells(progress: (u32, u32)) -> (result: usize)
    ensures
        result == if progress.1 <= 1 || progress.0 > progress.1 {
            0int
        } else {
            progress.0 as int * CELLS as int / progress.1 as int
        },
        result <= CELLS,
{
    let (completed, total) = progress;
    if total <= 1 || completed > total {
        return 0;
    }
    assert(completed as int * CELLS as int / total as int <= CELLS) by (nonlinear_arith)
        requires
            completed <= total,
            total > 1,
            CELLS == 60,
    ;
    assert(0 <= completed as int * CELLS as int / total as int) by (nonlinear_arith)
        requires
            completed <= total,
            total > 1,
            CELLS == 60,
    ;
    ((completed as u64) * (CELLS as u64) / (total as u64)) as usize
}

/// Whether an outcome stays until it is dismissed: a failure, a partial result,
/// or a delivery that did not happen; never a cancelled or an empty take.
pub open spec fn is_persistent(outcome: TerminalOutcomeView) -> bool {
    match outcome.completeness {
        Completeness::Cancelled | Completeness::Empty => false,
        Completeness::Failed | Completeness::Partial => true,
        Completeness::Complete => undelivered(outcome.delivery),
    }
}

/// A delivery that was meant to happen and did not provably happen.
pub open spec fn undelivered(delivery: Delivery) -> bool {
    delivery == Delivery::Failed || delivery == Delivery::Uncertain || delivery
        == Delivery::Deferred
}

/// Whether an outcome stays until it is dismissed.
pub fn persistent(outcome: &TerminalOutcome) -> (result: bool)
    ensures
        result == is_persistent(outcome@),
{
    !(matches!(outcome.completeness, Completeness::Cancelled | Completeness::Empty)) && (matches!(
        outcome.completeness,
        Completeness::Failed | Completeness::Partial
    ) || matches!(outcome.delivery, Delivery::Failed | Delivery::Uncertain | Delivery::Deferred))
}

/// End a run of the display. A still reports its failure; otherwise the display is
/// optional, and its failure (the second part) is only worth a warning.
pub fn run<E>(visual_proof: bool, native: Result<(), E>) -> (result: (Result<(), E>, Option<E>))
    ensures
        visual_proof ==> result == (native, None::<E>),
        !visual_proof ==> result.0 == Ok::<(), E>(()),
        !visual_proof && native is Err ==> result.1 == Some(native->Err_0),
        !visual_proof && native is Ok ==> result.1 is None,
{
    if visual_proof {
        return (native, None);
    }
    match native {
        Err(error) => (Ok(()), Some(error)),
        Ok(()) => (Ok(()), None),
    }
}

} // verus!
