//! What the actions window remembers, and how observations, results and requests
//! change it.

use crate::actions::{moved_recording_row, row_after, RowKey};
use crate::daemon::{take_views, Take, TakeView};
use crate::hud::{elapsed_since, since};
use crate::ipc::{optional_text, StatusSnapshot, StatusSnapshotView};
use vstd::prelude::*;
use vstd::string::*;

verus! {

/// Time between two observations.
pub const POLL: u64 = 2_000_000_000;

/// Where an action runs. A lane runs one action at a time.
#[derive(Clone, Copy, Debug, PartialEq, Eq, Structural)]
pub enum ActionLane {
    Command,
    Setup,
    Cancel,
}

/// What an action does, as far as its lane and the window's closing go.
#[derive(Clone, Copy, Debug, PartialEq, Eq, Structural)]
pub enum ActionKind {
    /// A command that cancels.
    Cancel,
    /// Any other command.
    Command,
    InstallModel,
    Doctor,
    StoreKey,
    StartDaemon,
}

/// What an action came to.
#[derive(Debug, PartialEq, Eq)]
pub enum ActionResult {
    CommandAccepted,
    Message(String),
    Diagnosis(String),
}

/// What is done with the window.
#[derive(Clone, Copy, Debug, PartialEq, Eq, Structural)]
pub enum CloseEffect {
    /// It stays.
    Stay,
    /// It stays although it was asked to close; what is being installed is cancelled.
    CancelInstallation,
    /// It stays although it was asked to close.
    Wait,
    /// It closes.
    Close,
}

/// The lanes, and what is to happen to the window when they are free.
#[derive(Clone, Copy, Debug, PartialEq, Eq, Structural)]
pub struct Lanes {
    pub command_running: bool,
    pub setup_running: bool,
    pub cancel_running: bool,
    /// The lane whose result is told.
    pub latest_command: ActionLane,
    /// A model is being installed.
    pub installing: bool,
    /// The installation is to stop.
    pub install_cancelled: bool,
    /// What runs must end before the window does.
    pub setup_close_guard: bool,
    /// The window closes once the setup lane is free.
    pub close_after_setup: bool,
}

impl Lanes {
    /// Lanes that run nothing.
    pub open spec fn free() -> Lanes {
        Lanes {
            command_running: false,
            setup_running: false,
            cancel_running: false,
            latest_command: ActionLane::Command,
            installing: false,
            install_cancelled: false,
            setup_close_guard: false,
            close_after_setup: false,
        }
    }

    /// Whether a lane runs an action.
    pub open spec fn occupied(self, lane: ActionLane) -> bool {
        match lane {
            ActionLane::Command => self.command_running,
            ActionLane::Setup => self.setup_running,
            ActionLane::Cancel => self.cancel_running,
        }
    }

    /// The lanes with an action begun.
    pub open spec fn begun(self, kind: ActionKind) -> Lanes {
        match lane_of(kind) {
            ActionLane::Setup => Lanes {
                setup_running: true,
                setup_close_guard: kind == ActionKind::InstallModel || kind
                    == ActionKind::StartDaemon,
                installing: self.installing || kind == ActionKind::InstallModel,
                install_cancelled: self.install_cancelled && kind != ActionKind::InstallModel,
                ..self
            },
            ActionLane::Command => Lanes {
                command_running: true,
                latest_command: ActionLane::Command,
                ..self
            },
            ActionLane::Cancel => Lanes {
                cancel_running: true,
                latest_command: ActionLane::Cancel,
                ..self
            },
        }
    }

    /// The lanes with a lane's action over.
    pub open spec fn ended(self, lane: ActionLane) -> Lanes {
        match lane {
            ActionLane::Setup => Lanes {
                setup_running: false,
                installing: false,
                install_cancelled: false,
                setup_close_guard: false,
                close_after_setup: false,
                ..self
            },
            ActionLane::Command => Lanes { command_running: false, ..self },
            ActionLane::Cancel => Lanes { cancel_running: false, ..self },
        }
    }

    fn is_occupied(&self, lane: ActionLane) -> (result: bool)
        ensures
            result == self.occupied(lane),
    {
        match lane {
            ActionLane::Command => self.command_running,
            ActionLane::Setup => self.setup_running,
            ActionLane::Cancel => self.cancel_running,
        }
    }

    fn begin(self, kind: ActionKind) -> (result: Lanes)
        ensures
            result == self.begun(kind),
    {
        match lane_for(kind) {
            ActionLane::Setup => Lanes {
                setup_running: true,
                setup_close_guard: matches!(
                    kind,
                    ActionKind::InstallModel | ActionKind::StartDaemon
                ),
                installing: self.installing || kind == ActionKind::InstallModel,
                install_cancelled: self.install_cancelled && kind != ActionKind::InstallModel,
                ..self
            },
            ActionLane::Command => Lanes {
                command_running: true,
                latest_command: ActionLane::Command,
                ..self
            },
            ActionLane::Cancel => Lanes {
                cancel_running: true,
                latest_command: ActionLane::Cancel,
                ..self
            },
        }
    }

    fn end(self, lane: ActionLane) -> (result: Lanes)
        ensures
            result == self.ended(lane),
    {
        match lane {
            ActionLane::Setup => Lanes {
                setup_running: false,
                installing: false,
                install_cancelled: false,
                setup_close_guard: false,
                close_after_setup: false,
                ..self
            },
            ActionLane::Command => Lanes { command_running: false, ..self },
            ActionLane::Cancel => Lanes { cancel_running: false, ..self },
        }
    }
}

/// The lane of an action.
pub open spec fn lane_of(kind: ActionKind) -> ActionLane {
    match kind {
        ActionKind::Cancel => ActionLane::Cancel,
        ActionKind::Command => ActionLane::Command,
        _ => ActionLane::Setup,
    }
}

/// The lane of an action.
pub fn lane_for(kind: ActionKind) -> (result: ActionLane)
    ensures
        result == lane_of(kind),
{
    match kind {
        ActionKind::Cancel => ActionLane::Cancel,
        ActionKind::Command => ActionLane::Command,
        _ => ActionLane::Setup,
    }
}

/// What tells one state of the history from another.
#[derive(Debug, PartialEq, Eq)]
pub struct HistoryRevision {
    pub epoch: String,
    pub event: Option<u64>,
    pub pending: usize,
}

/// What a [`HistoryRevision`] holds.
pub struct HistoryRevisionView {
    pub epoch: Seq<char>,
    pub event: Option<u64>,
    pub pending: usize,
}

impl View for HistoryRevision {
    type V = HistoryRevisionView;

    open spec fn view(&self) -> HistoryRevisionView {
        HistoryRevisionView {
            epoch: self.epoch@,
            event: self.event,
            pending: self.pending,
        }
    }
}

impl Clone for HistoryRevision {
    fn clone(&self) -> (result: Self)
        ensures
            result@ == self@,
    {
        HistoryRevision {
            epoch: self.epoch.clone(),
            event: self.event,
            pending: self.pending,
        }
    }
}

/// What was last seen of the daemon and of the setup.
#[derive(Debug, PartialEq, Eq)]
pub struct Observation {
    pub status: Option<StatusSnapshot>,
    pub history_unavailable: bool,
    pub local_model: bool,
    pub config_ok: bool,
    pub key_id: Option<String>,
}

/// What an [`Observation`] holds.
pub struct ObservationView {
    pub status: Option<StatusSnapshotView>,
    pub history_unavailable: bool,
    pub local_model: bool,
    pub config_ok: bool,
    pub key_id: Option<Seq<char>>,
}

impl View for Observation {
    type V = ObservationView;

    open spec fn view(&self) -> ObservationView {
        ObservationView {
            status: match self.status { Some(inner) => Some(inner@), None => None },
            history_unavailable: self.history_unavailable,
            local_model: self.local_model,
            config_ok: self.config_ok,
            key_id: match self.key_id { Some(inner) => Some(inner@), None => None },
        }
    }
}

impl Clone for Observation {
    fn clone(&self) -> (result: Self)
        ensures
            result@ == self@,
    {
        Observation {
            status: self.status.clone(),
            history_unavailable: self.history_unavailable,
            local_model: self.local_model,
            config_ok: self.config_ok,
            key_id: self.key_id.clone(),
        }
    }
}

/// The window between frames.
#[derive(Debug, PartialEq, Eq)]
pub struct ActionsWindow {
    pub observation: Option<Observation>,
    pub polling: bool,
    pub last_poll: u64,
    pub takes: Vec<Take>,
    pub pending_indices: Vec<usize>,
    pub retained_audio_bytes: Option<u64>,
    pub focus_recording: bool,
    pub history_revision: Option<HistoryRevision>,
    pub refresh_history: bool,
    pub lanes: Lanes,
    pub busy_message: String,
    pub setup_message: String,
    pub setup_status: Option<(String, bool)>,
    pub message: Option<(String, bool)>,
    pub selected_id: Option<String>,
    pub selection_initialized: bool,
    pub show_history: bool,
    pub forget: Option<Take>,
    pub confirm_focus: bool,
    pub diagnosis: Option<String>,
}

/// What an [`ActionsWindow`] holds.
pub struct ActionsWindowView {
    pub observation: Option<ObservationView>,
    pub polling: bool,
    pub last_poll: u64,
    pub takes: Seq<TakeView>,
    pub pending_indices: Seq<usize>,
    pub retained_audio_bytes: Option<u64>,
    pub focus_recording: bool,
    pub history_revision: Option<HistoryRevisionView>,
    pub refresh_history: bool,
    pub lanes: Lanes,
    pub busy_message: Seq<char>,
    pub setup_message: Seq<char>,
    pub setup_status: Option<(Seq<char>, bool)>,
    pub message: Option<(Seq<char>, bool)>,
    pub selected_id: Option<Seq<char>>,
    pub selection_initialized: bool,
    pub show_history: bool,
    pub forget: Option<TakeView>,
    pub confirm_focus: bool,
    pub diagnosis: Option<Seq<char>>,
}

impl View for ActionsWindow {
    type V = ActionsWindowView;

    open spec fn view(&self) -> ActionsWindowView {
        ActionsWindowView {
            observation: match self.observation { Some(inner) => Some(inner@), None => None },
            polling: self.polling,
            last_poll: self.last_poll,
            takes: take_views(self.takes@),
            pending_indices: self.pending_indices@,
            retained_audio_bytes: self.retained_audio_bytes,
            focus_recording: self.focus_recording,
            history_revision: match self.history_revision {
                Some(inner) => Some(inner@),
                None => None,
            },
            refresh_history: self.refresh_history,
            lanes: self.lanes,
            busy_message: self.busy_message@,
            setup_message: self.setup_message@,
            setup_status: match self.setup_status {
                Some(inner) => Some((inner.0@, inner.1)),
                None => None,
            },
            message: match self.message { Some(inner) => Some((inner.0@, inner.1)), None => None },
            selected_id: match self.selected_id { Some(inner) => Some(inner@), None => None },
            selection_initialized: self.selection_initialized,
            show_history: self.show_history,
            forget: match self.forget { Some(inner) => Some(inner@), None => None },
            confirm_focus: self.confirm_focus,
            diagnosis: match self.diagnosis { Some(inner) => Some(inner@), None => None },
        }
    }
}

/// The indices of the recordings that wait for a decision.
pub open spec fn waiting_indices(takes: Seq<TakeView>) -> Seq<usize>
    decreases takes.len(),
{
    if takes.len() == 0 {
        Seq::empty()
    } else {
        let earlier = waiting_indices(takes.drop_last());
        if takes.last().unresolved {
            earlier.push((takes.len() - 1) as usize)
        } else {
            earlier
        }
    }
}

/// The first recording from `from` on that waits for a decision.
pub open spec fn first_waiting(takes: Seq<TakeView>, from: nat) -> Option<Seq<char>>
    decreases takes.len() - from,
{
    if from >= takes.len() {
        None
    } else if takes[from as int].unresolved {
        Some(takes[from as int].id)
    } else {
        first_waiting(takes, from + 1)
    }
}

/// The revision of the history that a status tells of.
pub open spec fn revision_of(status: Option<StatusSnapshotView>) -> HistoryRevisionView {
    match status {
        Some(status) => HistoryRevisionView {
            epoch: status.epoch,
            event: match status.outcome {
                Some(outcome) => Some(outcome.event_id),
                None => None,
            },
            pending: status.pending_recordings,
        },
        None => HistoryRevisionView { epoch: Seq::empty(), event: None, pending: 0 },
    }
}

/// What is told of an action, and whether it is a failure.
pub open spec fn result_words(result: Result<ActionResult, String>) -> Option<(Seq<char>, bool)> {
    match result {
        Ok(ActionResult::Message(message)) => Some((message@, false)),
        Ok(_) => None,
        Err(error) => Some((error@, true)),
    }
}

impl ActionsWindowView {
    /// A window that has seen nothing. Its first observation is due.
    pub open spec fn opened(last_poll: u64) -> ActionsWindowView {
        ActionsWindowView {
            observation: None,
            polling: false,
            last_poll,
            takes: Seq::empty(),
            pending_indices: Seq::empty(),
            retained_audio_bytes: None,
            focus_recording: false,
            history_revision: None,
            refresh_history: true,
            lanes: Lanes::free(),
            busy_message: Seq::empty(),
            setup_message: Seq::empty(),
            setup_status: None,
            message: None,
            selected_id: None,
            selection_initialized: false,
            show_history: false,
            forget: None,
            confirm_focus: false,
            diagnosis: None,
        }
    }

    /// With an action under way; an occupied lane takes none.
    pub open spec fn submitted(self, kind: ActionKind, message: Seq<char>) -> ActionsWindowView {
        if self.lanes.occupied(lane_of(kind)) {
            self
        } else if lane_of(kind) == ActionLane::Setup {
            ActionsWindowView {
                lanes: self.lanes.begun(kind),
                setup_message: message,
                setup_status: None,
                ..self
            }
        } else {
            ActionsWindowView {
                lanes: self.lanes.begun(kind),
                busy_message: message,
                message: None,
                ..self
            }
        }
    }

    /// With a list of recordings that was read.
    pub open spec fn with_history(
        self,
        history: Option<Seq<TakeView>>,
        retained_audio_bytes: Option<u64>,
    ) -> ActionsWindowView {
        match history {
            Some(takes) => ActionsWindowView {
                takes,
                pending_indices: waiting_indices(takes),
                retained_audio_bytes,
                ..self
            },
            None => self,
        }
    }

    /// With what was seen, and the revision of the history that it shows.
    pub open spec fn with_observation(
        self,
        observation: ObservationView,
        revision: HistoryRevisionView,
    ) -> ActionsWindowView {
        ActionsWindowView {
            observation: Some(observation),
            polling: false,
            refresh_history: self.refresh_history || observation.history_unavailable,
            history_revision: if observation.history_unavailable {
                self.history_revision
            } else {
                Some(revision)
            },
            ..self
        }
    }

    /// With a first choice, once a list was read: a recording that waits.
    pub open spec fn with_selection(self, loaded: bool) -> ActionsWindowView {
        if !self.selection_initialized && loaded {
            ActionsWindowView {
                selected_id: first_waiting(self.takes, 0),
                selection_initialized: true,
                focus_recording: first_waiting(self.takes, 0) is Some,
                ..self
            }
        } else {
            self
        }
    }

    /// With the question about a recording withdrawn where that has changed: it needs
    /// a new confirmation, never an action on another one in its place.
    pub open spec fn with_confirmation(self) -> ActionsWindowView {
        if self.forget is Some && !self.takes.contains(self.forget->0) {
            ActionsWindowView {
                forget: None,
                message: Some(
                    (
                        "That recording changed. Review it before choosing Forget again."@,
                        true,
                    ),
                ),
                ..self
            }
        } else {
            self
        }
    }

    /// With an observation.
    pub open spec fn observed(
        self,
        observation: ObservationView,
        history: Option<Seq<TakeView>>,
        retained_audio_bytes: Option<u64>,
        revision: HistoryRevisionView,
    ) -> ActionsWindowView {
        self.with_history(history, retained_audio_bytes).with_observation(
            observation,
            revision,
        ).with_selection(history is Some).with_confirmation()
    }

    /// After an observation that was lost: nothing that was seen is still live.
    pub open spec fn observation_lost(self, now: u64) -> ActionsWindowView {
        ActionsWindowView {
            polling: false,
            refresh_history: true,
            last_poll: now,
            observation: match self.observation {
                Some(observation) => Some(
                    ObservationView { status: None, history_unavailable: true, ..observation },
                ),
                None => None,
            },
            message: Some(
                (
                    "Status refresh stopped unexpectedly. Live state and saved history could not be checked."@,
                    true,
                ),
            ),
            ..self
        }
    }

    /// With what an action brought, and an observation due.
    pub open spec fn with_result(
        self,
        result: Result<ActionResult, String>,
        due: u64,
    ) -> ActionsWindowView {
        ActionsWindowView {
            diagnosis: match result {
                Ok(ActionResult::Diagnosis(diagnosis)) => Some(diagnosis@),
                _ => self.diagnosis,
            },
            last_poll: due,
            refresh_history: true,
            ..self
        }
    }

    /// With a lane free again, and what its action came to told where it belongs.
    pub open spec fn freed(
        self,
        lane: ActionLane,
        message: Option<(Seq<char>, bool)>,
    ) -> ActionsWindowView {
        let told = ActionsWindowView { lanes: self.lanes.ended(lane), ..self };
        let words = if lane == self.lanes.latest_command {
            if lane == ActionLane::Setup {
                None
            } else {
                message
            }
        } else {
            self.message
        };
        if lane == ActionLane::Setup {
            ActionsWindowView { setup_status: message, message: words, ..told }
        } else {
            ActionsWindowView { message: words, ..told }
        }
    }

    /// After an action. An accepted command says nothing: only the daemon's status
    /// tells of progress.
    pub open spec fn completed(
        self,
        lane: ActionLane,
        result: Result<ActionResult, String>,
        due: u64,
    ) -> ActionsWindowView {
        self.with_result(result, due).freed(lane, result_words(result))
    }

    /// What is done with the window after an action.
    pub open spec fn completion_effect(
        self,
        lane: ActionLane,
        result: Result<ActionResult, String>,
    ) -> CloseEffect {
        if lane == ActionLane::Setup && self.lanes.close_after_setup && result is Ok {
            CloseEffect::Close
        } else {
            CloseEffect::Stay
        }
    }

    /// After a request to close: an installation or a start is ended first.
    pub open spec fn close_asked(self) -> (ActionsWindowView, CloseEffect) {
        if !self.lanes.setup_close_guard {
            (self, CloseEffect::Close)
        } else if self.lanes.installing {
            (
                ActionsWindowView {
                    lanes: Lanes { close_after_setup: true, install_cancelled: true, ..self.lanes },
                    setup_message: "Stopping model installation and cleaning temporary files before closing…"@,
                    ..self
                },
                CloseEffect::CancelInstallation,
            )
        } else {
            (
                ActionsWindowView {
                    lanes: Lanes { close_after_setup: true, ..self.lanes },
                    setup_message: "Finishing the bounded startup check before closing…"@,
                    ..self
                },
                CloseEffect::Wait,
            )
        }
    }

    /// After a request to stop the installation: only what is being installed, and is
    /// not stopping yet, can be stopped.
    pub open spec fn installation_cancelled(self) -> ActionsWindowView {
        if self.lanes.installing && !self.lanes.install_cancelled {
            ActionsWindowView {
                lanes: Lanes { install_cancelled: true, ..self.lanes },
                setup_message: "Stopping model installation and cleaning temporary files…"@,
                ..self
            }
        } else {
            self
        }
    }

    /// Rows of the list.
    pub open spec fn row_count(self) -> nat {
        if self.show_history {
            self.takes.len()
        } else {
            self.pending_indices.len()
        }
    }

    /// The recording of a row.
    pub open spec fn row_take(self, row: int) -> TakeView {
        if self.show_history {
            self.takes[row]
        } else {
            self.takes[self.pending_indices[row] as int]
        }
    }

    /// The first row from `from` on that shows the chosen recording.
    pub open spec fn selected_row(self, from: nat) -> Option<usize>
        decreases self.row_count() - from,
    {
        if from >= self.row_count() {
            None
        } else if self.selected_id == Some(self.row_take(from as int).id) {
            Some(from as usize)
        } else {
            self.selected_row(from + 1)
        }
    }

    /// The list's indices lie within the list.
    pub open spec fn wf(self) -> bool {
        self.pending_indices == waiting_indices(self.takes)
    }
}

proof fn lemma_waiting_indices(takes: Seq<TakeView>)
    requires
        takes.len() <= usize::MAX,
    ensures
        waiting_indices(takes).len() <= takes.len(),
        forall|i: int|
            0 <= i < waiting_indices(takes).len() ==> 0 <= #[trigger] waiting_indices(takes)[i]
                < takes.len(),
        forall|i: int|
            0 <= i < waiting_indices(takes).len() ==> takes[(
            #[trigger] waiting_indices(takes)[i]) as int].unresolved,
    decreases takes.len(),
{
    if takes.len() > 0 {
        let earlier = takes.drop_last();
        lemma_waiting_indices(earlier);
        assert forall|i: int| 0 <= i < waiting_indices(takes).len() implies 0
            <= #[trigger] waiting_indices(takes)[i] < takes.len()
            && takes[waiting_indices(takes)[i] as int].unresolved by {
            if i < waiting_indices(earlier).len() {
                assert(waiting_indices(takes)[i] == waiting_indices(earlier)[i]);
                assert(earlier[waiting_indices(earlier)[i] as int] == takes[waiting_indices(
                    earlier,
                )[i] as int]);
            }
        }
    }
}

/// Tell the revision of the history from a status.
pub fn history_revision(status: Option<&StatusSnapshot>) -> (result: HistoryRevision)
    ensures
        result@ == revision_of(
            match status {
                Some(status) => Some(status@),
                None => None,
            },
        ),
{
    match status {
        Some(status) => HistoryRevision {
            epoch: status.epoch.clone(),
            event: match &status.outcome {
                Some(outcome) => Some(outcome.event_id),
                None => None,
            },
            pending: status.pending_recordings,
        },
        None => HistoryRevision { epoch: String::new(), event: None, pending: 0 },
    }
}

impl HistoryRevision {
    /// Whether the history must be read: it was never read, or its revision differs.
    pub fn differs(&self, previous: &Option<HistoryRevision>) -> (result: bool)
        ensures
            result == match *previous {
                Some(previous) => previous@ != self@,
                None => true,
            },
    {
        match previous {
            Some(previous) => !(previous.epoch == self.epoch && previous.event == self.event
                && previous.pending == self.pending),
            None => true,
        }
    }
}

/// The total of the sizes of retained audio, where all are known and their sum fits.
pub open spec fn total_bytes(sizes: Seq<Option<u64>>) -> Option<u64>
    decreases sizes.len(),
{
    if sizes.len() == 0 {
        Some(0)
    } else {
        match (total_bytes(sizes.drop_last()), sizes.last()) {
            (Some(total), Some(size)) => if total + size <= u64::MAX {
                Some((total + size) as u64)
            } else {
                None
            },
            _ => None,
        }
    }
}

/// Add up the sizes of retained audio.
pub fn retained_bytes(sizes: &Vec<Option<u64>>) -> (result: Option<u64>)
    ensures
        result == total_bytes(sizes@),
{
    let mut total: Option<u64> = Some(0);
    let mut index: usize = 0;
    assert(sizes@.take(0) =~= Seq::empty());
    while index < sizes.len()
        invariant
            index <= sizes@.len(),
            total == total_bytes(sizes@.take(index as int)),
        decreases sizes@.len() - index,
    {
        proof {
            let next = sizes@.take(index + 1);
            assert(next.drop_last() =~= sizes@.take(index as int));
            assert(next.last() == sizes@[index as int]);
        }
        total = match (total, sizes[index]) {
            (Some(total), Some(size)) => total.checked_add(size),
            _ => None,
        };
        index += 1;
    }
    assert(sizes@.take(index as int) =~= sizes@);
    total
}

fn index_waiting(takes: &Vec<Take>) -> (result: Vec<usize>)
    ensures
        result@ == waiting_indices(take_views(takes@)),
{
    let ghost views = take_views(takes@);
    let mut indices: Vec<usize> = Vec::new();
    let mut index: usize = 0;
    assert(views.take(0) =~= Seq::empty());
    while index < takes.len()
        invariant
            index <= takes@.len() == views.len(),
            views == take_views(takes@),
            indices@ == waiting_indices(views.take(index as int)),
        decreases takes@.len() - index,
    {
        proof {
            let next = views.take(index + 1);
            assert(next.drop_last() =~= views.take(index as int));
            assert(next.last() == takes@[index as int]@);
        }
        if takes[index].unresolved {
            indices.push(index);
        }
        index += 1;
    }
    assert(views.take(index as int) =~= views);
    indices
}

fn find_waiting(takes: &Vec<Take>) -> (result: Option<String>)
    ensures
        optional_text(result) == first_waiting(take_views(takes@), 0),
{
    let ghost views = take_views(takes@);
    let mut index: usize = 0;
    while index < takes.len()
        invariant
            index <= takes@.len() == views.len(),
            views == take_views(takes@),
            first_waiting(views, 0) == first_waiting(views, index as nat),
        decreases takes@.len() - index,
    {
        assert(views[index as int] == takes@[index as int]@);
        if takes[index].unresolved {
            return Some(takes[index].id.clone());
        }
        index += 1;
    }
    None
}

fn same_take(a: &Take, b: &Take) -> (result: bool)
    ensures
        result == (a@ == b@),
{
    a.id == b.id && a.created_at_unix_ms == b.created_at_unix_ms && a.duration_ms
        == b.duration_ms && a.text_available == b.text_available && a.audio_available
        == b.audio_available && a.partial == b.partial && a.unresolved == b.unresolved
}

fn lists(takes: &Vec<Take>, take: &Take) -> (result: bool)
    ensures
        result == take_views(takes@).contains(take@),
{
    let mut index: usize = 0;
    while index < takes.len()
        invariant
            index <= takes@.len(),
            forall|i: int| 0 <= i < index ==> take_views(takes@)[i] != take@,
        decreases takes@.len() - index,
    {
        assert(take_views(takes@)[index as int] == takes@[index as int]@);
        if same_take(&takes[index], take) {
            return true;
        }
        index += 1;
    }
    false
}

impl ActionsWindow {
    /// A window that has seen nothing.
    pub fn new(last_poll: u64) -> (result: Self)
        ensures
            result@ == ActionsWindowView::opened(last_poll),
            result@.wf(),
    {
        let window = ActionsWindow {
            observation: None,
            polling: false,
            last_poll,
            takes: Vec::new(),
            pending_indices: Vec::new(),
            retained_audio_bytes: None,
            focus_recording: false,
            history_revision: None,
            refresh_history: true,
            lanes: Lanes {
                command_running: false,
                setup_running: false,
                cancel_running: false,
                latest_command: ActionLane::Command,
                installing: false,
                install_cancelled: false,
                setup_close_guard: false,
                close_after_setup: false,
            },
            busy_message: String::new(),
            setup_message: String::new(),
            setup_status: None,
            message: None,
            selected_id: None,
            selection_initialized: false,
            show_history: false,
            forget: None,
            confirm_focus: false,
            diagnosis: None,
        };
        assert(window@.takes =~= Seq::empty());
        window
    }

    /// Begin an action; whether it is to be performed.
    pub fn submit(&mut self, kind: ActionKind, message: &str) -> (result: bool)
        ensures
            final(self)@ == old(self)@.submitted(kind, message@),
            result == !old(self)@.lanes.occupied(lane_of(kind)),
    {
        let lane = lane_for(kind);
        if self.lanes.is_occupied(lane) {
            return false;
        }
        self.lanes = self.lanes.begin(kind);
        if lane == ActionLane::Setup {
            self.setup_message = message.to_owned();
            self.setup_status = None;
        } else {
            self.busy_message = message.to_owned();
            self.message = None;
        }
        true
    }

    fn take_history(&mut self, history: Option<Vec<Take>>, retained_audio_bytes: Option<u64>)
        ensures
            final(self)@ == old(self)@.with_history(
                match history {
                    Some(takes) => Some(take_views(takes@)),
                    None => None,
                },
                retained_audio_bytes,
            ),
    {
        if let Some(takes) = history {
            self.pending_indices = index_waiting(&takes);
            self.retained_audio_bytes = retained_audio_bytes;
            self.takes = takes;
        }
    }

    fn take_observation(&mut self, observation: Observation, revision: HistoryRevision)
        ensures
            final(self)@ == old(self)@.with_observation(observation@, revision@),
    {
        if observation.history_unavailable {
            self.refresh_history = true;
        } else {
            self.history_revision = Some(revision);
        }
        self.observation = Some(observation);
        self.polling = false;
    }

    fn choose_first(&mut self, loaded: bool)
        ensures
            final(self)@ == old(self)@.with_selection(loaded),
    {
        if !self.selection_initialized && loaded {
            self.selected_id = find_waiting(&self.takes);
            self.selection_initialized = true;
            self.focus_recording = self.selected_id.is_some();
        }
    }

    fn withdraw_stale_question(&mut self)
        ensures
            final(self)@ == old(self)@.with_confirmation(),
    {
        let changed = match &self.forget {
            Some(confirmed) => !lists(&self.takes, confirmed),
            None => false,
        };
        if changed {
            self.forget = None;
            self.message = Some(
                (
                    "That recording changed. Review it before choosing Forget again.".to_owned(),
                    true,
                ),
            );
        }
    }

    /// Take in an observation.
    pub fn observe(
        &mut self,
        observation: Observation,
        history: Option<Vec<Take>>,
        retained_audio_bytes: Option<u64>,
        revision: HistoryRevision,
    )
        ensures
            final(self)@ == old(self)@.observed(
                observation@,
                match history {
                    Some(takes) => Some(take_views(takes@)),
                    None => None,
                },
                retained_audio_bytes,
                revision@,
            ),
            old(self)@.wf() ==> final(self)@.wf(),
    {
        let loaded = history.is_some();
        self.take_history(history, retained_audio_bytes);
        self.take_observation(observation, revision);
        self.choose_first(loaded);
        self.withdraw_stale_question();
    }

    /// Take in that an observation was lost.
    pub fn poll_lost(&mut self, now: u64)
        ensures
            final(self)@ == old(self)@.observation_lost(now),
    {
        self.polling = false;
        self.refresh_history = true;
        self.last_poll = now;
        let observation = self.observation.take();
        if let Some(mut observation) = observation {
            observation.status = None;
            observation.history_unavailable = true;
            self.observation = Some(observation);
        }
        self.message = Some(
            (
                "Status refresh stopped unexpectedly. Live state and saved history could not be checked.".to_owned(),
                true,
            ),
        );
    }

    fn free(&mut self, lane: ActionLane, message: Option<(String, bool)>)
        ensures
            final(self)@ == old(self)@.freed(
                lane,
                match message {
                    Some(inner) => Some((inner.0@, inner.1)),
                    None => None,
                },
            ),
    {
        let latest = lane == self.lanes.latest_command;
        self.lanes = self.lanes.end(lane);
        if lane == ActionLane::Setup {
            self.setup_status = message;
            if latest {
                self.message = None;
            }
        } else if latest {
            self.message = message;
        }
    }

    /// Take in what an action came to. `due` is a time at which an observation is due.
    pub fn complete(
        &mut self,
        lane: ActionLane,
        result: Result<ActionResult, String>,
        due: u64,
    ) -> (effect: CloseEffect)
        ensures
            final(self)@ == old(self)@.completed(lane, result, due),
            effect == old(self)@.completion_effect(lane, result),
    {
        let close = lane == ActionLane::Setup && self.lanes.close_after_setup && result.is_ok();
        let message = self.take_result(result, due);
        self.free(lane, message);
        if close {
            CloseEffect::Close
        } else {
            CloseEffect::Stay
        }
    }

    fn take_result(&mut self, result: Result<ActionResult, String>, due: u64) -> (message: Option<
        (String, bool),
    >)
        ensures
            final(self)@ == old(self)@.with_result(result, due),
            match message {
                Some(inner) => Some((inner.0@, inner.1)) == result_words(result),
                None => result_words(result) is None,
            },
    {
        self.last_poll = due;
        self.refresh_history = true;
        match result {
            Ok(ActionResult::CommandAccepted) => None,
            Ok(ActionResult::Message(message)) => Some((message, false)),
            Ok(ActionResult::Diagnosis(diagnosis)) => {
                self.diagnosis = Some(diagnosis);
                None
            },
            Err(error) => Some((error, true)),
        }
    }

    /// Begin an observation where one is due. Returns the revision of the history that
    /// need not be read again; the outer `None` where none is due.
    pub fn poll(&mut self, now: u64) -> (result: Option<Option<HistoryRevision>>)
        ensures
            ({
                let due = since(now, old(self).last_poll) >= POLL && !old(self).polling;
                &&& result is Some == due
                &&& !due ==> final(self)@ == old(self)@
                &&& due ==> final(self)@ == (ActionsWindowView {
                    polling: true,
                    last_poll: now,
                    refresh_history: false,
                    ..old(self)@
                })
                &&& due ==> match result->0 {
                    Some(revision) => !old(self).refresh_history && old(self)@.history_revision == Some(revision@),
                    None => old(self).refresh_history || old(self)@.history_revision is None,
                }
            }),
    {
        if elapsed_since(now, self.last_poll) < POLL || self.polling {
            return None;
        }
        self.last_poll = now;
        self.polling = true;
        let known = if self.refresh_history {
            None
        } else {
            self.history_revision.clone()
        };
        self.refresh_history = false;
        Some(known)
    }

    /// Ask for a fresh observation. `due` is a time at which one is due.
    pub fn refresh(&mut self, due: u64)
        ensures
            final(self)@ == (ActionsWindowView {
                refresh_history: true,
                last_poll: due,
                ..old(self)@
            }),
    {
        self.refresh_history = true;
        self.last_poll = due;
    }

    /// Ask the window to close.
    pub fn request_close(&mut self) -> (effect: CloseEffect)
        ensures
            (final(self)@, effect) == old(self)@.close_asked(),
    {
        if !self.lanes.setup_close_guard {
            return CloseEffect::Close;
        }
        let lanes = self.lanes;
        if lanes.installing {
            self.lanes = Lanes { close_after_setup: true, install_cancelled: true, ..lanes };
            self.setup_message =
            "Stopping model installation and cleaning temporary files before closing…".to_owned();
            CloseEffect::CancelInstallation
        } else {
            self.lanes = Lanes { close_after_setup: true, ..lanes };
            self.setup_message = "Finishing the bounded startup check before closing…".to_owned();
            CloseEffect::Wait
        }
    }

    /// Ask the installation to stop; whether it is to be stopped now.
    pub fn cancel_installation(&mut self) -> (result: bool)
        ensures
            final(self)@ == old(self)@.installation_cancelled(),
            result == (old(self).lanes.installing && !old(self).lanes.install_cancelled),
    {
        if !self.lanes.installing || self.lanes.install_cancelled {
            return false;
        }
        self.lanes = Lanes { install_cancelled: true, ..self.lanes };
        self.setup_message =
        "Stopping model installation and cleaning temporary files…".to_owned();
        true
    }

    /// The row that shows the chosen recording.
    fn current_row(&self) -> (result: Option<usize>)
        requires
            self@.wf(),
        ensures
            result == self@.selected_row(0),
    {
        let count: usize = if self.show_history {
            self.takes.len()
        } else {
            self.pending_indices.len()
        };
        let total: usize = self.takes.len();
        proof {
            assert(self@.takes.len() == total);
            lemma_waiting_indices(self@.takes);
        }
        let mut row: usize = 0;
        while row < count
            invariant
                row <= count,
                count == self@.row_count(),
                self@.wf(),
                self@.takes.len() == self.takes@.len(),
                forall|i: int|
                    0 <= i < self.pending_indices@.len() ==> 0 <= #[trigger] self.pending_indices@[i]
                        < self.takes@.len(),
                self@.selected_row(0) == self@.selected_row(row as nat),
            decreases count - row,
        {
            let index: usize = if self.show_history {
                row
            } else {
                self.pending_indices[row]
            };
            assert(self@.row_take(row as int) == self.takes@[index as int]@);
            if let Some(selected) = &self.selected_id {
                if *selected == self.takes[index].id {
                    return Some(row);
                }
            }
            row += 1;
        }
        None
    }

    /// Move in the list; the row that was reached.
    pub fn navigate(&mut self, key: RowKey, page: usize) -> (result: Option<usize>)
        requires
            old(self)@.wf(),
        ensures
            final(self)@.wf(),
            match row_after(
                old(self)@.selected_row(0),
                old(self)@.row_count() as usize,
                key,
                page,
            ) {
                Some(row) if row < old(self)@.row_count() => result == Some(row as usize) && final(self)@ == (ActionsWindowView {
                    selected_id: Some(old(self)@.row_take(row).id),
                    focus_recording: true,
                    ..old(self)@
                }),
                _ => result is None && final(self)@ == old(self)@,
            },
    {
        let count: usize = if self.show_history {
            self.takes.len()
        } else {
            self.pending_indices.len()
        };
        let current = self.current_row();
        let Some(row) = moved_recording_row(current, count, key, page) else {
            return None;
        };
        if row >= count {
            return None;
        }
        let total: usize = self.takes.len();
        proof {
            assert(self@.takes.len() == total);
            lemma_waiting_indices(self@.takes);
        }
        let index: usize = if self.show_history {
            row
        } else {
            self.pending_indices[row]
        };
        assert(self@.row_take(row as int) == self.takes@[index as int]@);
        self.selected_id = Some(self.takes[index].id.clone());
        self.focus_recording = true;
        Some(row)
    }

    /// Choose a recording.
    pub fn select(&mut self, id: String)
        ensures
            final(self)@ == (ActionsWindowView { selected_id: Some(id@), ..old(self)@ }),
    {
        self.selected_id = Some(id);
    }

    /// Ask whether a recording is to be forgotten.
    pub fn ask_forget(&mut self, take: Take)
        ensures
            final(self)@ == (ActionsWindowView {
                forget: Some(take@),
                confirm_focus: true,
                ..old(self)@
            }),
    {
        self.forget = Some(take);
        self.confirm_focus = true;
    }

    /// End the question whether a recording is to be forgotten; the recording where the
    /// answer was yes.
    pub fn answer_forget(&mut self, confirmed: bool) -> (result: Option<Take>)
        ensures
            final(self)@ == (ActionsWindowView { forget: None, ..old(self)@ }),
            match result {
                Some(take) => confirmed && old(self)@.forget == Some(take@),
                None => !confirmed || old(self)@.forget is None,
            },
    {
        let take = self.forget.take();
        if confirmed {
            take
        } else {
            None
        }
    }
}

/// An action that has been performed, or whose performer is gone.
pub enum ActionPoll {
    /// It is under way, or there is none.
    Pending,
    Done(Result<ActionResult, String>),
    /// Its performer is gone.
    Lost,
}

/// What an action came to, once it is over.
pub fn completed_action(poll: ActionPoll) -> (result: Option<Result<ActionResult, String>>)
    ensures
        match poll {
            ActionPoll::Pending => result is None,
            ActionPoll::Done(done) => result == Some(done),
            ActionPoll::Lost => result is Some && result->0 is Err && result->0->Err_0@
                == "The background action stopped unexpectedly. Check setup before trying again."@,
        },
{
    match poll {
        ActionPoll::Pending => None,
        ActionPoll::Done(done) => Some(done),
        ActionPoll::Lost => Some(
            Err(
                "The background action stopped unexpectedly. Check setup before trying again.".to_owned(),
            ),
        ),
    }
}

/// Only recordings that wait for a decision are listed as waiting.
pub proof fn waiting_rows_wait(takes: Seq<TakeView>)
    requires
        takes.len() <= usize::MAX,
    ensures
        forall|i: int|
            0 <= i < waiting_indices(takes).len() ==> 0 <= #[trigger] waiting_indices(takes)[i]
                < takes.len(),
        forall|i: int|
            0 <= i < waiting_indices(takes).len() ==> takes[(
            #[trigger] waiting_indices(takes)[i]) as int].unresolved,
{
    lemma_waiting_indices(takes);
}

/// A confirmation is only ever for the recording that was shown: after an observation
/// it is either still there, exactly as it was, or no longer asked for.
pub proof fn confirmation_is_never_retargeted(
    window: ActionsWindowView,
    observation: ObservationView,
    history: Option<Seq<TakeView>>,
    bytes: Option<u64>,
    revision: HistoryRevisionView,
)
    ensures
        ({
            let after = window.observed(observation, history, bytes, revision);
            after.forget is Some ==> after.forget == window.forget && after.takes.contains(
                after.forget->0,
            )
        }),
{
}

/// What is installed or started is never left behind by a closing window.
pub proof fn guarded_window_stays_open(window: ActionsWindowView)
    requires
        window.lanes.setup_close_guard,
    ensures
        window.close_asked().1 != CloseEffect::Close,
        window.close_asked().0.lanes.close_after_setup,
{
}

} // verus!
