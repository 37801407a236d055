//! What the actions window shows, panel by panel.

use crate::actions::window::{ActionsWindow, ActionsWindowView};
use crate::actions::{
    detail_time, detail_words, hero, hero_words, short_duration, short_words, CalendarDays, Hero,
    HeroView, LocalTime,
};
use crate::daemon::{Take, TakeView};
use crate::hud::{is_persistent, persistent};
use crate::ipc::{Capabilities, StateKind, StateKindView, StatusSnapshot, StatusSnapshotView};
use crate::text::{
    blank, chars_of, decimal, drop_white_space, is_blank, push_decimal, text_of, trim_end,
};
use vstd::prelude::*;
use vstd::string::*;

verus! {

/// Where the button that reads the list again stands.
#[derive(Clone, Copy, Debug, PartialEq, Eq, Structural)]
pub enum RefreshPlace {
    Hidden,
    Header,
    Warning,
}

/// What is said of the list.
#[derive(Clone, Copy, Debug, PartialEq, Eq, Structural)]
pub enum ListNote {
    Loading,
    Unavailable,
    Empty,
    NothingWaiting,
    Listed,
}

impl ListNote {
    /// In words; a list that is there needs none.
    pub open spec fn text(self) -> Option<Seq<char>> {
        match self {
            ListNote::Loading => Some("Loading saved recordings…"@),
            ListNote::Unavailable => Some(
                "Saved history could not be refreshed. Details shown may be out of date."@,
            ),
            ListNote::Empty => Some("No saved recordings yet. Every stopped take appears here."@),
            ListNote::NothingWaiting => Some(
                "Nothing is waiting. Choose All to browse saved takes."@,
            ),
            ListNote::Listed => None,
        }
    }

    /// In words; a list that is there needs none.
    pub fn words(self) -> (result: Option<&'static str>)
        ensures
            match result {
                Some(words) => self.text() == Some(words@),
                None => self.text() is None,
            },
    {
        match self {
            ListNote::Loading => Some("Loading saved recordings…"),
            ListNote::Unavailable => Some(
                "Saved history could not be refreshed. Details shown may be out of date.",
            ),
            ListNote::Empty => Some("No saved recordings yet. Every stopped take appears here."),
            ListNote::NothingWaiting => Some(
                "Nothing is waiting. Choose All to browse saved takes.",
            ),
            ListNote::Listed => None,
        }
    }
}

/// The state of the local model.
#[derive(Clone, Copy, Debug, PartialEq, Eq, Structural)]
pub enum ModelRow {
    Unknown,
    /// It can be stopped until it is stopping.
    Installing { cancelled: bool },
    Installed,
    Missing { install: bool },
}

/// The state of the daemon.
#[derive(Clone, Copy, Debug, PartialEq, Eq, Structural)]
pub enum ServiceRow {
    Unknown,
    Running { reload: bool },
    Stopped { start: bool },
}

/// An outcome or a notice with its dismissal: `None` where it cannot be dismissed, else
/// whether it can be now.
#[derive(Debug, PartialEq, Eq)]
pub struct Banner {
    pub message: String,
    pub error: Option<String>,
    pub attention: bool,
    pub dismiss: Option<bool>,
    pub event_id: u64,
}

/// What a [`Banner`] holds.
pub struct BannerView {
    pub message: Seq<char>,
    pub error: Option<Seq<char>>,
    pub attention: bool,
    pub dismiss: Option<bool>,
    pub event_id: u64,
}

impl View for Banner {
    type V = BannerView;

    open spec fn view(&self) -> BannerView {
        BannerView {
            message: self.message@,
            error: match self.error { Some(inner) => Some(inner@), None => None },
            attention: self.attention,
            dismiss: self.dismiss,
            event_id: self.event_id,
        }
    }
}

impl Clone for Banner {
    fn clone(&self) -> (result: Self)
        ensures
            result@ == self@,
    {
        Banner {
            message: self.message.clone(),
            error: self.error.clone(),
            attention: self.attention,
            dismiss: self.dismiss,
            event_id: self.event_id,
        }
    }
}

/// The first panel. A button is `None` where it is not shown, else whether it can be
/// used.
#[derive(Debug, PartialEq, Eq)]
pub struct StatusPanel {
    pub hero: Hero,
    pub start: Option<bool>,
    pub stop: Option<bool>,
    pub cancel: Option<bool>,
    pub command_words: Option<String>,
    pub cancel_words: Option<String>,
    pub setup_words: Option<String>,
    pub outcome: Option<Banner>,
    pub notice: Option<Banner>,
}

/// What a [`StatusPanel`] holds.
pub struct StatusPanelView {
    pub hero: HeroView,
    pub start: Option<bool>,
    pub stop: Option<bool>,
    pub cancel: Option<bool>,
    pub command_words: Option<Seq<char>>,
    pub cancel_words: Option<Seq<char>>,
    pub setup_words: Option<Seq<char>>,
    pub outcome: Option<BannerView>,
    pub notice: Option<BannerView>,
}

impl View for StatusPanel {
    type V = StatusPanelView;

    open spec fn view(&self) -> StatusPanelView {
        StatusPanelView {
            hero: self.hero@,
            start: self.start,
            stop: self.stop,
            cancel: self.cancel,
            command_words: match self.command_words { Some(inner) => Some(inner@), None => None },
            cancel_words: match self.cancel_words { Some(inner) => Some(inner@), None => None },
            setup_words: match self.setup_words { Some(inner) => Some(inner@), None => None },
            outcome: match self.outcome { Some(inner) => Some(inner@), None => None },
            notice: match self.notice { Some(inner) => Some(inner@), None => None },
        }
    }
}

/// The head of the list of recordings.
#[derive(Debug, PartialEq, Eq)]
pub struct RecordingsPanel {
    pub waiting: String,
    pub all: String,
    pub refresh: RefreshPlace,
    pub kept: Option<String>,
    pub note: ListNote,
    pub rows: usize,
}

/// What a [`RecordingsPanel`] holds.
pub struct RecordingsPanelView {
    pub waiting: Seq<char>,
    pub all: Seq<char>,
    pub refresh: RefreshPlace,
    pub kept: Option<Seq<char>>,
    pub note: ListNote,
    pub rows: usize,
}

impl View for RecordingsPanel {
    type V = RecordingsPanelView;

    open spec fn view(&self) -> RecordingsPanelView {
        RecordingsPanelView {
            waiting: self.waiting@,
            all: self.all@,
            refresh: self.refresh,
            kept: match self.kept { Some(inner) => Some(inner@), None => None },
            note: self.note,
            rows: self.rows,
        }
    }
}

/// The details of a recording and what can be done with it.
#[derive(Debug, PartialEq, Eq)]
pub struct TakePanel {
    pub time: String,
    pub line: String,
    pub transcript: String,
    pub audio: String,
    pub status: String,
    pub online: bool,
    pub enabled: bool,
    pub copy: bool,
    pub local: bool,
    pub remote: bool,
    pub forget: bool,
    pub partial_text: bool,
    pub no_audio: bool,
}

/// What a [`TakePanel`] holds.
pub struct TakePanelView {
    pub time: Seq<char>,
    pub line: Seq<char>,
    pub transcript: Seq<char>,
    pub audio: Seq<char>,
    pub status: Seq<char>,
    pub online: bool,
    pub enabled: bool,
    pub copy: bool,
    pub local: bool,
    pub remote: bool,
    pub forget: bool,
    pub partial_text: bool,
    pub no_audio: bool,
}

impl View for TakePanel {
    type V = TakePanelView;

    open spec fn view(&self) -> TakePanelView {
        TakePanelView {
            time: self.time@,
            line: self.line@,
            transcript: self.transcript@,
            audio: self.audio@,
            status: self.status@,
            online: self.online,
            enabled: self.enabled,
            copy: self.copy,
            local: self.local,
            remote: self.remote,
            forget: self.forget,
            partial_text: self.partial_text,
            no_audio: self.no_audio,
        }
    }
}

/// The setup panel.
#[derive(Debug, PartialEq, Eq)]
pub struct SetupPanel {
    pub status: Option<(String, bool)>,
    pub model: ModelRow,
    pub service: ServiceRow,
    pub config_ok: Option<bool>,
    pub key_id: Option<String>,
    pub idle: bool,
    pub diagnosis: Option<String>,
}

/// What a [`SetupPanel`] holds.
pub struct SetupPanelView {
    pub status: Option<(Seq<char>, bool)>,
    pub model: ModelRow,
    pub service: ServiceRow,
    pub config_ok: Option<bool>,
    pub key_id: Option<Seq<char>>,
    pub idle: bool,
    pub diagnosis: Option<Seq<char>>,
}

impl View for SetupPanel {
    type V = SetupPanelView;

    open spec fn view(&self) -> SetupPanelView {
        SetupPanelView {
            status: match self.status { Some(inner) => Some((inner.0@, inner.1)), None => None },
            model: self.model,
            service: self.service,
            config_ok: self.config_ok,
            key_id: match self.key_id { Some(inner) => Some(inner@), None => None },
            idle: self.idle,
            diagnosis: match self.diagnosis { Some(inner) => Some(inner@), None => None },
        }
    }
}

impl ActionsWindowView {
    /// The last status, where one was seen.
    pub open spec fn status(self) -> Option<StatusSnapshotView> {
        match self.observation {
            Some(observation) => observation.status,
            None => None,
        }
    }

    /// What the daemon can do, as far as is known.
    pub open spec fn capabilities(self) -> Capabilities {
        match self.status() {
            Some(status) => status.capabilities,
            None => no_capabilities(),
        }
    }

    /// Whether the list could not be read.
    pub open spec fn list_unavailable(self) -> bool {
        self.observation is Some && self.observation->0.history_unavailable
    }

    /// Whether what is listed can be acted on.
    pub open spec fn list_available(self) -> bool {
        self.observation is Some && !self.observation->0.history_unavailable
    }

    /// The first panel.
    pub open spec fn status_panel(self) -> StatusPanelView {
        let capabilities = self.capabilities();
        let dismiss = if capabilities.dismiss {
            Some(!self.lanes.command_running)
        } else {
            None
        };
        StatusPanelView {
            hero: hero_words(self.observation is Some, self.status()),
            start: if self.observation is Some && self.status() is None {
                Some(!self.lanes.setup_running)
            } else {
                None
            },
            stop: if capabilities.stop {
                Some(!self.lanes.command_running)
            } else {
                None
            },
            cancel: if capabilities.cancel {
                Some(!self.lanes.cancel_running)
            } else {
                None
            },
            command_words: if self.lanes.command_running {
                Some(self.busy_message)
            } else {
                None
            },
            cancel_words: if self.lanes.cancel_running {
                Some("Requesting cancellation…"@)
            } else {
                None
            },
            setup_words: if self.lanes.setup_running {
                Some(self.setup_message)
            } else {
                None
            },
            outcome: match self.status() {
                Some(status) => match status.outcome {
                    Some(outcome) => if outcome.dismissed {
                        None
                    } else {
                        Some(
                            BannerView {
                                message: outcome.message,
                                error: outcome.error,
                                attention: is_persistent(outcome),
                                dismiss,
                                event_id: outcome.event_id,
                            },
                        )
                    },
                    None => None,
                },
                None => None,
            },
            notice: match self.status() {
                Some(status) => match status.notice {
                    Some(notice) => Some(
                        BannerView {
                            message: notice.message,
                            error: None,
                            attention: false,
                            dismiss,
                            event_id: notice.event_id,
                        },
                    ),
                    None => None,
                },
                None => None,
            },
        }
    }

    /// The head of the list.
    pub open spec fn recordings_panel(self) -> RecordingsPanelView {
        let loaded = self.observation is Some;
        RecordingsPanelView {
            waiting: if loaded {
                "Waiting "@ + decimal(self.pending_indices.len())
            } else {
                "Waiting"@
            },
            all: if loaded {
                "All "@ + decimal(self.takes.len())
            } else {
                "All"@
            },
            refresh: if !loaded {
                RefreshPlace::Hidden
            } else if self.list_unavailable() {
                RefreshPlace::Warning
            } else {
                RefreshPlace::Header
            },
            kept: match self.retained_audio_bytes {
                Some(bytes) if bytes > 0 => Some(kept_words(bytes)),
                _ => None,
            },
            note: if !loaded {
                ListNote::Loading
            } else if self.list_unavailable() {
                ListNote::Unavailable
            } else if self.takes.len() == 0 {
                ListNote::Empty
            } else if self.pending_indices.len() == 0 && !self.show_history {
                ListNote::NothingWaiting
            } else {
                ListNote::Listed
            },
            rows: self.row_count() as usize,
        }
    }

    /// The details of a recording.
    pub open spec fn take_panel(
        self,
        take: TakeView,
        time: Option<LocalTime>,
        days: CalendarDays,
    ) -> TakePanelView {
        let capabilities = self.capabilities();
        TakePanelView {
            time: detail_words(time, days),
            line: short_words(take.duration_ms) + " · "@ + take.id,
            transcript: if take.partial && take.text_available {
                "Partial"@
            } else if take.text_available {
                "Complete"@
            } else {
                "None"@
            },
            audio: if take.audio_available {
                "Kept on this computer"@
            } else {
                "Not kept"@
            },
            status: if take.unresolved {
                "Waiting for a decision"@
            } else {
                "Resolved"@
            },
            online: self.status() is Some,
            enabled: !self.lanes.command_running && self.list_available(),
            copy: capabilities.copy && take.text_available,
            local: capabilities.recover && capabilities.local_model && take.audio_available,
            remote: capabilities.recover && capabilities.remote_configured
                && take.audio_available,
            forget: self.daemon_idle() && (take.audio_available || take.unresolved),
            partial_text: take.partial && take.text_available,
            no_audio: !take.audio_available,
        }
    }

    /// Whether the daemon is known to be idle.
    pub open spec fn daemon_idle(self) -> bool {
        self.status() is Some && self.status()->0.state == StateKindView::Idle
    }

    /// Whether the recording in question may be forgotten now.
    pub open spec fn may_forget(self) -> bool {
        !self.lanes.command_running && self.list_available() && self.daemon_idle()
    }

    /// The setup panel.
    pub open spec fn setup_panel(self) -> SetupPanelView {
        let idle = !self.lanes.setup_running;
        SetupPanelView {
            status: self.setup_status,
            model: match self.observation {
                None => ModelRow::Unknown,
                Some(observation) => if self.lanes.installing {
                    ModelRow::Installing { cancelled: self.lanes.install_cancelled }
                } else if observation.local_model {
                    ModelRow::Installed
                } else {
                    ModelRow::Missing { install: idle }
                },
            },
            service: match self.observation {
                None => ServiceRow::Unknown,
                Some(observation) => if observation.status is Some {
                    ServiceRow::Running { reload: idle && !self.lanes.command_running }
                } else {
                    ServiceRow::Stopped { start: idle }
                },
            },
            config_ok: match self.observation {
                None => None,
                Some(observation) => Some(observation.config_ok),
            },
            key_id: match self.observation {
                None => None,
                Some(observation) => observation.key_id,
            },
            idle,
            diagnosis: match self.diagnosis {
                Some(diagnosis) => Some(trim_end(diagnosis)),
                None => None,
            },
        }
    }
}

/// A daemon that can do nothing.
pub open spec fn no_capabilities() -> Capabilities {
    Capabilities {
        stop: false,
        cancel: false,
        recover: false,
        copy: false,
        dismiss: false,
        local_model: false,
        remote_configured: false,
    }
}

/// Tenths of a mebibyte, rounded to the nearest; halves to the even one.
pub open spec fn tenths_of_mebibytes(bytes: u64) -> int {
    let whole = bytes * 10 / 1_048_576;
    let rest = bytes * 10 % 1_048_576;
    if rest > 524_288 || (rest == 524_288 && whole % 2 == 1) {
        whole + 1
    } else {
        whole
    }
}

/// What is said of kept audio.
pub open spec fn kept_words(bytes: u64) -> Seq<char> {
    let tenths = tenths_of_mebibytes(bytes);
    decimal((tenths / 10) as nat) + "."@ + decimal((tenths % 10) as nat)
        + " MiB of audio kept on this computer. Kept until you forget it."@
}

/// Say how much audio is kept.
pub fn kept_audio(bytes: u64) -> (result: String)
    ensures
        result@ == kept_words(bytes),
{
    let scaled: u128 = (bytes as u128) * 10;
    let whole: u128 = scaled / 1_048_576;
    let rest: u128 = scaled % 1_048_576;
    let tenths: u64 = if rest > 524_288 || (rest == 524_288 && whole % 2 == 1) {
        (whole + 1) as u64
    } else {
        whole as u64
    };
    let mut words: String = String::new();
    push_decimal(&mut words, tenths / 10);
    words.append(".");
    push_decimal(&mut words, tenths % 10);
    words.append(" MiB of audio kept on this computer. Kept until you forget it.");
    assert(words@ =~= kept_words(bytes));
    words
}

impl ActionsWindow {
    /// The last status, where one was seen.
    pub fn last_status(&self) -> (result: Option<&StatusSnapshot>)
        ensures
            match result {
                Some(status) => self@.status() == Some(status@),
                None => self@.status() is None,
            },
    {
        match &self.observation {
            Some(observation) => observation.status.as_ref(),
            None => None,
        }
    }

    fn known_capabilities(&self) -> (result: Capabilities)
        ensures
            result == self@.capabilities(),
    {
        match self.last_status() {
            Some(status) => status.capabilities,
            None => Capabilities {
                stop: false,
                cancel: false,
                recover: false,
                copy: false,
                dismiss: false,
                local_model: false,
                remote_configured: false,
            },
        }
    }

    fn is_list_available(&self) -> (result: bool)
        ensures
            result == self@.list_available(),
    {
        match &self.observation {
            Some(observation) => !observation.history_unavailable,
            None => false,
        }
    }

    fn is_daemon_idle(&self) -> (result: bool)
        ensures
            result == self@.daemon_idle(),
    {
        match self.last_status() {
            Some(status) => matches!(status.state, StateKind::Idle),
            None => false,
        }
    }

    /// The first panel.
    pub fn status_view(&self) -> (result: StatusPanel)
        ensures
            result@ == self@.status_panel(),
    {
        let capabilities = self.known_capabilities();
        let status = self.last_status();
        let dismiss = if capabilities.dismiss {
            Some(!self.lanes.command_running)
        } else {
            None
        };
        let outcome = match status {
            Some(status) => outcome_banner(status, dismiss),
            None => None,
        };
        let notice = match status {
            Some(status) => notice_banner(status, dismiss),
            None => None,
        };
        StatusPanel {
            hero: hero(self.observation.is_some(), status),
            start: if self.observation.is_some() && status.is_none() {
                Some(!self.lanes.setup_running)
            } else {
                None
            },
            stop: if capabilities.stop {
                Some(!self.lanes.command_running)
            } else {
                None
            },
            cancel: if capabilities.cancel {
                Some(!self.lanes.cancel_running)
            } else {
                None
            },
            command_words: if self.lanes.command_running {
                Some(self.busy_message.clone())
            } else {
                None
            },
            cancel_words: if self.lanes.cancel_running {
                Some("Requesting cancellation…".to_owned())
            } else {
                None
            },
            setup_words: if self.lanes.setup_running {
                Some(self.setup_message.clone())
            } else {
                None
            },
            outcome,
            notice,
        }
    }

    /// The head of the list.
    pub fn recordings_view(&self) -> (result: RecordingsPanel)
        ensures
            result@ == self@.recordings_panel(),
    {
        let loaded = self.observation.is_some();
        let unavailable = loaded && !self.is_list_available();
        let mut waiting: String = "Waiting".to_owned();
        let mut all: String = "All".to_owned();
        if loaded {
            waiting = "Waiting ".to_owned();
            push_decimal(&mut waiting, self.pending_indices.len() as u64);
            all = "All ".to_owned();
            push_decimal(&mut all, self.takes.len() as u64);
        }
        let kept = match self.retained_audio_bytes {
            Some(bytes) => {
                if bytes > 0 {
                    Some(kept_audio(bytes))
                } else {
                    None
                }
            },
            None => None,
        };
        RecordingsPanel {
            waiting,
            all,
            refresh: if !loaded {
                RefreshPlace::Hidden
            } else if unavailable {
                RefreshPlace::Warning
            } else {
                RefreshPlace::Header
            },
            kept,
            note: if !loaded {
                ListNote::Loading
            } else if unavailable {
                ListNote::Unavailable
            } else if self.takes.len() == 0 {
                ListNote::Empty
            } else if self.pending_indices.len() == 0 && !self.show_history {
                ListNote::NothingWaiting
            } else {
                ListNote::Listed
            },
            rows: if self.show_history {
                self.takes.len()
            } else {
                self.pending_indices.len()
            },
        }
    }

    /// The details of a recording.
    pub fn take_view(&self, take: &Take, time: Option<LocalTime>, days: &CalendarDays) -> (result:
        TakePanel)
        ensures
            result@ == self@.take_panel(take@, time, *days),
    {
        let capabilities = self.known_capabilities();
        let mut line = short_duration(take.duration_ms);
        line.append(" · ");
        line.append(take.id.as_str());
        let transcript = if take.partial && take.text_available {
            "Partial"
        } else if take.text_available {
            "Complete"
        } else {
            "None"
        };
        let audio = if take.audio_available {
            "Kept on this computer"
        } else {
            "Not kept"
        };
        let status = if take.unresolved {
            "Waiting for a decision"
        } else {
            "Resolved"
        };
        TakePanel {
            time: detail_time(time, days),
            line,
            transcript: transcript.to_owned(),
            audio: audio.to_owned(),
            status: status.to_owned(),
            online: self.last_status().is_some(),
            enabled: !self.lanes.command_running && self.is_list_available(),
            copy: capabilities.copy && take.text_available,
            local: capabilities.recover && capabilities.local_model && take.audio_available,
            remote: capabilities.recover && capabilities.remote_configured && take.audio_available,
            forget: self.is_daemon_idle() && (take.audio_available || take.unresolved),
            partial_text: take.partial && take.text_available,
            no_audio: !take.audio_available,
        }
    }

    /// The setup panel.
    pub fn setup_view(&self) -> (result: SetupPanel)
        ensures
            result@ == self@.setup_panel(),
    {
        let idle = !self.lanes.setup_running;
        let (model, service, config_ok, key_id) = match &self.observation {
            None => (ModelRow::Unknown, ServiceRow::Unknown, None, None),
            Some(observation) => (
                if self.lanes.installing {
                    ModelRow::Installing { cancelled: self.lanes.install_cancelled }
                } else if observation.local_model {
                    ModelRow::Installed
                } else {
                    ModelRow::Missing { install: idle }
                },
                if observation.status.is_some() {
                    ServiceRow::Running { reload: idle && !self.lanes.command_running }
                } else {
                    ServiceRow::Stopped { start: idle }
                },
                Some(observation.config_ok),
                observation.key_id.clone(),
            ),
        };
        let diagnosis = match &self.diagnosis {
            Some(diagnosis) => Some(without_trailing_space(diagnosis)),
            None => None,
        };
        let status = match &self.setup_status {
            Some(status) => Some((status.0.clone(), status.1)),
            None => None,
        };
        SetupPanel { status, model, service, config_ok, key_id, idle, diagnosis }
    }

    /// Whether the recording in question may be forgotten now.
    pub fn forget_enabled(&self) -> (result: bool)
        ensures
            result == self@.may_forget(),
    {
        !self.lanes.command_running && self.is_list_available() && self.is_daemon_idle()
    }

    /// Whether a key may be stored now: it has a name, it is not empty, and no setup
    /// action runs.
    pub fn key_enabled(&self, id: &str, secret: &str) -> (result: bool)
        ensures
            result == (!is_blank(id@) && secret@.len() > 0 && !self.lanes.setup_running),
    {
        !blank(id) && !secret.is_empty() && !self.lanes.setup_running
    }

    /// The chosen recording, where it is listed: the first of its name.
    pub fn selected_take(&self) -> (result: Option<&Take>)
        ensures
            match result {
                Some(take) => exists|i: int|
                    {
                        &&& 0 <= i < self@.takes.len()
                        &&& #[trigger] self@.takes[i] == take@
                        &&& self@.selected_id == Some(take@.id)
                        &&& forall|j: int|
                            0 <= j < i ==> self@.selected_id != Some(
                                (#[trigger] self@.takes[j]).id,
                            )
                    },
                None => forall|i: int|
                    0 <= i < self@.takes.len() ==> self@.selected_id != Some(
                        (#[trigger] self@.takes[i]).id,
                    ),
            },
    {
        let mut index: usize = 0;
        while index < self.takes.len()
            invariant
                index <= self.takes@.len(),
                forall|i: int|
                    0 <= i < index ==> self@.selected_id != Some((#[trigger] self@.takes[i]).id),
            decreases self.takes@.len() - index,
        {
            assert(self@.takes[index as int] == self.takes@[index as int]@);
            if let Some(selected) = &self.selected_id {
                if *selected == self.takes[index].id {
                    return Some(&self.takes[index]);
                }
            }
            index += 1;
        }
        None
    }
}

fn outcome_banner(status: &StatusSnapshot, dismiss: Option<bool>) -> (result: Option<Banner>)
    ensures
        match status@.outcome {
            Some(outcome) => if outcome.dismissed {
                result is None
            } else {
                result is Some && result->0@ == (BannerView {
                    message: outcome.message,
                    error: outcome.error,
                    attention: is_persistent(outcome),
                    dismiss,
                    event_id: outcome.event_id,
                })
            },
            None => result is None,
        },
{
    match &status.outcome {
        Some(outcome) => {
            if outcome.dismissed {
                None
            } else {
                Some(
                    Banner {
                        message: outcome.message.clone(),
                        error: outcome.error.clone(),
                        attention: persistent(outcome),
                        dismiss,
                        event_id: outcome.event_id,
                    },
                )
            }
        },
        None => None,
    }
}

fn notice_banner(status: &StatusSnapshot, dismiss: Option<bool>) -> (result: Option<Banner>)
    ensures
        match status@.notice {
            Some(notice) => result is Some && result->0@ == (BannerView {
                message: notice.message,
                error: None,
                attention: false,
                dismiss,
                event_id: notice.event_id,
            }),
            None => result is None,
        },
{
    match &status.notice {
        Some(notice) => Some(
            Banner {
                message: notice.message.clone(),
                error: None,
                attention: false,
                dismiss,
                event_id: notice.event_id,
            },
        ),
        None => None,
    }
}

fn without_trailing_space(text: &String) -> (result: String)
    ensures
        result@ == trim_end(text@),
{
    let chars = chars_of(text.as_str());
    let end: usize = drop_white_space(&chars, 0, chars.len());
    assert(chars@.subrange(0, chars@.len() as int) =~= text@);
    text_of(&chars, 0, end)
}

/// An action is only offered where what it needs is there and the daemon can do it.
pub proof fn offers_need_artifacts(
    window: ActionsWindowView,
    take: TakeView,
    time: Option<LocalTime>,
    days: CalendarDays,
)
    ensures
        ({
            let panel = window.take_panel(take, time, days);
            &&& panel.copy ==> take.text_available && panel.online
            &&& panel.local || panel.remote ==> take.audio_available && panel.online
            &&& panel.forget ==> window.daemon_idle()
        }),
{
}

} // verus!
