//! What the actions window offers, and what each offer does.

use crate::actions::panels::{ModelRow, ServiceRow};
use crate::actions::window::{lane_of, ActionKind, ActionsWindow, ActionsWindowView};
use crate::actions::{CalendarDays, LocalTime};
use crate::daemon::{Command, CommandView, Take, TakeView};
use vstd::prelude::*;
use vstd::string::*;

verus! {

/// What is done in the background.
#[derive(Debug, PartialEq, Eq)]
pub enum Action {
    Command(Command),
    InstallModel,
    Doctor,
    StoreKey { id: String, secret: String },
    StartDaemon,
}

/// What an [`Action`] holds.
pub enum ActionView {
    Command(CommandView),
    InstallModel,
    Doctor,
    StoreKey { id: Seq<char>, secret: Seq<char> },
    StartDaemon,
}

impl View for Action {
    type V = ActionView;

    open spec fn view(&self) -> ActionView {
        match *self {
            Action::Command(command) => ActionView::Command(command@),
            Action::InstallModel => ActionView::InstallModel,
            Action::Doctor => ActionView::Doctor,
            Action::StoreKey { id, secret } => ActionView::StoreKey { id: id@, secret: secret@ },
            Action::StartDaemon => ActionView::StartDaemon,
        }
    }
}

/// An action, where there is one.
pub open spec fn optional_action(action: Option<Action>) -> Option<ActionView> {
    match action {
        Some(action) => Some(action@),
        None => None,
    }
}

impl ActionView {
    /// What it does, as far as its lane and the window's closing go.
    pub open spec fn kind(self) -> ActionKind {
        match self {
            ActionView::Command(CommandView::Cancel) => ActionKind::Cancel,
            ActionView::Command(_) => ActionKind::Command,
            ActionView::InstallModel => ActionKind::InstallModel,
            ActionView::Doctor => ActionKind::Doctor,
            ActionView::StoreKey { .. } => ActionKind::StoreKey,
            ActionView::StartDaemon => ActionKind::StartDaemon,
        }
    }
}

impl Action {
    /// What it does, as far as its lane and the window's closing go.
    pub fn kind(&self) -> (result: ActionKind)
        ensures
            result == self@.kind(),
    {
        match self {
            Action::Command(Command::Cancel) => ActionKind::Cancel,
            Action::Command(_) => ActionKind::Command,
            Action::InstallModel => ActionKind::InstallModel,
            Action::Doctor => ActionKind::Doctor,
            Action::StoreKey { .. } => ActionKind::StoreKey,
            Action::StartDaemon => ActionKind::StartDaemon,
        }
    }
}

/// What the first panel offers.
#[derive(Clone, Copy, Debug, PartialEq, Eq, Structural)]
pub enum StatusOffer {
    Start,
    Stop,
    Cancel,
    /// Of the banner with the given number.
    Dismiss { event_id: u64 },
}

impl StatusOffer {
    /// What it does. A start is one of the daemon, never of a recording.
    pub open spec fn action(self) -> ActionView {
        match self {
            StatusOffer::Start => ActionView::StartDaemon,
            StatusOffer::Stop => ActionView::Command(CommandView::Stop),
            StatusOffer::Cancel => ActionView::Command(CommandView::Cancel),
            StatusOffer::Dismiss { event_id } => ActionView::Command(
                CommandView::Dismiss { event_id: Some(event_id) },
            ),
        }
    }

    /// What is said while it is done.
    pub open spec fn progress(self) -> Seq<char> {
        match self {
            StatusOffer::Start => "Starting Cantrip…"@,
            _ => "Applying action…"@,
        }
    }

    /// The words on its button.
    pub open spec fn label(self) -> Seq<char> {
        match self {
            StatusOffer::Start => "Start Cantrip"@,
            StatusOffer::Stop => "Stop recording"@,
            StatusOffer::Cancel => "Cancel without delivering"@,
            StatusOffer::Dismiss { .. } => "Dismiss"@,
        }
    }

    /// The words on its button.
    pub fn words(self) -> (result: &'static str)
        ensures
            result@ == self.label(),
    {
        match self {
            StatusOffer::Start => "Start Cantrip",
            StatusOffer::Stop => "Stop recording",
            StatusOffer::Cancel => "Cancel without delivering",
            StatusOffer::Dismiss { .. } => "Dismiss",
        }
    }

    /// What it does.
    pub fn act(self) -> (result: Action)
        ensures
            result@ == self.action(),
    {
        match self {
            StatusOffer::Start => Action::StartDaemon,
            StatusOffer::Stop => Action::Command(Command::Stop),
            StatusOffer::Cancel => Action::Command(Command::Cancel),
            StatusOffer::Dismiss { event_id } => Action::Command(
                Command::Dismiss { event_id: Some(event_id) },
            ),
        }
    }
}

/// What is offered for a recording.
#[derive(Clone, Copy, Debug, PartialEq, Eq, Structural)]
pub enum TakeOffer {
    Copy,
    RecoverLocally,
    RecoverWithProvider,
}

impl TakeOffer {
    /// What it does with a recording. Nothing of it types into another window, and only
    /// the one that says so uses the configured provider.
    pub open spec fn action(self, take: TakeView) -> ActionView {
        ActionView::Command(
            match self {
                TakeOffer::Copy => CommandView::Copy { id: take.id },
                TakeOffer::RecoverLocally => CommandView::Recover {
                    id: Some(take.id),
                    local: true,
                    clipboard: true,
                },
                TakeOffer::RecoverWithProvider => CommandView::Recover {
                    id: Some(take.id),
                    local: false,
                    clipboard: true,
                },
            },
        )
    }

    /// The words on its button.
    pub open spec fn label(self) -> Seq<char> {
        match self {
            TakeOffer::Copy => "Copy transcript"@,
            TakeOffer::RecoverLocally => "Recover locally"@,
            TakeOffer::RecoverWithProvider => "Recover with provider"@,
        }
    }

    /// The words on its button.
    pub fn words(self) -> (result: &'static str)
        ensures
            result@ == self.label(),
    {
        match self {
            TakeOffer::Copy => "Copy transcript",
            TakeOffer::RecoverLocally => "Recover locally",
            TakeOffer::RecoverWithProvider => "Recover with provider",
        }
    }

    /// What it does with a recording.
    pub fn act(self, take: &Take) -> (result: Action)
        ensures
            result@ == self.action(take@),
    {
        let id = take.id.clone();
        Action::Command(
            match self {
                TakeOffer::Copy => Command::Copy { id },
                TakeOffer::RecoverLocally => Command::Recover {
                    id: Some(id),
                    local: true,
                    clipboard: true,
                },
                TakeOffer::RecoverWithProvider => Command::Recover {
                    id: Some(id),
                    local: false,
                    clipboard: true,
                },
            },
        )
    }
}

/// What the setup panel offers.
#[derive(Clone, Copy, Debug, PartialEq, Eq, Structural)]
pub enum SetupOffer {
    Install,
    Reload,
    Start,
    Check,
}

impl SetupOffer {
    /// What it does.
    pub open spec fn action(self) -> ActionView {
        match self {
            SetupOffer::Install => ActionView::InstallModel,
            SetupOffer::Reload => ActionView::Command(CommandView::Reload),
            SetupOffer::Start => ActionView::StartDaemon,
            SetupOffer::Check => ActionView::Doctor,
        }
    }

    /// What is said while it is done.
    pub open spec fn progress(self) -> Seq<char> {
        match self {
            SetupOffer::Install => "Downloading and verifying the local model…"@,
            SetupOffer::Reload => "Reloading configuration…"@,
            SetupOffer::Start => "Starting Cantrip…"@,
            SetupOffer::Check => "Checking setup…"@,
        }
    }

    /// The words on its button.
    pub open spec fn label(self) -> Seq<char> {
        match self {
            SetupOffer::Install => "Install local model"@,
            SetupOffer::Reload => "Reload configuration"@,
            SetupOffer::Start => "Start Cantrip"@,
            SetupOffer::Check => "Check setup"@,
        }
    }

    /// The words on its button.
    pub fn words(self) -> (result: &'static str)
        ensures
            result@ == self.label(),
    {
        match self {
            SetupOffer::Install => "Install local model",
            SetupOffer::Reload => "Reload configuration",
            SetupOffer::Start => "Start Cantrip",
            SetupOffer::Check => "Check setup",
        }
    }

    /// What it does.
    pub fn act(self) -> (result: Action)
        ensures
            result@ == self.action(),
    {
        match self {
            SetupOffer::Install => Action::InstallModel,
            SetupOffer::Reload => Action::Command(Command::Reload),
            SetupOffer::Start => Action::StartDaemon,
            SetupOffer::Check => Action::Doctor,
        }
    }
}

/// What is said beside a recording.
#[derive(Clone, Copy, Debug, PartialEq, Eq, Structural)]
pub enum TakeHint {
    Offline,
    PartialText,
    NoAudio,
    Local,
    Remote,
    Forget,
}

impl TakeHint {
    /// In words.
    pub open spec fn text(self) -> Seq<char> {
        match self {
            TakeHint::Offline => "Copy, recovery and Forget need Cantrip running."@,
            TakeHint::PartialText => "Saved text is partial. Recover the whole take before replacing text in your document."@,
            TakeHint::NoAudio => "No audio is available to transcribe again."@,
            TakeHint::Local => "Recover locally transcribes again with installed Parakeet and copies the result. Audio stays here; no cloud cleanup."@,
            TakeHint::Remote => "Recover with provider sends audio to your configured STT endpoint and copies the result; configured cleanup may also run. No automatic cloud fallback."@,
            TakeHint::Forget => "Deletes retained audio and incomplete text. Complete transcript text is kept."@,
        }
    }

    /// In words.
    pub fn words(self) -> (result: &'static str)
        ensures
            result@ == self.text(),
    {
        match self {
            TakeHint::Offline => "Copy, recovery and Forget need Cantrip running.",
            TakeHint::PartialText => "Saved text is partial. Recover the whole take before replacing text in your document.",
            TakeHint::NoAudio => "No audio is available to transcribe again.",
            TakeHint::Local => "Recover locally transcribes again with installed Parakeet and copies the result. Audio stays here; no cloud cleanup.",
            TakeHint::Remote => "Recover with provider sends audio to your configured STT endpoint and copies the result; configured cleanup may also run. No automatic cloud fallback.",
            TakeHint::Forget => "Deletes retained audio and incomplete text. Complete transcript text is kept.",
        }
    }
}

/// What is said in the window whatever it shows.
#[derive(Clone, Copy, Debug, PartialEq, Eq, Structural)]
pub enum WindowNote {
    Privacy,
    Gone,
    Model,
    Settings,
    ForgetDeletes,
    ForgetKeeps,
    ForgetLasts,
    Keyring,
    Keyboard,
}

impl WindowNote {
    /// In words.
    pub open spec fn text(self) -> Seq<char> {
        match self {
            WindowNote::Privacy => "Only recording details appear here. Copy replaces your clipboard; nothing is typed into another app."@,
            WindowNote::Gone => "This recording is no longer available. Choose another recording explicitly."@,
            WindowNote::Model => "Local recovery needs the Parakeet model. Downloads model files, not your recordings."@,
            WindowNote::Settings => "Correct it in Settings; retained recordings are unchanged."@,
            WindowNote::ForgetDeletes => "Deletes its retained audio and any incomplete transcript, and clears it from Waiting."@,
            WindowNote::ForgetKeeps => "Keeps complete archived transcript text."@,
            WindowNote::ForgetLasts => "This can't be undone."@,
            WindowNote::Keyring => "The key is saved in the OS keyring, never in configuration. Use the same key ID in Settings; saving replaces any key with this ID."@,
            WindowNote::Keyboard => "↑ ↓ browse recordings · Enter or Space chooses · Esc closes without deleting"@,
        }
    }

    /// In words.
    pub fn words(self) -> (result: &'static str)
        ensures
            result@ == self.text(),
    {
        match self {
            WindowNote::Privacy => "Only recording details appear here. Copy replaces your clipboard; nothing is typed into another app.",
            WindowNote::Gone => "This recording is no longer available. Choose another recording explicitly.",
            WindowNote::Model => "Local recovery needs the Parakeet model. Downloads model files, not your recordings.",
            WindowNote::Settings => "Correct it in Settings; retained recordings are unchanged.",
            WindowNote::ForgetDeletes => "Deletes its retained audio and any incomplete transcript, and clears it from Waiting.",
            WindowNote::ForgetKeeps => "Keeps complete archived transcript text.",
            WindowNote::ForgetLasts => "This can't be undone.",
            WindowNote::Keyring => "The key is saved in the OS keyring, never in configuration. Use the same key ID in Settings; saving replaces any key with this ID.",
            WindowNote::Keyboard => "↑ ↓ browse recordings · Enter or Space chooses · Esc closes without deleting",
        }
    }
}

impl ActionsWindowView {
    /// With an action under way, and what is to be performed: nothing where its lane is
    /// occupied.
    pub open spec fn started(self, action: ActionView, message: Seq<char>) -> (
        ActionsWindowView,
        Option<ActionView>,
    ) {
        (
            self.submitted(action.kind(), message),
            if self.lanes.occupied(lane_of(action.kind())) {
                None
            } else {
                Some(action)
            },
        )
    }

    /// After a click on an offer of the first panel.
    pub open spec fn status_clicked(self, offer: StatusOffer) -> (
        ActionsWindowView,
        Option<ActionView>,
    ) {
        self.started(offer.action(), offer.progress())
    }

    /// After a click on an offer for a recording.
    pub open spec fn take_clicked(self, take: TakeView, offer: TakeOffer) -> (
        ActionsWindowView,
        Option<ActionView>,
    ) {
        self.started(offer.action(take), "Applying recording action…"@)
    }

    /// After a click on an offer of the setup panel.
    pub open spec fn setup_clicked(self, offer: SetupOffer) -> (
        ActionsWindowView,
        Option<ActionView>,
    ) {
        self.started(offer.action(), offer.progress())
    }

    /// After the confirmation that the recording in question is to be forgotten.
    pub open spec fn forget_confirmed(self) -> (ActionsWindowView, Option<ActionView>) {
        let answered = ActionsWindowView { forget: None, ..self };
        match self.forget {
            Some(take) => answered.started(
                ActionView::Command(CommandView::Forget { id: take.id }),
                "Forgetting this recording…"@,
            ),
            None => (answered, None),
        }
    }
}

impl ActionsWindow {
    /// Begin an action; what is to be performed.
    pub fn start(&mut self, action: Action, message: &str) -> (result: Option<Action>)
        ensures
            (final(self)@, optional_action(result)) == old(self)@.started(action@, message@),
    {
        if self.submit(action.kind(), message) {
            Some(action)
        } else {
            None
        }
    }

    /// Take in a click on an offer of the first panel.
    pub fn click_status(&mut self, offer: StatusOffer) -> (result: Option<Action>)
        ensures
            (final(self)@, optional_action(result)) == old(self)@.status_clicked(offer),
    {
        let message = match offer {
            StatusOffer::Start => "Starting Cantrip…",
            _ => "Applying action…",
        };
        self.start(offer.act(), message)
    }

    /// Take in a click on an offer for a recording.
    pub fn click_take(&mut self, take: &Take, offer: TakeOffer) -> (result: Option<Action>)
        ensures
            (final(self)@, optional_action(result)) == old(self)@.take_clicked(take@, offer),
    {
        self.start(offer.act(take), "Applying recording action…")
    }

    /// Take in a click on an offer of the setup panel.
    pub fn click_setup(&mut self, offer: SetupOffer) -> (result: Option<Action>)
        ensures
            (final(self)@, optional_action(result)) == old(self)@.setup_clicked(offer),
    {
        let message = match offer {
            SetupOffer::Install => "Downloading and verifying the local model…",
            SetupOffer::Reload => "Reloading configuration…",
            SetupOffer::Start => "Starting Cantrip…",
            SetupOffer::Check => "Checking setup…",
        };
        self.start(offer.act(), message)
    }

    /// Take in the confirmation that the recording in question is to be forgotten.
    pub fn confirm_forget(&mut self) -> (result: Option<Action>)
        ensures
            (final(self)@, optional_action(result)) == old(self)@.forget_confirmed(),
    {
        match self.answer_forget(true) {
            Some(take) => self.start(
                Action::Command(Command::Forget { id: take.id }),
                "Forgetting this recording…",
            ),
            None => None,
        }
    }

    /// Take in a key that is to be stored.
    pub fn store_key(&mut self, id: String, secret: String) -> (result: Option<Action>)
        ensures
            (final(self)@, optional_action(result)) == old(self)@.started(
                ActionView::StoreKey { id: id@, secret: secret@ },
                "Saving the key in the OS keyring…"@,
            ),
    {
        self.start(Action::StoreKey { id, secret }, "Saving the key in the OS keyring…")
    }
}

/// What the first panel offers for use is done when it is clicked, and dismisses only
/// the banner that it belongs to.
pub proof fn status_offers_act(window: ActionsWindowView)
    ensures
        ({
            let panel = window.status_panel();
            &&& panel.start == Some(true) ==> window.status_clicked(StatusOffer::Start).1 == Some(
                ActionView::StartDaemon,
            )
            &&& panel.stop == Some(true) ==> window.status_clicked(StatusOffer::Stop).1 == Some(
                ActionView::Command(CommandView::Stop),
            )
            &&& panel.cancel == Some(true) ==> window.status_clicked(StatusOffer::Cancel).1 == Some(
                ActionView::Command(CommandView::Cancel),
            )
            &&& panel.outcome is Some && panel.outcome->0.dismiss == Some(true)
                ==> window.status_clicked(
                StatusOffer::Dismiss { event_id: panel.outcome->0.event_id },
            ).1 == Some(
                ActionView::Command(
                    CommandView::Dismiss { event_id: Some(window.status()->0.outcome->0.event_id) },
                ),
            )
            &&& panel.notice is Some && panel.notice->0.dismiss == Some(true)
                ==> window.status_clicked(
                StatusOffer::Dismiss { event_id: panel.notice->0.event_id },
            ).1 == Some(
                ActionView::Command(
                    CommandView::Dismiss { event_id: Some(window.status()->0.notice->0.event_id) },
                ),
            )
        }),
{
}

/// What is offered for a recording is done with that recording, and nothing that is
/// offered for it sends keys.
pub proof fn take_offers_act(
    window: ActionsWindowView,
    take: TakeView,
    time: Option<LocalTime>,
    days: CalendarDays,
    offer: TakeOffer,
)
    requires
        window.take_panel(take, time, days).enabled,
    ensures
        window.take_clicked(take, offer).1 == Some(offer.action(take)),
        match offer.action(take) {
            ActionView::Command(CommandView::Copy { id }) => id == take.id,
            ActionView::Command(CommandView::Recover { id, clipboard, .. }) => id == Some(take.id)
                && clipboard,
            _ => false,
        },
{
}

/// What the setup panel offers for use is done when it is clicked.
pub proof fn setup_offers_act(window: ActionsWindowView)
    ensures
        ({
            let panel = window.setup_panel();
            &&& panel.model == (ModelRow::Missing { install: true }) ==> window.setup_clicked(
                SetupOffer::Install,
            ).1 == Some(ActionView::InstallModel)
            &&& panel.service == (ServiceRow::Running { reload: true }) ==> window.setup_clicked(
                SetupOffer::Reload,
            ).1 == Some(ActionView::Command(CommandView::Reload))
            &&& panel.service == (ServiceRow::Stopped { start: true }) ==> window.setup_clicked(
                SetupOffer::Start,
            ).1 == Some(ActionView::StartDaemon)
            &&& panel.idle ==> window.setup_clicked(SetupOffer::Check).1 == Some(ActionView::Doctor)
        }),
{
}

/// An installation can be stopped once: after that its offer is disabled, whether it was
/// stopped by a click or by a closing window, until another one is started.
pub proof fn installation_stops_once(window: ActionsWindowView)
    requires
        window.observation is Some,
        window.lanes.installing,
    ensures
        ({
            let stopped = window.installation_cancelled();
            &&& stopped.setup_panel().model == (ModelRow::Installing { cancelled: true })
            &&& stopped.installation_cancelled() == stopped
            &&& !window.lanes.install_cancelled ==> stopped.setup_message
                == "Stopping model installation and cleaning temporary files…"@
        }),
        window.lanes.setup_close_guard ==> window.close_asked().0.setup_panel().model == (
        ModelRow::Installing { cancelled: true }),
{
}

/// A new installation is not one that is stopping.
pub proof fn new_installation_runs(window: ActionsWindowView)
    requires
        window.observation is Some,
        !window.lanes.setup_running,
    ensures
        window.setup_clicked(SetupOffer::Install).0.setup_panel().model == (ModelRow::Installing {
            cancelled: false,
        }),
{
}

} // verus!
