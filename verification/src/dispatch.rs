//! Mapping a resolved state to at most one action, and the record of the
//! one action allowed in flight at a time. The dispatcher refuses to act on
//! a blocking state and refuses a second dispatch while an action runs; the
//! caller performs the planned action and reports the terminal event back.

use vstd::prelude::*;

use crate::diff::{DiffModel, VersionDiff};
use crate::patch::{spec_actionable, PatchInfo, PatchStatus};
use crate::state::{spec_blocking, LauncherState, StateModel};

verus! {

/// One long-running action a resolved state maps to.
#[derive(Debug)]
pub enum Action {
    /// Start the game (also the path for a predownload-capable or
    /// patch-unavailable install, which is playable as it stands).
    Launch,
    /// Relocate the legacy folder layout, then optionally remove the
    /// cleanup folder.
    MigrateFolders { from: String, to: String, cleanup_folder: Option<String> },
    /// Apply an actionable patch.
    ApplyPatch(PatchInfo),
    /// Download a default compatible runtime build.
    DownloadWine,
    /// Initialize the runtime's environment prefix.
    CreatePrefix,
    /// Download the artifact a diff demands, staging it in the temporary
    /// folder first.
    DownloadDiff(VersionDiff),
}

/// Mathematical model of an [`Action`].
pub enum ActionModel {
    Launch,
    MigrateFolders { from: Seq<char>, to: Seq<char>, cleanup_folder: Option<Seq<char>> },
    ApplyPatch(PatchInfo),
    DownloadWine,
    CreatePrefix,
    DownloadDiff(DiffModel),
}

impl View for Action {
    type V = ActionModel;

    open spec fn view(&self) -> ActionModel {
        match self {
            Action::Launch => ActionModel::Launch,
            Action::MigrateFolders { from, to, cleanup_folder } => ActionModel::MigrateFolders {
                from: from@,
                to: to@,
                cleanup_folder: match cleanup_folder {
                    Some(c) => Some(c@),
                    None => None,
                },
            },
            Action::ApplyPatch(p) => ActionModel::ApplyPatch(*p),
            Action::DownloadWine => ActionModel::DownloadWine,
            Action::CreatePrefix => ActionModel::CreatePrefix,
            Action::DownloadDiff(d) => ActionModel::DownloadDiff(d@),
        }
    }
}

/// The model of a planned action, if one was planned.
pub open spec fn spec_planned(r: Option<Action>) -> Option<ActionModel> {
    match r {
        Some(a) => Some(a@),
        None => None,
    }
}

/// The action each state maps to, if any: blocking states and
/// non-actionable patch states map to none.
pub open spec fn spec_plan_action(s: StateModel) -> Option<ActionModel> {
    match s {
        StateModel::FolderMigrationRequired { from, to, cleanup_folder } => Some(
            ActionModel::MigrateFolders { from, to, cleanup_folder },
        ),
        StateModel::WineNotInstalled => Some(ActionModel::DownloadWine),
        StateModel::PrefixNotExists => Some(ActionModel::CreatePrefix),
        StateModel::GameNotInstalled(d) => Some(ActionModel::DownloadDiff(d)),
        StateModel::VoiceNotInstalled(d) => Some(ActionModel::DownloadDiff(d)),
        StateModel::GameOutdated(_) => None,
        StateModel::VoiceOutdated(_) => None,
        StateModel::GameUpdateAvailable(d) => Some(ActionModel::DownloadDiff(d)),
        StateModel::VoiceUpdateAvailable(d) => Some(ActionModel::DownloadDiff(d)),
        StateModel::UnityPlayerPatchAvailable(p) => spec_plan_patch_action(p),
        StateModel::XluaPatchAvailable(p) => spec_plan_patch_action(p),
        StateModel::PredownloadAvailable { .. } => Some(ActionModel::Launch),
        StateModel::Launch => Some(ActionModel::Launch),
    }
}

/// The action a patch state maps to: apply an actionable patch, launch past
/// a patch that does not exist at all, refuse an outdated or in-preparation
/// one.
pub open spec fn spec_plan_patch_action(p: PatchInfo) -> Option<ActionModel> {
    if spec_actionable(p.status) {
        Some(ActionModel::ApplyPatch(p))
    } else if p.status is NotAvailable {
        Some(ActionModel::Launch)
    } else {
        None
    }
}

/// Plans the one action for a resolved state, or refuses.
///
/// Law: a blocking state (`GameOutdated`, `VoiceOutdated`) plans no action
/// at all — no download, no progress, nothing to perform.
pub fn plan_action(state: &LauncherState) -> (r: Option<Action>)
    ensures
        spec_planned(r) == spec_plan_action(state@),
        spec_blocking(state@) ==> r is None,
{
    match state {
        LauncherState::FolderMigrationRequired { from, to, cleanup_folder } => Some(
            Action::MigrateFolders {
                from: from.clone(),
                to: to.clone(),
                cleanup_folder: match cleanup_folder {
                    Some(c) => Some(c.clone()),
                    None => None,
                },
            },
        ),
        LauncherState::WineNotInstalled => Some(Action::DownloadWine),
        LauncherState::PrefixNotExists => Some(Action::CreatePrefix),
        LauncherState::GameNotInstalled(d) => Some(Action::DownloadDiff(d.clone())),
        LauncherState::VoiceNotInstalled(d) => Some(Action::DownloadDiff(d.clone())),
        LauncherState::GameOutdated(_) => None,
        LauncherState::VoiceOutdated(_) => None,
        LauncherState::GameUpdateAvailable(d) => Some(Action::DownloadDiff(d.clone())),
        LauncherState::VoiceUpdateAvailable(d) => Some(Action::DownloadDiff(d.clone())),
        LauncherState::UnityPlayerPatchAvailable(p) => plan_patch_action(p),
        LauncherState::XluaPatchAvailable(p) => plan_patch_action(p),
        LauncherState::PredownloadAvailable { .. } => Some(Action::Launch),
        LauncherState::Launch => Some(Action::Launch),
    }
}

/// Plans the action for a patch state.
pub fn plan_patch_action(p: &PatchInfo) -> (r: Option<Action>)
    ensures
        spec_planned(r) == spec_plan_patch_action(*p),
{
    match p.status {
        PatchStatus::Testing { .. } => Some(Action::ApplyPatch(*p)),
        PatchStatus::Available { .. } => Some(Action::ApplyPatch(*p)),
        PatchStatus::NotAvailable => Some(Action::Launch),
        PatchStatus::Outdated { .. } => None,
        PatchStatus::Preparation => None,
    }
}

/// The terminal event a driver reports for its action: every driver ends
/// with exactly one of these, never silently.
#[derive(Debug)]
pub enum ActionEvent {
    Done,
    Failed(String),
}

/// The model of the last error after a terminal event.
pub open spec fn spec_error_after(e: ActionEvent) -> Option<Seq<char>> {
    match e {
        ActionEvent::Done => None,
        ActionEvent::Failed(m) => Some(m@),
    }
}

/// The model of a stored last error.
pub open spec fn spec_opt_message(o: Option<String>) -> Option<Seq<char>> {
    match o {
        Some(m) => Some(m@),
        None => None,
    }
}

/// Owns the one action allowed in flight at a time. `dispatch` plans the
/// action and marks it running; a second dispatch is refused until the
/// caller reports the terminal event through `complete`.
#[derive(Debug)]
pub struct Dispatcher {
    pub running: bool,
    pub last_error: Option<String>,
}

impl Dispatcher {
    /// A fresh dispatcher: nothing running, no recorded error.
    pub fn new() -> (r: Dispatcher)
        ensures
            !r.running,
            r.last_error is None,
    {
        Dispatcher { running: false, last_error: None }
    }

    /// Whether an action is in flight.
    pub fn is_running(&self) -> (r: bool)
        ensures
            r == self.running,
    {
        self.running
    }

    /// The error the last action failed with, if it failed.
    pub fn last_error(&self) -> (r: &Option<String>)
        ensures
            r == self.last_error,
    {
        &self.last_error
    }

    /// Plans and starts the one action for `state`.
    ///
    /// Refused while an action is already running, and refused — planning
    /// nothing, starting nothing — for a blocking or non-actionable state.
    pub fn dispatch(&mut self, state: &LauncherState) -> (r: Option<Action>)
        ensures
            old(self).running ==> r is None && *final(self) == *old(self),
            !old(self).running ==> spec_planned(r) == spec_plan_action(state@),
            !old(self).running ==> final(self).running == (r is Some),
            final(self).last_error == old(self).last_error,
            spec_blocking(state@) ==> r is None,
    {
        if self.running {
            return None;
        }
        let planned = plan_action(state);
        self.running = match &planned {
            Some(_) => true,
            None => false,
        };
        planned
    }

    /// Records the terminal event of the running action, freeing the
    /// dispatcher for the next one. A failure is kept, never swallowed.
    pub fn complete(&mut self, event: ActionEvent)
        requires
            old(self).running,
        ensures
            !final(self).running,
            spec_opt_message(final(self).last_error) == spec_error_after(event),
    {
        self.running = false;
        self.last_error = match event {
            ActionEvent::Done => None,
            ActionEvent::Failed(m) => Some(m),
        };
    }
}

} // verus!
