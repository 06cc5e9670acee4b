//! The single authoritative launcher state: the mutually exclusive outcome
//! of one resolution attempt. The variants are listed in the priority order
//! the resolver applies — the first matching condition wins, so a blocking
//! condition near the top always pre-empts version and patch concerns below
//! it.

use vstd::prelude::*;

use crate::diff::{DiffModel, VersionDiff};
use crate::patch::PatchInfo;

verus! {

/// The models of a sequence of diffs.
pub open spec fn seq_of_models(s: Seq<VersionDiff>) -> Seq<DiffModel> {
    s.map_values(|d: VersionDiff| d@)
}

/// What the user should do next, exactly one variant at a time.
#[derive(Debug)]
pub enum LauncherState {
    /// A deprecated install layout was detected; it must be relocated before
    /// anything else is safe.
    FolderMigrationRequired { from: String, to: String, cleanup_folder: Option<String> },
    /// No compatibility runtime is selected or present.
    WineNotInstalled,
    /// The selected runtime's environment prefix is not initialized.
    PrefixNotExists,
    /// The base game is absent locally.
    GameNotInstalled(VersionDiff),
    /// A selected voice locale is absent locally.
    VoiceNotInstalled(VersionDiff),
    /// The installed game version is breaking-incompatible with remote;
    /// blocks launch, and no simple diff update is offered.
    GameOutdated(VersionDiff),
    /// An installed voice package is breaking-incompatible with remote.
    VoiceOutdated(VersionDiff),
    /// A non-breaking game update is available.
    GameUpdateAvailable(VersionDiff),
    /// A non-breaking voice package update is available.
    VoiceUpdateAvailable(VersionDiff),
    /// The game is up to date but the mandatory UnityPlayer patch is
    /// actionable and not yet applied.
    UnityPlayerPatchAvailable(PatchInfo),
    /// The game is up to date but the enabled xlua patch is actionable and
    /// not yet applied.
    XluaPatchAvailable(PatchInfo),
    /// Everything is current and playable, but a future version's artifacts
    /// can be fetched ahead of time: the game's, plus those voice locales
    /// that also have one.
    PredownloadAvailable { game: VersionDiff, voices: Vec<VersionDiff> },
    /// Fully ready.
    Launch,
}

/// Mathematical model of a [`LauncherState`].
pub enum StateModel {
    FolderMigrationRequired { from: Seq<char>, to: Seq<char>, cleanup_folder: Option<Seq<char>> },
    WineNotInstalled,
    PrefixNotExists,
    GameNotInstalled(DiffModel),
    VoiceNotInstalled(DiffModel),
    GameOutdated(DiffModel),
    VoiceOutdated(DiffModel),
    GameUpdateAvailable(DiffModel),
    VoiceUpdateAvailable(DiffModel),
    UnityPlayerPatchAvailable(PatchInfo),
    XluaPatchAvailable(PatchInfo),
    PredownloadAvailable { game: DiffModel, voices: Seq<DiffModel> },
    Launch,
}

impl View for LauncherState {
    type V = StateModel;

    open spec fn view(&self) -> StateModel {
        match self {
            LauncherState::FolderMigrationRequired { from, to, cleanup_folder } => StateModel::FolderMigrationRequired {
                from: from@,
                to: to@,
                cleanup_folder: match cleanup_folder {
                    Some(c) => Some(c@),
                    None => None,
                },
            },
            LauncherState::WineNotInstalled => StateModel::WineNotInstalled,
            LauncherState::PrefixNotExists => StateModel::PrefixNotExists,
            LauncherState::GameNotInstalled(d) => StateModel::GameNotInstalled(d@),
            LauncherState::VoiceNotInstalled(d) => StateModel::VoiceNotInstalled(d@),
            LauncherState::GameOutdated(d) => StateModel::GameOutdated(d@),
            LauncherState::VoiceOutdated(d) => StateModel::VoiceOutdated(d@),
            LauncherState::GameUpdateAvailable(d) => StateModel::GameUpdateAvailable(d@),
            LauncherState::VoiceUpdateAvailable(d) => StateModel::VoiceUpdateAvailable(d@),
            LauncherState::UnityPlayerPatchAvailable(p) => StateModel::UnityPlayerPatchAvailable(
                *p,
            ),
            LauncherState::XluaPatchAvailable(p) => StateModel::XluaPatchAvailable(*p),
            LauncherState::PredownloadAvailable { game, voices } => StateModel::PredownloadAvailable {
                game: game@,
                voices: seq_of_models(voices@),
            },
            LauncherState::Launch => StateModel::Launch,
        }
    }
}

/// In a blocking state the main control must not offer an action: a
/// breaking-incompatible install can only be repaired, never updated or
/// launched.
pub open spec fn spec_blocking(s: StateModel) -> bool {
    s is GameOutdated || s is VoiceOutdated
}

impl LauncherState {
    /// Whether this state blocks every action (breaking-incompatible
    /// install).
    pub fn is_blocking(&self) -> (r: bool)
        ensures
            r == spec_blocking(self@),
    {
        match self {
            LauncherState::GameOutdated(_) => true,
            LauncherState::VoiceOutdated(_) => true,
            _ => false,
        }
    }
}

} // verus!
