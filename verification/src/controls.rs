//! Decisions the main window makes from the resolved state: whether the
//! action control is offered at all, what it is labelled, whether an action
//! should be chained automatically after a re-resolution, and what the
//! predownload control shows and queues.

use vstd::prelude::*;

use crate::diff::{DiffModel, VersionDiff};
use crate::patch::spec_actionable;
use crate::state::{seq_of_models, LauncherState, StateModel};

verus! {

/// What the main action control is labelled.
#[derive(Clone, Copy, Debug, PartialEq, Eq, Structural)]
pub enum ControlLabel {
    /// Start the game.
    Launch,
    /// Relocate the legacy folder layout.
    MigrateFolders,
    /// Apply the patch.
    ApplyPatch,
    /// Download a compatibility runtime.
    DownloadWine,
    /// Initialize the runtime prefix.
    CreatePrefix,
    /// Continue a partial download found in the staging folder.
    Resume,
    /// Download an update.
    Update,
    /// Install from scratch.
    Download,
    /// No state resolved yet.
    Pending,
}

/// The model of an optional resolved state (`None` while resolution has not
/// succeeded yet).
pub open spec fn spec_opt_state(s: Option<LauncherState>) -> Option<StateModel> {
    match s {
        Some(st) => Some(st@),
        None => None,
    }
}

/// The label the main control carries for a state. `partial_present` says
/// whether the staging folder already holds a file named like the state's
/// artifact, in which case an update offers to resume it.
pub open spec fn spec_control_label(s: Option<StateModel>, partial_present: bool) -> ControlLabel {
    match s {
        None => ControlLabel::Pending,
        Some(st) => match st {
            StateModel::Launch => ControlLabel::Launch,
            StateModel::PredownloadAvailable { .. } => ControlLabel::Launch,
            StateModel::FolderMigrationRequired { .. } => ControlLabel::MigrateFolders,
            StateModel::UnityPlayerPatchAvailable(_) => ControlLabel::ApplyPatch,
            StateModel::XluaPatchAvailable(_) => ControlLabel::ApplyPatch,
            StateModel::WineNotInstalled => ControlLabel::DownloadWine,
            StateModel::PrefixNotExists => ControlLabel::CreatePrefix,
            StateModel::GameUpdateAvailable(_) => if partial_present {
                ControlLabel::Resume
            } else {
                ControlLabel::Update
            },
            StateModel::GameOutdated(_) => if partial_present {
                ControlLabel::Resume
            } else {
                ControlLabel::Update
            },
            StateModel::VoiceUpdateAvailable(_) => if partial_present {
                ControlLabel::Resume
            } else {
                ControlLabel::Update
            },
            StateModel::VoiceOutdated(_) => if partial_present {
                ControlLabel::Resume
            } else {
                ControlLabel::Update
            },
            StateModel::GameNotInstalled(_) => ControlLabel::Download,
            StateModel::VoiceNotInstalled(_) => ControlLabel::Download,
        },
    }
}

/// The label the main control carries, per [`spec_control_label`].
pub fn control_label(state: &Option<LauncherState>, partial_present: bool) -> (r: ControlLabel)
    ensures
        r == spec_control_label(spec_opt_state(*state), partial_present),
{
    match state {
        None => ControlLabel::Pending,
        Some(st) => match st {
            LauncherState::Launch => ControlLabel::Launch,
            LauncherState::PredownloadAvailable { .. } => ControlLabel::Launch,
            LauncherState::FolderMigrationRequired { .. } => ControlLabel::MigrateFolders,
            LauncherState::UnityPlayerPatchAvailable(_) => ControlLabel::ApplyPatch,
            LauncherState::XluaPatchAvailable(_) => ControlLabel::ApplyPatch,
            LauncherState::WineNotInstalled => ControlLabel::DownloadWine,
            LauncherState::PrefixNotExists => ControlLabel::CreatePrefix,
            LauncherState::GameUpdateAvailable(_)
            | LauncherState::GameOutdated(_)
            | LauncherState::VoiceUpdateAvailable(_)
            | LauncherState::VoiceOutdated(_) => {
                if partial_present {
                    ControlLabel::Resume
                } else {
                    ControlLabel::Update
                }
            },
            LauncherState::GameNotInstalled(_) | LauncherState::VoiceNotInstalled(_) => ControlLabel::Download,
        },
    }
}

/// Whether the main control reacts to a click: never while the controls
/// are disabled or no state is resolved, never in a blocking state, and
/// for a patch state only when the patch is actionable.
pub open spec fn spec_control_enabled(s: Option<StateModel>, buttons_disabled: bool) -> bool {
    !buttons_disabled && match s {
        None => false,
        Some(st) => match st {
            StateModel::GameOutdated(_) => false,
            StateModel::VoiceOutdated(_) => false,
            StateModel::UnityPlayerPatchAvailable(p) => spec_actionable(p.status),
            StateModel::XluaPatchAvailable(p) => spec_actionable(p.status),
            _ => true,
        },
    }
}

/// Whether the main control reacts to a click, per [`spec_control_enabled`].
pub fn control_enabled(state: &Option<LauncherState>, buttons_disabled: bool) -> (r: bool)
    ensures
        r == spec_control_enabled(spec_opt_state(*state), buttons_disabled),
{
    if buttons_disabled {
        return false;
    }
    match state {
        None => false,
        Some(st) => match st {
            LauncherState::GameOutdated(_) => false,
            LauncherState::VoiceOutdated(_) => false,
            LauncherState::UnityPlayerPatchAvailable(p) => p.status.is_actionable(),
            LauncherState::XluaPatchAvailable(p) => p.status.is_actionable(),
            _ => true,
        },
    }
}

/// Whether a freshly resolved state should be acted on at once, for chained
/// executions: a pending download when the caller asked to continue
/// downloading, or a pending patch when it asked to patch through.
pub open spec fn spec_auto_perform(
    s: StateModel,
    perform_on_download_needed: bool,
    apply_patch_if_needed: bool,
) -> bool {
    match s {
        StateModel::GameNotInstalled(_) => perform_on_download_needed,
        StateModel::VoiceNotInstalled(_) => perform_on_download_needed,
        StateModel::GameUpdateAvailable(_) => perform_on_download_needed,
        StateModel::VoiceUpdateAvailable(_) => perform_on_download_needed,
        StateModel::UnityPlayerPatchAvailable(_) => apply_patch_if_needed,
        StateModel::XluaPatchAvailable(_) => apply_patch_if_needed,
        _ => false,
    }
}

/// Whether a freshly resolved state should be acted on at once, per
/// [`spec_auto_perform`].
pub fn auto_perform(
    state: &LauncherState,
    perform_on_download_needed: bool,
    apply_patch_if_needed: bool,
) -> (r: bool)
    ensures
        r == spec_auto_perform(state@, perform_on_download_needed, apply_patch_if_needed),
{
    match state {
        LauncherState::GameNotInstalled(_)
        | LauncherState::VoiceNotInstalled(_)
        | LauncherState::GameUpdateAvailable(_)
        | LauncherState::VoiceUpdateAvailable(_) => perform_on_download_needed,
        LauncherState::UnityPlayerPatchAvailable(_) | LauncherState::XluaPatchAvailable(_) => apply_patch_if_needed,
        _ => false,
    }
}

/// The size of a diff's artifact, counting diffs without one as zero.
pub open spec fn spec_size_or_zero(d: DiffModel) -> int {
    match d.spec_download_size() {
        Some(s) => s as int,
        None => 0,
    }
}

/// The bytes a predownload fetches in total: the game's artifact plus
/// every aggregated voice artifact.
pub open spec fn spec_predownload_size(game: DiffModel, voices: Seq<DiffModel>) -> int
    decreases voices.len(),
{
    if voices.len() == 0 {
        spec_size_or_zero(game)
    } else {
        spec_predownload_size(game, voices.drop_last()) + spec_size_or_zero(voices.last())
    }
}

/// The total size shown on the predownload control: the sum of the game's
/// and every voice artifact, saturating at `u64::MAX` rather than wrapping.
pub fn predownload_size(game: &VersionDiff, voices: &Vec<VersionDiff>) -> (r: u64)
    ensures
        r == if spec_predownload_size(game@, seq_of_models(voices@)) <= u64::MAX {
            spec_predownload_size(game@, seq_of_models(voices@))
        } else {
            u64::MAX as int
        },
{
    let ghost models = seq_of_models(voices@);
    let mut acc: u64 = match game.downloaded_size() {
        Some(s) => s,
        None => 0,
    };
    let mut i: usize = 0;
    proof {
        assert(models.subrange(0, 0) =~= Seq::<DiffModel>::empty());
    }
    while i < voices.len()
        invariant
            0 <= i <= voices.len(),
            models == seq_of_models(voices@),
            models.len() == voices@.len(),
            acc == if spec_predownload_size(game@, models.subrange(0, i as int)) <= u64::MAX {
                spec_predownload_size(game@, models.subrange(0, i as int))
            } else {
                u64::MAX as int
            },
        decreases voices.len() - i,
    {
        proof {
            assert(models.subrange(0, i as int + 1).drop_last() =~= models.subrange(0, i as int));
            assert(models.subrange(0, i as int + 1).last() == models[i as int]);
        }
        let step: u64 = match voices[i].downloaded_size() {
            Some(s) => s,
            None => 0,
        };
        if acc <= u64::MAX - step {
            acc = acc + step;
        } else {
            acc = u64::MAX;
        }
        i += 1;
    }
    proof {
        assert(models.subrange(0, models.len() as int) =~= models);
    }
    acc
}

/// Whether every predownload artifact already sits fully in the staging
/// folder (the control then only confirms): the game's file and each
/// aggregated voice file.
pub fn predownload_ready(game_present: bool, voices_present: &Vec<bool>) -> (r: bool)
    ensures
        r == (game_present && (forall|j: int|
            0 <= j < voices_present@.len() ==> voices_present@[j])),
{
    if !game_present {
        return false;
    }
    let mut i: usize = 0;
    while i < voices_present.len()
        invariant
            0 <= i <= voices_present.len(),
            forall|j: int| 0 <= j < i ==> voices_present@[j],
        decreases voices_present.len() - i,
    {
        if !voices_present[i] {
            return false;
        }
        i += 1;
    }
    true
}

/// The artifacts one predownload run fetches, in order: the game's first,
/// then the aggregated voice artifacts.
pub fn predownload_queue(game: VersionDiff, voices: Vec<VersionDiff>) -> (r: Vec<VersionDiff>)
    ensures
        seq_of_models(r@) == seq![game@] + seq_of_models(voices@),
{
    let ghost game_model = game@;
    let ghost voice_models = seq_of_models(voices@);
    let mut r = voices;
    r.insert(0, game);
    proof {
        assert(seq_of_models(r@) =~= seq![game_model] + voice_models);
    }
    r
}

} // verus!
