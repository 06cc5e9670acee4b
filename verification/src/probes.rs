//! The facts resolution works from. The caller gathers them — filesystem
//! checks, metadata fetches through the game's SDK — and hands them in as
//! plain values; fetches that can fail arrive as `Result`s and abort
//! resolution when the resolver reaches them.

use vstd::prelude::*;

use crate::diff::{DiffModel, VersionDiff};
use crate::error::ProbeError;
use crate::patch::PatchInfo;

verus! {

/// A detected legacy install layout that must be relocated before anything
/// else is safe: move `from` to `to`, then optionally remove
/// `cleanup_folder`.
#[derive(Debug)]
pub struct FolderMigration {
    pub from: String,
    pub to: String,
    pub cleanup_folder: Option<String>,
}

/// Mathematical model of a [`FolderMigration`].
pub struct MigrationModel {
    pub from: Seq<char>,
    pub to: Seq<char>,
    pub cleanup_folder: Option<Seq<char>>,
}

impl View for FolderMigration {
    type V = MigrationModel;

    open spec fn view(&self) -> MigrationModel {
        MigrationModel {
            from: self.from@,
            to: self.to@,
            cleanup_folder: match &self.cleanup_folder {
                Some(c) => Some(c@),
                None => None,
            },
        }
    }
}

impl Clone for FolderMigration {
    /// Cloning keeps the model: same paths.
    fn clone(&self) -> (r: FolderMigration)
        ensures
            r@ == self@,
    {
        FolderMigration {
            from: self.from.clone(),
            to: self.to.clone(),
            cleanup_folder: match &self.cleanup_folder {
                Some(c) => Some(c.clone()),
                None => None,
            },
        }
    }
}

/// The model of a fetched version diff, or of the probe failure.
pub open spec fn diff_result_model(r: Result<VersionDiff, ProbeError>) -> Result<
    DiffModel,
    Seq<char>,
> {
    match r {
        Ok(d) => Ok(d@),
        Err(e) => Err(e@),
    }
}

/// The model of a fetched patch info, or of the probe failure.
pub open spec fn patch_result_model(r: Result<PatchInfo, ProbeError>) -> Result<
    PatchInfo,
    Seq<char>,
> {
    match r {
        Ok(p) => Ok(p),
        Err(e) => Err(e@),
    }
}

/// The model of a probed boolean, or of the probe failure.
pub open spec fn bool_result_model(r: Result<bool, ProbeError>) -> Result<bool, Seq<char>> {
    match r {
        Ok(b) => Ok(b),
        Err(e) => Err(e@),
    }
}

/// The models of the fetched per-locale version diffs.
pub open spec fn diff_results_model(s: Seq<Result<VersionDiff, ProbeError>>) -> Seq<
    Result<DiffModel, Seq<char>>,
> {
    s.map_values(|r: Result<VersionDiff, ProbeError>| diff_result_model(r))
}

/// Everything one resolution attempt works from, probed by the caller
/// immediately before the attempt.
#[derive(Debug)]
pub struct Probes {
    /// A detected legacy install layout, if any.
    pub migration: Option<FolderMigration>,
    /// Whether a compatibility runtime is selected and present on disk.
    pub wine_installed: bool,
    /// Whether the selected runtime's environment prefix is initialized.
    pub prefix_exists: bool,
    /// The base-game version diff.
    pub game_diff: Result<VersionDiff, ProbeError>,
    /// One version diff per configured voice locale, in configuration order.
    pub voice_diffs: Vec<Result<VersionDiff, ProbeError>>,
    /// The UnityPlayer patch metadata.
    pub unity_patch: Result<PatchInfo, ProbeError>,
    /// Whether the UnityPlayer patch is applied to the install path.
    pub unity_applied: Result<bool, ProbeError>,
    /// The xlua patch metadata; consulted only when the xlua patch is enabled.
    pub xlua_patch: Result<PatchInfo, ProbeError>,
    /// Whether the xlua patch is applied to the install path.
    pub xlua_applied: Result<bool, ProbeError>,
}

/// Mathematical model of [`Probes`].
pub struct ProbesModel {
    pub migration: Option<MigrationModel>,
    pub wine_installed: bool,
    pub prefix_exists: bool,
    pub game_diff: Result<DiffModel, Seq<char>>,
    pub voice_diffs: Seq<Result<DiffModel, Seq<char>>>,
    pub unity_patch: Result<PatchInfo, Seq<char>>,
    pub unity_applied: Result<bool, Seq<char>>,
    pub xlua_patch: Result<PatchInfo, Seq<char>>,
    pub xlua_applied: Result<bool, Seq<char>>,
}

impl View for Probes {
    type V = ProbesModel;

    open spec fn view(&self) -> ProbesModel {
        ProbesModel {
            migration: match &self.migration {
                Some(m) => Some(m@),
                None => None,
            },
            wine_installed: self.wine_installed,
            prefix_exists: self.prefix_exists,
            game_diff: diff_result_model(self.game_diff),
            voice_diffs: diff_results_model(self.voice_diffs@),
            unity_patch: patch_result_model(self.unity_patch),
            unity_applied: bool_result_model(self.unity_applied),
            xlua_patch: patch_result_model(self.xlua_patch),
            xlua_applied: bool_result_model(self.xlua_applied),
        }
    }
}

} // verus!
