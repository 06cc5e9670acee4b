//! The relationship between an installed artifact (game build or voice
//! package) and the remote latest version, as computed by the version
//! probe. Diffs that carry an artifact to download also carry the
//! deterministic file name used as the download / resume marker, and a
//! best-effort size estimate.

use vstd::prelude::*;

use crate::version::Version;

verus! {

/// How an installed artifact relates to the remote latest version.
#[derive(Debug)]
pub enum VersionDiff {
    /// Installed and remote match; nothing to do.
    Latest { version: Version },
    /// Remote offers a future version for optional early download while the
    /// current one remains playable.
    Predownload { current: Version, latest: Version, file_name: String, size: u64 },
    /// Remote is newer; an update is required before continued play.
    Diff { current: Version, latest: Version, file_name: String, size: u64 },
    /// Installed version is too old for an incremental update; blocking.
    Outdated { current: Version, latest: Version },
    /// Nothing installed; a full install is required.
    NotInstalled { latest: Version, file_name: String, size: u64 },
}

/// Mathematical model of a [`VersionDiff`]: file names become character
/// sequences so contracts can speak about them.
pub enum DiffModel {
    Latest { version: Version },
    Predownload { current: Version, latest: Version, file_name: Seq<char>, size: u64 },
    Diff { current: Version, latest: Version, file_name: Seq<char>, size: u64 },
    Outdated { current: Version, latest: Version },
    NotInstalled { latest: Version, file_name: Seq<char>, size: u64 },
}

impl View for VersionDiff {
    type V = DiffModel;

    open spec fn view(&self) -> DiffModel {
        match self {
            VersionDiff::Latest { version } => DiffModel::Latest { version: *version },
            VersionDiff::Predownload { current, latest, file_name, size } => DiffModel::Predownload {
                current: *current,
                latest: *latest,
                file_name: file_name@,
                size: *size,
            },
            VersionDiff::Diff { current, latest, file_name, size } => DiffModel::Diff {
                current: *current,
                latest: *latest,
                file_name: file_name@,
                size: *size,
            },
            VersionDiff::Outdated { current, latest } => DiffModel::Outdated {
                current: *current,
                latest: *latest,
            },
            VersionDiff::NotInstalled { latest, file_name, size } => DiffModel::NotInstalled {
                latest: *latest,
                file_name: file_name@,
                size: *size,
            },
        }
    }
}

impl DiffModel {
    /// The remote latest version the diff was computed against.
    pub open spec fn spec_latest(self) -> Version {
        match self {
            DiffModel::Latest { version } => version,
            DiffModel::Predownload { latest, .. } => latest,
            DiffModel::Diff { latest, .. } => latest,
            DiffModel::Outdated { latest, .. } => latest,
            DiffModel::NotInstalled { latest, .. } => latest,
        }
    }

    /// The locally installed version, if anything is installed.
    pub open spec fn spec_current(self) -> Option<Version> {
        match self {
            DiffModel::Latest { version } => Some(version),
            DiffModel::Predownload { current, .. } => Some(current),
            DiffModel::Diff { current, .. } => Some(current),
            DiffModel::Outdated { current, .. } => Some(current),
            DiffModel::NotInstalled { .. } => None,
        }
    }

    /// The deterministic name of the downloadable artifact, if the diff
    /// carries one.
    pub open spec fn spec_file_name(self) -> Option<Seq<char>> {
        match self {
            DiffModel::Latest { .. } => None,
            DiffModel::Predownload { file_name, .. } => Some(file_name),
            DiffModel::Diff { file_name, .. } => Some(file_name),
            DiffModel::Outdated { .. } => None,
            DiffModel::NotInstalled { file_name, .. } => Some(file_name),
        }
    }

    /// The size estimate of the downloadable artifact, if the diff carries one.
    pub open spec fn spec_download_size(self) -> Option<u64> {
        match self {
            DiffModel::Latest { .. } => None,
            DiffModel::Predownload { size, .. } => Some(size),
            DiffModel::Diff { size, .. } => Some(size),
            DiffModel::Outdated { .. } => None,
            DiffModel::NotInstalled { size, .. } => Some(size),
        }
    }

    /// Whether the diff carries an artifact that can be downloaded.
    pub open spec fn is_downloadable(self) -> bool {
        self is Predownload || self is Diff || self is NotInstalled
    }
}

impl Clone for VersionDiff {
    /// Cloning keeps the model: equal versions, file name and size.
    fn clone(&self) -> (r: VersionDiff)
        ensures
            r@ == self@,
    {
        match self {
            VersionDiff::Latest { version } => VersionDiff::Latest { version: *version },
            VersionDiff::Predownload { current, latest, file_name, size } => VersionDiff::Predownload {
                current: *current,
                latest: *latest,
                file_name: file_name.clone(),
                size: *size,
            },
            VersionDiff::Diff { current, latest, file_name, size } => VersionDiff::Diff {
                current: *current,
                latest: *latest,
                file_name: file_name.clone(),
                size: *size,
            },
            VersionDiff::Outdated { current, latest } => VersionDiff::Outdated {
                current: *current,
                latest: *latest,
            },
            VersionDiff::NotInstalled { latest, file_name, size } => VersionDiff::NotInstalled {
                latest: *latest,
                file_name: file_name.clone(),
                size: *size,
            },
        }
    }
}

impl VersionDiff {
    /// The remote latest version the diff was computed against.
    pub fn latest(&self) -> (r: Version)
        ensures
            r == self@.spec_latest(),
    {
        match self {
            VersionDiff::Latest { version } => *version,
            VersionDiff::Predownload { latest, .. } => *latest,
            VersionDiff::Diff { latest, .. } => *latest,
            VersionDiff::Outdated { latest, .. } => *latest,
            VersionDiff::NotInstalled { latest, .. } => *latest,
        }
    }

    /// The locally installed version, if anything is installed.
    pub fn current(&self) -> (r: Option<Version>)
        ensures
            r == self@.spec_current(),
    {
        match self {
            VersionDiff::Latest { version } => Some(*version),
            VersionDiff::Predownload { current, .. } => Some(*current),
            VersionDiff::Diff { current, .. } => Some(*current),
            VersionDiff::Outdated { current, .. } => Some(*current),
            VersionDiff::NotInstalled { .. } => None,
        }
    }

    /// The deterministic artifact file name, used as the download / resume
    /// marker in the temporary folder.
    pub fn file_name(&self) -> (r: Option<&String>)
        ensures
            match r {
                Some(name) => self@.spec_file_name() == Some(name@),
                None => self@.spec_file_name() is None,
            },
    {
        match self {
            VersionDiff::Latest { .. } => None,
            VersionDiff::Predownload { file_name, .. } => Some(file_name),
            VersionDiff::Diff { file_name, .. } => Some(file_name),
            VersionDiff::Outdated { .. } => None,
            VersionDiff::NotInstalled { file_name, .. } => Some(file_name),
        }
    }

    /// The size estimate of the downloadable artifact, if the diff carries one.
    pub fn downloaded_size(&self) -> (r: Option<u64>)
        ensures
            r == self@.spec_download_size(),
    {
        match self {
            VersionDiff::Latest { .. } => None,
            VersionDiff::Predownload { size, .. } => Some(*size),
            VersionDiff::Diff { size, .. } => Some(*size),
            VersionDiff::Outdated { .. } => None,
            VersionDiff::NotInstalled { size, .. } => Some(*size),
        }
    }
}

} // verus!
