//! Availability of the optional binary patches (the mandatory UnityPlayer
//! patch and the opt-in xlua patch), as reported by the patch probe.

use vstd::prelude::*;

use crate::version::Version;

verus! {

/// Availability / applied state of an optional binary patch.
///
/// `NotAvailable`, `Outdated` and `Preparation` are non-actionable (blocking
/// or inert); `Testing` and `Available` are actionable: the user may apply
/// the patch.
#[derive(Clone, Copy, Debug, PartialEq, Eq, Structural)]
pub enum PatchStatus {
    /// No patch exists for this game at all.
    NotAvailable,
    /// The patch only supports an older game version.
    Outdated { current: Version, latest: Version },
    /// The patch author is working on support for a new game version;
    /// explicitly not installable.
    Preparation,
    /// A testing build of the patch supports the current game version.
    Testing { version: Version },
    /// A stable build of the patch supports the current game version.
    Available { version: Version },
}

/// Metadata of one optional patch, as fetched from the patch repository.
#[derive(Clone, Copy, Debug, PartialEq, Eq, Structural)]
pub struct PatchInfo {
    pub status: PatchStatus,
}

/// Whether the user may apply a patch in this status.
pub open spec fn spec_actionable(status: PatchStatus) -> bool {
    status is Testing || status is Available
}

impl PatchStatus {
    /// Whether the user may apply a patch in this status: only `Testing` and
    /// `Available` builds can be installed.
    pub fn is_actionable(&self) -> (r: bool)
        ensures
            r == spec_actionable(*self),
    {
        match self {
            PatchStatus::Testing { .. } => true,
            PatchStatus::Available { .. } => true,
            _ => false,
        }
    }
}

} // verus!
