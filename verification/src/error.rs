//! Errors surfaced by resolution: a failed probe aborts the whole attempt
//! and callers must treat the state as unknown.

use vstd::prelude::*;

use crate::locale::VoiceLocale;

verus! {

/// An I/O or metadata-fetch failure reported by one of the probes the
/// caller runs on the library's behalf.
#[derive(Debug)]
pub struct ProbeError {
    pub message: String,
}

impl View for ProbeError {
    type V = Seq<char>;

    open spec fn view(&self) -> Seq<char> {
        self.message@
    }
}

impl Clone for ProbeError {
    /// Cloning keeps the message.
    fn clone(&self) -> (r: ProbeError)
        ensures
            r@ == self@,
    {
        ProbeError { message: self.message.clone() }
    }
}

/// Which probe failed during resolution.
#[derive(Clone, Copy, Debug, PartialEq, Eq, Structural)]
pub enum ProbePoint {
    /// Fetching the base-game version diff.
    GameDiff,
    /// Fetching the version diff of one configured voice locale.
    VoiceDiff(VoiceLocale),
    /// Fetching the UnityPlayer patch metadata.
    UnityPatch,
    /// Checking whether the UnityPlayer patch is applied on disk.
    UnityApplied,
    /// Fetching the xlua patch metadata.
    XluaPatch,
    /// Checking whether the xlua patch is applied on disk.
    XluaApplied,
}

/// A failed resolution attempt: the first probe that failed, with its
/// underlying cause. The resolver never returns a partially filled state on
/// error; callers must offer no action until a later attempt succeeds.
#[derive(Debug)]
pub struct ResolutionError {
    pub point: ProbePoint,
    pub cause: ProbeError,
}

/// Mathematical model of a [`ResolutionError`].
pub struct ResolutionErrorModel {
    pub point: ProbePoint,
    pub cause: Seq<char>,
}

impl View for ResolutionError {
    type V = ResolutionErrorModel;

    open spec fn view(&self) -> ResolutionErrorModel {
        ResolutionErrorModel { point: self.point, cause: self.cause@ }
    }
}

} // verus!
