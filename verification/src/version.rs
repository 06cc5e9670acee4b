//! Plain version triples for game builds, voice packages and patches.

use vstd::prelude::*;

verus! {

/// A released build version, compared field by field.
#[derive(Clone, Copy, Debug, PartialEq, Eq, Structural)]
pub struct Version {
    pub major: u64,
    pub minor: u64,
    pub patch: u64,
}

impl Version {
    pub fn new(major: u64, minor: u64, patch: u64) -> (v: Version)
        ensures
            v.major == major,
            v.minor == minor,
            v.patch == patch,
    {
        Version { major, minor, patch }
    }
}

} // verus!
