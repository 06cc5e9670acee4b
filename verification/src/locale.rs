//! Voice-over locales that the game ships packages for.

use vstd::prelude::*;

verus! {

/// A voice-over locale. The configuration stores the locales the user
/// selected, in the order they were selected.
#[derive(Clone, Copy, Debug, PartialEq, Eq, Structural)]
pub enum VoiceLocale {
    English,
    Japanese,
    Korean,
    Chinese,
}

impl VoiceLocale {
    /// Every locale the game ships, in the order the first-run page lists them.
    pub fn list() -> (r: Vec<VoiceLocale>)
        ensures
            r@ == seq![
                VoiceLocale::English,
                VoiceLocale::Japanese,
                VoiceLocale::Korean,
                VoiceLocale::Chinese,
            ],
    {
        let mut r: Vec<VoiceLocale> = Vec::new();
        r.push(VoiceLocale::English);
        r.push(VoiceLocale::Japanese);
        r.push(VoiceLocale::Korean);
        r.push(VoiceLocale::Chinese);
        proof {
            assert(r@ =~= seq![
                VoiceLocale::English,
                VoiceLocale::Japanese,
                VoiceLocale::Korean,
                VoiceLocale::Chinese,
            ]);
        }
        r
    }
}

} // verus!
