//! The persisted launcher configuration, reduced to the fields the core
//! logic reads: selected voice locales, the opt-in xlua patch flag, and the
//! installation paths. Loading, storing and flushing the file is the
//! caller's job; on a failed read callers fall back to an in-memory default
//! snapshot.

use vstd::prelude::*;

use crate::locale::VoiceLocale;
use vstd::string::StringExecFns;

verus! {

/// Installation folders, as plain path strings.
#[derive(Debug)]
pub struct InstallPaths {
    pub game: String,
    pub wine_builds: String,
    pub wine_prefix: String,
    pub dxvk_builds: String,
    pub components: String,
    pub patch: String,
    pub fps_unlocker: String,
    pub temp: Option<String>,
}

/// Mathematical model of [`InstallPaths`].
pub struct PathsModel {
    pub game: Seq<char>,
    pub wine_builds: Seq<char>,
    pub wine_prefix: Seq<char>,
    pub dxvk_builds: Seq<char>,
    pub components: Seq<char>,
    pub patch: Seq<char>,
    pub fps_unlocker: Seq<char>,
    pub temp: Option<Seq<char>>,
}

impl View for InstallPaths {
    type V = PathsModel;

    open spec fn view(&self) -> PathsModel {
        PathsModel {
            game: self.game@,
            wine_builds: self.wine_builds@,
            wine_prefix: self.wine_prefix@,
            dxvk_builds: self.dxvk_builds@,
            components: self.components@,
            patch: self.patch@,
            fps_unlocker: self.fps_unlocker@,
            temp: match &self.temp {
                Some(t) => Some(t@),
                None => None,
            },
        }
    }
}

/// The persisted configuration fields the core logic reads.
#[derive(Debug)]
pub struct LauncherConfig {
    /// Selected voice-over locales, in configuration order.
    pub voices: Vec<VoiceLocale>,
    /// Whether the opt-in xlua patch should be applied. The UnityPlayer
    /// patch is mandatory and has no flag.
    pub apply_xlua_patch: bool,
    pub paths: InstallPaths,
}

/// Mathematical model of a [`LauncherConfig`].
pub struct ConfigModel {
    pub voices: Seq<VoiceLocale>,
    pub apply_xlua_patch: bool,
    pub paths: PathsModel,
}

impl View for LauncherConfig {
    type V = ConfigModel;

    open spec fn view(&self) -> ConfigModel {
        ConfigModel {
            voices: self.voices@,
            apply_xlua_patch: self.apply_xlua_patch,
            paths: self.paths@,
        }
    }
}

/// `s` with every occurrence of `locale` removed, keeping the order of the
/// other elements.
pub open spec fn spec_without(s: Seq<VoiceLocale>, locale: VoiceLocale) -> Seq<VoiceLocale>
    decreases s.len(),
{
    if s.len() == 0 {
        Seq::empty()
    } else {
        let rest = spec_without(s.drop_last(), locale);
        if s.last() == locale {
            rest
        } else {
            rest.push(s.last())
        }
    }
}

/// Removing a locale really removes it: the result never contains it.
pub proof fn lemma_without_removes(s: Seq<VoiceLocale>, locale: VoiceLocale)
    ensures
        !spec_without(s, locale).contains(locale),
        spec_without(s, locale).len() <= s.len(),
    decreases s.len(),
{
    if s.len() > 0 {
        lemma_without_removes(s.drop_last(), locale);
        let rest = spec_without(s.drop_last(), locale);
        if s.last() != locale {
            assert forall|i: int| 0 <= i < rest.push(s.last()).len() implies rest.push(
                s.last(),
            )[i] != locale by {
                if i < rest.len() {
                    assert(!rest.contains(locale));
                }
            }
        }
    }
}

impl LauncherConfig {
    /// Whether `locale` is among the selected voice locales.
    pub fn has_voice(&self, locale: VoiceLocale) -> (r: bool)
        ensures
            r == self@.voices.contains(locale),
    {
        let mut i: usize = 0;
        while i < self.voices.len()
            invariant
                0 <= i <= self.voices.len(),
                forall|j: int| 0 <= j < i ==> self.voices@[j] != locale,
            decreases self.voices.len() - i,
        {
            if self.voices[i] == locale {
                return true;
            }
            i += 1;
        }
        false
    }

    /// Selects a voice locale: appended at the end of the configuration
    /// order, unless it is already selected, in which case nothing changes.
    pub fn add_voice(&mut self, locale: VoiceLocale)
        ensures
            old(self)@.voices.contains(locale) ==> final(self)@.voices == old(self)@.voices,
            !old(self)@.voices.contains(locale) ==> final(self)@.voices == old(self)@.voices.push(
                locale,
            ),
            final(self)@.apply_xlua_patch == old(self)@.apply_xlua_patch,
            final(self)@.paths == old(self)@.paths,
    {
        if !self.has_voice(locale) {
            self.voices.push(locale);
        }
    }

    /// Deselects a voice locale, keeping the order of the others.
    pub fn remove_voice(&mut self, locale: VoiceLocale)
        ensures
            final(self)@.voices == spec_without(old(self)@.voices, locale),
            !final(self)@.voices.contains(locale),
            final(self)@.apply_xlua_patch == old(self)@.apply_xlua_patch,
            final(self)@.paths == old(self)@.paths,
    {
        let ghost orig = self.voices@;
        let mut kept: Vec<VoiceLocale> = Vec::new();
        let mut i: usize = 0;
        while i < self.voices.len()
            invariant
                0 <= i <= self.voices.len(),
                self.voices@ == orig,
                kept@ == spec_without(orig.subrange(0, i as int), locale),
            decreases self.voices.len() - i,
        {
            proof {
                assert(orig.subrange(0, i as int + 1).drop_last() =~= orig.subrange(0, i as int));
                assert(orig.subrange(0, i as int + 1).last() == orig[i as int]);
            }
            if self.voices[i] != locale {
                kept.push(self.voices[i]);
            }
            i += 1;
        }
        proof {
            assert(orig.subrange(0, orig.len() as int) =~= orig);
            lemma_without_removes(orig, locale);
        }
        self.voices = kept;
    }

    /// Replaces the installation paths with the ones chosen on the
    /// first-run page, leaving the other settings alone.
    pub fn apply_default_paths(&mut self, paths: InstallPaths)
        ensures
            final(self)@.paths == paths@,
            final(self)@.voices == old(self)@.voices,
            final(self)@.apply_xlua_patch == old(self)@.apply_xlua_patch,
    {
        self.paths = paths;
    }
}

/// The configuration to work with when the persisted one may not be
/// readable: the read one, or the in-memory fallback snapshot. A failed
/// read never aborts the launcher, only a failed write is surfaced.
pub fn config_or_default(
    read: Result<LauncherConfig, crate::error::ProbeError>,
    fallback: LauncherConfig,
) -> (r: LauncherConfig)
    ensures
        r@ == match read {
            Ok(c) => c@,
            Err(_) => fallback@,
        },
{
    match read {
        Ok(c) => c,
        Err(_) => fallback,
    }
}

/// The install folders derived from one chosen launcher folder, each a
/// fixed subfolder of it; the launcher folder itself doubles as the
/// temporary staging folder.
pub fn derive_subpaths(root: &String) -> (r: InstallPaths)
    ensures
        r@.game == root@ + "/Genshin Impact"@,
        r@.wine_builds == root@ + "/runners"@,
        r@.wine_prefix == root@ + "/prefix"@,
        r@.dxvk_builds == root@ + "/dxvks"@,
        r@.components == root@ + "/components"@,
        r@.patch == root@ + "/patch"@,
        r@.fps_unlocker == root@ + "/fps-unlocker"@,
        r@.temp == Some(root@),
{
    InstallPaths {
        game: root.clone().concat("/Genshin Impact"),
        wine_builds: root.clone().concat("/runners"),
        wine_prefix: root.clone().concat("/prefix"),
        dxvk_builds: root.clone().concat("/dxvks"),
        components: root.clone().concat("/components"),
        patch: root.clone().concat("/patch"),
        fps_unlocker: root.clone().concat("/fps-unlocker"),
        temp: Some(root.clone()),
    }
}

/// The voice locales selected on the first-run page, in its fixed order:
/// English, Japanese, Korean, Chinese.
pub fn selected_voices(english: bool, japanese: bool, korean: bool, chinese: bool) -> (r: Vec<
    VoiceLocale,
>)
    ensures
        r@ == spec_selected_voices(english, japanese, korean, chinese),
{
    let mut r: Vec<VoiceLocale> = Vec::new();
    if english {
        r.push(VoiceLocale::English);
    }
    if japanese {
        r.push(VoiceLocale::Japanese);
    }
    if korean {
        r.push(VoiceLocale::Korean);
    }
    if chinese {
        r.push(VoiceLocale::Chinese);
    }
    proof {
        assert(r@ =~= spec_selected_voices(english, japanese, korean, chinese));
    }
    r
}

/// The sequence [`selected_voices`] returns: each enabled locale once, in
/// the page's order.
pub open spec fn spec_selected_voices(
    english: bool,
    japanese: bool,
    korean: bool,
    chinese: bool,
) -> Seq<VoiceLocale> {
    (if english {
        seq![VoiceLocale::English]
    } else {
        Seq::empty()
    }) + (if japanese {
        seq![VoiceLocale::Japanese]
    } else {
        Seq::empty()
    }) + (if korean {
        seq![VoiceLocale::Korean]
    } else {
        Seq::empty()
    }) + (if chinese {
        seq![VoiceLocale::Chinese]
    } else {
        Seq::empty()
    })
}

} // verus!
