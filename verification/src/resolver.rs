//! Resolution: from the probed facts to the one authoritative
//! [`LauncherState`], applying the priority order of [`crate::state`] and
//! short-circuiting on the first match. A failed probe aborts the whole
//! attempt with a [`ResolutionError`]; the resolver never returns a
//! partially filled or default state on error.

use vstd::prelude::*;

use crate::config::{ConfigModel, LauncherConfig};
use crate::diff::DiffModel;
use crate::diff::VersionDiff;
use crate::error::{ProbePoint, ResolutionError, ResolutionErrorModel};
use crate::patch::spec_actionable;
use crate::probes::Probes;
use crate::probes::ProbesModel;
use crate::state::{seq_of_models, LauncherState, StateModel};

verus! {

/// The model of a resolution outcome.
pub open spec fn spec_resolution(r: Result<LauncherState, ResolutionError>) -> Result<
    StateModel,
    ResolutionErrorModel,
> {
    match r {
        Ok(s) => Ok(s@),
        Err(e) => Err(e@),
    }
}

/// Step 8 of resolution: everything is current; return the remembered
/// predownload candidate, aggregating the predownloadable voice artifacts,
/// or report readiness to launch.
pub open spec fn spec_resolve_ready(game: DiffModel, pre: Seq<DiffModel>) -> Result<
    StateModel,
    ResolutionErrorModel,
> {
    if game is Predownload {
        Ok(StateModel::PredownloadAvailable { game, voices: pre })
    } else {
        Ok(StateModel::Launch)
    }
}

/// Step 6b of resolution: the opt-in xlua patch, consulted only when
/// enabled.
pub open spec fn spec_resolve_xlua(
    c: ConfigModel,
    p: ProbesModel,
    game: DiffModel,
    pre: Seq<DiffModel>,
) -> Result<StateModel, ResolutionErrorModel> {
    if !c.apply_xlua_patch {
        spec_resolve_ready(game, pre)
    } else {
        match p.xlua_patch {
            Err(e) => Err(ResolutionErrorModel { point: ProbePoint::XluaPatch, cause: e }),
            Ok(info) => if spec_actionable(info.status) {
                match p.xlua_applied {
                    Err(e) => Err(
                        ResolutionErrorModel { point: ProbePoint::XluaApplied, cause: e },
                    ),
                    Ok(true) => spec_resolve_ready(game, pre),
                    Ok(false) => Ok(StateModel::XluaPatchAvailable(info)),
                }
            } else {
                spec_resolve_ready(game, pre)
            },
        }
    }
}

/// Step 6 of resolution: the mandatory UnityPlayer patch, then the opt-in
/// xlua patch. A patch fires only when its status is actionable and it is
/// not yet applied to the install path.
pub open spec fn spec_resolve_patches(
    c: ConfigModel,
    p: ProbesModel,
    game: DiffModel,
    pre: Seq<DiffModel>,
) -> Result<StateModel, ResolutionErrorModel> {
    match p.unity_patch {
        Err(e) => Err(ResolutionErrorModel { point: ProbePoint::UnityPatch, cause: e }),
        Ok(info) => if spec_actionable(info.status) {
            match p.unity_applied {
                Err(e) => Err(ResolutionErrorModel { point: ProbePoint::UnityApplied, cause: e }),
                Ok(true) => spec_resolve_xlua(c, p, game, pre),
                Ok(false) => Ok(StateModel::UnityPlayerPatchAvailable(info)),
            }
        } else {
            spec_resolve_xlua(c, p, game, pre)
        },
    }
}

/// Step 5 of resolution: the configured voice locales, in configuration
/// order. The first locale found absent, breaking or in need of an update
/// short-circuits resolution; predownload-capable locales are remembered in
/// `pre` and aggregated at step 8.
pub open spec fn spec_resolve_voices(
    c: ConfigModel,
    p: ProbesModel,
    i: int,
    game: DiffModel,
    pre: Seq<DiffModel>,
) -> Result<StateModel, ResolutionErrorModel>
    decreases c.voices.len() - i,
{
    if i < 0 || i >= c.voices.len() {
        spec_resolve_patches(c, p, game, pre)
    } else {
        match p.voice_diffs[i] {
            Err(e) => Err(
                ResolutionErrorModel { point: ProbePoint::VoiceDiff(c.voices[i]), cause: e },
            ),
            Ok(d) => if d is NotInstalled {
                Ok(StateModel::VoiceNotInstalled(d))
            } else if d is Outdated {
                Ok(StateModel::VoiceOutdated(d))
            } else if d is Diff {
                Ok(StateModel::VoiceUpdateAvailable(d))
            } else if d is Predownload {
                spec_resolve_voices(c, p, i + 1, game, pre.push(d))
            } else {
                spec_resolve_voices(c, p, i + 1, game, pre)
            },
        }
    }
}

/// What one resolution attempt returns, as a function of the configuration
/// and the probed facts: the priority order of [`StateModel`], applied
/// sequentially with the first match winning.
pub open spec fn spec_resolve(c: ConfigModel, p: ProbesModel) -> Result<
    StateModel,
    ResolutionErrorModel,
> {
    match p.migration {
        Some(m) => Ok(
            StateModel::FolderMigrationRequired {
                from: m.from,
                to: m.to,
                cleanup_folder: m.cleanup_folder,
            },
        ),
        None => if !p.wine_installed {
            Ok(StateModel::WineNotInstalled)
        } else if !p.prefix_exists {
            Ok(StateModel::PrefixNotExists)
        } else {
            match p.game_diff {
                Err(e) => Err(ResolutionErrorModel { point: ProbePoint::GameDiff, cause: e }),
                Ok(d) => if d is NotInstalled {
                    Ok(StateModel::GameNotInstalled(d))
                } else if d is Outdated {
                    Ok(StateModel::GameOutdated(d))
                } else if d is Diff {
                    Ok(StateModel::GameUpdateAvailable(d))
                } else {
                    spec_resolve_voices(c, p, 0, d, Seq::empty())
                },
            }
        },
    }
}

/// A coarse-grained phase marker, reported to the caller right before the
/// corresponding probe is consulted so it can show progress text while
/// resolution spends seconds on disk and metadata work. Purely informative:
/// the markers never influence the outcome.
#[derive(Clone, Copy, Debug, PartialEq, Eq, Structural)]
pub enum ResolvePhase {
    /// About to classify the base-game diff.
    Game,
    /// About to classify one voice locale's diff.
    Voice(crate::locale::VoiceLocale),
    /// About to check the patch metadata.
    Patch,
}

/// The voice and patch phase markers from locale `i` on: one per locale the
/// scan consults, then the patch marker when every locale passes.
pub open spec fn spec_voice_phases(c: ConfigModel, p: ProbesModel, i: int) -> Seq<ResolvePhase>
    decreases c.voices.len() - i,
{
    if i < 0 || i >= c.voices.len() {
        seq![ResolvePhase::Patch]
    } else {
        seq![ResolvePhase::Voice(c.voices[i])] + match p.voice_diffs[i] {
            Err(_) => Seq::empty(),
            Ok(d) => if d is Latest || d is Predownload {
                spec_voice_phases(c, p, i + 1)
            } else {
                Seq::empty()
            },
        }
    }
}

/// The phase markers one resolution passes through, in order. The layout,
/// runtime and prefix checks are instant and get no marker; the game marker
/// comes right before the game diff is classified, one voice marker before
/// each consulted locale, and the patch marker once every locale passed.
pub open spec fn spec_phases(c: ConfigModel, p: ProbesModel) -> Seq<ResolvePhase> {
    if p.migration is Some || !p.wine_installed || !p.prefix_exists {
        Seq::empty()
    } else {
        seq![ResolvePhase::Game] + match p.game_diff {
            Err(_) => Seq::empty(),
            Ok(d) => if d is Latest || d is Predownload {
                spec_voice_phases(c, p, 0)
            } else {
                Seq::empty()
            },
        }
    }
}

/// The phase markers that resolving these probes passes through, per
/// [`spec_phases`]: what a caller shows as progress text, one caption per
/// probe the resolver consults.
pub fn resolution_phases(config: &LauncherConfig, probes: &Probes) -> (r: Vec<ResolvePhase>)
    requires
        probes.voice_diffs@.len() == config.voices@.len(),
    ensures
        r@ == spec_phases(config@, probes@),
{
    let mut r: Vec<ResolvePhase> = Vec::new();
    match &probes.migration {
        Some(_) => {
            proof {
                assert(r@ =~= spec_phases(config@, probes@));
            }
            return r;
        },
        None => {},
    }
    if !probes.wine_installed || !probes.prefix_exists {
        proof {
            assert(r@ =~= spec_phases(config@, probes@));
        }
        return r;
    }
    r.push(ResolvePhase::Game);
    let game = match &probes.game_diff {
        Ok(d) => d,
        Err(_) => {
            proof {
                assert(r@ =~= spec_phases(config@, probes@));
            }
            return r;
        },
    };
    match game {
        VersionDiff::Latest { .. } | VersionDiff::Predownload { .. } => {},
        _ => {
            proof {
                assert(r@ =~= spec_phases(config@, probes@));
            }
            return r;
        },
    }

    let mut i: usize = 0;
    while i < config.voices.len()
        invariant
            0 <= i <= config.voices.len(),
            probes.voice_diffs@.len() == config.voices@.len(),
            spec_phases(config@, probes@) == r@ + spec_voice_phases(config@, probes@, i as int),
        decreases config.voices.len() - i,
    {
        r.push(ResolvePhase::Voice(config.voices[i]));
        match &probes.voice_diffs[i] {
            Ok(d) => {
                match d {
                    VersionDiff::Latest { .. } | VersionDiff::Predownload { .. } => {},
                    _ => {
                        proof {
                            assert(spec_voice_phases(config@, probes@, i as int) =~= seq![
                                ResolvePhase::Voice(config@.voices[i as int]),
                            ]);
                            assert(r@ =~= spec_phases(config@, probes@));
                        }
                        return r;
                    },
                }
            },
            Err(_) => {
                proof {
                    assert(spec_voice_phases(config@, probes@, i as int) =~= seq![
                        ResolvePhase::Voice(config@.voices[i as int]),
                    ]);
                    assert(r@ =~= spec_phases(config@, probes@));
                }
                return r;
            },
        }
        proof {
            assert(r@ + spec_voice_phases(config@, probes@, i as int + 1) =~= (r@.drop_last()
                + spec_voice_phases(config@, probes@, i as int)));
        }
        i += 1;
    }
    r.push(ResolvePhase::Patch);
    proof {
        assert(spec_voice_phases(config@, probes@, i as int) =~= seq![ResolvePhase::Patch]);
        assert(r@ =~= spec_phases(config@, probes@));
    }
    r
}

/// Law: with no voices selected the voice loop is a no-op. Resolution then
/// consults no voice probe and passes through no voice phase, whatever the
/// probes hold.
pub proof fn lemma_no_voices_no_voice_phases(c: ConfigModel, p: ProbesModel)
    requires
        c.voices.len() == 0,
    ensures
        forall|l: crate::locale::VoiceLocale|
            !spec_phases(c, p).contains(ResolvePhase::Voice(l)),
{
    let phases = spec_phases(c, p);
    assert forall|l: crate::locale::VoiceLocale| !phases.contains(
        ResolvePhase::Voice(l),
    ) by {
        assert forall|j: int| 0 <= j < phases.len() implies phases[j] != ResolvePhase::Voice(
            l,
        ) by {
            if p.migration is None && p.wine_installed && p.prefix_exists {
                match p.game_diff {
                    Ok(d) => {
                        if d is Latest || d is Predownload {
                            assert(spec_voice_phases(c, p, 0) =~= seq![ResolvePhase::Patch]);
                            assert(phases =~= seq![ResolvePhase::Game, ResolvePhase::Patch]);
                        } else {
                            assert(phases =~= seq![ResolvePhase::Game]);
                        }
                    },
                    Err(_) => {
                        assert(phases =~= seq![ResolvePhase::Game]);
                    },
                }
            }
        }
    }
}

/// Resolves the launcher state from the probed facts.
///
/// Requires one probed diff per configured voice locale, in configuration
/// order. Returns exactly what [`spec_resolve`] says: the highest-priority
/// matching state, or the first probe failure reached.
pub fn resolve(config: &LauncherConfig, probes: &Probes) -> (r: Result<
    LauncherState,
    ResolutionError,
>)
    requires
        probes.voice_diffs@.len() == config.voices@.len(),
    ensures
        spec_resolution(r) == spec_resolve(config@, probes@),
{
    match &probes.migration {
        Some(m) => {
            return Ok(
                LauncherState::FolderMigrationRequired {
                    from: m.from.clone(),
                    to: m.to.clone(),
                    cleanup_folder: match &m.cleanup_folder {
                        Some(c) => Some(c.clone()),
                        None => None,
                    },
                },
            );
        },
        None => {},
    }

    if !probes.wine_installed {
        return Ok(LauncherState::WineNotInstalled);
    }
    if !probes.prefix_exists {
        return Ok(LauncherState::PrefixNotExists);
    }

    let game = match &probes.game_diff {
        Ok(d) => d,
        Err(e) => {
            return Err(ResolutionError { point: ProbePoint::GameDiff, cause: e.clone() });
        },
    };

    match game {
        VersionDiff::NotInstalled { .. } => {
            return Ok(LauncherState::GameNotInstalled(game.clone()));
        },
        VersionDiff::Outdated { .. } => {
            return Ok(LauncherState::GameOutdated(game.clone()));
        },
        VersionDiff::Diff { .. } => {
            return Ok(LauncherState::GameUpdateAvailable(game.clone()));
        },
        _ => {},
    }

    let ghost gm = game@;
    let mut pre: Vec<VersionDiff> = Vec::new();
    let mut i: usize = 0;
    proof {
        assert(seq_of_models(pre@) =~= Seq::<DiffModel>::empty());
    }
    while i < config.voices.len()
        invariant
            0 <= i <= config.voices.len(),
            probes.voice_diffs@.len() == config.voices@.len(),
            spec_resolve(config@, probes@) == spec_resolve_voices(
                config@,
                probes@,
                0,
                gm,
                Seq::empty(),
            ),
            spec_resolve_voices(config@, probes@, i as int, gm, seq_of_models(pre@))
                == spec_resolve_voices(config@, probes@, 0, gm, Seq::empty()),
        decreases config.voices.len() - i,
    {
        match &probes.voice_diffs[i] {
            Err(e) => {
                return Err(
                    ResolutionError {
                        point: ProbePoint::VoiceDiff(config.voices[i]),
                        cause: e.clone(),
                    },
                );
            },
            Ok(d) => {
                match d {
                    VersionDiff::NotInstalled { .. } => {
                        return Ok(LauncherState::VoiceNotInstalled(d.clone()));
                    },
                    VersionDiff::Outdated { .. } => {
                        return Ok(LauncherState::VoiceOutdated(d.clone()));
                    },
                    VersionDiff::Diff { .. } => {
                        return Ok(LauncherState::VoiceUpdateAvailable(d.clone()));
                    },
                    VersionDiff::Predownload { .. } => {
                        let ghost old_pre = seq_of_models(pre@);
                        pre.push(d.clone());
                        proof {
                            assert(seq_of_models(pre@) =~= old_pre.push(d@));
                        }
                    },
                    VersionDiff::Latest { .. } => {},
                }
                i += 1;
            },
        }
    }

    let unity = match &probes.unity_patch {
        Ok(info) => *info,
        Err(e) => {
            return Err(ResolutionError { point: ProbePoint::UnityPatch, cause: e.clone() });
        },
    };
    if unity.status.is_actionable() {
        match &probes.unity_applied {
            Ok(applied) => {
                if !*applied {
                    return Ok(LauncherState::UnityPlayerPatchAvailable(unity));
                }
            },
            Err(e) => {
                return Err(ResolutionError { point: ProbePoint::UnityApplied, cause: e.clone() });
            },
        }
    }

    if config.apply_xlua_patch {
        let xlua = match &probes.xlua_patch {
            Ok(info) => *info,
            Err(e) => {
                return Err(ResolutionError { point: ProbePoint::XluaPatch, cause: e.clone() });
            },
        };
        if xlua.status.is_actionable() {
            match &probes.xlua_applied {
                Ok(applied) => {
                    if !*applied {
                        return Ok(LauncherState::XluaPatchAvailable(xlua));
                    }
                },
                Err(e) => {
                    return Err(
                        ResolutionError { point: ProbePoint::XluaApplied, cause: e.clone() },
                    );
                },
            }
        }
    }

    match game {
        VersionDiff::Predownload { .. } => Ok(
            LauncherState::PredownloadAvailable { game: game.clone(), voices: pre },
        ),
        _ => Ok(LauncherState::Launch),
    }
}

} // verus!
