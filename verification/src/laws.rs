//! The general laws of resolution, proved once and for all inputs: what the
//! priority order guarantees, that resolution is a pure function of its
//! inputs, how the voice scan short-circuits, and what the predownload
//! state aggregates.

use vstd::prelude::*;

use crate::config::ConfigModel;
use crate::diff::DiffModel;
use crate::error::ProbePoint;
use crate::patch::spec_actionable;
use crate::probes::ProbesModel;
use crate::resolver::{
    spec_resolve,
    spec_resolve_patches,
    spec_resolve_ready,
    spec_resolve_voices,
    spec_resolve_xlua,
};
use crate::state::StateModel;

verus! {

/// Whether a probed voice diff lets the voice scan continue: the locale is
/// installed and current (possibly with a predownload offer).
pub open spec fn voice_scan_passes(r: Result<DiffModel, Seq<char>>) -> bool {
    match r {
        Ok(d) => d is Latest || d is Predownload,
        Err(_) => false,
    }
}

/// The state a blocking voice diff resolves to.
pub open spec fn voice_blocking_state(d: DiffModel) -> StateModel {
    if d is NotInstalled {
        StateModel::VoiceNotInstalled(d)
    } else if d is Outdated {
        StateModel::VoiceOutdated(d)
    } else {
        StateModel::VoiceUpdateAvailable(d)
    }
}

/// The predownloadable voice artifacts among `s[i..n]`, in order.
pub open spec fn spec_predownload_from(
    s: Seq<Result<DiffModel, Seq<char>>>,
    i: int,
    n: int,
) -> Seq<DiffModel>
    decreases n - i,
{
    if i < 0 || i >= n {
        Seq::empty()
    } else {
        match s[i] {
            Ok(d) => if d is Predownload {
                seq![d] + spec_predownload_from(s, i + 1, n)
            } else {
                spec_predownload_from(s, i + 1, n)
            },
            Err(_) => spec_predownload_from(s, i + 1, n),
        }
    }
}

/// Whether the probed patch data lets resolution pass the patch step for
/// one patch: the patch is not actionable, or it is already applied.
pub open spec fn patch_step_passes(
    info: Result<crate::patch::PatchInfo, Seq<char>>,
    applied: Result<bool, Seq<char>>,
) -> bool {
    match info {
        Ok(pi) => !spec_actionable(pi.status) || applied == Ok::<bool, Seq<char>>(true),
        Err(_) => false,
    }
}

/// Whether the probes pass every check before the voice scan: no folder
/// migration pending, runtime and prefix present, and the game itself
/// installed and current (possibly with a predownload offer).
pub open spec fn pre_voice_checks_pass(p: ProbesModel) -> bool {
    &&& p.migration is None
    &&& p.wine_installed
    &&& p.prefix_exists
    &&& match p.game_diff {
        Ok(d) => d is Latest || d is Predownload,
        Err(_) => false,
    }
}

/// Law: resolution never reads the voice probes when no voices are
/// selected. With an empty locale list, two probe sets that agree on
/// everything but the voice diffs resolve to the same outcome.
pub proof fn lemma_no_voices_resolution_ignores_voice_probes(
    c: ConfigModel,
    p1: ProbesModel,
    p2: ProbesModel,
)
    requires
        c.voices.len() == 0,
        p1.migration == p2.migration,
        p1.wine_installed == p2.wine_installed,
        p1.prefix_exists == p2.prefix_exists,
        p1.game_diff == p2.game_diff,
        p1.unity_patch == p2.unity_patch,
        p1.unity_applied == p2.unity_applied,
        p1.xlua_patch == p2.xlua_patch,
        p1.xlua_applied == p2.xlua_applied,
    ensures
        spec_resolve(c, p1) == spec_resolve(c, p2),
{
    match p1.game_diff {
        Ok(d) => {
            if d is Latest || d is Predownload {
                assert(spec_resolve_voices(c, p1, 0, d, Seq::empty()) == spec_resolve_patches(
                    c,
                    p1,
                    d,
                    Seq::empty(),
                ));
                assert(spec_resolve_voices(c, p2, 0, d, Seq::empty()) == spec_resolve_patches(
                    c,
                    p2,
                    d,
                    Seq::empty(),
                ));
                assert(spec_resolve_patches(c, p1, d, Seq::empty()) == spec_resolve_patches(
                    c,
                    p2,
                    d,
                    Seq::empty(),
                ));
            }
        },
        Err(_) => {},
    }
}

/// Law: resolution is deterministic. Its outcome is a function of the
/// configuration and the probed facts alone, so equal inputs — in
/// particular, a second resolution with no intervening state change —
/// yield an equal state or error.
pub proof fn lemma_resolve_deterministic(
    c1: ConfigModel,
    p1: ProbesModel,
    c2: ConfigModel,
    p2: ProbesModel,
)
    requires
        c1 == c2,
        p1 == p2,
    ensures
        spec_resolve(c1, p1) == spec_resolve(c2, p2),
{
}

/// Law: a pending update pre-empts an actionable patch. Whenever the game
/// diff demands an update, resolution returns `GameUpdateAvailable`,
/// whatever the patch probes say.
pub proof fn lemma_update_preempts_patch(c: ConfigModel, p: ProbesModel, d: DiffModel)
    requires
        p.migration is None,
        p.wine_installed,
        p.prefix_exists,
        p.game_diff == Ok::<DiffModel, Seq<char>>(d),
        d is Diff,
    ensures
        spec_resolve(c, p) == Ok::<StateModel, crate::error::ResolutionErrorModel>(
            StateModel::GameUpdateAvailable(d),
        ),
{
}

/// Law: a pending folder migration pre-empts everything. Whenever the
/// layout probe reports a legacy layout, resolution returns
/// `FolderMigrationRequired` with exactly the reported paths — so after a
/// failed migration, with the source folder still in place, the next
/// resolution returns the same demand again.
pub proof fn lemma_migration_preempts_everything(
    c: ConfigModel,
    p: ProbesModel,
    m: crate::probes::MigrationModel,
)
    requires
        p.migration == Some(m),
    ensures
        spec_resolve(c, p) == Ok::<StateModel, crate::error::ResolutionErrorModel>(
            StateModel::FolderMigrationRequired {
                from: m.from,
                to: m.to,
                cleanup_folder: m.cleanup_folder,
            },
        ),
{
}

/// The voice scan reaches position `k` and stops there when every earlier
/// locale passes and the one at `k` blocks.
proof fn lemma_voice_scan_reaches(
    c: ConfigModel,
    p: ProbesModel,
    i: int,
    k: int,
    game: DiffModel,
    pre: Seq<DiffModel>,
)
    requires
        p.voice_diffs.len() == c.voices.len(),
        0 <= i <= k < c.voices.len(),
        forall|j: int| i <= j < k ==> voice_scan_passes(#[trigger] p.voice_diffs[j]),
    ensures
        spec_resolve_voices(c, p, i, game, pre) == match p.voice_diffs[k] {
            Err(e) => Err::<StateModel, crate::error::ResolutionErrorModel>(
                crate::error::ResolutionErrorModel {
                    point: ProbePoint::VoiceDiff(c.voices[k]),
                    cause: e,
                },
            ),
            Ok(d) => if d is Latest || d is Predownload {
                spec_resolve_voices(c, p, k + 1, game, pre + spec_predownload_from(
                    p.voice_diffs,
                    i,
                    k + 1,
                ))
            } else {
                Ok(voice_blocking_state(d))
            },
        },
    decreases k - i,
{
    if i < k {
        match p.voice_diffs[i] {
            Ok(d) => {
                if d is Predownload {
                    lemma_voice_scan_reaches(c, p, i + 1, k, game, pre.push(d));
                    assert(pre.push(d) + spec_predownload_from(p.voice_diffs, i + 1, k + 1) =~= pre
                        + spec_predownload_from(p.voice_diffs, i, k + 1));
                } else {
                    lemma_voice_scan_reaches(c, p, i + 1, k, game, pre);
                    assert(spec_predownload_from(p.voice_diffs, i + 1, k + 1)
                        =~= spec_predownload_from(p.voice_diffs, i, k + 1));
                }
            },
            Err(_) => {
                assert(false);
            },
        }
    } else {
        let tail = spec_predownload_from(p.voice_diffs, k + 1, k + 1);
        assert(tail =~= Seq::<DiffModel>::empty());
        match p.voice_diffs[k] {
            Ok(d) => {
                if d is Latest {
                    assert(pre + spec_predownload_from(p.voice_diffs, k, k + 1) =~= pre);
                } else if d is Predownload {
                    assert(pre + spec_predownload_from(p.voice_diffs, k, k + 1) =~= pre.push(d));
                }
            },
            Err(_) => {},
        }
    }
}

/// Law: the voice scan short-circuits in configuration order. If every
/// locale before position `k` is current and the one at `k` is absent,
/// breaking or in need of an update, resolution returns that locale's
/// state — later locales are never consulted.
pub proof fn lemma_voice_short_circuit(c: ConfigModel, p: ProbesModel, k: int, d: DiffModel)
    requires
        pre_voice_checks_pass(p),
        p.voice_diffs.len() == c.voices.len(),
        0 <= k < c.voices.len(),
        forall|j: int| 0 <= j < k ==> voice_scan_passes(#[trigger] p.voice_diffs[j]),
        p.voice_diffs[k] == Ok::<DiffModel, Seq<char>>(d),
        d is NotInstalled || d is Outdated || d is Diff,
    ensures
        spec_resolve(c, p) == Ok::<StateModel, crate::error::ResolutionErrorModel>(
            voice_blocking_state(d),
        ),
{
    let game = p.game_diff->Ok_0;
    lemma_voice_scan_reaches(c, p, 0, k, game, Seq::empty());
}

/// The voice scan that passes every locale ends at the patch step, with
/// exactly the predownloadable voice artifacts collected.
proof fn lemma_voice_scan_passes_all(
    c: ConfigModel,
    p: ProbesModel,
    i: int,
    game: DiffModel,
    pre: Seq<DiffModel>,
)
    requires
        p.voice_diffs.len() == c.voices.len(),
        0 <= i <= c.voices.len(),
        forall|j: int| i <= j < c.voices.len() ==> voice_scan_passes(#[trigger] p.voice_diffs[j]),
    ensures
        spec_resolve_voices(c, p, i, game, pre) == spec_resolve_patches(
            c,
            p,
            game,
            pre + spec_predownload_from(p.voice_diffs, i, c.voices.len() as int),
        ),
    decreases c.voices.len() - i,
{
    let n = c.voices.len() as int;
    if i >= n {
        assert(pre + spec_predownload_from(p.voice_diffs, i, n) =~= pre);
    } else {
        match p.voice_diffs[i] {
            Ok(d) => {
                if d is Predownload {
                    lemma_voice_scan_passes_all(c, p, i + 1, game, pre.push(d));
                    assert(pre.push(d) + spec_predownload_from(p.voice_diffs, i + 1, n) =~= pre
                        + spec_predownload_from(p.voice_diffs, i, n));
                } else {
                    lemma_voice_scan_passes_all(c, p, i + 1, game, pre);
                    assert(spec_predownload_from(p.voice_diffs, i + 1, n)
                        =~= spec_predownload_from(p.voice_diffs, i, n));
                }
            },
            Err(_) => {
                assert(false);
            },
        }
    }
}

/// Law: predownload aggregation. When every check passes, the game offers a
/// predownload, and each patch step passes, resolution returns
/// `PredownloadAvailable` carrying the game's artifact together with
/// exactly those voice artifacts that also offer a predownload, in
/// configuration order — up-to-date voices are excluded.
pub proof fn lemma_predownload_aggregation(c: ConfigModel, p: ProbesModel, g: DiffModel)
    requires
        p.migration is None,
        p.wine_installed,
        p.prefix_exists,
        p.game_diff == Ok::<DiffModel, Seq<char>>(g),
        g is Predownload,
        p.voice_diffs.len() == c.voices.len(),
        forall|j: int| 0 <= j < c.voices.len() ==> voice_scan_passes(#[trigger] p.voice_diffs[j]),
        patch_step_passes(p.unity_patch, p.unity_applied),
        c.apply_xlua_patch ==> patch_step_passes(p.xlua_patch, p.xlua_applied),
    ensures
        spec_resolve(c, p) == Ok::<StateModel, crate::error::ResolutionErrorModel>(
            StateModel::PredownloadAvailable {
                game: g,
                voices: spec_predownload_from(p.voice_diffs, 0, c.voices.len() as int),
            },
        ),
{
    let n = c.voices.len() as int;
    let collected = spec_predownload_from(p.voice_diffs, 0, n);
    lemma_voice_scan_passes_all(c, p, 0, g, Seq::empty());
    assert(Seq::<DiffModel>::empty() + collected =~= collected);
    assert(spec_resolve_patches(c, p, g, collected) == spec_resolve_xlua(c, p, g, collected));
    assert(spec_resolve_xlua(c, p, g, collected) == spec_resolve_ready(g, collected));
}

/// Law: launch readiness. When every check passes, the game is exactly
/// current, and each patch step passes, resolution returns `Launch`.
pub proof fn lemma_launch_when_everything_current(c: ConfigModel, p: ProbesModel, g: DiffModel)
    requires
        p.migration is None,
        p.wine_installed,
        p.prefix_exists,
        p.game_diff == Ok::<DiffModel, Seq<char>>(g),
        g is Latest,
        p.voice_diffs.len() == c.voices.len(),
        forall|j: int| 0 <= j < c.voices.len() ==> voice_scan_passes(#[trigger] p.voice_diffs[j]),
        patch_step_passes(p.unity_patch, p.unity_applied),
        c.apply_xlua_patch ==> patch_step_passes(p.xlua_patch, p.xlua_applied),
    ensures
        spec_resolve(c, p) == Ok::<StateModel, crate::error::ResolutionErrorModel>(
            StateModel::Launch,
        ),
{
    let n = c.voices.len() as int;
    let collected = spec_predownload_from(p.voice_diffs, 0, n);
    lemma_voice_scan_passes_all(c, p, 0, g, Seq::empty());
    assert(Seq::<DiffModel>::empty() + collected =~= collected);
    assert(spec_resolve_patches(c, p, g, collected) == spec_resolve_xlua(c, p, g, collected));
    assert(spec_resolve_xlua(c, p, g, collected) == spec_resolve_ready(g, collected));
}

} // verus!

