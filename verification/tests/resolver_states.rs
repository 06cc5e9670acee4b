use launcher_core::config::{InstallPaths, LauncherConfig};
use launcher_core::diff::VersionDiff;
use launcher_core::error::{ProbeError, ProbePoint};
use launcher_core::locale::VoiceLocale;
use launcher_core::patch::{PatchInfo, PatchStatus};
use launcher_core::probes::{FolderMigration, Probes};
use launcher_core::resolver::{resolution_phases, resolve, ResolvePhase};
use launcher_core::state::LauncherState;
use launcher_core::version::Version;

fn ver(major: u64, minor: u64, patch: u64) -> Version {
    Version::new(major, minor, patch)
}

fn latest() -> VersionDiff {
    VersionDiff::Latest { version: ver(3, 5, 0) }
}

fn predownload(name: &str, size: u64) -> VersionDiff {
    VersionDiff::Predownload {
        current: ver(3, 5, 0),
        latest: ver(3, 6, 0),
        file_name: name.to_string(),
        size,
    }
}

fn update(name: &str) -> VersionDiff {
    VersionDiff::Diff {
        current: ver(3, 4, 0),
        latest: ver(3, 5, 0),
        file_name: name.to_string(),
        size: 1000,
    }
}

fn not_installed(name: &str) -> VersionDiff {
    VersionDiff::NotInstalled { latest: ver(3, 5, 0), file_name: name.to_string(), size: 9000 }
}

fn outdated() -> VersionDiff {
    VersionDiff::Outdated { current: ver(2, 0, 0), latest: ver(3, 5, 0) }
}

fn paths() -> InstallPaths {
    InstallPaths {
        game: "/data/game".to_string(),
        wine_builds: "/data/runners".to_string(),
        wine_prefix: "/data/prefix".to_string(),
        dxvk_builds: "/data/dxvks".to_string(),
        components: "/data/components".to_string(),
        patch: "/data/patch".to_string(),
        fps_unlocker: "/data/fps-unlocker".to_string(),
        temp: None,
    }
}

fn config(voices: Vec<VoiceLocale>, apply_xlua_patch: bool) -> LauncherConfig {
    LauncherConfig { voices, apply_xlua_patch, paths: paths() }
}

fn probe_err(message: &str) -> ProbeError {
    ProbeError { message: message.to_string() }
}

/// Probes of a fully healthy install: everything present and current, the
/// UnityPlayer patch applied, no xlua patch published.
fn healthy_probes(
    game: VersionDiff,
    voices: Vec<Result<VersionDiff, ProbeError>>,
) -> Probes {
    Probes {
        migration: None,
        wine_installed: true,
        prefix_exists: true,
        game_diff: Ok(game),
        voice_diffs: voices,
        unity_patch: Ok(PatchInfo { status: PatchStatus::Available { version: ver(3, 5, 0) } }),
        unity_applied: Ok(true),
        xlua_patch: Ok(PatchInfo { status: PatchStatus::NotAvailable }),
        xlua_applied: Ok(false),
    }
}

#[test]
fn launch_when_everything_current() {
    let c = config(vec![VoiceLocale::English], false);
    let p = healthy_probes(latest(), vec![Ok(latest())]);
    let state = resolve(&c, &p).unwrap();
    assert!(matches!(state, LauncherState::Launch));
}

#[test]
fn no_voices_resolves_from_game_alone() {
    let c = config(vec![], false);
    let p = healthy_probes(latest(), vec![]);
    let state = resolve(&c, &p).unwrap();
    assert!(matches!(state, LauncherState::Launch));
}

#[test]
fn migration_preempts_everything() {
    let c = config(vec![], false);
    let mut p = healthy_probes(outdated(), vec![]);
    p.migration = Some(FolderMigration {
        from: "/old/game".to_string(),
        to: "/new/game".to_string(),
        cleanup_folder: Some("/old".to_string()),
    });
    p.wine_installed = false;
    match resolve(&c, &p).unwrap() {
        LauncherState::FolderMigrationRequired { from, to, cleanup_folder } => {
            assert_eq!(from, "/old/game");
            assert_eq!(to, "/new/game");
            assert_eq!(cleanup_folder.as_deref(), Some("/old"));
        }
        other => panic!("expected FolderMigrationRequired, got {:?}", other),
    }
}

#[test]
fn wine_missing_preempts_version_checks() {
    let c = config(vec![], false);
    let mut p = healthy_probes(not_installed("game.zip"), vec![]);
    p.wine_installed = false;
    assert!(matches!(resolve(&c, &p).unwrap(), LauncherState::WineNotInstalled));
}

#[test]
fn prefix_missing_preempts_version_checks() {
    let c = config(vec![], false);
    let mut p = healthy_probes(not_installed("game.zip"), vec![]);
    p.prefix_exists = false;
    assert!(matches!(resolve(&c, &p).unwrap(), LauncherState::PrefixNotExists));
}

#[test]
fn game_not_installed_detected() {
    let c = config(vec![], false);
    let p = healthy_probes(not_installed("game.zip"), vec![]);
    match resolve(&c, &p).unwrap() {
        LauncherState::GameNotInstalled(d) => {
            assert_eq!(d.file_name().unwrap(), "game.zip");
            assert_eq!(d.latest(), ver(3, 5, 0));
        }
        other => panic!("expected GameNotInstalled, got {:?}", other),
    }
}

#[test]
fn game_outdated_blocks() {
    let c = config(vec![], false);
    let p = healthy_probes(outdated(), vec![]);
    match resolve(&c, &p).unwrap() {
        LauncherState::GameOutdated(d) => {
            assert_eq!(d.current(), Some(ver(2, 0, 0)));
            assert_eq!(d.file_name(), None);
        }
        other => panic!("expected GameOutdated, got {:?}", other),
    }
}

#[test]
fn update_preempts_patch() {
    // Both a game update and an unapplied actionable patch: the update wins.
    let c = config(vec![], false);
    let mut p = healthy_probes(update("upd.zip"), vec![]);
    p.unity_applied = Ok(false);
    match resolve(&c, &p).unwrap() {
        LauncherState::GameUpdateAvailable(d) => {
            assert_eq!(d.file_name().unwrap(), "upd.zip");
        }
        other => panic!("expected GameUpdateAvailable, got {:?}", other),
    }
}

#[test]
fn voice_short_circuits_in_configured_order() {
    // ja absent, en needing an update: ja is configured first and wins.
    let c = config(vec![VoiceLocale::Japanese, VoiceLocale::English], false);
    let p = healthy_probes(
        latest(),
        vec![Ok(not_installed("ja.zip")), Ok(update("en.zip"))],
    );
    match resolve(&c, &p).unwrap() {
        LauncherState::VoiceNotInstalled(d) => {
            assert_eq!(d.file_name().unwrap(), "ja.zip");
        }
        other => panic!("expected VoiceNotInstalled(ja), got {:?}", other),
    }
}

#[test]
fn first_configured_voice_wins_either_way() {
    // Same two locales the other way round: now the en update wins.
    let c = config(vec![VoiceLocale::English, VoiceLocale::Japanese], false);
    let p = healthy_probes(
        latest(),
        vec![Ok(update("en.zip")), Ok(not_installed("ja.zip"))],
    );
    match resolve(&c, &p).unwrap() {
        LauncherState::VoiceUpdateAvailable(d) => {
            assert_eq!(d.file_name().unwrap(), "en.zip");
        }
        other => panic!("expected VoiceUpdateAvailable(en), got {:?}", other),
    }
}

#[test]
fn voice_outdated_blocks() {
    let c = config(vec![VoiceLocale::Korean], false);
    let p = healthy_probes(latest(), vec![Ok(outdated())]);
    assert!(matches!(resolve(&c, &p).unwrap(), LauncherState::VoiceOutdated(_)));
}

#[test]
fn predownload_aggregates_exactly_the_predownloadable_voices() {
    // The game and one of two voices offer a predownload: both artifacts are
    // aggregated, the up-to-date voice is excluded.
    let c = config(vec![VoiceLocale::English, VoiceLocale::Japanese], false);
    let p = healthy_probes(
        predownload("game-pre.zip", 500),
        vec![Ok(predownload("en-pre.zip", 200)), Ok(latest())],
    );
    match resolve(&c, &p).unwrap() {
        LauncherState::PredownloadAvailable { game, voices } => {
            assert_eq!(game.file_name().unwrap(), "game-pre.zip");
            assert_eq!(voices.len(), 1);
            assert_eq!(voices[0].file_name().unwrap(), "en-pre.zip");
        }
        other => panic!("expected PredownloadAvailable, got {:?}", other),
    }
}

#[test]
fn voice_predownload_alone_still_launches() {
    // The predownload state carries the game artifact; a voice-only offer
    // with the game exactly current resolves to Launch.
    let c = config(vec![VoiceLocale::English], false);
    let p = healthy_probes(latest(), vec![Ok(predownload("en-pre.zip", 200))]);
    assert!(matches!(resolve(&c, &p).unwrap(), LauncherState::Launch));
}

#[test]
fn unapplied_actionable_patch_fires() {
    let c = config(vec![], false);
    let mut p = healthy_probes(latest(), vec![]);
    p.unity_applied = Ok(false);
    match resolve(&c, &p).unwrap() {
        LauncherState::UnityPlayerPatchAvailable(info) => {
            assert!(matches!(info.status, PatchStatus::Available { .. }));
        }
        other => panic!("expected UnityPlayerPatchAvailable, got {:?}", other),
    }
}

#[test]
fn patch_preempts_predownload() {
    let c = config(vec![], false);
    let mut p = healthy_probes(predownload("game-pre.zip", 500), vec![]);
    p.unity_applied = Ok(false);
    assert!(matches!(resolve(&c, &p).unwrap(), LauncherState::UnityPlayerPatchAvailable(_)));
}

#[test]
fn non_actionable_patch_skips_its_applied_probe() {
    // With the patch in preparation the applied probe is never consulted:
    // even a failing one does not abort resolution.
    let c = config(vec![], false);
    let mut p = healthy_probes(latest(), vec![]);
    p.unity_patch = Ok(PatchInfo { status: PatchStatus::Preparation });
    p.unity_applied = Err(probe_err("marker unreadable"));
    assert!(matches!(resolve(&c, &p).unwrap(), LauncherState::Launch));
}

#[test]
fn disabled_xlua_patch_is_never_consulted() {
    let c = config(vec![], false);
    let mut p = healthy_probes(latest(), vec![]);
    p.xlua_patch = Err(probe_err("repository unreachable"));
    assert!(matches!(resolve(&c, &p).unwrap(), LauncherState::Launch));
}

#[test]
fn enabled_xlua_patch_fires() {
    let c = config(vec![], true);
    let mut p = healthy_probes(latest(), vec![]);
    p.xlua_patch = Ok(PatchInfo { status: PatchStatus::Testing { version: ver(3, 5, 0) } });
    p.xlua_applied = Ok(false);
    match resolve(&c, &p).unwrap() {
        LauncherState::XluaPatchAvailable(info) => {
            assert!(matches!(info.status, PatchStatus::Testing { .. }));
        }
        other => panic!("expected XluaPatchAvailable, got {:?}", other),
    }
}

#[test]
fn unity_patch_checked_before_xlua() {
    let c = config(vec![], true);
    let mut p = healthy_probes(latest(), vec![]);
    p.unity_applied = Ok(false);
    p.xlua_patch = Ok(PatchInfo { status: PatchStatus::Testing { version: ver(3, 5, 0) } });
    p.xlua_applied = Ok(false);
    assert!(matches!(resolve(&c, &p).unwrap(), LauncherState::UnityPlayerPatchAvailable(_)));
}

#[test]
fn game_probe_failure_aborts_resolution() {
    let c = config(vec![], false);
    let mut p = healthy_probes(latest(), vec![]);
    p.game_diff = Err(probe_err("api timed out"));
    let err = resolve(&c, &p).unwrap_err();
    assert_eq!(err.point, ProbePoint::GameDiff);
    assert_eq!(err.cause.message, "api timed out");
}

#[test]
fn voice_probe_failure_names_the_locale() {
    let c = config(vec![VoiceLocale::English, VoiceLocale::Chinese], false);
    let p = healthy_probes(
        latest(),
        vec![Ok(latest()), Err(probe_err("metadata corrupt"))],
    );
    let err = resolve(&c, &p).unwrap_err();
    assert_eq!(err.point, ProbePoint::VoiceDiff(VoiceLocale::Chinese));
    assert_eq!(err.cause.message, "metadata corrupt");
}

#[test]
fn applied_probe_failure_aborts_resolution() {
    let c = config(vec![], false);
    let mut p = healthy_probes(latest(), vec![]);
    p.unity_applied = Err(probe_err("marker unreadable"));
    let err = resolve(&c, &p).unwrap_err();
    assert_eq!(err.point, ProbePoint::UnityApplied);
}

#[test]
fn phases_follow_the_probes_consulted() {
    // Both voices pass: one marker per probe, then the patch marker.
    let c = config(vec![VoiceLocale::Japanese, VoiceLocale::English], false);
    let p = healthy_probes(latest(), vec![Ok(latest()), Ok(latest())]);
    assert_eq!(
        resolution_phases(&c, &p),
        vec![
            ResolvePhase::Game,
            ResolvePhase::Voice(VoiceLocale::Japanese),
            ResolvePhase::Voice(VoiceLocale::English),
            ResolvePhase::Patch,
        ]
    );

    // The first voice blocks: the second is never consulted.
    let p = healthy_probes(latest(), vec![Ok(not_installed("ja.zip")), Ok(latest())]);
    assert_eq!(
        resolution_phases(&c, &p),
        vec![ResolvePhase::Game, ResolvePhase::Voice(VoiceLocale::Japanese)]
    );
}

#[test]
fn no_phases_before_the_game_probe() {
    // A pending migration stops resolution before any marked probe runs.
    let c = config(vec![VoiceLocale::English], false);
    let mut p = healthy_probes(latest(), vec![Ok(latest())]);
    p.migration = Some(FolderMigration {
        from: "/old/game".to_string(),
        to: "/new/game".to_string(),
        cleanup_folder: None,
    });
    assert!(resolution_phases(&c, &p).is_empty());

    // No voices selected: no voice marker at all.
    let c = config(vec![], false);
    let p = healthy_probes(latest(), vec![]);
    assert_eq!(resolution_phases(&c, &p), vec![ResolvePhase::Game, ResolvePhase::Patch]);
}

#[test]
fn resolution_is_idempotent() {
    // The same probes resolved twice give the same state and payload.
    let c = config(vec![VoiceLocale::English], false);
    let p = healthy_probes(
        predownload("game-pre.zip", 500),
        vec![Ok(predownload("en-pre.zip", 200))],
    );
    let first = resolve(&c, &p).unwrap();
    let second = resolve(&c, &p).unwrap();
    match (first, second) {
        (
            LauncherState::PredownloadAvailable { game: g1, voices: v1 },
            LauncherState::PredownloadAvailable { game: g2, voices: v2 },
        ) => {
            assert_eq!(g1.file_name().unwrap(), g2.file_name().unwrap());
            assert_eq!(v1.len(), v2.len());
            assert_eq!(v1[0].file_name().unwrap(), v2[0].file_name().unwrap());
        }
        other => panic!("expected two equal PredownloadAvailable states, got {:?}", other),
    }
}
