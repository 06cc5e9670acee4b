use launcher_core::config::{InstallPaths, LauncherConfig};
use launcher_core::migrate::MigrationTask;
use launcher_core::probes::{FolderMigration, Probes};
use launcher_core::resolver::resolve;
use launcher_core::state::LauncherState;

fn plan() -> FolderMigration {
    FolderMigration {
        from: "/old/game".to_string(),
        to: "/new/game".to_string(),
        cleanup_folder: Some("/old".to_string()),
    }
}

#[test]
fn source_survives_a_mid_way_failure() {
    // Four files to move; the copy fails after two of them.
    let mut t = MigrationTask::begin(plan(), 4);
    t.record_copied();
    t.record_copied();
    t.record_failure();

    assert!(t.failed);
    assert!(!t.source_removed);
    assert!(!t.may_remove_source());
    assert_eq!(t.copied, 2);
}

#[test]
fn source_goes_only_after_every_file_is_copied() {
    let mut t = MigrationTask::begin(plan(), 3);
    t.record_copied();
    assert!(!t.may_remove_source());
    t.record_copied();
    t.record_copied();
    assert!(t.may_remove_source());
    t.record_source_removed();
    assert!(t.source_removed);
}

#[test]
fn empty_plan_may_finish_at_once() {
    let t = MigrationTask::begin(plan(), 0);
    assert!(t.may_remove_source());
}

#[test]
fn failed_migration_is_demanded_again() {
    // The failure left the source in place, so the layout probe still
    // reports the same migration and resolution demands it again, with the
    // same paths.
    let mut t = MigrationTask::begin(plan(), 4);
    t.record_copied();
    t.record_failure();
    assert!(!t.source_removed);

    let config = LauncherConfig {
        voices: vec![],
        apply_xlua_patch: false,
        paths: InstallPaths {
            game: "/new/game".to_string(),
            wine_builds: "/data/runners".to_string(),
            wine_prefix: "/data/prefix".to_string(),
            dxvk_builds: "/data/dxvks".to_string(),
            components: "/data/components".to_string(),
            patch: "/data/patch".to_string(),
            fps_unlocker: "/data/fps-unlocker".to_string(),
            temp: None,
        },
    };
    let probes = Probes {
        migration: Some(plan()),
        wine_installed: true,
        prefix_exists: true,
        game_diff: Ok(launcher_core::diff::VersionDiff::Latest {
            version: launcher_core::version::Version::new(3, 5, 0),
        }),
        voice_diffs: vec![],
        unity_patch: Ok(launcher_core::patch::PatchInfo {
            status: launcher_core::patch::PatchStatus::NotAvailable,
        }),
        unity_applied: Ok(false),
        xlua_patch: Ok(launcher_core::patch::PatchInfo {
            status: launcher_core::patch::PatchStatus::NotAvailable,
        }),
        xlua_applied: Ok(false),
    };
    match resolve(&config, &probes).unwrap() {
        LauncherState::FolderMigrationRequired { from, to, .. } => {
            assert_eq!(from, t.from);
            assert_eq!(to, t.to);
        }
        other => panic!("expected FolderMigrationRequired again, got {:?}", other),
    }
}
