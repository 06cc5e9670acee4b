use launcher_core::controller::Controller;
use launcher_core::diff::VersionDiff;
use launcher_core::state::LauncherState;
use launcher_core::version::Version;

fn update_state() -> LauncherState {
    LauncherState::GameUpdateAvailable(VersionDiff::Diff {
        current: Version::new(3, 4, 0),
        latest: Version::new(3, 5, 0),
        file_name: "upd.zip".to_string(),
        size: 1000,
    })
}

#[test]
fn starts_loading_with_nothing_resolved() {
    let c = Controller::new();
    assert!(c.loading);
    assert!(c.state.is_none());
    assert!(c.actionable_state().is_none());
}

#[test]
fn resolution_with_status_page_shows_it() {
    let mut c = Controller::new();
    c.state_resolved(LauncherState::Launch, false, false);
    c.begin_resolution(true);
    assert!(c.loading);
    assert!(!c.disabled_buttons);
}

#[test]
fn background_resolution_blocks_the_controls() {
    let mut c = Controller::new();
    c.state_resolved(LauncherState::Launch, false, false);
    c.begin_resolution(false);
    assert!(!c.loading);
    assert!(c.disabled_buttons);
}

#[test]
fn a_resolved_state_becomes_actionable() {
    let mut c = Controller::new();
    c.begin_resolution(true);
    let perform = c.state_resolved(LauncherState::Launch, false, false);
    assert!(!perform);
    assert!(!c.loading);
    assert!(!c.disabled_buttons);
    assert!(matches!(c.actionable_state(), Some(LauncherState::Launch)));
}

#[test]
fn chained_download_is_requested_when_asked_for() {
    let mut c = Controller::new();
    assert!(c.state_resolved(update_state(), true, false));
    assert!(!c.state_resolved(update_state(), false, false));
    assert!(!c.state_resolved(LauncherState::Launch, true, true));
}

#[test]
fn failed_resolution_keeps_the_state_but_offers_nothing() {
    let mut c = Controller::new();
    c.state_resolved(update_state(), false, false);

    c.begin_resolution(false);
    c.resolution_failed();

    // Still displayed, no longer actionable, controls freed for a retry.
    assert!(c.state.is_some());
    assert!(c.actionable_state().is_none());
    assert!(!c.loading);
    assert!(!c.disabled_buttons);

    // A later successful resolution makes the state actionable again.
    c.begin_resolution(false);
    c.state_resolved(update_state(), false, false);
    assert!(c.actionable_state().is_some());
}

#[test]
fn downloading_flag_swaps_the_progress_area() {
    let mut c = Controller::new();
    c.state_resolved(update_state(), false, false);
    c.set_downloading(true);
    assert!(c.downloading);
    assert!(c.state.is_some());
    c.set_downloading(false);
    assert!(!c.downloading);
}
