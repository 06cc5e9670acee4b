use launcher_core::config::{
    config_or_default, derive_subpaths, selected_voices, InstallPaths, LauncherConfig,
};
use launcher_core::error::ProbeError;
use launcher_core::locale::VoiceLocale;

fn paths() -> InstallPaths {
    InstallPaths {
        game: "/data/game".to_string(),
        wine_builds: "/data/runners".to_string(),
        wine_prefix: "/data/prefix".to_string(),
        dxvk_builds: "/data/dxvks".to_string(),
        components: "/data/components".to_string(),
        patch: "/data/patch".to_string(),
        fps_unlocker: "/data/fps-unlocker".to_string(),
        temp: None,
    }
}

fn config(voices: Vec<VoiceLocale>) -> LauncherConfig {
    LauncherConfig { voices, apply_xlua_patch: false, paths: paths() }
}

#[test]
fn adding_a_voice_appends_once() {
    let mut c = config(vec![VoiceLocale::English]);
    c.add_voice(VoiceLocale::Japanese);
    assert_eq!(c.voices, vec![VoiceLocale::English, VoiceLocale::Japanese]);

    // Adding it again changes nothing.
    c.add_voice(VoiceLocale::Japanese);
    assert_eq!(c.voices, vec![VoiceLocale::English, VoiceLocale::Japanese]);
}

#[test]
fn removing_a_voice_keeps_the_order_of_the_others() {
    let mut c = config(vec![VoiceLocale::English, VoiceLocale::Japanese, VoiceLocale::Korean]);
    c.remove_voice(VoiceLocale::Japanese);
    assert_eq!(c.voices, vec![VoiceLocale::English, VoiceLocale::Korean]);

    // Removing an absent locale changes nothing.
    c.remove_voice(VoiceLocale::Chinese);
    assert_eq!(c.voices, vec![VoiceLocale::English, VoiceLocale::Korean]);
}

#[test]
fn has_voice_reflects_the_selection() {
    let c = config(vec![VoiceLocale::Korean]);
    assert!(c.has_voice(VoiceLocale::Korean));
    assert!(!c.has_voice(VoiceLocale::English));
}

#[test]
fn first_run_selection_keeps_the_page_order() {
    assert_eq!(
        selected_voices(true, true, false, true),
        vec![VoiceLocale::English, VoiceLocale::Japanese, VoiceLocale::Chinese]
    );
    assert_eq!(selected_voices(false, false, false, false), vec![]);
    assert_eq!(selected_voices(false, true, false, false), vec![VoiceLocale::Japanese]);
}

#[test]
fn locale_list_is_complete_and_ordered() {
    assert_eq!(
        VoiceLocale::list(),
        vec![
            VoiceLocale::English,
            VoiceLocale::Japanese,
            VoiceLocale::Korean,
            VoiceLocale::Chinese,
        ]
    );
}

#[test]
fn unreadable_config_falls_back_to_the_snapshot() {
    let fallback = config(vec![VoiceLocale::English]);
    let read: Result<LauncherConfig, ProbeError> =
        Err(ProbeError { message: "file corrupt".to_string() });
    let c = config_or_default(read, fallback);
    assert_eq!(c.voices, vec![VoiceLocale::English]);

    let read: Result<LauncherConfig, ProbeError> = Ok(config(vec![VoiceLocale::Korean]));
    let c = config_or_default(read, config(vec![VoiceLocale::English]));
    assert_eq!(c.voices, vec![VoiceLocale::Korean]);
}

#[test]
fn default_paths_derive_from_the_launcher_folder() {
    let p = derive_subpaths(&"/home/user/launcher".to_string());
    assert_eq!(p.game, "/home/user/launcher/Genshin Impact");
    assert_eq!(p.wine_builds, "/home/user/launcher/runners");
    assert_eq!(p.wine_prefix, "/home/user/launcher/prefix");
    assert_eq!(p.dxvk_builds, "/home/user/launcher/dxvks");
    assert_eq!(p.components, "/home/user/launcher/components");
    assert_eq!(p.patch, "/home/user/launcher/patch");
    assert_eq!(p.fps_unlocker, "/home/user/launcher/fps-unlocker");
    assert_eq!(p.temp.as_deref(), Some("/home/user/launcher"));
}

#[test]
fn applying_default_paths_leaves_the_rest_alone() {
    let mut c = config(vec![VoiceLocale::English]);
    c.apply_default_paths(derive_subpaths(&"/mnt/sd".to_string()));
    assert_eq!(c.paths.game, "/mnt/sd/Genshin Impact");
    assert_eq!(c.voices, vec![VoiceLocale::English]);
    assert!(!c.apply_xlua_patch);
}
