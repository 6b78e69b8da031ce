use std::collections::HashSet;

use we_layerd::we_core::steam::{
    default_config_path, detect_wallpaper_engine_install_state, discover_proton_installs,
    discover_wallpaper_engine_app_dir, discover_wallpaper_engine_exe, discover_wine_commands,
    discover_workshop_wallpaper_root, proton_search_dirs, steam_common_roots, steam_workshop_roots,
    ProtonCandidate, ProtonInstall, WallpaperEngineInstallState, WALLPAPER_ENGINE_APP_ID,
};
use we_layerd::we_core::wallpaper::{detect_preview_image, parse_type, scan_workshop_wallpapers, ProjectMeta, WallpaperType};

fn set(paths: &[&str]) -> HashSet<String> {
    paths.iter().map(|s| s.to_string()).collect()
}

fn home() -> Option<String> {
    Some("/home/u".to_string())
}

#[test]
fn steam_roots_under_home() {
    let roots = steam_common_roots(&home());
    assert_eq!(roots.len(), 3);
    assert_eq!(roots[0], "/home/u/.local/share/Steam/steamapps/common");
    assert_eq!(roots[2], "/home/u/snap/steam/common/.local/share/Steam/steamapps/common");
    assert!(steam_common_roots(&None).is_empty());
    assert_eq!(steam_workshop_roots(&home())[1], "/home/u/.var/app/com.valvesoftware.Steam/.local/share/Steam/steamapps/workshop/content");
}

#[test]
fn executable_discovery_prefers_64_bit_in_the_first_library() {
    let files = set(&[
        "/home/u/.local/share/Steam/steamapps/common/wallpaper_engine/wallpaper32.exe",
        "/home/u/.var/app/com.valvesoftware.Steam/.local/share/Steam/steamapps/common/wallpaper_engine/wallpaper64.exe",
    ]);
    let found = discover_wallpaper_engine_exe(&home(), |p: String| files.contains(&p));
    assert_eq!(found.as_deref(), Some("/home/u/.local/share/Steam/steamapps/common/wallpaper_engine/wallpaper32.exe"));
    assert_eq!(discover_wallpaper_engine_exe(&home(), |_p: String| false), None);
}

#[test]
fn workshop_and_app_dir_discovery() {
    let dirs = set(&["/home/u/snap/steam/common/.local/share/Steam/steamapps/workshop/content/431960"]);
    assert_eq!(WALLPAPER_ENGINE_APP_ID, 431960);
    assert_eq!(
        discover_workshop_wallpaper_root(&home(), |p: String| dirs.contains(&p)).as_deref(),
        Some("/home/u/snap/steam/common/.local/share/Steam/steamapps/workshop/content/431960")
    );
    let dirs = set(&["/home/u/.local/share/Steam/steamapps/common/wallpaper_engine"]);
    assert_eq!(
        discover_wallpaper_engine_app_dir(&home(), |p: String| dirs.contains(&p)).as_deref(),
        Some("/home/u/.local/share/Steam/steamapps/common/wallpaper_engine")
    );
    assert_eq!(default_config_path(&home()).as_deref(), Some("/home/u/.config/we-layerd/config.toml"));
    assert_eq!(default_config_path(&None), None);
}

#[test]
fn detect_install_state_accepts_custom_wallpaper32_exe() {
    let exe = "/games/we/wallpaper32.exe";
    let state = detect_wallpaper_engine_install_state(exe, &None, |p: String| p == exe, |_p: String| false);
    assert_eq!(
        state,
        WallpaperEngineInstallState::Installed {
            app_dir: "/games/we".to_string(),
            exe_path: exe.to_string()
        }
    );
}

#[test]
fn custom_executable_must_exist_and_be_named_right() {
    let exe = "/games/we/launcher.exe";
    let state = detect_wallpaper_engine_install_state(exe, &None, |_p: String| true, |_p: String| true);
    assert_eq!(state, WallpaperEngineInstallState::NotInstalled);
    let state = detect_wallpaper_engine_install_state("/x/WALLPAPER64.EXE", &None, |_p: String| false, |_p: String| true);
    assert_eq!(state, WallpaperEngineInstallState::NotInstalled);
}

#[test]
fn scanned_install_states() {
    let app = "/home/u/.local/share/Steam/steamapps/common/wallpaper_engine";
    let dirs = set(&[app]);
    let installer = format!("{app}/installer.exe");
    let files = set(&[installer.as_str()]);
    let state = detect_wallpaper_engine_install_state(" ", &home(), |p: String| files.contains(&p), |p: String| dirs.contains(&p));
    assert_eq!(state, WallpaperEngineInstallState::FirstRunRequired { app_dir: app.to_string() });
    let exe64 = format!("{app}/wallpaper64.exe");
    let files = set(&[exe64.as_str(), installer.as_str()]);
    let state = detect_wallpaper_engine_install_state("", &home(), |p: String| files.contains(&p), |p: String| dirs.contains(&p));
    assert_eq!(state, WallpaperEngineInstallState::Installed { app_dir: app.to_string(), exe_path: exe64.clone() });
    let state = detect_wallpaper_engine_install_state("", &None, |_p: String| true, |_p: String| true);
    assert_eq!(state, WallpaperEngineInstallState::NotInstalled);
}

#[test]
fn proton_builds_are_unique_and_sorted_by_name() {
    let listed = vec![
        ProtonCandidate { dir: "/s/common/Proton 9".to_string(), is_dir: true, proton_is_file: true },
        ProtonCandidate { dir: "/s/common/Proton 8".to_string(), is_dir: true, proton_is_file: true },
        ProtonCandidate { dir: "/s/common/Proton 9".to_string(), is_dir: true, proton_is_file: true },
        ProtonCandidate { dir: "/s/common/readme".to_string(), is_dir: false, proton_is_file: true },
        ProtonCandidate { dir: "/s/compatibilitytools.d/GE".to_string(), is_dir: true, proton_is_file: true },
        ProtonCandidate { dir: "/t/Proton 8".to_string(), is_dir: true, proton_is_file: true },
        ProtonCandidate { dir: "/t/empty".to_string(), is_dir: true, proton_is_file: false },
    ];
    let found = discover_proton_installs(&listed);
    assert_eq!(
        found,
        vec![
            ProtonInstall { name: "GE".to_string(), proton_path: "/s/compatibilitytools.d/GE/proton".to_string() },
            ProtonInstall { name: "Proton 8".to_string(), proton_path: "/s/common/Proton 8/proton".to_string() },
            ProtonInstall { name: "Proton 8".to_string(), proton_path: "/t/Proton 8/proton".to_string() },
            ProtonInstall { name: "Proton 9".to_string(), proton_path: "/s/common/Proton 9/proton".to_string() },
        ]
    );
}

#[test]
fn proton_search_covers_compatibility_tools() {
    let dirs = proton_search_dirs(&home());
    assert_eq!(dirs[0], "/home/u/.local/share/Steam/steamapps/common");
    assert_eq!(dirs[1], "/home/u/.local/share/Steam/compatibilitytools.d");
    assert_eq!(dirs.len(), 6);
}

#[test]
fn wine_commands_are_defaults_plus_wine_names_sorted() {
    let found = vec![
        "wine-ge-8".to_string(),
        "winecfg".to_string(),
        "wine".to_string(),
        "ls".to_string(),
        "wine-ge-8".to_string(),
    ];
    assert_eq!(
        discover_wine_commands(&found),
        vec!["wine".to_string(), "wine-ge-8".to_string(), "wine-staging".to_string(), "wine64".to_string()]
    );
}

#[test]
fn wallpaper_types_and_previews() {
    assert_eq!(parse_type("Scene"), WallpaperType::Scene);
    assert_eq!(parse_type("VIDEO"), WallpaperType::Video);
    assert_eq!(parse_type("web"), WallpaperType::Web);
    assert_eq!(parse_type("application"), WallpaperType::Unknown);
    let files = set(&["/w/1/preview.gif", "/w/1/thumbnail.jpg"]);
    assert_eq!(detect_preview_image("/w/1", &|p: String| files.contains(&p)).as_deref(), Some("/w/1/preview.gif"));
    assert_eq!(detect_preview_image("/w/1", &|_p: String| false), None);
}

#[test]
fn workshop_scan_lists_sorted_entries() {
    let listed = vec!["/w/300".to_string(), "/w/100".to_string(), "/w/readme.txt".to_string(), "/w/200".to_string()];
    let dirs = set(&["/w/300", "/w/100", "/w/200"]);
    let files = set(&["/w/300/project.json", "/w/100/project.json", "/w/100/preview.png"]);
    let entries = scan_workshop_wallpapers(
        &listed,
        |p: String| dirs.contains(&p),
        |p: String| files.contains(&p),
        |p: String| {
            if p.starts_with("/w/100") {
                Ok(ProjectMeta { title: "  ".to_string(), wallpaper_type: "Video".to_string() })
            } else {
                Ok(ProjectMeta { title: "Night".to_string(), wallpaper_type: "scene".to_string() })
            }
        },
    )
    .expect("scan");
    assert_eq!(entries.len(), 2);
    assert_eq!(entries[0].id, "100");
    assert_eq!(entries[0].title, "Untitled");
    assert_eq!(entries[0].ty, WallpaperType::Video);
    assert_eq!(entries[0].preview.as_deref(), Some("/w/100/preview.png"));
    assert_eq!(entries[0].project_json, "/w/100/project.json");
    assert_eq!(entries[1].id, "300");
    assert_eq!(entries[1].title, "Night");
    assert_eq!(entries[1].preview, None);
}

#[test]
fn workshop_scan_stops_on_unreadable_project() {
    let listed = vec!["/w/1".to_string()];
    let r = scan_workshop_wallpapers(&listed, |_p: String| true, |_p: String| true, |_p: String| Err("invalid JSON: /w/1/project.json".to_string()));
    assert_eq!(r.err().as_deref(), Some("invalid JSON: /w/1/project.json"));
}
