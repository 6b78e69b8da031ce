use we_layerd::config::{Backend, Config, IsolationConfig, IsolationMode, RuntimeConfig, RuntimeMode, RuntimeWallpaperType};
use we_layerd::display_isolation::{gamescope_headless_args, numeric_arg, resolve_display_size, startup_timeout_secs};
use we_layerd::we_core::config::{
    build_config, build_window_wallpaper_args, derive_steam_root_from_path, launch_settings_from_config,
    AppConfig, EnvMap, LaunchSettings, WindowsLauncher,
};
use we_layerd::we_core::wallpaper::WallpaperType;

fn strings(v: &[&str]) -> Vec<String> {
    v.iter().map(|s| s.to_string()).collect()
}

#[test]
fn proton_mode_falls_back_to_proton_root_for_compat_data_path() {
    let mut settings = LaunchSettings::default();
    settings.launcher = WindowsLauncher::Proton;
    settings.proton_path = Some("/steam-root/steamapps/common/Proton 9/proton".to_string());
    settings.wallpaper_exe = "/opt/custom/wallpaper32.exe".to_string();
    settings.workshop_path = "/tmp/workshop".to_string();

    let cfg = build_config(&settings, WallpaperType::Scene, "/tmp/project.json", None);

    assert_eq!(
        cfg.wine.env.get("STEAM_COMPAT_CLIENT_INSTALL_PATH").as_deref(),
        Some("/steam-root")
    );
    assert_eq!(
        cfg.wine.env.get("STEAM_COMPAT_DATA_PATH").as_deref(),
        Some("/steam-root/steamapps/compatdata/431960")
    );
}

#[test]
fn proton_mode_prefers_wallpaper_exe_root_for_compat_data_path() {
    let mut settings = LaunchSettings::default();
    settings.launcher = WindowsLauncher::Proton;
    settings.proton_path = Some("/steam-root/steamapps/common/Proton 9/proton".to_string());
    settings.wallpaper_exe =
        "/other-steam-root/steamapps/common/wallpaper_engine/wallpaper64.exe".to_string();

    let cfg = build_config(&settings, WallpaperType::Scene, "/tmp/project.json", None);

    assert_eq!(
        cfg.wine.env.get("STEAM_COMPAT_DATA_PATH").as_deref(),
        Some("/other-steam-root/steamapps/compatdata/431960")
    );
}

#[test]
fn default_config_has_expected_fps() {
    let cfg = Config::default();
    assert_eq!(cfg.general.fps_limit, 30);
}

#[test]
fn display_size_prefers_config_and_falls_back_to_wine_args() {
    let cfg = IsolationConfig {
        mode: IsolationMode::GamescopeHeadless,
        width: Some(1280),
        height: Some(720),
        ..IsolationConfig::default()
    };
    let args = strings(&["-width", "2560", "-height", "1600"]);

    let size = resolve_display_size(&cfg, &args);

    assert_eq!(size.width, 1280);
    assert_eq!(size.height, 720);

    let cfg = IsolationConfig { mode: IsolationMode::GamescopeHeadless, ..IsolationConfig::default() };
    let args = strings(&["-height", "1600", "-width", "2560"]);
    let size = resolve_display_size(&cfg, &args);

    assert_eq!(size.width, 2560);
    assert_eq!(size.height, 1600);
}

#[test]
fn display_size_defaults_without_config_or_args() {
    let cfg = IsolationConfig::default();
    let size = resolve_display_size(&cfg, &Vec::new());
    assert_eq!((size.width, size.height), (1920, 1080));
}

#[test]
fn numeric_arg_ignores_zero_and_missing_values() {
    assert_eq!(numeric_arg(&strings(&["-width", "0"]), "-width"), None);
    assert_eq!(numeric_arg(&strings(&["-width"]), "-width"), None);
    assert_eq!(numeric_arg(&strings(&["-width", "x"]), "-width"), None);
    assert_eq!(numeric_arg(&strings(&["-width", "+800"]), "-width"), Some(800));
}

#[test]
fn gamescope_args_follow_the_display_size() {
    let cfg = IsolationConfig { width: Some(800), height: Some(600), ..IsolationConfig::default() };
    let size = resolve_display_size(&cfg, &Vec::new());
    let args = gamescope_headless_args(&size, "/tmp/display");
    assert!(args.contains(&"800".to_string()));
    assert!(args.contains(&"600".to_string()));
    assert!(args.contains(&"/tmp/display".to_string()));
}

#[test]
fn startup_timeout_is_at_least_one_second() {
    let cfg = IsolationConfig { startup_timeout_secs: 0, ..IsolationConfig::default() };
    assert_eq!(startup_timeout_secs(&cfg), 1);
    let cfg = IsolationConfig { startup_timeout_secs: 7, ..IsolationConfig::default() };
    assert_eq!(startup_timeout_secs(&cfg), 7);
}

#[test]
fn steam_root_is_found_above_steamapps() {
    assert_eq!(
        derive_steam_root_from_path("/home/u/.steam/steamapps/common/wallpaper_engine/wallpaper64.exe")
            .as_deref(),
        Some("/home/u/.steam")
    );
    assert_eq!(derive_steam_root_from_path("/opt/custom/wallpaper32.exe"), None);
}

#[test]
fn wine_mode_runs_the_executable_with_window_arguments() {
    let mut settings = LaunchSettings::default();
    settings.wallpaper_exe = "/games/wallpaper64.exe".to_string();
    let cfg = build_config(&settings, WallpaperType::Web, "/w/project.json", None);
    assert_eq!(cfg.wine.command, "wine");
    assert_eq!(cfg.wine.wallpaper_exe, "/games/wallpaper64.exe");
    let runtime = cfg.runtime.expect("runtime block");
    assert_eq!(runtime.mode, RuntimeMode::WineLayerd);
    assert_eq!(runtime.wallpaper_type, RuntimeWallpaperType::Web);
    assert!(cfg.wine.args.contains(&"/w/project.json".to_string()));
    assert!(cfg.wine.args.contains(&"-playInWindow".to_string()));
}

#[test]
fn video_wallpaper_uses_native_video_mode() {
    let settings = LaunchSettings::default();
    let cfg = build_config(&settings, WallpaperType::Video, "/w/project.json", Some("/w/clip.mp4"));
    let runtime = cfg.runtime.expect("runtime block");
    assert_eq!(runtime.mode, RuntimeMode::VideoNative);
    assert_eq!(runtime.video_file.as_deref(), Some("/w/clip.mp4"));
    assert!(!cfg.general.restart_wine_on_exit);
}

#[test]
fn window_arguments_carry_size_position_and_title() {
    let mut settings = LaunchSettings::default();
    settings.width = 1920;
    settings.height = 1080;
    settings.x = -5;
    let args = build_window_wallpaper_args(&settings, "/p/project.json");
    let pos = args.iter().position(|a| a == "-width").expect("width flag");
    assert_eq!(args[pos + 1], "1920");
    let pos = args.iter().position(|a| a == "-x").expect("x flag");
    assert_eq!(args[pos + 1], "-5");
    assert!(args.contains(&"WE-DEBUG-WINDOW".to_string()));
}

#[test]
fn launch_settings_read_back_from_built_config() {
    let mut settings = LaunchSettings::default();
    settings.wallpaper_exe = "/games/wallpaper64.exe".to_string();
    settings.fps_limit = 45;
    settings.width = 1280;
    settings.height = 720;
    settings.x = 10;
    settings.y = 20;
    settings.isolation_mode = IsolationMode::GamescopeHeadless;
    settings.isolation_command = "gamescope-custom".to_string();
    settings.isolation_width = Some(2560);
    settings.isolation_height = Some(1600);
    settings.isolation_startup_timeout_secs = 12;
    let cfg = build_config(&settings, WallpaperType::Scene, "/p/project.json", None);
    let back = launch_settings_from_config(cfg);
    assert_eq!(back.wallpaper_exe, "/games/wallpaper64.exe");
    assert_eq!(back.fps_limit, 45);
    assert_eq!((back.width, back.height, back.x, back.y), (1280, 720, 10, 20));
    assert_eq!(back.isolation_mode, IsolationMode::GamescopeHeadless);
    assert_eq!(back.isolation_command, "gamescope-custom");
    assert_eq!(back.isolation_width, Some(2560));
    assert_eq!(back.isolation_height, Some(1600));
    assert_eq!(back.isolation_startup_timeout_secs, 12);
}

#[test]
fn legacy_config_without_workshop_path_reads_empty_workshop() {
    let mut cfg = AppConfig::default();
    cfg.wine.wallpaper_exe = "/tmp/wallpaper64.exe".to_string();
    cfg.wine.args = strings(&["-playInWindow", "WE-DEBUG-WINDOW"]);
    let settings = launch_settings_from_config(cfg);
    assert_eq!(settings.wallpaper_exe, "/tmp/wallpaper64.exe");
    assert_eq!(settings.workshop_path, "");
}

#[test]
fn env_map_later_values_override_earlier_ones() {
    let mut env = EnvMap::new();
    env.insert("A".to_string(), "1".to_string());
    env.insert("B".to_string(), "2".to_string());
    env.insert("A".to_string(), "3".to_string());
    assert_eq!(env.get("A").as_deref(), Some("3"));
    assert_eq!(env.get("B").as_deref(), Some("2"));
    assert_eq!(env.get("C"), None);
    let pairs = env.pairs();
    let applied: std::collections::BTreeMap<String, String> = pairs.into_iter().collect();
    assert_eq!(applied.get("A").map(String::as_str), Some("3"));
    assert_eq!(applied.len(), 2);
}

#[test]
fn default_backend_is_auto() {
    assert_eq!(Config::default().general.backend, Backend::Auto);
}

#[test]
fn runtime_config_struct_update_keeps_other_fields() {
    let cfg = Config {
        runtime: Some(RuntimeConfig {
            mode: RuntimeMode::WineLayerd,
            wallpaper_type: RuntimeWallpaperType::Scene,
            video_file: None,
        }),
        ..Config::default()
    };
    assert_eq!(cfg.general.fps_limit, 30);
}
