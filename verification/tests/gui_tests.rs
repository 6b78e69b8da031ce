use we_layerd::gui::settings_panel::{
    detect_supported_resolutions, format_path_for_display, parse_resolutions_from_text, pick_initial_resolution,
    pick_selected_choice, CgroupModeOption, ExecutableVariantOption, LauncherChoice, LauncherModeOption,
    ResolutionOption, UiSettings,
};
use we_layerd::gui::shell::{
    can_hot_switch, command_exists_in_path, infer_executable_variant, infer_wm_class, install_notice,
    non_empty_trimmed, notice_lines, pkill_args, residue_patterns, runtime_status_from, status_text_for, stop_steps,
    sync_launch_settings, wallpaper_type_name, workshop_scan_root,
};
use we_layerd::gui::tray::{action_for_menu_id, icon_rgba, menu_labels, TrayAction, TrayMenuIds};
use we_layerd::gui::update::{init, update, GuiDiscovery, GuiEffect, GuiMessage, GuiState};
use we_layerd::we_core::config::{CgroupMode, LaunchSettings, WindowsLauncher};
use we_layerd::we_core::steam::{ProtonInstall, WallpaperEngineInstallState};
use we_layerd::we_core::wallpaper::{WallpaperEntry, WallpaperType};

fn res(width: u32, height: u32) -> ResolutionOption {
    ResolutionOption { width, height }
}

fn ui() -> UiSettings {
    UiSettings {
        wallpaper_exe: "/g/wallpaper64.exe".to_string(),
        executable_variant: ExecutableVariantOption::Wallpaper64,
        workshop_path: String::new(),
        launcher_mode: LauncherModeOption::Wine,
        wine_command: "wine".to_string(),
        proton_path: "  ".to_string(),
        fps_limit: "999".to_string(),
        show_fps: true,
        borderless: false,
        hide_debug_window: false,
        hidden_workspace_name: "h".to_string(),
        selected_resolution: Some(res(1280, 720)),
        cgroup_enabled: true,
        cgroup_mode: CgroupModeOption::LimitWine,
        cgroup_memory_max: " 1G ".to_string(),
        cgroup_cpu_max: String::new(),
        status_text: String::new(),
    }
}

#[test]
fn resolutions_are_parsed_from_randr_output() {
    let text = "Screen 0: minimum 320 x 200, current 2560 x 1600\n   2560x1600     60.00*+\n   800x600 640x480 1920x1080i\n   639x480 x1080 1024x\n";
    assert_eq!(parse_resolutions_from_text(text), vec![res(2560, 1600), res(800, 600), res(640, 480)]);
}

#[test]
fn supported_resolutions_fall_back_and_are_sorted_unique() {
    let r = detect_supported_resolutions(|| Some("1920x1080 800x600 1920x1080".to_string()), || panic!("not asked"));
    assert_eq!(r, vec![res(800, 600), res(1920, 1080)]);
    let r = detect_supported_resolutions(|| None, || Some("1024x768".to_string()));
    assert_eq!(r, vec![res(1024, 768)]);
    let r = detect_supported_resolutions(|| Some("nothing".to_string()), || None);
    assert_eq!(r, vec![res(1920, 1080)]);
}

#[test]
fn initial_resolution_and_choices() {
    let list = vec![res(800, 600), res(1920, 1080)];
    assert_eq!(pick_initial_resolution(&list, 1920, 1080), Some(res(1920, 1080)));
    assert_eq!(pick_initial_resolution(&list, 2560, 1600), None);
    let choices = vec![
        LauncherChoice { label: "A".to_string(), value: "wine".to_string() },
        LauncherChoice { label: "B".to_string(), value: "wine".to_string() },
    ];
    assert_eq!(pick_selected_choice(&choices, "wine").map(|c| c.label), Some("A".to_string()));
    assert_eq!(pick_selected_choice(&choices, "wine64"), None);
    assert_eq!(res(1920, 1080).label(), "1920 x 1080");
    assert_eq!(ExecutableVariantOption::Wallpaper32.filename(), "wallpaper32.exe");
    assert_eq!(LauncherModeOption::Proton.label(), "Proton");
    assert_eq!(CgroupModeOption::Detect.label(), "Detect (observe self + wine)");
}

#[test]
fn paths_are_shortened_for_display() {
    let home = Some("/home/user".to_string());
    assert_eq!(format_path_for_display("/home/user/a", &home, 64), "~/a");
    assert_eq!(format_path_for_display("/srv/a", &home, 64), "/srv/a");
    assert_eq!(format_path_for_display("abcdefghijklmnop", &None, 10), "abc...mnop");
    assert_eq!(format_path_for_display("abcdef", &None, 2), "...");
}

#[test]
fn shell_helpers() {
    assert_eq!(wallpaper_type_name(WallpaperType::Web), "web");
    assert_eq!(non_empty_trimmed("  x "), Some("x".to_string()));
    assert_eq!(non_empty_trimmed(" \t"), None);
    assert_eq!(infer_executable_variant("/a/WallPaper32.EXE"), ExecutableVariantOption::Wallpaper32);
    assert_eq!(infer_executable_variant("/a/wallpaper32.exe.bak"), ExecutableVariantOption::Wallpaper64);
    assert_eq!(infer_wm_class(LauncherModeOption::Proton, ExecutableVariantOption::Wallpaper32), "steam_proton");
    assert_eq!(infer_wm_class(LauncherModeOption::Wine, ExecutableVariantOption::Wallpaper32), "wallpaper32");
    assert!(can_hot_switch(Some(WallpaperType::Scene)));
    assert!(!can_hot_switch(Some(WallpaperType::Video)));
    assert!(!can_hot_switch(None));
}

#[test]
fn panel_values_are_synced_into_launch_settings() {
    let mut launch = LaunchSettings::default();
    sync_launch_settings(&mut launch, &ui());
    assert_eq!(launch.fps_limit, 360);
    assert_eq!(launch.proton_path, None);
    assert_eq!((launch.width, launch.height), (1280, 720));
    assert_eq!(launch.cgroup_memory_max.as_deref(), Some("1G"));
    assert_eq!(launch.cgroup_cpu_max, None);
    assert_eq!(launch.cgroup_mode, CgroupMode::LimitWine);
    assert_eq!(launch.wm_class_contains, "wallpaper64");
    assert_eq!(launch.play_in_window_title, "WE-DEBUG-WINDOW");
    let mut u = ui();
    u.fps_limit = "0".to_string();
    sync_launch_settings(&mut launch, &u);
    assert_eq!(launch.fps_limit, 1);
    u.fps_limit = "fast".to_string();
    sync_launch_settings(&mut launch, &u);
    assert_eq!(launch.fps_limit, 1);
}

#[test]
fn runner_status_and_cleanup() {
    assert_eq!(runtime_status_from(true, " \n", ""), Ok("status unavailable: daemon returned empty response".to_string()));
    assert_eq!(runtime_status_from(true, " x\n", ""), Ok("x".to_string()));
    assert_eq!(runtime_status_from(false, "", " no socket\n"), Err("no socket".to_string()));
    assert_eq!(status_text_for(&Err("e".to_string())), "status unavailable: e");
    assert_eq!(residue_patterns(" ").len(), 5);
    assert_eq!(residue_patterns("/g/w.exe")[5], "/g/w.exe");
    assert_eq!(pkill_args("TERM", "", "ui32.exe"), vec!["-TERM".to_string(), "-f".to_string(), "ui32.exe".to_string()]);
    assert_eq!(pkill_args("KILL", "me", "x")[2], "me");
    let steps = stop_steps();
    assert_eq!(steps[1], (Some("INT".to_string()), 30));
    assert_eq!(workshop_scan_root(" ", None), Err("cannot find Steam workshop path for app 431960".to_string()));
    assert_eq!(workshop_scan_root("", Some("/w".to_string())), Ok("/w".to_string()));
    assert_eq!(install_notice(&WallpaperEngineInstallState::Installed { app_dir: "a".to_string(), exe_path: "b".to_string() }), None);
    assert!(install_notice(&WallpaperEngineInstallState::NotInstalled).unwrap().starts_with("Wallpaper Engine is not installed"));
    let path = vec!["/bin".to_string(), "/usr/bin".to_string()];
    assert!(command_exists_in_path("we-layerd", &path, |p: String| p == "/usr/bin/we-layerd"));
    assert!(!command_exists_in_path("we-layerd", &path, |_p: String| false));
}

#[test]
fn tray_menu() {
    let ids = TrayMenuIds {
        play: "1".to_string(),
        stop: "2".to_string(),
        pause: "3".to_string(),
        resume: "4".to_string(),
        quit: "5".to_string(),
    };
    assert_eq!(action_for_menu_id(&ids, "3"), Some(TrayAction::Pause));
    assert_eq!(action_for_menu_id(&ids, "9"), None);
    assert_eq!(menu_labels()[0], "Play / Switch");
    let icon = icon_rgba();
    assert_eq!(icon.len(), 16 * 16 * 4);
    assert_eq!(&icon[0..4], &[30, 140, 240, 255]);
    let centre = (8 * 16 + 8) * 4;
    assert_eq!(&icon[centre..centre + 4], &[10, 45, 70, 220]);
}

fn discovery() -> GuiDiscovery {
    let mut launch = LaunchSettings::default();
    launch.width = 1920;
    launch.height = 1080;
    GuiDiscovery {
        launch_settings: launch,
        install_state: WallpaperEngineInstallState::Installed {
            app_dir: "/g".to_string(),
            exe_path: "/g/wallpaper32.exe".to_string(),
        },
        workshop_root: Some("/w".to_string()),
        supported_resolutions: vec![res(1920, 1080)],
        wine_commands: vec!["wine-staging".to_string(), "wine".to_string()],
        proton_installs: vec![ProtonInstall { name: "P".to_string(), proton_path: "/p/proton".to_string() }],
        layerd_available: true,
    }
}

#[test]
fn application_starts_from_what_it_found() {
    let start = init(discovery());
    let s = &start.state;
    assert_eq!(start.install_notice, None);
    assert_eq!(s.launch_settings.wallpaper_exe, "/g/wallpaper32.exe");
    assert_eq!(s.launch_settings.wine_command, "wine-staging");
    assert_eq!(s.launch_settings.proton_path.as_deref(), Some("/p/proton"));
    assert_eq!(s.ui_settings.executable_variant, ExecutableVariantOption::Wallpaper32);
    assert_eq!(s.ui_settings.workshop_path, "/w");
    assert_eq!(s.ui_settings.fps_limit, "30");
    assert_eq!(s.ui_settings.selected_resolution, Some(res(1920, 1080)));
    assert_eq!(s.ui_settings.status_text, "status unavailable: daemon is not running");
    assert_eq!(start.wine_commands[1].label, "wine");
    assert_eq!(start.proton_versions[0].value, "/p/proton");
    assert_eq!(s.launch_settings.launcher, WindowsLauncher::Wine);
}

fn entry(id: &str, ty: WallpaperType) -> WallpaperEntry {
    WallpaperEntry {
        id: id.to_string(),
        project_json: format!("/w/{id}/project.json"),
        title: id.to_string(),
        ty,
        preview: None,
    }
}

#[test]
fn user_actions_update_the_state() {
    let mut s: GuiState = init(discovery()).state;
    assert!(matches!(update(&mut s, GuiMessage::AutoScan), GuiEffect::ScanWorkshop { path } if path == "/w"));
    let e = update(&mut s, GuiMessage::Scanned(Ok(vec![entry("1", WallpaperType::Scene), entry("2", WallpaperType::Video)])));
    assert!(matches!(e, GuiEffect::Nothing));
    assert_eq!(s.entries.len(), 2);
    match update(&mut s, GuiMessage::SelectWallpaper(0)) {
        GuiEffect::SaveConfig(cfg) => assert!(cfg.wine.args.contains(&"/w/1/project.json".to_string())),
        other => panic!("unexpected {:?}", other),
    }
    assert_eq!(s.selected_id.as_deref(), Some("1"));
    assert!(matches!(update(&mut s, GuiMessage::SelectWallpaper(9)), GuiEffect::Nothing));
    assert!(matches!(update(&mut s, GuiMessage::PlayPressed), GuiEffect::TryHotSwitch));
    assert!(matches!(update(&mut s, GuiMessage::HotSwitchResult(false)), GuiEffect::RestartRuntime));
    update(&mut s, GuiMessage::SelectWallpaper(1));
    assert!(matches!(update(&mut s, GuiMessage::PlayPressed), GuiEffect::RestartRuntime));
    assert!(matches!(update(&mut s, GuiMessage::StopResult(false)), GuiEffect::SendCtl(c) if c == "stop"));
    assert!(matches!(update(&mut s, GuiMessage::SettingsPressed), GuiEffect::FetchStatus));
    assert!(matches!(update(&mut s, GuiMessage::SettingsPressed), GuiEffect::SaveConfig(_)));
    update(&mut s, GuiMessage::ExecutableVariantSelected(ExecutableVariantOption::Wallpaper64));
    assert_eq!(s.ui_settings.wallpaper_exe, "/g/wallpaper64.exe");
    assert_eq!(s.launch_settings.wallpaper_exe, "/g/wallpaper64.exe");
    update(&mut s, GuiMessage::FpsLimitChanged("12".to_string()));
    assert_eq!(s.launch_settings.fps_limit, 12);
    assert!(matches!(
        update(&mut s, GuiMessage::WorkshopPathChanged { path: "/x".to_string(), is_dir: false }),
        GuiEffect::Nothing
    ));
    update(&mut s, GuiMessage::StatusLoaded(Err("down".to_string())));
    assert_eq!(s.ui_settings.status_text, "status unavailable: down");
    update(&mut s, GuiMessage::WindowOpened(3));
    assert!(matches!(update(&mut s, GuiMessage::Tray(TrayAction::ShowWindow)), GuiEffect::FocusWindow(3)));
    update(&mut s, GuiMessage::WindowClosed(3));
    assert!(matches!(update(&mut s, GuiMessage::Tray(TrayAction::ShowWindow)), GuiEffect::OpenWindow));
    assert!(matches!(update(&mut s, GuiMessage::Tray(TrayAction::Quit)), GuiEffect::Exit));
}

#[test]
fn executable_path_selects_its_own_variant() {
    for dir in ["", "/x", "/home/u/.local/share/Steam/steamapps/common/wallpaper_engine", "rel/dir/"] {
        for v in [ExecutableVariantOption::Wallpaper64, ExecutableVariantOption::Wallpaper32] {
            assert_eq!(infer_executable_variant(&format!("{dir}/{}", v.filename())), v);
        }
    }
    assert_eq!(infer_executable_variant("/x/WALLPAPER32.EXE"), ExecutableVariantOption::Wallpaper32);
    assert_eq!(infer_executable_variant("/x/other.exe"), ExecutableVariantOption::Wallpaper64);
}

#[test]
fn notices_above_the_grid() {
    let notice = Some("Wallpaper Engine is not installed.".to_string());
    assert_eq!(
        notice_lines(false, &notice),
        vec!["we-layerd not found in PATH".to_string(), "Wallpaper Engine is not installed.".to_string()]
    );
    assert_eq!(notice_lines(false, &None), vec!["we-layerd not found in PATH".to_string()]);
    assert_eq!(notice_lines(true, &notice), vec!["Wallpaper Engine is not installed.".to_string()]);
    assert!(notice_lines(true, &None).is_empty());
}
