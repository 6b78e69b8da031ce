use we_layerd::app::{
    apply_xwayland_root_size, can_hot_switch_between, effective_runtime_config, ensure_switchable_runtime,
    extract_play_in_window_hint, replace_numeric_wine_arg, session_plan, should_auto_hide, switch_plan,
    x11_access_message, RuntimeKind, RuntimePhase, RuntimeState, RuntimeTarget, SessionError, SessionPlan,
    SwitchError, SwitchPlan,
};
use we_layerd::config::{Backend, Config, IsolationMode, RuntimeConfig, RuntimeMode, RuntimeWallpaperType};
use we_layerd::gnome::{resolve_backend, ResolvedBackend};
use we_layerd::wm_visibility::DebugWindowVisibility;

fn strings(v: &[&str]) -> Vec<String> {
    v.iter().map(|s| s.to_string()).collect()
}

#[test]
fn hot_switch_requires_window_runtime_on_both_sides() {
    let current = Config {
        runtime: Some(RuntimeConfig {
            mode: RuntimeMode::WineLayerd,
            wallpaper_type: RuntimeWallpaperType::Scene,
            video_file: None,
        }),
        ..Config::default()
    };

    let mut next = current.clone();
    next.runtime = Some(RuntimeConfig {
        mode: RuntimeMode::VideoNative,
        wallpaper_type: RuntimeWallpaperType::Video,
        video_file: Some("/tmp/demo.mp4".to_string()),
    });

    assert!(!can_hot_switch_between(&current, &next));
    assert!(can_hot_switch_between(&current, &current));
}

#[test]
fn stale_generation_does_not_override_current_phase() {
    let cfg = Config::default();
    let mut state = RuntimeState::new(&cfg, false);
    let generation = state.begin_session(&cfg, false);
    state.mark_running_window(generation, None);
    let current_generation = state.begin_session(&cfg, false);

    state.mark_stopping(generation);

    assert_eq!(state.generation, current_generation);
    assert_eq!(state.phase, RuntimePhase::Starting);
}

#[test]
fn stale_updates_of_every_kind_are_ignored() {
    let cfg = Config::default();
    let mut state = RuntimeState::new(&cfg, false);
    let old = state.begin_session(&cfg, false);
    let _current = state.begin_session(&cfg, false);
    state.mark_awaiting_window(old);
    state.mark_running_video(old, "/v.mp4".to_string());
    state.mark_idle(old);
    state.fail(old, "boom".to_string());
    assert_eq!(state.phase, RuntimePhase::Starting);
    assert_eq!(state.kind, RuntimeKind::Idle);
    assert!(state.error.is_none());
    assert!(state.video_file.is_none());
}

#[test]
fn session_lifecycle_moves_through_phases() {
    let cfg = Config::default();
    let mut state = RuntimeState::new(&cfg, false);
    assert_eq!(state.generation, 0);
    let g = state.begin_session(&cfg, false);
    assert_eq!(g, 1);
    state.mark_awaiting_window(g);
    assert_eq!(state.phase, RuntimePhase::AwaitingWindow);
    let target = RuntimeTarget { xid: 7, pid: 9, title: "t".to_string(), wm_class: "c".to_string() };
    state.mark_running_window(g, Some(target));
    assert_eq!(state.phase, RuntimePhase::Running);
    assert_eq!(state.kind, RuntimeKind::Window);
    state.mark_stopping(g);
    assert_eq!(state.phase, RuntimePhase::Stopping);
    state.mark_idle(g);
    assert_eq!(state.phase, RuntimePhase::Idle);
    assert!(state.target.is_none());
    state.fail(g, "lost".to_string());
    assert_eq!(state.phase, RuntimePhase::Failed);
    assert_eq!(state.error.as_deref(), Some("lost"));
}

#[test]
fn status_report_lists_state_lines() {
    let cfg = Config::default();
    let mut state = RuntimeState::new(&cfg, false);
    let g = state.begin_session(&cfg, false);
    let target = RuntimeTarget { xid: 42, pid: 5, title: "WE \"x\"".to_string(), wm_class: "w".to_string() };
    state.mark_running_window(g, Some(target));
    let text = state.render_status_toml();
    let lines: Vec<&str> = text.lines().collect();
    assert_eq!(lines[0], "[orchestrator]");
    assert_eq!(lines[1], "backend = \"layer_shell\"");
    assert_eq!(lines[2], "kind = \"window\"");
    assert_eq!(lines[3], "phase = \"running\"");
    assert_eq!(lines[4], "generation = 1");
    assert_eq!(lines[5], "desired_kind = \"window\"");
    assert!(lines.contains(&"target_xid = 42"));
    assert!(lines.contains(&"target_title = \"WE \\\"x\\\"\""));
}

#[test]
fn backend_auto_follows_the_session() {
    let cfg = Config::default();
    assert_eq!(resolve_backend(&cfg, true), ResolvedBackend::GnomeShell);
    assert_eq!(resolve_backend(&cfg, false), ResolvedBackend::LayerShell);
    let mut cfg = Config::default();
    cfg.general.backend = Backend::LayerShell;
    assert_eq!(resolve_backend(&cfg, true), ResolvedBackend::LayerShell);
}

#[test]
fn switch_errors_name_the_reason() {
    let cfg = Config::default();
    assert_eq!(ensure_switchable_runtime(&cfg), Err(SwitchError::MissingRuntime));
    assert_eq!(SwitchError::MissingRuntime.message(), "runtime block is required for wallpaper switching");
    let cfg = Config {
        runtime: Some(RuntimeConfig {
            mode: RuntimeMode::WineLayerd,
            wallpaper_type: RuntimeWallpaperType::Video,
            video_file: None,
        }),
        ..Config::default()
    };
    assert_eq!(ensure_switchable_runtime(&cfg), Err(SwitchError::NotWindowWallpaper));
    assert_eq!(switch_plan(&cfg, &cfg), SwitchPlan::Reconfigure);
}

#[test]
fn session_plan_for_video_requires_a_file() {
    let mut cfg = Config::default();
    cfg.runtime = Some(RuntimeConfig {
        mode: RuntimeMode::VideoNative,
        wallpaper_type: RuntimeWallpaperType::Video,
        video_file: Some("  ".to_string()),
    });
    assert_eq!(session_plan(&cfg, false), Err(SessionError::MissingVideoFile));
    assert_eq!(SessionError::MissingVideoFile.message(), "runtime.video_file is required when runtime.mode=video_native");
    cfg.runtime = Some(RuntimeConfig {
        mode: RuntimeMode::VideoNative,
        wallpaper_type: RuntimeWallpaperType::Video,
        video_file: Some("/v.mp4".to_string()),
    });
    assert_eq!(session_plan(&cfg, true), Ok(SessionPlan::VideoGnome { video_file: "/v.mp4".to_string() }));
    assert_eq!(session_plan(&cfg, false), Ok(SessionPlan::VideoLayer { video_file: "/v.mp4".to_string() }));
    assert_eq!(session_plan(&Config::default(), false), Ok(SessionPlan::Window { gnome: false }));
}

#[test]
fn play_in_window_title_becomes_the_capture_title() {
    let mut cfg = Config::default();
    cfg.wine.args = strings(&["-playInWindow", "WE-DEBUG-WINDOW", "-width", "2560", "-height", "1600"]);
    assert_eq!(extract_play_in_window_hint(&cfg.wine.args).as_deref(), Some("WE-DEBUG-WINDOW"));
    let runtime = effective_runtime_config(cfg, Some((3840, 2160)));
    assert_eq!(runtime.capture.title_contains.as_deref(), Some("WE-DEBUG-WINDOW"));
    assert_eq!(
        runtime.wine.args,
        strings(&["-playInWindow", "WE-DEBUG-WINDOW", "-width", "3840", "-height", "2160"])
    );
}

#[test]
fn blank_play_in_window_title_is_no_hint() {
    assert_eq!(extract_play_in_window_hint(&strings(&["-playInWindow", " "])), None);
    assert_eq!(extract_play_in_window_hint(&strings(&["-playInWindow"])), None);
}

#[test]
fn numeric_wine_argument_is_replaced_once() {
    let mut args = strings(&["-width", "2560"]);
    assert_eq!(replace_numeric_wine_arg(&mut args, "-width", 1920), Some((2560, 1920)));
    assert_eq!(args, strings(&["-width", "1920"]));
    assert_eq!(replace_numeric_wine_arg(&mut args, "-width", 1920), None);
    let mut args = strings(&["-width", "wide"]);
    assert_eq!(replace_numeric_wine_arg(&mut args, "-width", 1920), None);
}

#[test]
fn root_size_is_applied_only_in_window_mode() {
    let mut cfg = Config::default();
    cfg.wine.args = strings(&["-width", "2560", "-height", "1600"]);
    let changes = apply_xwayland_root_size(&mut cfg, Some((1920, 1080)));
    assert_eq!(changes, (None, None));
    assert_eq!(cfg.wine.args, strings(&["-width", "2560", "-height", "1600"]));
}

#[test]
fn auto_hide_needs_no_isolated_display() {
    let mut cfg = Config::default();
    let v = DebugWindowVisibility::new(true, "top".to_string(), &cfg.capture);
    assert!(should_auto_hide(&v, &cfg));
    cfg.isolation.mode = IsolationMode::GamescopeHeadless;
    assert!(!should_auto_hide(&v, &cfg));
}

#[test]
fn x11_access_message_names_cookie_problems() {
    let m = x11_access_message("Invalid MIT-MAGIC-COOKIE-1 key", &Some(":0".to_string()), &None);
    assert!(m.starts_with("X11 authentication failed."));
    assert!(m.ends_with(" DISPLAY=:0 XAUTHORITY=<unset>"));
    let m = x11_access_message("connection refused", &None, &Some("/x".to_string()));
    assert!(m.starts_with("X11 setup failed."));
    assert!(m.ends_with(" DISPLAY=<unset> XAUTHORITY=/x"));
}
