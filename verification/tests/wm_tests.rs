use we_layerd::config::CaptureConfig;
use we_layerd::wm_visibility::{
    any_succeeded, current_niri_workspace_id, detect_wm, hidden_corner, hypr_move_selectors, kde_state_args,
    kde_states, kde_window_ids, kdotool_ids, niri_after_move, niri_corner_args, resolve_workspace_target, sway_args,
    top_niri_workspace_id, workspace_id_by_name, workspace_target, DebugWindowVisibility, DesktopWm, HyprClient,
    NiriWindow, NiriWorkspace, VisibilityAction, WmEnv, WmError, WorkspaceTarget,
};

fn env() -> WmEnv {
    WmEnv {
        hyprland_instance_signature: false,
        swaysock: false,
        niri_socket: false,
        kde_full_session: false,
        kde_session_version: false,
        current_desktop: None,
    }
}

fn capture(class: Option<&str>, title: Option<&str>) -> CaptureConfig {
    CaptureConfig {
        wm_class_contains: class.map(|s| s.to_string()),
        title_contains: title.map(|s| s.to_string()),
        ..CaptureConfig::default()
    }
}

#[test]
fn window_manager_detection() {
    assert_eq!(detect_wm(&env()), DesktopWm::Unknown);
    assert_eq!(detect_wm(&WmEnv { niri_socket: true, ..env() }), DesktopWm::Niri);
    assert_eq!(detect_wm(&WmEnv { swaysock: true, niri_socket: true, ..env() }), DesktopWm::Sway);
    assert_eq!(detect_wm(&WmEnv { current_desktop: Some("KDE".to_string()), ..env() }), DesktopWm::Kde);
    assert_eq!(detect_wm(&WmEnv { current_desktop: Some("Hyprland".to_string()), ..env() }), DesktopWm::Hyprland);
    assert_eq!(detect_wm(&WmEnv { current_desktop: Some("plasma:x".to_string()), ..env() }), DesktopWm::Kde);
}

#[test]
fn selectors_default_to_wallpaper64() {
    let v = DebugWindowVisibility::new(true, "top".to_string(), &capture(Some("  "), Some(" ")));
    assert_eq!(v.selector_class(), "wallpaper64");
    assert_eq!(v.selector_title(), None);
    let v = DebugWindowVisibility::new(false, "top".to_string(), &capture(Some("steam_proton"), Some("WE")));
    assert_eq!(v.selector_class(), "steam_proton");
    assert_eq!(v.selector_title().as_deref(), Some("WE"));
}

#[test]
fn hide_and_show_actions_per_window_manager() {
    let v = DebugWindowVisibility::new(true, "hidden".to_string(), &capture(None, None));
    assert_eq!(v.hide_window(DesktopWm::Hyprland), Ok(VisibilityAction::Hyprland { workspace: "special:hidden".to_string() }));
    assert_eq!(v.show(DesktopWm::Hyprland), Ok(VisibilityAction::Hyprland { workspace: "+0".to_string() }));
    assert_eq!(
        v.hide_window(DesktopWm::Sway),
        Ok(VisibilityAction::Sway {
            args: vec!["[class=\"wallpaper64\"]".to_string(), "move".to_string(), "scratchpad".to_string()]
        })
    );
    assert_eq!(
        v.hide_window(DesktopWm::Niri),
        Ok(VisibilityAction::NiriHide { target: WorkspaceTarget::Named("hidden".to_string()) })
    );
    assert_eq!(v.show(DesktopWm::Niri), Ok(VisibilityAction::NiriShow));
    assert_eq!(v.hide_window(DesktopWm::Kde), Ok(VisibilityAction::Kde { hiding: true }));
    let err = v.show(DesktopWm::Unknown).unwrap_err();
    assert_eq!(err, WmError::NoSupportedWm { hiding: false });
    assert_eq!(err.message(""), "no supported WM detected for show-window action");
}

#[test]
fn workspace_targets() {
    assert_eq!(workspace_target("  TOP "), WorkspaceTarget::Top);
    assert_eq!(workspace_target(""), WorkspaceTarget::Top);
    assert_eq!(workspace_target(" 12 "), WorkspaceTarget::Id(12));
    assert_eq!(workspace_target(" scratch "), WorkspaceTarget::Named("scratch".to_string()));
}

fn ws(id: Option<u64>, idx: Option<i64>, name: Option<&str>, focused: bool) -> NiriWorkspace {
    NiriWorkspace { id, idx, name: name.map(|s| s.to_string()), is_focused: Some(focused), is_active: None }
}

#[test]
fn niri_workspaces_are_resolved() {
    let list = vec![
        ws(Some(5), Some(3), Some("b"), false),
        ws(Some(6), Some(1), Some("a"), true),
        ws(Some(7), Some(1), None, false),
        ws(None, Some(0), Some("c"), false),
    ];
    assert_eq!(top_niri_workspace_id(&list), Ok(6));
    assert_eq!(current_niri_workspace_id(&list), Ok(6));
    assert_eq!(workspace_id_by_name(&list, "b"), Ok(5));
    assert_eq!(workspace_id_by_name(&list, "c"), Err(WmError::NoNamedNiriWorkspace));
    assert_eq!(WmError::NoNamedNiriWorkspace.message("c"), "cannot resolve niri workspace id by name: c");
    assert_eq!(resolve_workspace_target(&WorkspaceTarget::Id(99), &Vec::new()), Ok(99));
    assert_eq!(top_niri_workspace_id(&Vec::new()), Err(WmError::NoTopNiriWorkspace));
    assert_eq!(current_niri_workspace_id(&vec![ws(Some(1), None, None, false)]), Err(WmError::NoFocusedNiriWorkspace));
}

#[test]
fn hyprland_clients_are_matched_by_class_or_title() {
    let v = DebugWindowVisibility::new(true, "top".to_string(), &capture(None, Some("WE-Debug")));
    let clients = vec![
        HyprClient { class: Some("Wallpaper64".to_string()), initial_class: None, title: None, address: Some("0x1".to_string()) },
        HyprClient { class: Some("firefox".to_string()), initial_class: None, title: Some("we-debug window".to_string()), address: Some("0x2".to_string()) },
        HyprClient { class: Some("kitty".to_string()), initial_class: Some("kitty".to_string()), title: None, address: Some("0x3".to_string()) },
        HyprClient { class: None, initial_class: Some("wallpaper64".to_string()), title: None, address: None },
    ];
    assert_eq!(v.matching_hypr_addresses(&clients), vec!["0x1".to_string(), "0x2".to_string()]);
    assert_eq!(
        hypr_move_selectors(&vec!["0x1".to_string()], "special:top"),
        Ok(vec!["special:top,address:0x1".to_string()])
    );
    assert_eq!(hypr_move_selectors(&Vec::new(), "+0"), Err(WmError::NoHyprWindows));
}

#[test]
fn niri_windows_are_matched() {
    let v = DebugWindowVisibility::new(true, "top".to_string(), &capture(Some("Wallpaper"), None));
    let windows = vec![
        NiriWindow { id: Some(1), app_id: Some("wallpaper64.exe".to_string()), title: None },
        NiriWindow { id: None, app_id: Some("wallpaper32.exe".to_string()), title: None },
        NiriWindow { id: Some(3), app_id: Some("foot".to_string()), title: Some("wallpaper".to_string()) },
    ];
    assert_eq!(v.matching_niri_window_ids(&windows), vec![1]);
}

#[test]
fn kde_helpers() {
    assert_eq!(kdotool_ids(" 12 \n\n{abc}\r\n"), vec!["12".to_string(), "{abc}".to_string()]);
    assert_eq!(
        kde_window_ids(&vec!["b".to_string(), "a".to_string(), "b".to_string()]),
        Ok(vec!["a".to_string(), "b".to_string()])
    );
    assert_eq!(kde_window_ids(&Vec::new()), Err(WmError::NoKdeWindow));
    assert_eq!(kde_states(true).len(), 4);
    assert_eq!(kde_states(false), vec!["below".to_string(), "skip_taskbar".to_string(), "skip_pager".to_string()]);
    assert_eq!(
        kde_state_args("{id}", false, "below"),
        vec!["windowstate".to_string(), "--remove".to_string(), "below".to_string(), "{id}".to_string()]
    );
    let v = DebugWindowVisibility::new(true, "top".to_string(), &capture(None, Some("T")));
    assert_eq!(v.kde_title_search(), Some(vec!["search".to_string(), "--name".to_string(), "T".to_string()]));
    assert_eq!(
        v.kde_class_search(&Vec::new()),
        Some(vec!["search".to_string(), "--class".to_string(), "wallpaper64".to_string()])
    );
    assert_eq!(v.kde_class_search(&vec!["1".to_string()]), None);
}

#[test]
fn corner_and_outcomes() {
    assert_eq!(hidden_corner(Some(2560)), (2552, 0));
    assert_eq!(hidden_corner(Some(4)), (0, 0));
    assert_eq!(hidden_corner(None), (1912, 0));
    assert_eq!(niri_corner_args(3, -1, 0)[4], "3");
    assert_eq!(niri_corner_args(3, -1, 0)[6], "-1");
    assert_eq!(any_succeeded(&vec![false, true], WmError::KdeShowFailed), Ok(()));
    assert_eq!(any_succeeded(&vec![false], WmError::KdeShowFailed), Err(WmError::KdeShowFailed));
    assert_eq!(sway_args("x", false)[2], "show");
}

#[test]
fn niri_commands_after_a_move() {
    let strings = |v: &[&str]| v.iter().map(|s| s.to_string()).collect::<Vec<String>>();
    assert_eq!(
        niri_after_move(7, true, true, Some(2560)),
        vec![
            strings(&["msg", "action", "move-window-to-floating", "--id", "7"]),
            strings(&["msg", "action", "move-floating-window", "--id", "7", "-x", "2552", "-y", "0"]),
        ]
    );
    assert_eq!(
        niri_after_move(7, true, true, None)[1],
        strings(&["msg", "action", "move-floating-window", "--id", "7", "-x", "1912", "-y", "0"])
    );
    assert_eq!(niri_after_move(7, false, true, None), vec![strings(&["msg", "action", "focus-window", "--id", "7"])]);
    assert!(niri_after_move(7, true, false, Some(2560)).is_empty());
    assert!(niri_after_move(7, false, false, None).is_empty());
}
