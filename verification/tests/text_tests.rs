use we_layerd::x11::window_finder::{nul_separated_pieces, property_text};
use we_layerd::config::CaptureConfig;
use we_layerd::text::{sorted_unique, stable_order, text_lt};
use we_layerd::x11::window_finder::{
    contains_case_insensitive, is_match, score_window, select_window, target_pid, WindowMetadata,
};

fn meta(class: &str, title: &str, pid: Option<u32>, w: u16, h: u16) -> WindowMetadata {
    WindowMetadata {
        wm_class: class.to_string(),
        title: title.to_string(),
        pid,
        is_viewable: true,
        width: w,
        height: h,
    }
}

#[test]
fn case_insensitive_matching_uses_full_lowercase() {
    assert!(contains_case_insensitive("Wallpaper64.EXE", "wallpaper64"));
    assert!(contains_case_insensitive("ÉCRAN", "écran"));
    assert!(!contains_case_insensitive("steam", "wallpaper"));
}

#[test]
fn windows_are_scored_and_the_best_is_chosen() {
    assert_eq!(score_window(Some(7), &meta("wallpaper64.exe", "WE", Some(7), 1920, 1080)), 200 + 80 + 40 + 120);
    assert_eq!(score_window(None, &meta("x", "", None, 100, 100)), 1);
    assert_eq!(score_window(None, &meta("x", "t", None, 63, 1000)), -1);
    let mut hidden = meta("x", "t", None, 500, 500);
    hidden.is_viewable = false;
    assert_eq!(score_window(None, &hidden), -1);

    let config = CaptureConfig { wm_class_contains: Some("WALLPAPER".to_string()), ..CaptureConfig::default() };
    assert_eq!(target_pid(&config, Some(3)), Some(3));
    let windows = vec![
        meta("kitty", "WE", Some(3), 800, 600),
        meta("wallpaper64.exe", "", Some(3), 200, 200),
        meta("wallpaper64.exe", "WE", Some(3), 1920, 1080),
        meta("wallpaper64.exe", "WE", Some(3), 1920, 1080),
        meta("wallpaper64.exe", "WE", Some(4), 1920, 1080),
    ];
    assert!(!is_match(&config, Some(3), &windows[0]));
    assert!(!is_match(&config, Some(3), &windows[4]));
    assert_eq!(select_window(&config, Some(3), &windows), Some(2));
    assert_eq!(select_window(&config, Some(9), &windows), None);
}

#[test]
fn strings_order_like_string_ord() {
    assert!(text_lt("abc", "abd"));
    assert!(text_lt("ab", "abc"));
    assert!(!text_lt("b", "abc"));
    assert!(!text_lt("x", "x"));
    let v = vec!["b".to_string(), "a".to_string(), "b".to_string(), "".to_string()];
    assert_eq!(sorted_unique(&v), vec!["".to_string(), "a".to_string(), "b".to_string()]);
    let keys = vec!["b".to_string(), "a".to_string(), "b".to_string(), "a".to_string()];
    assert_eq!(stable_order(&keys), vec![1, 3, 0, 2]);
}

#[test]
fn window_property_text() {
    assert_eq!(nul_separated_pieces(&b"\0ab\0\0c".to_vec()), vec![b"ab".to_vec(), b"c".to_vec()]);
    assert_eq!(property_text(&b"wallpaper64.exe\0Wine\0".to_vec()).as_deref(), Some("wallpaper64.exe Wine"));
    assert_eq!(property_text(&Vec::new()), None);
    assert_eq!(property_text(&vec![0xff, b'a']).as_deref(), Some("\u{fffd}a"));
}
