//! How the companion application turns what the user does into launch
//! settings, configuration and commands.
use vstd::prelude::*;

use crate::gui::settings_panel::{
    variant_file, CgroupModeOption, ExecutableVariantOption, LauncherModeOption, ResolutionOption, UiSettings,
};
use crate::pathname::{child_path, file_name_of, join, path_file_name, path_join, plain_name};
use crate::probe::{first_accepted, first_accepted_spec, total_probe};
use crate::text::{
    ascii_lower, concat, is_blank, lit, opt_view, parse_u32, parse_u32_str, str_eq, to_ascii_lower,
    trim, trim_str, strs_view,
};
use crate::we_core::config::{CgroupMode, LaunchSettings, WindowsLauncher};
use crate::we_core::steam::{WallpaperEngineInstallState, joined_each};
use crate::we_core::wallpaper::WallpaperType;

verus! {

/// The name of a wallpaper type.
pub open spec fn type_label(ty: WallpaperType) -> Seq<char> {
    match ty {
        WallpaperType::Video => "video"@,
        WallpaperType::Scene => "scene"@,
        WallpaperType::Web => "web"@,
        WallpaperType::Unknown => "unknown"@,
    }
}

/// The name of a wallpaper type, as the wallpaper cards show it.
pub fn wallpaper_type_name(ty: WallpaperType) -> (s: &'static str)
    ensures
        s@ == type_label(ty),
{
    match ty {
        WallpaperType::Video => "video",
        WallpaperType::Scene => "scene",
        WallpaperType::Web => "web",
        WallpaperType::Unknown => "unknown",
    }
}

/// The trimmed text where it is not empty.
pub open spec fn trimmed_value(input: Seq<char>) -> Option<Seq<char>> {
    if trim(input).len() == 0 {
        None
    } else {
        Some(trim(input))
    }
}

/// The trimmed input, or `None` where nothing is left of it.
pub fn non_empty_trimmed(input: &str) -> (r: Option<String>)
    ensures
        opt_view(r) == trimmed_value(input@),
{
    let t = trim_str(input);
    if is_blank(input) {
        None
    } else {
        Some(t)
    }
}

/// The executable variant a file name selects: `wallpaper32.exe` (in any
/// case) the 32-bit one, anything else the 64-bit one.
pub open spec fn variant_of_name(name: Seq<char>) -> ExecutableVariantOption {
    if ascii_lower(name) == "wallpaper32.exe"@ {
        ExecutableVariantOption::Wallpaper32
    } else {
        ExecutableVariantOption::Wallpaper64
    }
}

/// The executable variant a path names, by its file name (none counting as
/// an empty one).
pub open spec fn variant_of_path(path: Seq<char>) -> ExecutableVariantOption {
    match file_name_of(path) {
        Some(n) => variant_of_name(n),
        None => variant_of_name(Seq::empty()),
    }
}

/// Each variant's own file name selects it.
proof fn lemma_variant_file_selects(w: ExecutableVariantOption)
    ensures
        plain_name(variant_file(w)),
        variant_of_name(variant_file(w)) == w,
{
    reveal_strlit("wallpaper64.exe");
    reveal_strlit("wallpaper32.exe");
    let n = variant_file(w);
    assert(n.len() == 15);
    assert(n[0] == 'w');
    assert(ascii_lower(n) =~= n);
    if w == ExecutableVariantOption::Wallpaper64 {
        assert(n[10] != "wallpaper32.exe"@[10]);
    }
}

/// The executable variant a path names. A path `d/n` ending in a plain
/// name selects by that name; in particular the path of a variant's own
/// executable in any folder selects that variant.
pub fn infer_executable_variant(path: &str) -> (v: ExecutableVariantOption)
    ensures
        v == variant_of_path(path@),
        forall|d: Seq<char>, n: Seq<char>|
            path@ == #[trigger] child_path(d, n) && plain_name(n) ==> v == variant_of_name(n),
        forall|d: Seq<char>, w: ExecutableVariantOption|
            path@ == #[trigger] child_path(d, variant_file(w)) ==> v == w,
{
    let name = match path_file_name(path) {
        Some(n) => n,
        None => String::new(),
    };
    let lower = to_ascii_lower(name.as_str());
    let v = if str_eq(lower.as_str(), "wallpaper32.exe") {
        ExecutableVariantOption::Wallpaper32
    } else {
        ExecutableVariantOption::Wallpaper64
    };
    proof {
        assert forall|d: Seq<char>, w: ExecutableVariantOption|
            path@ == #[trigger] child_path(d, variant_file(w)) implies v == w by {
            lemma_variant_file_selects(w);
            assert(plain_name(variant_file(w)));
        }
    }
    v
}

/// The window class that identifies the wallpaper window for a launcher
/// and executable.
pub open spec fn wm_class_for(launcher: LauncherModeOption, variant: ExecutableVariantOption) -> Seq<
    char,
> {
    match launcher {
        LauncherModeOption::Proton => "steam_proton"@,
        LauncherModeOption::Wine => match variant {
            ExecutableVariantOption::Wallpaper64 => "wallpaper64"@,
            ExecutableVariantOption::Wallpaper32 => "wallpaper32"@,
        },
    }
}

/// The window class that identifies the wallpaper window.
pub fn infer_wm_class(launcher: LauncherModeOption, variant: ExecutableVariantOption) -> (s:
    &'static str)
    ensures
        s@ == wm_class_for(launcher, variant),
{
    match launcher {
        LauncherModeOption::Proton => "steam_proton",
        LauncherModeOption::Wine => match variant {
            ExecutableVariantOption::Wallpaper64 => "wallpaper64",
            ExecutableVariantOption::Wallpaper32 => "wallpaper32",
        },
    }
}

/// A selected wallpaper can replace the running one without a restart:
/// scene and web wallpapers can.
pub open spec fn hot_switchable(selected_type: Option<WallpaperType>) -> bool {
    selected_type == Some(WallpaperType::Scene) || selected_type == Some(WallpaperType::Web)
}

/// Whether the selected wallpaper can replace the running one in place.
pub fn can_hot_switch(selected_type: Option<WallpaperType>) -> (r: bool)
    ensures
        r == hot_switchable(selected_type),
{
    match selected_type {
        Some(WallpaperType::Scene) | Some(WallpaperType::Web) => true,
        _ => false,
    }
}

/// `v` held within `lo..=hi`.
pub open spec fn clamped(v: u32, lo: u32, hi: u32) -> u32 {
    if v < lo {
        lo
    } else if v > hi {
        hi
    } else {
        v
    }
}

/// The launch settings after the panel's values are taken over: the
/// executable, launcher, Wine command, Proton path, FPS display, window
/// border, window class, cgroup and debug-window settings come from the
/// panel; the window title is `WE-DEBUG-WINDOW` at 0,0; the frame rate
/// limit is the panel's number held within 1..=360 where it is one; the
/// size is the selected resolution where one is selected; the rest stays.
pub open spec fn synced(old: LaunchSettings, ui: UiSettings, new: LaunchSettings) -> bool {
    &&& new.wallpaper_exe@ == ui.wallpaper_exe@
    &&& new.launcher == match ui.launcher_mode {
        LauncherModeOption::Wine => WindowsLauncher::Wine,
        LauncherModeOption::Proton => WindowsLauncher::Proton,
    }
    &&& new.wine_command@ == ui.wine_command@
    &&& opt_view(new.proton_path) == trimmed_value(ui.proton_path@)
    &&& new.show_fps == ui.show_fps
    &&& new.borderless == ui.borderless
    &&& new.play_in_window_title@ == "WE-DEBUG-WINDOW"@
    &&& new.wm_class_contains@ == wm_class_for(ui.launcher_mode, ui.executable_variant)
    &&& new.x == 0
    &&& new.y == 0
    &&& new.fps_limit == match parse_u32(ui.fps_limit@) {
        Some(v) => clamped(v, 1, 360),
        None => old.fps_limit,
    }
    &&& new.width == match ui.selected_resolution {
        Some(r) => r.width,
        None => old.width,
    }
    &&& new.height == match ui.selected_resolution {
        Some(r) => r.height,
        None => old.height,
    }
    &&& new.cgroup_enabled == ui.cgroup_enabled
    &&& new.cgroup_mode == match ui.cgroup_mode {
        CgroupModeOption::Detect => CgroupMode::Detect,
        CgroupModeOption::LimitWine => CgroupMode::LimitWine,
    }
    &&& opt_view(new.cgroup_memory_max) == trimmed_value(ui.cgroup_memory_max@)
    &&& opt_view(new.cgroup_cpu_max) == trimmed_value(ui.cgroup_cpu_max@)
    &&& new.hide_debug_window == ui.hide_debug_window
    &&& new.hidden_workspace_name@ == ui.hidden_workspace_name@
    &&& new.workshop_path == old.workshop_path
    &&& new.isolation_mode == old.isolation_mode
    &&& new.isolation_command == old.isolation_command
    &&& new.isolation_width == old.isolation_width
    &&& new.isolation_height == old.isolation_height
    &&& new.isolation_startup_timeout_secs == old.isolation_startup_timeout_secs
    &&& new.disable_debug_window_input == old.disable_debug_window_input
}

/// Takes the panel's values over into the launch settings.
pub fn sync_launch_settings(launch: &mut LaunchSettings, ui: &UiSettings)
    ensures
        synced(*old(launch), *ui, *final(launch)),
{
    launch.wallpaper_exe = lit(ui.wallpaper_exe.as_str());
    launch.launcher = match ui.launcher_mode {
        LauncherModeOption::Wine => WindowsLauncher::Wine,
        LauncherModeOption::Proton => WindowsLauncher::Proton,
    };
    launch.wine_command = lit(ui.wine_command.as_str());
    launch.proton_path = non_empty_trimmed(ui.proton_path.as_str());
    launch.show_fps = ui.show_fps;
    launch.borderless = ui.borderless;
    launch.play_in_window_title = lit("WE-DEBUG-WINDOW");
    launch.wm_class_contains = lit(infer_wm_class(ui.launcher_mode, ui.executable_variant));
    launch.x = 0;
    launch.y = 0;
    if let Some(v) = parse_u32_str(ui.fps_limit.as_str()) {
        launch.fps_limit = if v < 1 {
            1
        } else if v > 360 {
            360
        } else {
            v
        };
    }
    if let Some(res) = ui.selected_resolution {
        launch.width = res.width;
        launch.height = res.height;
    }
    launch.cgroup_enabled = ui.cgroup_enabled;
    launch.cgroup_mode = match ui.cgroup_mode {
        CgroupModeOption::Detect => CgroupMode::Detect,
        CgroupModeOption::LimitWine => CgroupMode::LimitWine,
    };
    launch.cgroup_memory_max = non_empty_trimmed(ui.cgroup_memory_max.as_str());
    launch.cgroup_cpu_max = non_empty_trimmed(ui.cgroup_cpu_max.as_str());
    launch.hide_debug_window = ui.hide_debug_window;
    launch.hidden_workspace_name = lit(ui.hidden_workspace_name.as_str());
}

// ---------------------------------------------------------------------------
// Talking to the runner
// ---------------------------------------------------------------------------
/// The status text for what `we-layerd ctl status` gave: on success its
/// trimmed output (a notice where that is empty), else its trimmed error
/// output as the error.
pub open spec fn status_outcome(success: bool, stdout: Seq<char>, stderr: Seq<char>) -> Result<
    Seq<char>,
    Seq<char>,
> {
    if success {
        if trim(stdout).len() == 0 {
            Ok("status unavailable: daemon returned empty response"@)
        } else {
            Ok(trim(stdout))
        }
    } else {
        Err(trim(stderr))
    }
}

/// The view of a text result.
pub open spec fn text_result(r: Result<String, String>) -> Result<Seq<char>, Seq<char>> {
    match r {
        Ok(t) => Ok(t@),
        Err(e) => Err(e@),
    }
}

/// Reads the status the runner reported.
pub fn runtime_status_from(success: bool, stdout: &str, stderr: &str) -> (r: Result<String, String>)
    ensures
        text_result(r) == status_outcome(success, stdout@, stderr@),
{
    if success {
        let t = trim_str(stdout);
        if is_blank(stdout) {
            Ok(lit("status unavailable: daemon returned empty response"))
        } else {
            Ok(t)
        }
    } else {
        Err(trim_str(stderr))
    }
}

/// The text the settings panel shows for a status result.
pub open spec fn status_panel_text(r: Result<Seq<char>, Seq<char>>) -> Seq<char> {
    match r {
        Ok(t) => t,
        Err(e) => "status unavailable: "@ + e,
    }
}

/// The text the settings panel shows for a status result.
pub fn status_text_for(r: &Result<String, String>) -> (t: String)
    ensures
        t@ == status_panel_text(text_result(*r)),
{
    match r {
        Ok(text) => lit(text.as_str()),
        Err(err) => concat("status unavailable: ", err.as_str()),
    }
}

/// The process patterns cleared after the runtime stops: the runner, the
/// Wallpaper Engine programs, and the configured executable where one is
/// set.
pub open spec fn residue_patterns_of(wallpaper_exe: Seq<char>) -> Seq<Seq<char>> {
    let base = seq![
        "we-layerd run"@,
        "wallpaper64.exe"@,
        "wallpaper32.exe"@,
        "explorer.exe"@,
        "ui32.exe"@,
    ];
    if trim(wallpaper_exe).len() == 0 {
        base
    } else {
        base.push(wallpaper_exe)
    }
}

/// The process patterns cleared after the runtime stops.
pub fn residue_patterns(wallpaper_exe: &str) -> (p: Vec<String>)
    ensures
        strs_view(p@) == residue_patterns_of(wallpaper_exe@),
{
    let mut p: Vec<String> = vec![
        lit("we-layerd run"),
        lit("wallpaper64.exe"),
        lit("wallpaper32.exe"),
        lit("explorer.exe"),
        lit("ui32.exe"),
    ];
    let ghost base = strs_view(p@);
    assert(base =~= seq![
        "we-layerd run"@,
        "wallpaper64.exe"@,
        "wallpaper32.exe"@,
        "explorer.exe"@,
        "ui32.exe"@,
    ]);
    if !is_blank(wallpaper_exe) {
        p.push(lit(wallpaper_exe));
        assert(strs_view(p@) =~= base.push(wallpaper_exe@));
    }
    p
}

/// The `pkill` arguments that send a signal to the user's processes whose
/// command line matches a pattern (to all processes where the user name is
/// empty).
pub open spec fn pkill_args_of(signal: Seq<char>, user: Seq<char>, pattern: Seq<char>) -> Seq<
    Seq<char>,
> {
    if user.len() == 0 {
        seq!["-"@ + signal, "-f"@, pattern]
    } else {
        seq!["-"@ + signal, "-u"@, user, "-f"@, pattern]
    }
}

/// The `pkill` arguments for a signal, a user and a pattern.
pub fn pkill_args(signal: &str, user: &str, pattern: &str) -> (args: Vec<String>)
    ensures
        strs_view(args@) == pkill_args_of(signal@, user@, pattern@),
{
    let mut args: Vec<String> = Vec::new();
    args.push(concat("-", signal));
    if !str_eq(user, "") {
        args.push(lit("-u"));
        args.push(lit(user));
    }
    args.push(lit("-f"));
    args.push(lit(pattern));
    proof {
        reveal_strlit("");
        if user@.len() == 0 {
            assert(user@ =~= ""@);
        }
    }
    assert(strs_view(args@) =~= pkill_args_of(signal@, user@, pattern@));
    args
}

/// How the runtime process is brought down: wait for it, then send `INT`
/// and wait, then `TERM` and wait (each wait so many tries 100 ms apart);
/// a process still running after that is killed.
pub open spec fn stop_steps_spec() -> Seq<(Option<Seq<char>>, nat)> {
    seq![(None, 40nat), (Some("INT"@), 30nat), (Some("TERM"@), 20nat)]
}

/// The steps that bring the runtime process down.
pub fn stop_steps() -> (steps: Vec<(Option<String>, usize)>)
    ensures
        steps@.map_values(|s: (Option<String>, usize)| (opt_view(s.0), s.1 as nat)) == stop_steps_spec(),
{
    let steps: Vec<(Option<String>, usize)> = vec![
        (None, 40),
        (Some(lit("INT")), 30),
        (Some(lit("TERM")), 20),
    ];
    assert(steps@.map_values(|s: (Option<String>, usize)| (opt_view(s.0), s.1 as nat)) =~= stop_steps_spec());
    steps
}

/// The notice shown for the install state, where one is needed.
pub open spec fn install_notice_of(state: WallpaperEngineInstallState) -> Option<Seq<char>> {
    match state {
        WallpaperEngineInstallState::NotInstalled => Some(
            "Wallpaper Engine is not installed. Please install it, or choose paths in Settings."@,
        ),
        WallpaperEngineInstallState::FirstRunRequired { .. } => Some(
            "Wallpaper Engine first-run setup is pending. Launch it once in Steam to run installer.exe."@,
        ),
        WallpaperEngineInstallState::Installed { .. } => None,
    }
}

/// The notice shown for the install state, where one is needed.
pub fn install_notice(state: &WallpaperEngineInstallState) -> (r: Option<String>)
    ensures
        opt_view(r) == install_notice_of(*state),
{
    match state {
        WallpaperEngineInstallState::NotInstalled => Some(
            lit("Wallpaper Engine is not installed. Please install it, or choose paths in Settings."),
        ),
        WallpaperEngineInstallState::FirstRunRequired { .. } => Some(
            lit(
                "Wallpaper Engine first-run setup is pending. Launch it once in Steam to run installer.exe.",
            ),
        ),
        WallpaperEngineInstallState::Installed { .. } => None,
    }
}

/// The notice lines above the wallpaper grid: that `we-layerd` is missing
/// from `PATH` where it is, then the install notice where there is one.
pub open spec fn notice_lines_of(layerd_available: bool, install_notice: Option<Seq<char>>) -> Seq<
    Seq<char>,
> {
    (if layerd_available {
        Seq::empty()
    } else {
        seq!["we-layerd not found in PATH"@]
    }) + match install_notice {
        Some(n) => seq![n],
        None => Seq::empty(),
    }
}

/// The notice lines above the wallpaper grid.
pub fn notice_lines(layerd_available: bool, install_notice: &Option<String>) -> (lines: Vec<String>)
    ensures
        strs_view(lines@) == notice_lines_of(layerd_available, opt_view(*install_notice)),
{
    let mut lines: Vec<String> = Vec::new();
    if !layerd_available {
        lines.push(lit("we-layerd not found in PATH"));
    }
    let ghost first = strs_view(lines@);
    if let Some(n) = install_notice {
        lines.push(lit(n.as_str()));
        assert(strs_view(lines@) =~= first.push(n@));
    }
    assert(strs_view(lines@) =~= notice_lines_of(layerd_available, opt_view(*install_notice)));
    lines
}

/// The workshop folder to scan: the one entered, or where that is blank
/// the one discovered; an error where there is none.
pub open spec fn scan_root_of(entered: Seq<char>, discovered: Option<Seq<char>>) -> Result<
    Seq<char>,
    Seq<char>,
> {
    if trim(entered).len() == 0 {
        match discovered {
            Some(d) => Ok(d),
            None => Err("cannot find Steam workshop path for app 431960"@),
        }
    } else {
        Ok(entered)
    }
}

/// The workshop folder to scan.
pub fn workshop_scan_root(entered: &str, discovered: Option<String>) -> (r: Result<String, String>)
    ensures
        text_result(r) == scan_root_of(entered@, opt_view(discovered)),
{
    if is_blank(entered) {
        match discovered {
            Some(d) => Ok(d),
            None => Err(lit("cannot find Steam workshop path for app 431960")),
        }
    } else {
        Ok(lit(entered))
    }
}

/// A program of that name is a file in one of the `PATH` folders, asking
/// `is_file` about each folder in turn.
pub fn command_exists_in_path<F: Fn(String) -> bool>(name: &str, path_dirs: &Vec<String>, is_file: F) -> (r:
    bool)
    requires
        total_probe(is_file),
    ensures
        exists|i: Option<usize>|
            first_accepted_spec(
                is_file,
                joined_each(strs_view(path_dirs@), name@),
                i,
            ) && r == (i is Some),
{
    let mut cands: Vec<String> = Vec::new();
    let mut k: usize = 0;
    while k < path_dirs.len()
        invariant
            k <= path_dirs.len(),
            cands.len() == k,
            forall|j: int| 0 <= j < k ==> #[trigger] cands@[j]@ == join(path_dirs@[j]@, name@),
        decreases path_dirs.len() - k,
    {
        cands.push(path_join(path_dirs[k].as_str(), name));
        k += 1;
    }
    assert(strs_view(cands@) =~= joined_each(strs_view(path_dirs@), name@));
    let i = first_accepted(&is_file, &cands);
    assert(i.is_some() == (i is Some));
    i.is_some()
}

} // verus!
