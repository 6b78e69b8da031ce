//! The companion application as a state machine: what each user action or
//! finished task does to its state, and what it asks to be done next.
use vstd::prelude::*;

use crate::gui::settings_panel::{
    CgroupModeOption, ExecutableVariantOption, LauncherChoice, LauncherModeOption, ResolutionOption,
    UiSettings, variant_file,
};
use crate::gui::shell::{
    can_hot_switch, hot_switchable, infer_executable_variant, status_panel_text, status_text_for,
    sync_launch_settings, synced, text_result, variant_of_path,
};
use crate::gui::settings_panel::pick_initial_resolution;
use crate::gui::shell::{install_notice, install_notice_of};
use crate::gui::tray::TrayAction;
use crate::we_core::config::WindowsLauncher;
use crate::we_core::steam::{ProtonInstall, WallpaperEngineInstallState};
use crate::pathname::{join, parent_of, path_join, path_parent};
use crate::text::{decimal, is_blank, lit, opt_view, str_eq, trim, u32_to_decimal};
use crate::we_core::config::{AppConfig, LaunchSettings, build_config, built_config};
use crate::we_core::wallpaper::{WallpaperEntry, WallpaperType};

verus! {

/// The state of the companion application.
#[derive(Debug, Clone)]
pub struct GuiState {
    pub entries: Vec<WallpaperEntry>,
    pub selected_id: Option<String>,
    pub selected_type: Option<WallpaperType>,
    pub layerd_available: bool,
    pub launch_settings: LaunchSettings,
    pub ui_settings: UiSettings,
    pub show_settings: bool,
    pub main_window_id: Option<u64>,
}

/// What happened: a user action or the end of a task.
#[derive(Debug)]
pub enum GuiMessage {
    AutoScan,
    Scanned(Result<Vec<WallpaperEntry>, String>),
    SelectWallpaper(usize),
    PlayPressed,
    /// Whether `we-layerd switch` took the new wallpaper.
    HotSwitchResult(bool),
    StopPressed,
    /// Whether stopping the runtime stopped anything.
    StopResult(bool),
    SettingsPressed,
    WallpaperExeChanged(String),
    ExecutableVariantSelected(ExecutableVariantOption),
    /// A workshop folder was typed in; `is_dir` tells whether it is one.
    WorkshopPathChanged { path: String, is_dir: bool },
    LauncherModeSelected(LauncherModeOption),
    WineCommandSelected(LauncherChoice),
    ProtonVersionSelected(LauncherChoice),
    ProtonPathChanged(String),
    PickWallpaperExe,
    PickWorkshopPath,
    WallpaperExePicked(Option<String>),
    WorkshopPathPicked(Option<String>),
    FpsLimitChanged(String),
    ShowFpsToggled(bool),
    BorderlessToggled(bool),
    HideDebugWindowToggled(bool),
    HiddenWorkspaceNameChanged(String),
    ResolutionSelected(ResolutionOption),
    CgroupEnabledToggled(bool),
    CgroupModeSelected(CgroupModeOption),
    CgroupMemoryMaxChanged(String),
    CgroupCpuMaxChanged(String),
    RefreshStatus,
    StatusLoaded(Result<String, String>),
    StatusTick,
    WindowCloseRequested(u64),
    WindowOpened(u64),
    WindowClosed(u64),
    Tray(TrayAction),
}

/// What the application is asked to do next.
#[derive(Debug, Clone)]
pub enum GuiEffect {
    Nothing,
    /// Scan the workshop folder entered (the discovered one where it is
    /// blank) and answer `Scanned`.
    ScanWorkshop { path: String },
    /// Write the runner configuration.
    SaveConfig(AppConfig),
    /// Run `we-layerd switch` with the configuration and answer
    /// `HotSwitchResult`.
    TryHotSwitch,
    /// Stop the runtime, then start `we-layerd run` with the configuration.
    RestartRuntime,
    /// Stop the runtime and answer `StopResult`.
    StopRuntime,
    /// Run `we-layerd ctl` with the command.
    SendCtl(String),
    /// Ask the runner for its status and answer `StatusLoaded`.
    FetchStatus,
    PickWallpaperExe,
    PickWorkshopPath,
    CloseWindow(u64),
    FocusWindow(u64),
    OpenWindow,
    /// Stop the runtime and leave.
    Exit,
}

/// Only the settings panel's values and the launch settings changed.
pub open spec fn same_apart_from_settings(old: GuiState, new: GuiState) -> bool {
    &&& new.entries == old.entries
    &&& new.selected_id == old.selected_id
    &&& new.selected_type == old.selected_type
    &&& new.layerd_available == old.layerd_available
    &&& new.show_settings == old.show_settings
    &&& new.main_window_id == old.main_window_id
}

/// Nothing changed.
pub open spec fn unchanged(old: GuiState, new: GuiState) -> bool {
    same_apart_from_settings(old, new) && new.ui_settings == old.ui_settings && new.launch_settings
        == old.launch_settings
}

/// The panel now holds `ui` and the launch settings took its values over.
pub open spec fn edited(old: GuiState, ui: UiSettings, new: GuiState) -> bool {
    same_apart_from_settings(old, new) && new.ui_settings == ui && synced(
        old.launch_settings,
        ui,
        new.launch_settings,
    )
}

/// The effect of pressing Play: nothing without the runner; an in-place
/// switch for a scene or web wallpaper; a restart otherwise.
pub open spec fn play_effect(s: GuiState, e: GuiEffect) -> bool {
    if !s.layerd_available {
        e is Nothing
    } else if hot_switchable(s.selected_type) {
        e is TryHotSwitch
    } else {
        e is RestartRuntime
    }
}

/// The first entry with the selected id.
pub open spec fn selected_entry(entries: Seq<WallpaperEntry>, id: Seq<char>) -> Option<int> {
    if exists|i: int| 0 <= i < entries.len() && #[trigger] entries[i].id@ == id {
        Some(
            choose|i: int|
                0 <= i < entries.len() && entries[i].id@ == id && forall|j: int|
                    0 <= j < i ==> entries[j].id@ != id,
        )
    } else {
        None
    }
}

/// The configuration is saved for the selected wallpaper, where one is
/// selected and still listed (the first entry with its id); nothing is done
/// otherwise.
pub open spec fn persist_effect(s: GuiState, e: GuiEffect) -> bool {
    match s.selected_id {
        Some(id) => match selected_entry(s.entries@, id@) {
            Some(i) => e matches GuiEffect::SaveConfig(cfg) && built_config(
                s.launch_settings,
                s.entries@[i].ty,
                s.entries@[i].project_json@,
                None,
                cfg,
            ),
            None => e is Nothing,
        },
        None => e is Nothing,
    }
}

/// What a message does to the state and what it asks for next.
pub open spec fn gui_step(old: GuiState, msg: GuiMessage, new: GuiState, e: GuiEffect) -> bool {
    match msg {
        GuiMessage::AutoScan => unchanged(old, new) && e == GuiEffect::ScanWorkshop {
            path: old.ui_settings.workshop_path,
        },
        GuiMessage::Scanned(r) => match r {
            Ok(entries) => new.entries == entries && new.selected_id == old.selected_id
                && new.selected_type == old.selected_type && new.layerd_available
                == old.layerd_available && new.show_settings == old.show_settings
                && new.main_window_id == old.main_window_id && new.ui_settings == old.ui_settings
                && new.launch_settings == old.launch_settings && e is Nothing,
            Err(_) => unchanged(old, new) && e is Nothing,
        },
        GuiMessage::SelectWallpaper(i) => if i < old.entries.len() {
            let entry = old.entries@[i as int];
            new.entries == old.entries && new.selected_id == Some(entry.id)
                && new.selected_type == Some(entry.ty) && new.layerd_available
                == old.layerd_available && new.show_settings == old.show_settings
                && new.main_window_id == old.main_window_id && new.ui_settings == old.ui_settings
                && new.launch_settings == old.launch_settings && (e matches GuiEffect::SaveConfig(
                cfg,
            ) && built_config(old.launch_settings, entry.ty, entry.project_json@, None, cfg))
        } else {
            unchanged(old, new) && e is Nothing
        },
        GuiMessage::PlayPressed => unchanged(old, new) && play_effect(old, e),
        GuiMessage::HotSwitchResult(ok) => unchanged(old, new) && if ok {
            e is Nothing
        } else {
            e is RestartRuntime
        },
        GuiMessage::StopPressed => unchanged(old, new) && e is StopRuntime,
        GuiMessage::StopResult(stopped) => unchanged(old, new) && if stopped {
            e is Nothing
        } else {
            e matches GuiEffect::SendCtl(c) && c@ == "stop"@
        },
        GuiMessage::SettingsPressed => new.entries == old.entries && new.selected_id == old.selected_id
            && new.selected_type == old.selected_type && new.layerd_available
            == old.layerd_available && new.show_settings == !old.show_settings
            && new.main_window_id == old.main_window_id && new.ui_settings == old.ui_settings
            && new.launch_settings == old.launch_settings && if new.show_settings {
            e is FetchStatus
        } else {
            persist_effect(old, e)
        },
        GuiMessage::WallpaperExeChanged(v) => edited(
            old,
            UiSettings {
                wallpaper_exe: v,
                executable_variant: variant_of_path(v@),
                ..old.ui_settings
            },
            new,
        ) && e is Nothing,
        GuiMessage::ExecutableVariantSelected(v) => same_apart_from_settings(old, new)
            && new.ui_settings.executable_variant == v && new.ui_settings.wallpaper_exe@ == match parent_of(
            old.ui_settings.wallpaper_exe@,
        ) {
            Some(p) => join(p, variant_file(v)),
            None => old.ui_settings.wallpaper_exe@,
        } && new.ui_settings == (UiSettings {
            wallpaper_exe: new.ui_settings.wallpaper_exe,
            executable_variant: v,
            ..old.ui_settings
        }) && synced(old.launch_settings, new.ui_settings, new.launch_settings) && e is Nothing,
        GuiMessage::WorkshopPathChanged { path, is_dir } => same_apart_from_settings(old, new)
            && new.ui_settings == (UiSettings { workshop_path: path, ..old.ui_settings })
            && new.launch_settings == old.launch_settings && if is_dir {
            e == GuiEffect::ScanWorkshop { path }
        } else {
            e is Nothing
        },
        GuiMessage::LauncherModeSelected(v) => edited(
            old,
            UiSettings { launcher_mode: v, ..old.ui_settings },
            new,
        ) && e is Nothing,
        GuiMessage::WineCommandSelected(c) => edited(
            old,
            UiSettings { wine_command: c.value, ..old.ui_settings },
            new,
        ) && e is Nothing,
        GuiMessage::ProtonVersionSelected(c) => edited(
            old,
            UiSettings { proton_path: c.value, ..old.ui_settings },
            new,
        ) && e is Nothing,
        GuiMessage::ProtonPathChanged(v) => edited(
            old,
            UiSettings { proton_path: v, ..old.ui_settings },
            new,
        ) && e is Nothing,
        GuiMessage::PickWallpaperExe => unchanged(old, new) && e is PickWallpaperExe,
        GuiMessage::PickWorkshopPath => unchanged(old, new) && e is PickWorkshopPath,
        GuiMessage::WallpaperExePicked(p) => match p {
            Some(v) => edited(
                old,
                UiSettings {
                    wallpaper_exe: v,
                    executable_variant: variant_of_path(v@),
                    ..old.ui_settings
                },
                new,
            ) && e is Nothing,
            None => unchanged(old, new) && e is Nothing,
        },
        GuiMessage::WorkshopPathPicked(p) => match p {
            Some(v) => edited(old, UiSettings { workshop_path: v, ..old.ui_settings }, new)
                && e == GuiEffect::ScanWorkshop { path: v },
            None => unchanged(old, new) && e is Nothing,
        },
        GuiMessage::FpsLimitChanged(v) => edited(
            old,
            UiSettings { fps_limit: v, ..old.ui_settings },
            new,
        ) && e is Nothing,
        GuiMessage::ShowFpsToggled(v) => edited(
            old,
            UiSettings { show_fps: v, ..old.ui_settings },
            new,
        ) && e is Nothing,
        GuiMessage::BorderlessToggled(v) => edited(
            old,
            UiSettings { borderless: v, ..old.ui_settings },
            new,
        ) && e is Nothing,
        GuiMessage::HideDebugWindowToggled(v) => edited(
            old,
            UiSettings { hide_debug_window: v, ..old.ui_settings },
            new,
        ) && e is Nothing,
        GuiMessage::HiddenWorkspaceNameChanged(v) => edited(
            old,
            UiSettings { hidden_workspace_name: v, ..old.ui_settings },
            new,
        ) && e is Nothing,
        GuiMessage::ResolutionSelected(v) => edited(
            old,
            UiSettings { selected_resolution: Some(v), ..old.ui_settings },
            new,
        ) && e is Nothing,
        GuiMessage::CgroupEnabledToggled(v) => edited(
            old,
            UiSettings { cgroup_enabled: v, ..old.ui_settings },
            new,
        ) && e is Nothing,
        GuiMessage::CgroupModeSelected(v) => edited(
            old,
            UiSettings { cgroup_mode: v, ..old.ui_settings },
            new,
        ) && e is Nothing,
        GuiMessage::CgroupMemoryMaxChanged(v) => edited(
            old,
            UiSettings { cgroup_memory_max: v, ..old.ui_settings },
            new,
        ) && e is Nothing,
        GuiMessage::CgroupCpuMaxChanged(v) => edited(
            old,
            UiSettings { cgroup_cpu_max: v, ..old.ui_settings },
            new,
        ) && e is Nothing,
        GuiMessage::RefreshStatus => unchanged(old, new) && e is FetchStatus,
        GuiMessage::StatusLoaded(r) => same_apart_from_settings(old, new) && new.launch_settings
            == old.launch_settings && new.ui_settings.status_text@ == status_panel_text(
            text_result(r),
        ) && new.ui_settings == (UiSettings {
            status_text: new.ui_settings.status_text,
            ..old.ui_settings
        }) && e is Nothing,
        GuiMessage::StatusTick => unchanged(old, new) && if old.show_settings {
            e is FetchStatus
        } else {
            e is Nothing
        },
        GuiMessage::WindowCloseRequested(id) => unchanged(old, new) && e == GuiEffect::CloseWindow(
            id,
        ),
        GuiMessage::WindowOpened(id) => new.entries == old.entries && new.selected_id
            == old.selected_id && new.selected_type == old.selected_type && new.layerd_available
            == old.layerd_available && new.show_settings == old.show_settings
            && new.main_window_id == Some(id) && new.ui_settings == old.ui_settings
            && new.launch_settings == old.launch_settings && e is Nothing,
        GuiMessage::WindowClosed(id) => new.entries == old.entries && new.selected_id
            == old.selected_id && new.selected_type == old.selected_type && new.layerd_available
            == old.layerd_available && new.show_settings == old.show_settings
            && new.main_window_id == (if old.main_window_id == Some(id) {
            None
        } else {
            old.main_window_id
        }) && new.ui_settings == old.ui_settings && new.launch_settings == old.launch_settings
            && e is Nothing,
        GuiMessage::Tray(action) => unchanged(old, new) && match action {
            TrayAction::ShowWindow => match old.main_window_id {
                Some(id) => e == GuiEffect::FocusWindow(id),
                None => e is OpenWindow,
            },
            TrayAction::PlaySwitch => play_effect(old, e),
            TrayAction::Stop => e is StopRuntime,
            TrayAction::Pause => e matches GuiEffect::SendCtl(c) && c@ == "pause"@,
            TrayAction::Resume => e matches GuiEffect::SendCtl(c) && c@ == "resume"@,
            TrayAction::Quit => e is Exit,
        },
    }
}

impl GuiState {
    fn play(&self) -> (e: GuiEffect)
        ensures
            play_effect(*self, e),
    {
        if !self.layerd_available {
            GuiEffect::Nothing
        } else if can_hot_switch(self.selected_type) {
            GuiEffect::TryHotSwitch
        } else {
            GuiEffect::RestartRuntime
        }
    }

    fn persist(&self) -> (e: GuiEffect)
        ensures
            persist_effect(*self, e),
    {
        match &self.selected_id {
            Some(id) => {
                let mut i: usize = 0;
                while i < self.entries.len()
                    invariant
                        i <= self.entries.len(),
                        self.selected_id == Some(*id),
                        forall|j: int| 0 <= j < i ==> self.entries@[j].id@ != id@,
                    decreases self.entries.len() - i,
                {
                    if str_eq(self.entries[i].id.as_str(), id.as_str()) {
                        let entry = &self.entries[i];
                        let cfg = build_config(
                            &self.launch_settings,
                            entry.ty,
                            entry.project_json.as_str(),
                            None,
                        );
                        let e = GuiEffect::SaveConfig(cfg);
                        assert(selected_entry(self.entries@, id@) == Some(i as int));
                        return e;
                    }
                    i += 1;
                }
                assert(selected_entry(self.entries@, id@) is None);
                GuiEffect::Nothing
            },
            None => GuiEffect::Nothing,
        }
    }

    /// Takes the panel's values over into the launch settings.
    fn sync(&mut self)
        ensures
            same_apart_from_settings(*old(self), *final(self)),
            final(self).ui_settings == old(self).ui_settings,
            synced(old(self).launch_settings, old(self).ui_settings, final(self).launch_settings),
    {
        sync_launch_settings(&mut self.launch_settings, &self.ui_settings);
    }
}

/// Handles a message: updates the state and says what to do next.
#[verifier::rlimit(100)]
#[verifier::spinoff_prover]
pub fn update(state: &mut GuiState, message: GuiMessage) -> (e: GuiEffect)
    ensures
        gui_step(*old(state), message, *final(state), e),
{
    match message {
        GuiMessage::AutoScan => GuiEffect::ScanWorkshop {
            path: state.ui_settings.workshop_path.clone(),
        },
        GuiMessage::Scanned(r) => {
            if let Ok(entries) = r {
                state.entries = entries;
            }
            GuiEffect::Nothing
        },
        GuiMessage::SelectWallpaper(i) => {
            if i >= state.entries.len() {
                return GuiEffect::Nothing;
            }
            let id = state.entries[i].id.clone();
            let ty = state.entries[i].ty;
            let cfg = build_config(
                &state.launch_settings,
                ty,
                state.entries[i].project_json.as_str(),
                None,
            );
            state.selected_id = Some(id);
            state.selected_type = Some(ty);
            GuiEffect::SaveConfig(cfg)
        },
        GuiMessage::PlayPressed => state.play(),
        GuiMessage::HotSwitchResult(ok) => {
            if ok {
                GuiEffect::Nothing
            } else {
                GuiEffect::RestartRuntime
            }
        },
        GuiMessage::StopPressed => GuiEffect::StopRuntime,
        GuiMessage::StopResult(stopped) => {
            if stopped {
                GuiEffect::Nothing
            } else {
                GuiEffect::SendCtl(lit("stop"))
            }
        },
        GuiMessage::SettingsPressed => {
            let e = if !state.show_settings {
                GuiEffect::FetchStatus
            } else {
                state.persist()
            };
            state.show_settings = !state.show_settings;
            e
        },
        GuiMessage::WallpaperExeChanged(v) => {
            let variant = infer_executable_variant(v.as_str());
            state.ui_settings.wallpaper_exe = v;
            state.ui_settings.executable_variant = variant;
            state.sync();
            GuiEffect::Nothing
        },
        GuiMessage::ExecutableVariantSelected(v) => {
            state.ui_settings.executable_variant = v;
            if let Some(parent) = path_parent(state.ui_settings.wallpaper_exe.as_str()) {
                state.ui_settings.wallpaper_exe = path_join(parent.as_str(), v.filename());
            }
            state.sync();
            GuiEffect::Nothing
        },
        GuiMessage::WorkshopPathChanged { path, is_dir } => {
            state.ui_settings.workshop_path = path;
            if is_dir {
                GuiEffect::ScanWorkshop { path: state.ui_settings.workshop_path.clone() }
            } else {
                GuiEffect::Nothing
            }
        },
        GuiMessage::LauncherModeSelected(v) => {
            state.ui_settings.launcher_mode = v;
            state.sync();
            GuiEffect::Nothing
        },
        GuiMessage::WineCommandSelected(c) => {
            state.ui_settings.wine_command = c.value;
            state.sync();
            GuiEffect::Nothing
        },
        GuiMessage::ProtonVersionSelected(c) => {
            state.ui_settings.proton_path = c.value;
            state.sync();
            GuiEffect::Nothing
        },
        GuiMessage::ProtonPathChanged(v) => {
            state.ui_settings.proton_path = v;
            state.sync();
            GuiEffect::Nothing
        },
        GuiMessage::PickWallpaperExe => GuiEffect::PickWallpaperExe,
        GuiMessage::PickWorkshopPath => GuiEffect::PickWorkshopPath,
        GuiMessage::WallpaperExePicked(p) => {
            if let Some(v) = p {
                let variant = infer_executable_variant(v.as_str());
                state.ui_settings.wallpaper_exe = v;
                state.ui_settings.executable_variant = variant;
                state.sync();
            }
            GuiEffect::Nothing
        },
        GuiMessage::WorkshopPathPicked(p) => {
            if let Some(v) = p {
                state.ui_settings.workshop_path = v;
                state.sync();
                GuiEffect::ScanWorkshop { path: state.ui_settings.workshop_path.clone() }
            } else {
                GuiEffect::Nothing
            }
        },
        GuiMessage::FpsLimitChanged(v) => {
            state.ui_settings.fps_limit = v;
            state.sync();
            GuiEffect::Nothing
        },
        GuiMessage::ShowFpsToggled(v) => {
            state.ui_settings.show_fps = v;
            state.sync();
            GuiEffect::Nothing
        },
        GuiMessage::BorderlessToggled(v) => {
            state.ui_settings.borderless = v;
            state.sync();
            GuiEffect::Nothing
        },
        GuiMessage::HideDebugWindowToggled(v) => {
            state.ui_settings.hide_debug_window = v;
            state.sync();
            GuiEffect::Nothing
        },
        GuiMessage::HiddenWorkspaceNameChanged(v) => {
            state.ui_settings.hidden_workspace_name = v;
            state.sync();
            GuiEffect::Nothing
        },
        GuiMessage::ResolutionSelected(v) => {
            state.ui_settings.selected_resolution = Some(v);
            state.sync();
            GuiEffect::Nothing
        },
        GuiMessage::CgroupEnabledToggled(v) => {
            state.ui_settings.cgroup_enabled = v;
            state.sync();
            GuiEffect::Nothing
        },
        GuiMessage::CgroupModeSelected(v) => {
            state.ui_settings.cgroup_mode = v;
            state.sync();
            GuiEffect::Nothing
        },
        GuiMessage::CgroupMemoryMaxChanged(v) => {
            state.ui_settings.cgroup_memory_max = v;
            state.sync();
            GuiEffect::Nothing
        },
        GuiMessage::CgroupCpuMaxChanged(v) => {
            state.ui_settings.cgroup_cpu_max = v;
            state.sync();
            GuiEffect::Nothing
        },
        GuiMessage::RefreshStatus => GuiEffect::FetchStatus,
        GuiMessage::StatusLoaded(r) => {
            state.ui_settings.status_text = status_text_for(&r);
            GuiEffect::Nothing
        },
        GuiMessage::StatusTick => {
            if state.show_settings {
                GuiEffect::FetchStatus
            } else {
                GuiEffect::Nothing
            }
        },
        GuiMessage::WindowCloseRequested(id) => GuiEffect::CloseWindow(id),
        GuiMessage::WindowOpened(id) => {
            state.main_window_id = Some(id);
            GuiEffect::Nothing
        },
        GuiMessage::WindowClosed(id) => {
            if state.main_window_id == Some(id) {
                state.main_window_id = None;
            }
            GuiEffect::Nothing
        },
        GuiMessage::Tray(action) => match action {
            TrayAction::ShowWindow => match state.main_window_id {
                Some(id) => GuiEffect::FocusWindow(id),
                None => GuiEffect::OpenWindow,
            },
            TrayAction::PlaySwitch => state.play(),
            TrayAction::Stop => GuiEffect::StopRuntime,
            TrayAction::Pause => GuiEffect::SendCtl(lit("pause")),
            TrayAction::Resume => GuiEffect::SendCtl(lit("resume")),
            TrayAction::Quit => GuiEffect::Exit,
        },
    }
}

/// What the application finds when it starts.
#[derive(Debug, Clone)]
pub struct GuiDiscovery {
    /// The launch settings read from the configuration (the defaults where
    /// it could not be read).
    pub launch_settings: LaunchSettings,
    pub install_state: WallpaperEngineInstallState,
    pub workshop_root: Option<String>,
    pub supported_resolutions: Vec<ResolutionOption>,
    pub wine_commands: Vec<String>,
    pub proton_installs: Vec<ProtonInstall>,
    /// Whether `we-layerd` is on `PATH`.
    pub layerd_available: bool,
}

/// The application as it starts: its state, the notice about the install,
/// and the choices of its lists.
#[derive(Debug, Clone)]
pub struct GuiInit {
    pub state: GuiState,
    pub install_notice: Option<String>,
    pub supported_resolutions: Vec<ResolutionOption>,
    pub wine_commands: Vec<LauncherChoice>,
    pub proton_versions: Vec<LauncherChoice>,
}

/// The launch settings the application starts with: those read, with the
/// installed executable where none is set, and the first Wine command and
/// Proton build found.
pub open spec fn initial_launch(d: GuiDiscovery, l: LaunchSettings) -> bool {
    &&& l.wallpaper_exe@ == match d.install_state {
        WallpaperEngineInstallState::Installed { exe_path, .. } => if trim(
            d.launch_settings.wallpaper_exe@,
        ).len() == 0 {
            exe_path@
        } else {
            d.launch_settings.wallpaper_exe@
        },
        _ => d.launch_settings.wallpaper_exe@,
    }
    &&& l.wine_command@ == if d.wine_commands.len() > 0 {
        d.wine_commands@[0]@
    } else {
        d.launch_settings.wine_command@
    }
    &&& opt_view(l.proton_path) == if d.proton_installs.len() > 0 {
        Some(d.proton_installs@[0].proton_path@)
    } else {
        opt_view(d.launch_settings.proton_path)
    }
    &&& l.workshop_path == d.launch_settings.workshop_path
    &&& l.launcher == d.launch_settings.launcher
    &&& l.fps_limit == d.launch_settings.fps_limit
    &&& l.show_fps == d.launch_settings.show_fps
    &&& l.isolation_mode == d.launch_settings.isolation_mode
    &&& l.isolation_command == d.launch_settings.isolation_command
    &&& l.isolation_width == d.launch_settings.isolation_width
    &&& l.isolation_height == d.launch_settings.isolation_height
    &&& l.isolation_startup_timeout_secs == d.launch_settings.isolation_startup_timeout_secs
    &&& l.width == d.launch_settings.width
    &&& l.height == d.launch_settings.height
    &&& l.x == d.launch_settings.x
    &&& l.y == d.launch_settings.y
    &&& l.play_in_window_title == d.launch_settings.play_in_window_title
    &&& l.borderless == d.launch_settings.borderless
    &&& l.wm_class_contains == d.launch_settings.wm_class_contains
    &&& l.cgroup_enabled == d.launch_settings.cgroup_enabled
    &&& l.cgroup_mode == d.launch_settings.cgroup_mode
    &&& l.cgroup_memory_max == d.launch_settings.cgroup_memory_max
    &&& l.cgroup_cpu_max == d.launch_settings.cgroup_cpu_max
    &&& l.hide_debug_window == d.launch_settings.hide_debug_window
    &&& l.hidden_workspace_name == d.launch_settings.hidden_workspace_name
    &&& l.disable_debug_window_input == d.launch_settings.disable_debug_window_input
}

/// The panel the application starts with, showing the launch settings.
pub open spec fn initial_panel(d: GuiDiscovery, l: LaunchSettings, ui: UiSettings) -> bool {
    &&& ui.wallpaper_exe@ == l.wallpaper_exe@
    &&& ui.executable_variant == variant_of_path(l.wallpaper_exe@)
    &&& ui.workshop_path@ == match d.workshop_root {
        Some(w) => w@,
        None => Seq::empty(),
    }
    &&& ui.launcher_mode == match l.launcher {
        WindowsLauncher::Wine => LauncherModeOption::Wine,
        WindowsLauncher::Proton => LauncherModeOption::Proton,
    }
    &&& ui.wine_command@ == l.wine_command@
    &&& ui.proton_path@ == match l.proton_path {
        Some(p) => p@,
        None => Seq::empty(),
    }
    &&& ui.fps_limit@ == decimal(l.fps_limit as nat)
    &&& ui.show_fps == l.show_fps
    &&& ui.borderless == l.borderless
    &&& ui.hide_debug_window == l.hide_debug_window
    &&& ui.hidden_workspace_name@ == l.hidden_workspace_name@
    &&& (d.supported_resolutions@.contains((ResolutionOption { width: l.width, height: l.height }))
        ==> ui.selected_resolution == Some(ResolutionOption { width: l.width, height: l.height }))
    &&& (!d.supported_resolutions@.contains((ResolutionOption { width: l.width, height: l.height }))
        ==> ui.selected_resolution is None)
    &&& !ui.cgroup_enabled
    &&& ui.cgroup_mode == CgroupModeOption::Detect
    &&& ui.cgroup_memory_max@.len() == 0
    &&& ui.cgroup_cpu_max@.len() == 0
    &&& ui.status_text@ == "status unavailable: daemon is not running"@
}

/// Every Wine command is offered under its own name.
pub open spec fn wine_choices_of(commands: Seq<String>, choices: Seq<LauncherChoice>) -> bool {
    choices.len() == commands.len() && forall|i: int|
        0 <= i < choices.len() ==> #[trigger] choices[i].label@ == commands[i]@ && choices[i].value@
            == commands[i]@
}

/// Every Proton build is offered under its name, its value its script.
pub open spec fn proton_choices_of(installs: Seq<ProtonInstall>, choices: Seq<LauncherChoice>) -> bool {
    choices.len() == installs.len() && forall|i: int|
        0 <= i < choices.len() ==> #[trigger] choices[i].label@ == installs[i].name@
            && choices[i].value@ == installs[i].proton_path@
}

fn wine_choices(commands: &Vec<String>) -> (r: Vec<LauncherChoice>)
    ensures
        wine_choices_of(commands@, r@),
{
    let mut r: Vec<LauncherChoice> = Vec::new();
    let mut i: usize = 0;
    while i < commands.len()
        invariant
            i <= commands.len(),
            r.len() == i,
            forall|j: int|
                0 <= j < i ==> #[trigger] r@[j].label@ == commands@[j]@ && r@[j].value@ == commands@[j]@,
        decreases commands.len() - i,
    {
        r.push(LauncherChoice { label: lit(commands[i].as_str()), value: lit(commands[i].as_str()) });
        i += 1;
    }
    r
}

fn proton_choices(installs: &Vec<ProtonInstall>) -> (r: Vec<LauncherChoice>)
    ensures
        proton_choices_of(installs@, r@),
{
    let mut r: Vec<LauncherChoice> = Vec::new();
    let mut i: usize = 0;
    while i < installs.len()
        invariant
            i <= installs.len(),
            r.len() == i,
            forall|j: int|
                0 <= j < i ==> #[trigger] r@[j].label@ == installs@[j].name@ && r@[j].value@
                    == installs@[j].proton_path@,
        decreases installs.len() - i,
    {
        r.push(
            LauncherChoice {
                label: lit(installs[i].name.as_str()),
                value: lit(installs[i].proton_path.as_str()),
            },
        );
        i += 1;
    }
    r
}

/// The application's state as it starts, from what it found: no wallpaper
/// listed or selected, the settings closed, no window yet.
pub fn init(d: GuiDiscovery) -> (r: GuiInit)
    ensures
        opt_view(r.install_notice) == install_notice_of(d.install_state),
        initial_launch(d, r.state.launch_settings),
        initial_panel(d, r.state.launch_settings, r.state.ui_settings),
        r.state.entries@.len() == 0,
        r.state.selected_id is None,
        r.state.selected_type is None,
        r.state.layerd_available == d.layerd_available,
        !r.state.show_settings,
        r.state.main_window_id is None,
        r.supported_resolutions@ == d.supported_resolutions@,
        wine_choices_of(d.wine_commands@, r.wine_commands@),
        proton_choices_of(d.proton_installs@, r.proton_versions@),
{
    let notice = install_notice(&d.install_state);
    let mut launch = d.launch_settings;
    if let WallpaperEngineInstallState::Installed { exe_path, .. } = &d.install_state {
        if is_blank(launch.wallpaper_exe.as_str()) {
            launch.wallpaper_exe = lit(exe_path.as_str());
        }
    }
    let wine = wine_choices(&d.wine_commands);
    let proton = proton_choices(&d.proton_installs);
    if wine.len() > 0 {
        assert(wine@[0].label@ == d.wine_commands@[0]@);
        launch.wine_command = lit(wine[0].value.as_str());
    }
    if proton.len() > 0 {
        assert(proton@[0].label@ == d.proton_installs@[0].name@);
        launch.proton_path = Some(lit(proton[0].value.as_str()));
    }
    let selected_resolution = pick_initial_resolution(
        &d.supported_resolutions,
        launch.width,
        launch.height,
    );
    let ui = UiSettings {
        wallpaper_exe: lit(launch.wallpaper_exe.as_str()),
        executable_variant: infer_executable_variant(launch.wallpaper_exe.as_str()),
        workshop_path: match &d.workshop_root {
            Some(w) => lit(w.as_str()),
            None => String::new(),
        },
        launcher_mode: match launch.launcher {
            WindowsLauncher::Wine => LauncherModeOption::Wine,
            WindowsLauncher::Proton => LauncherModeOption::Proton,
        },
        wine_command: lit(launch.wine_command.as_str()),
        proton_path: match &launch.proton_path {
            Some(p) => lit(p.as_str()),
            None => String::new(),
        },
        fps_limit: u32_to_decimal(launch.fps_limit),
        show_fps: launch.show_fps,
        borderless: launch.borderless,
        hide_debug_window: launch.hide_debug_window,
        hidden_workspace_name: lit(launch.hidden_workspace_name.as_str()),
        selected_resolution,
        cgroup_enabled: false,
        cgroup_mode: CgroupModeOption::Detect,
        cgroup_memory_max: String::new(),
        cgroup_cpu_max: String::new(),
        status_text: lit("status unavailable: daemon is not running"),
    };
    let state = GuiState {
        entries: Vec::new(),
        selected_id: None,
        selected_type: None,
        layerd_available: d.layerd_available,
        launch_settings: launch,
        ui_settings: ui,
        show_settings: false,
        main_window_id: None,
    };
    GuiInit {
        state,
        install_notice: notice,
        supported_resolutions: d.supported_resolutions,
        wine_commands: wine,
        proton_versions: proton,
    }
}

} // verus!
