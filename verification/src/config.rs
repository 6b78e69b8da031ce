//! The runner's own configuration file (`config.toml`), with the defaults
//! that apply to every key it leaves out.
use vstd::prelude::*;

use crate::text::lit;
pub use crate::we_core::config::{
    CgroupConfig, CgroupMode, EnvMap, IsolationConfig, IsolationMode, RuntimeConfig, RuntimeMode,
    RuntimeWallpaperType, ScaleMode, WineCommandMode, is_default_cgroup, is_default_isolation,
};

verus! {

/// Which wallpaper backend the runner uses.
#[derive(Debug, Clone, Copy, PartialEq, Eq, Structural)]
pub enum Backend {
    Auto,
    LayerShell,
    GnomeShell,
}

impl Default for Backend {
    fn default() -> (b: Backend)
        ensures
            b == Backend::Auto,
    {
        Backend::Auto
    }
}

/// `[general]`.
#[derive(Debug, Clone)]
pub struct GeneralConfig {
    pub fps_limit: u32,
    pub restart_wine_on_exit: bool,
    pub refind_window_on_capture_error: bool,
    pub show_fps: bool,
    pub fps_report_interval_secs: u64,
    pub scale_mode: ScaleMode,
    pub hide_debug_window: bool,
    pub hidden_workspace_name: String,
    pub disable_debug_window_input: bool,
    pub backend: Backend,
}

/// `[wine]`.
#[derive(Debug, Clone)]
pub struct WineConfig {
    pub command: String,
    pub command_mode: WineCommandMode,
    pub args: Vec<String>,
    pub wallpaper_exe: String,
    pub env: EnvMap,
}

/// `[capture]`: how the Wallpaper Engine window is matched.
#[derive(Debug, Clone)]
pub struct CaptureConfig {
    pub wm_class_contains: Option<String>,
    pub title_contains: Option<String>,
    pub net_wm_pid: Option<u32>,
    pub debug_save_frame_png: Option<String>,
    pub output_window_map: Vec<(String, u32)>,
}

/// `[gnome]`: the GNOME Shell extension bridge.
#[derive(Debug, Clone)]
pub struct GnomeConfig {
    pub extension_dbus_name: String,
}

/// The runner configuration.
#[derive(Debug, Clone)]
pub struct Config {
    pub general: GeneralConfig,
    pub isolation: IsolationConfig,
    pub wine: WineConfig,
    pub capture: CaptureConfig,
    pub runtime: Option<RuntimeConfig>,
    pub cgroup: CgroupConfig,
    pub gnome: GnomeConfig,
}

/// Default `general.fps_limit`.
pub fn default_fps() -> (v: u32)
    ensures
        v == 30,
{
    30
}

/// Default `wine.command`.
pub fn default_wine_cmd() -> (v: String)
    ensures
        v@ == "wine"@,
{
    lit("wine")
}

/// Default `general.restart_wine_on_exit`.
pub fn default_restart_wine() -> (v: bool)
    ensures
        v,
{
    true
}

/// Default `general.refind_window_on_capture_error`.
pub fn default_refind_window() -> (v: bool)
    ensures
        v,
{
    true
}

/// Default `general.fps_report_interval_secs`.
pub fn default_fps_report_interval_secs() -> (v: u64)
    ensures
        v == 1,
{
    1
}

/// Default `general.hide_debug_window`.
pub fn default_hide_debug_window() -> (v: bool)
    ensures
        v,
{
    true
}

/// Default `general.hidden_workspace_name`.
pub fn default_hidden_workspace_name() -> (v: String)
    ensures
        v@ == "top"@,
{
    lit("top")
}

/// Default `gnome.extension_dbus_name`.
pub fn default_extension_dbus_name() -> (v: String)
    ensures
        v@ == "io.github.weLayerd.Gnome"@,
{
    lit("io.github.weLayerd.Gnome")
}

/// `g` holds the default `[general]` values.
pub open spec fn is_default_general(g: GeneralConfig) -> bool {
    &&& g.fps_limit == 30
    &&& g.restart_wine_on_exit
    &&& g.refind_window_on_capture_error
    &&& !g.show_fps
    &&& g.fps_report_interval_secs == 1
    &&& g.scale_mode == ScaleMode::Cover
    &&& g.hide_debug_window
    &&& g.hidden_workspace_name@ == "top"@
    &&& !g.disable_debug_window_input
    &&& g.backend == Backend::Auto
}

/// `w` holds the default `[wine]` values.
pub open spec fn is_default_wine(w: WineConfig) -> bool {
    &&& w.command@ == "wine"@
    &&& w.command_mode == WineCommandMode::ExeWithArgs
    &&& w.args@.len() == 0
    &&& w.wallpaper_exe@.len() == 0
    &&& w.env@ == Map::<Seq<char>, Seq<char>>::empty()
}

/// `c` holds the default `[capture]` values.
pub open spec fn is_default_capture(c: CaptureConfig) -> bool {
    &&& crate::text::opt_view(c.wm_class_contains) == Some("wallpaper"@)
    &&& c.title_contains is None
    &&& c.net_wm_pid is None
    &&& c.debug_save_frame_png is None
    &&& c.output_window_map@.len() == 0
}

/// `cfg` is the default configuration.
pub open spec fn is_default_config(cfg: Config) -> bool {
    &&& is_default_general(cfg.general)
    &&& is_default_isolation(cfg.isolation)
    &&& is_default_wine(cfg.wine)
    &&& is_default_capture(cfg.capture)
    &&& cfg.runtime is None
    &&& is_default_cgroup(cfg.cgroup)
    &&& cfg.gnome.extension_dbus_name@ == "io.github.weLayerd.Gnome"@
}

impl Default for GeneralConfig {
    fn default() -> (g: GeneralConfig)
        ensures
            is_default_general(g),
    {
        GeneralConfig {
            fps_limit: default_fps(),
            restart_wine_on_exit: default_restart_wine(),
            refind_window_on_capture_error: default_refind_window(),
            show_fps: false,
            fps_report_interval_secs: default_fps_report_interval_secs(),
            scale_mode: ScaleMode::Cover,
            hide_debug_window: default_hide_debug_window(),
            hidden_workspace_name: default_hidden_workspace_name(),
            disable_debug_window_input: false,
            backend: Backend::Auto,
        }
    }
}

impl Default for WineConfig {
    fn default() -> (w: WineConfig)
        ensures
            is_default_wine(w),
    {
        WineConfig {
            command: default_wine_cmd(),
            command_mode: WineCommandMode::ExeWithArgs,
            args: Vec::new(),
            wallpaper_exe: String::new(),
            env: EnvMap::new(),
        }
    }
}

impl Default for CaptureConfig {
    fn default() -> (c: CaptureConfig)
        ensures
            is_default_capture(c),
    {
        CaptureConfig {
            wm_class_contains: Some(lit("wallpaper")),
            title_contains: None,
            net_wm_pid: None,
            debug_save_frame_png: None,
            output_window_map: Vec::new(),
        }
    }
}

impl Default for GnomeConfig {
    fn default() -> (g: GnomeConfig)
        ensures
            g.extension_dbus_name@ == "io.github.weLayerd.Gnome"@,
    {
        GnomeConfig { extension_dbus_name: default_extension_dbus_name() }
    }
}

impl Default for Config {
    fn default() -> (cfg: Config)
        ensures
            is_default_config(cfg),
    {
        Config {
            general: GeneralConfig::default(),
            isolation: IsolationConfig::default(),
            wine: WineConfig::default(),
            capture: CaptureConfig::default(),
            runtime: None,
            cgroup: CgroupConfig::default(),
            gnome: GnomeConfig::default(),
        }
    }
}

} // verus!
