//! The configuration model shared by the companion application: the launch
//! settings that a user edits, and the runner configuration built from them.
use vstd::prelude::*;

use crate::arglist::{arg_value, first_index, has_arg, lemma_index_from_at, value_after};
use crate::pathname::{
    child_path, file_name_of, join, lemma_child_is_plain_dir, parent_of, path_file_name, path_join,
    path_parent, plain_dir, plain_name,
};
use crate::text::{
    is_digit, lemma_decimal_shape, lemma_parse_i32_decimal, lemma_parse_u32_decimal, copy_opt, copy_strings, decimal, i32_to_decimal, is_blank, lit, opt_view, owned, parse_i32,
    parse_i32_str, parse_u32, parse_u32_str, signed_decimal, str_eq, strs_view, trim,
    u32_to_decimal,
};
use crate::we_core::steam::WALLPAPER_ENGINE_APP_ID;
use crate::we_core::wallpaper::WallpaperType;

verus! {

// ---------------------------------------------------------------------------
// Environment variables
// ---------------------------------------------------------------------------
/// The map that a list of `(key, value)` pairs denotes when later pairs
/// override earlier ones.
pub open spec fn pairs_map(s: Seq<(Seq<char>, Seq<char>)>) -> Map<Seq<char>, Seq<char>>
    decreases s.len(),
{
    if s.len() == 0 {
        Map::empty()
    } else {
        pairs_map(s.drop_last()).insert(s.last().0, s.last().1)
    }
}

/// The views of a list of string pairs.
pub open spec fn pairs_view(v: Seq<(String, String)>) -> Seq<(Seq<char>, Seq<char>)> {
    v.map_values(|p: (String, String)| (p.0@, p.1@))
}

proof fn lemma_pairs_map_at(s: Seq<(Seq<char>, Seq<char>)>, k: Seq<char>, i: int)
    requires
        0 <= i < s.len(),
        s[i].0 == k,
        forall|j: int| i < j < s.len() ==> s[j].0 != k,
    ensures
        pairs_map(s).contains_key(k),
        pairs_map(s)[k] == s[i].1,
    decreases s.len(),
{
    if i < s.len() - 1 {
        let t = s.drop_last();
        assert forall|j: int| i < j < t.len() implies t[j].0 != k by {
            assert(t[j] == s[j]);
        }
        lemma_pairs_map_at(t, k, i);
    }
}

proof fn lemma_pairs_map_absent(s: Seq<(Seq<char>, Seq<char>)>, k: Seq<char>)
    requires
        forall|j: int| 0 <= j < s.len() ==> s[j].0 != k,
    ensures
        !pairs_map(s).contains_key(k),
    decreases s.len(),
{
    if s.len() > 0 {
        let t = s.drop_last();
        assert forall|j: int| 0 <= j < t.len() implies t[j].0 != k by {
            assert(t[j] == s[j]);
        }
        lemma_pairs_map_absent(t, k);
    }
}

/// Environment variables for the launched process: a map from names to
/// values (`BTreeMap<String, String>`).
#[derive(Debug, Clone)]
pub struct EnvMap {
    entries: Vec<(String, String)>,
}

impl View for EnvMap {
    type V = Map<Seq<char>, Seq<char>>;

    closed spec fn view(&self) -> Map<Seq<char>, Seq<char>> {
        pairs_map(pairs_view(self.entries@))
    }
}

impl EnvMap {
    /// The empty map.
    pub fn new() -> (m: EnvMap)
        ensures
            m@ == Map::<Seq<char>, Seq<char>>::empty(),
    {
        let m = EnvMap { entries: Vec::new() };
        assert(pairs_view(m.entries@) =~= Seq::<(Seq<char>, Seq<char>)>::empty());
        m
    }

    /// The map that a list of pairs denotes, later pairs overriding earlier
    /// ones (as inserting them one by one into a `BTreeMap` does).
    pub fn from_pairs(pairs: Vec<(String, String)>) -> (m: EnvMap)
        ensures
            m@ == pairs_map(pairs_view(pairs@)),
    {
        EnvMap { entries: pairs }
    }

    /// Sets `key` to `value`.
    pub fn insert(&mut self, key: String, value: String)
        ensures
            final(self)@ == old(self)@.insert(key@, value@),
    {
        let ghost before = self.entries@;
        self.entries.push((key, value));
        proof {
            assert(pairs_view(self.entries@).drop_last() =~= pairs_view(before));
        }
    }

    /// The value of `key`, if set.
    pub fn get(&self, key: &str) -> (r: Option<String>)
        ensures
            match r {
                Some(v) => self@.contains_key(key@) && self@[key@] == v@,
                None => !self@.contains_key(key@),
            },
    {
        let ghost s = pairs_view(self.entries@);
        let mut i = self.entries.len();
        while i > 0
            invariant
                i <= self.entries.len(),
                s == pairs_view(self.entries@),
                forall|j: int| i <= j < s.len() ==> s[j].0 != key@,
            decreases i,
        {
            i -= 1;
            assert(s[i as int] == (self.entries@[i as int].0@, self.entries@[i as int].1@));
            if str_eq(self.entries[i].0.as_str(), key) {
                proof {
                    lemma_pairs_map_at(s, key@, i as int);
                }
                return Some(self.entries[i].1.clone());
            }
        }
        proof {
            lemma_pairs_map_absent(s, key@);
        }
        None
    }

    /// The pairs, in an order whose insertion one by one rebuilds this map.
    pub fn pairs(&self) -> (r: Vec<(String, String)>)
        ensures
            pairs_map(pairs_view(r@)) == self@,
    {
        let mut r: Vec<(String, String)> = Vec::new();
        let mut i: usize = 0;
        while i < self.entries.len()
            invariant
                i <= self.entries.len(),
                pairs_view(r@) == pairs_view(self.entries@).take(i as int),
            decreases self.entries.len() - i,
        {
            let k = self.entries[i].0.clone();
            let v = self.entries[i].1.clone();
            let ghost before = r@;
            r.push((k, v));
            proof {
                assert(pairs_view(r@) =~= pairs_view(before).push((k@, v@)));
                assert(pairs_view(self.entries@).take(i + 1) =~= pairs_view(self.entries@).take(
                    i as int,
                ).push(pairs_view(self.entries@)[i as int]));
            }
            i += 1;
        }
        assert(pairs_view(self.entries@).take(self.entries.len() as int) == pairs_view(
            self.entries@,
        ));
        r
    }

    /// A copy of this map.
    pub fn copy(&self) -> (r: EnvMap)
        ensures
            r@ == self@,
    {
        EnvMap::from_pairs(self.pairs())
    }
}

// ---------------------------------------------------------------------------
// Configuration types
// ---------------------------------------------------------------------------
/// How a captured frame is fitted to the output.
#[derive(Debug, Clone, Copy, PartialEq, Eq, Structural)]
pub enum ScaleMode {
    Fit,
    Cover,
    Stretch,
}

/// Whether the Wallpaper Engine window runs on an isolated X display.
#[derive(Debug, Clone, Copy, PartialEq, Eq, Structural)]
pub enum IsolationMode {
    Off,
    GamescopeHeadless,
}

/// How the Windows launcher command is invoked: with the wallpaper
/// executable before the arguments (Wine) or with the arguments only
/// (`proton run ...`).
#[derive(Debug, Clone, Copy, PartialEq, Eq, Structural)]
pub enum WineCommandMode {
    ExeWithArgs,
    CommandOnly,
}

/// The runtime that the runner starts.
#[derive(Debug, Clone, Copy, PartialEq, Eq, Structural)]
pub enum RuntimeMode {
    VideoNative,
    WineLayerd,
}

/// The kind of wallpaper that the runner shows.
#[derive(Debug, Clone, Copy, PartialEq, Eq, Structural)]
pub enum RuntimeWallpaperType {
    Video,
    Scene,
    Web,
    Unknown,
}

/// Whether cgroup support only observes or also limits the Wine process.
#[derive(Debug, Clone, Copy, PartialEq, Eq, Structural)]
pub enum CgroupMode {
    Detect,
    LimitWine,
}

/// The Windows compatibility layer that launches Wallpaper Engine.
#[derive(Debug, Clone, Copy, PartialEq, Eq, Structural)]
pub enum WindowsLauncher {
    Wine,
    Proton,
}

/// `[general]`: runner behaviour.
#[derive(Debug, Clone)]
pub struct GeneralConfig {
    pub fps_limit: u32,
    pub restart_wine_on_exit: bool,
    pub refind_window_on_capture_error: bool,
    pub show_fps: bool,
    pub fps_report_interval_secs: u64,
    pub scale_mode: ScaleMode,
    pub hide_debug_window: bool,
    pub hidden_workspace_name: String,
    pub disable_debug_window_input: bool,
}

/// `[wine]`: how Wallpaper Engine is launched.
#[derive(Debug, Clone)]
pub struct WineConfig {
    pub command: String,
    pub command_mode: WineCommandMode,
    pub wallpaper_exe: String,
    pub workshop_path: String,
    pub args: Vec<String>,
    pub env: EnvMap,
}

/// `[isolation]`: the optional isolated display.
#[derive(Debug, Clone)]
pub struct IsolationConfig {
    pub mode: IsolationMode,
    pub command: String,
    pub width: Option<u32>,
    pub height: Option<u32>,
    pub startup_timeout_secs: u64,
}

/// `[capture]`: how the Wallpaper Engine window is recognised.
#[derive(Debug, Clone)]
pub struct CaptureConfig {
    pub wm_class_contains: String,
    pub title_contains: String,
    pub output_window_map: Vec<(String, u32)>,
}

/// `[runtime]`: what the runner shows.
#[derive(Debug, Clone)]
pub struct RuntimeConfig {
    pub mode: RuntimeMode,
    pub wallpaper_type: RuntimeWallpaperType,
    pub video_file: Option<String>,
}

/// `[cgroup]`: optional resource accounting and limits.
#[derive(Debug, Clone)]
pub struct CgroupConfig {
    pub enabled: bool,
    pub mode: CgroupMode,
    pub memory_max: Option<String>,
    pub cpu_max: Option<String>,
}

/// The runner configuration written by the companion application.
#[derive(Debug, Clone)]
pub struct AppConfig {
    pub general: GeneralConfig,
    pub isolation: IsolationConfig,
    pub wine: WineConfig,
    pub capture: CaptureConfig,
    pub runtime: Option<RuntimeConfig>,
    pub cgroup: CgroupConfig,
}

/// The settings that a user edits in the companion application.
#[derive(Debug, Clone)]
pub struct LaunchSettings {
    pub wallpaper_exe: String,
    pub workshop_path: String,
    pub launcher: WindowsLauncher,
    pub wine_command: String,
    pub proton_path: Option<String>,
    pub fps_limit: u32,
    pub show_fps: bool,
    pub isolation_mode: IsolationMode,
    pub isolation_command: String,
    pub isolation_width: Option<u32>,
    pub isolation_height: Option<u32>,
    pub isolation_startup_timeout_secs: u64,
    pub width: u32,
    pub height: u32,
    pub x: i32,
    pub y: i32,
    pub play_in_window_title: String,
    pub borderless: bool,
    pub wm_class_contains: String,
    pub cgroup_enabled: bool,
    pub cgroup_mode: CgroupMode,
    pub cgroup_memory_max: Option<String>,
    pub cgroup_cpu_max: Option<String>,
    pub hide_debug_window: bool,
    pub hidden_workspace_name: String,
    pub disable_debug_window_input: bool,
}

// ---------------------------------------------------------------------------
// Defaults
// ---------------------------------------------------------------------------
/// The default isolated display command.
pub fn default_isolation_command() -> (s: String)
    ensures
        s@ == "gamescope"@,
{
    lit("gamescope")
}

/// The default time to wait for the isolated display, in seconds.
pub fn default_isolation_startup_timeout_secs() -> (t: u64)
    ensures
        t == 10,
{
    10
}

impl Default for ScaleMode {
    fn default() -> (m: ScaleMode)
        ensures
            m == ScaleMode::Cover,
    {
        ScaleMode::Cover
    }
}

impl Default for WineCommandMode {
    fn default() -> (m: WineCommandMode)
        ensures
            m == WineCommandMode::ExeWithArgs,
    {
        WineCommandMode::ExeWithArgs
    }
}

impl Default for RuntimeMode {
    fn default() -> (m: RuntimeMode)
        ensures
            m == RuntimeMode::WineLayerd,
    {
        RuntimeMode::WineLayerd
    }
}

impl Default for RuntimeWallpaperType {
    fn default() -> (t: RuntimeWallpaperType)
        ensures
            t == RuntimeWallpaperType::Unknown,
    {
        RuntimeWallpaperType::Unknown
    }
}

impl Default for CgroupMode {
    fn default() -> (m: CgroupMode)
        ensures
            m == CgroupMode::Detect,
    {
        CgroupMode::Detect
    }
}

impl Default for IsolationMode {
    fn default() -> (m: IsolationMode)
        ensures
            m == IsolationMode::Off,
    {
        IsolationMode::Off
    }
}

/// `general` holds the default `[general]` values.
pub open spec fn is_default_general(general: GeneralConfig) -> bool {
    &&& general.fps_limit == 30
    &&& general.restart_wine_on_exit
    &&& general.refind_window_on_capture_error
    &&& !general.show_fps
    &&& general.fps_report_interval_secs == 1
    &&& general.scale_mode == ScaleMode::Cover
    &&& general.hide_debug_window
    &&& general.hidden_workspace_name@ == "top"@
    &&& !general.disable_debug_window_input
}

/// `isolation` holds the default `[isolation]` values.
pub open spec fn is_default_isolation(isolation: IsolationConfig) -> bool {
    &&& isolation.mode == IsolationMode::Off
    &&& isolation.command@ == "gamescope"@
    &&& isolation.width is None
    &&& isolation.height is None
    &&& isolation.startup_timeout_secs == 10
}

/// `cgroup` holds the default `[cgroup]` values.
pub open spec fn is_default_cgroup(cgroup: CgroupConfig) -> bool {
    &&& !cgroup.enabled
    &&& cgroup.mode == CgroupMode::Detect
    &&& cgroup.memory_max is None
    &&& cgroup.cpu_max is None
}

impl Default for GeneralConfig {
    fn default() -> (g: GeneralConfig)
        ensures
            is_default_general(g),
    {
        GeneralConfig {
            fps_limit: 30,
            restart_wine_on_exit: true,
            refind_window_on_capture_error: true,
            show_fps: false,
            fps_report_interval_secs: 1,
            scale_mode: ScaleMode::Cover,
            hide_debug_window: true,
            hidden_workspace_name: lit("top"),
            disable_debug_window_input: false,
        }
    }
}

impl Default for IsolationConfig {
    fn default() -> (i: IsolationConfig)
        ensures
            is_default_isolation(i),
    {
        IsolationConfig {
            mode: IsolationMode::Off,
            command: default_isolation_command(),
            width: None,
            height: None,
            startup_timeout_secs: default_isolation_startup_timeout_secs(),
        }
    }
}

impl Default for CgroupConfig {
    fn default() -> (c: CgroupConfig)
        ensures
            is_default_cgroup(c),
    {
        CgroupConfig { enabled: false, mode: CgroupMode::Detect, memory_max: None, cpu_max: None }
    }
}

impl Default for WineConfig {
    fn default() -> (w: WineConfig)
        ensures
            w.command@.len() == 0,
            w.command_mode == WineCommandMode::ExeWithArgs,
            w.wallpaper_exe@.len() == 0,
            w.workshop_path@.len() == 0,
            w.args@.len() == 0,
            w.env@ == Map::<Seq<char>, Seq<char>>::empty(),
    {
        WineConfig {
            command: String::new(),
            command_mode: WineCommandMode::ExeWithArgs,
            wallpaper_exe: String::new(),
            workshop_path: String::new(),
            args: Vec::new(),
            env: EnvMap::new(),
        }
    }
}

impl Default for CaptureConfig {
    fn default() -> (c: CaptureConfig)
        ensures
            c.wm_class_contains@.len() == 0,
            c.title_contains@.len() == 0,
            c.output_window_map@.len() == 0,
    {
        CaptureConfig {
            wm_class_contains: String::new(),
            title_contains: String::new(),
            output_window_map: Vec::new(),
        }
    }
}

/// `cfg` is the default runner configuration.
pub open spec fn is_default_app_config(cfg: AppConfig) -> bool {
    &&& is_default_general(cfg.general)
    &&& is_default_isolation(cfg.isolation)
    &&& cfg.wine.command@ == "wine"@
    &&& cfg.wine.command_mode == WineCommandMode::ExeWithArgs
    &&& cfg.wine.wallpaper_exe@.len() == 0
    &&& cfg.wine.workshop_path@.len() == 0
    &&& cfg.wine.args@.len() == 0
    &&& cfg.wine.env@ == Map::<Seq<char>, Seq<char>>::empty()
    &&& cfg.capture.wm_class_contains@ == "wallpaper64"@
    &&& cfg.capture.title_contains@ == "WE-DEBUG-WINDOW"@
    &&& cfg.capture.output_window_map@.len() == 0
    &&& cfg.runtime is None
    &&& is_default_cgroup(cfg.cgroup)
}

impl Default for AppConfig {
    fn default() -> (cfg: AppConfig)
        ensures
            is_default_app_config(cfg),
    {
        AppConfig {
            general: GeneralConfig::default(),
            isolation: IsolationConfig::default(),
            wine: WineConfig {
                command: lit("wine"),
                command_mode: WineCommandMode::ExeWithArgs,
                wallpaper_exe: String::new(),
                workshop_path: String::new(),
                args: Vec::new(),
                env: EnvMap::new(),
            },
            capture: CaptureConfig {
                wm_class_contains: lit("wallpaper64"),
                title_contains: lit("WE-DEBUG-WINDOW"),
                output_window_map: Vec::new(),
            },
            runtime: None,
            cgroup: CgroupConfig::default(),
        }
    }
}

/// `s` holds the default launch settings.
pub open spec fn is_default_launch_settings(s: LaunchSettings) -> bool {
    &&& s.wallpaper_exe@.len() == 0
    &&& s.workshop_path@.len() == 0
    &&& s.launcher == WindowsLauncher::Wine
    &&& s.wine_command@ == "wine"@
    &&& s.proton_path is None
    &&& s.fps_limit == 30
    &&& !s.show_fps
    &&& s.isolation_mode == IsolationMode::Off
    &&& s.isolation_command@ == "gamescope"@
    &&& s.isolation_width is None
    &&& s.isolation_height is None
    &&& s.isolation_startup_timeout_secs == 10
    &&& s.width == 2560
    &&& s.height == 1600
    &&& s.x == 0
    &&& s.y == 0
    &&& s.play_in_window_title@ == "WE-DEBUG-WINDOW"@
    &&& s.borderless
    &&& s.wm_class_contains@ == "wallpaper64"@
    &&& !s.cgroup_enabled
    &&& s.cgroup_mode == CgroupMode::Detect
    &&& s.cgroup_memory_max is None
    &&& s.cgroup_cpu_max is None
    &&& s.hide_debug_window
    &&& s.hidden_workspace_name@ == "top"@
    &&& !s.disable_debug_window_input
}

impl Default for LaunchSettings {
    fn default() -> (s: LaunchSettings)
        ensures
            is_default_launch_settings(s),
    {
        LaunchSettings {
            wallpaper_exe: String::new(),
            workshop_path: String::new(),
            launcher: WindowsLauncher::Wine,
            wine_command: lit("wine"),
            proton_path: None,
            fps_limit: 30,
            show_fps: false,
            isolation_mode: IsolationMode::Off,
            isolation_command: default_isolation_command(),
            isolation_width: None,
            isolation_height: None,
            isolation_startup_timeout_secs: default_isolation_startup_timeout_secs(),
            width: 2560,
            height: 1600,
            x: 0,
            y: 0,
            play_in_window_title: lit("WE-DEBUG-WINDOW"),
            borderless: true,
            wm_class_contains: lit("wallpaper64"),
            cgroup_enabled: false,
            cgroup_mode: CgroupMode::Detect,
            cgroup_memory_max: None,
            cgroup_cpu_max: None,
            hide_debug_window: true,
            hidden_workspace_name: lit("top"),
            disable_debug_window_input: false,
        }
    }
}

// ---------------------------------------------------------------------------
// Building the runner configuration
// ---------------------------------------------------------------------------
/// The arguments that open a scene or web wallpaper in a window.
pub open spec fn window_wallpaper_args(s: LaunchSettings, project_json: Seq<char>) -> Seq<
    Seq<char>,
> {
    seq![
        "-control"@,
        "openWallpaper"@,
        "-file"@,
        project_json,
        "-playInWindow"@,
        s.play_in_window_title@,
        "-width"@,
        decimal(s.width as nat),
        "-height"@,
        decimal(s.height as nat),
        "-x"@,
        signed_decimal(s.x as int),
        "-y"@,
        signed_decimal(s.y as int),
    ] + if s.borderless {
        seq!["-borderless"@]
    } else {
        Seq::<Seq<char>>::empty()
    }
}

/// The Steam root of a path inside a Steam library: the folder above
/// `steamapps/common/<app>/` or above `compatibilitytools.d/<tool>/`.
pub open spec fn steam_root_of(p: Seq<char>) -> Option<Seq<char>> {
    match parent_of(p) {
        None => None,
        Some(dir) => match file_name_of(dir) {
            None => None,
            Some(dir_name) => if dir_name.len() == 0 {
                None
            } else {
                match parent_of(dir) {
                    None => None,
                    Some(up) => match file_name_of(up) {
                        None => None,
                        Some(up_name) => if up_name == "common"@ {
                            match parent_of(up) {
                                None => None,
                                Some(up2) => match file_name_of(up2) {
                                    None => None,
                                    Some(up2_name) => if up2_name == "steamapps"@ {
                                        parent_of(up2)
                                    } else {
                                        None
                                    },
                                },
                            }
                        } else if up_name == "compatibilitytools.d"@ {
                            parent_of(up)
                        } else {
                            None
                        },
                    },
                }
            },
        },
    }
}

/// Proton is used: it is the chosen launcher and a non-blank Proton path is
/// set.
pub open spec fn proton_selected(s: LaunchSettings) -> bool {
    s.launcher == WindowsLauncher::Proton && s.proton_path is Some && trim(
        s.proton_path->0@,
    ).len() > 0
}

/// `launcher.exe` beside the wallpaper executable.
pub open spec fn launcher_exe_of(exe: Seq<char>) -> Seq<char> {
    match parent_of(exe) {
        Some(dir) => join(dir, "launcher.exe"@),
        None => "launcher.exe"@,
    }
}

/// The file name of the wallpaper executable.
pub open spec fn wallpaper_name_of(exe: Seq<char>) -> Seq<char> {
    match file_name_of(exe) {
        Some(name) => name,
        None => "wallpaper64.exe"@,
    }
}

/// The arguments that `proton run` receives before the wallpaper's own.
pub open spec fn proton_prefix(exe: Seq<char>) -> Seq<Seq<char>> {
    seq!["run"@, launcher_exe_of(exe), "-run"@, wallpaper_name_of(exe), "-nobrowse"@]
}

/// The Steam root whose `compatdata` holds the Wallpaper Engine prefix: the
/// one of the wallpaper executable, else the one of Proton.
pub open spec fn compat_root(exe: Seq<char>, proton: Seq<char>) -> Option<Seq<char>> {
    match steam_root_of(exe) {
        Some(root) => Some(root),
        None => steam_root_of(proton),
    }
}

/// `<root>/steamapps/compatdata/431960`.
pub open spec fn compat_data_path(root: Seq<char>) -> Seq<char> {
    join(join(join(root, "steamapps"@), "compatdata"@), decimal(431960))
}

/// The environment that Proton mode sets.
pub open spec fn proton_env(exe: Seq<char>, proton: Seq<char>) -> Map<Seq<char>, Seq<char>> {
    let with_client = match steam_root_of(proton) {
        Some(root) => Map::<Seq<char>, Seq<char>>::empty().insert(
            "STEAM_COMPAT_CLIENT_INSTALL_PATH"@,
            root,
        ),
        None => Map::<Seq<char>, Seq<char>>::empty(),
    };
    match compat_root(exe, proton) {
        Some(root) => with_client.insert("STEAM_COMPAT_DATA_PATH"@, compat_data_path(root)),
        None => with_client,
    }
}

/// The runtime mode and wallpaper type for a wallpaper type.
pub open spec fn runtime_type_of(ty: WallpaperType) -> RuntimeWallpaperType {
    match ty {
        WallpaperType::Video => RuntimeWallpaperType::Video,
        WallpaperType::Scene => RuntimeWallpaperType::Scene,
        WallpaperType::Web => RuntimeWallpaperType::Web,
        WallpaperType::Unknown => RuntimeWallpaperType::Unknown,
    }
}

/// The wallpaper arguments before any Proton prefix.
pub open spec fn base_args(s: LaunchSettings, ty: WallpaperType, project_json: Seq<char>) -> Seq<
    Seq<char>,
> {
    if ty == WallpaperType::Video {
        Seq::empty()
    } else {
        window_wallpaper_args(s, project_json)
    }
}

/// `cfg` is the configuration that `build_config` gives for these inputs.
pub open spec fn built_config(
    s: LaunchSettings,
    ty: WallpaperType,
    project_json: Seq<char>,
    video_file: Option<Seq<char>>,
    cfg: AppConfig,
) -> bool {
    let video = ty == WallpaperType::Video;
    &&& cfg.general.fps_limit == s.fps_limit
    &&& cfg.general.restart_wine_on_exit == !video
    &&& cfg.general.refind_window_on_capture_error == !video
    &&& cfg.general.show_fps == s.show_fps
    &&& cfg.general.fps_report_interval_secs == 1
    &&& cfg.general.scale_mode == ScaleMode::Cover
    &&& cfg.general.hide_debug_window == s.hide_debug_window
    &&& cfg.general.hidden_workspace_name@ == s.hidden_workspace_name@
    &&& cfg.general.disable_debug_window_input == s.disable_debug_window_input
    &&& cfg.isolation.mode == s.isolation_mode
    &&& cfg.isolation.command@ == s.isolation_command@
    &&& cfg.isolation.width == s.isolation_width
    &&& cfg.isolation.height == s.isolation_height
    &&& cfg.isolation.startup_timeout_secs == (if s.isolation_startup_timeout_secs >= 1 {
        s.isolation_startup_timeout_secs
    } else {
        1
    })
    &&& cfg.wine.wallpaper_exe@ == s.wallpaper_exe@
    &&& cfg.wine.workshop_path@ == s.workshop_path@
    &&& if proton_selected(s) {
        &&& cfg.wine.command@ == s.proton_path->0@
        &&& cfg.wine.command_mode == WineCommandMode::CommandOnly
        &&& strs_view(cfg.wine.args@) == proton_prefix(s.wallpaper_exe@) + base_args(
            s,
            ty,
            project_json,
        )
        &&& cfg.wine.env@ == proton_env(s.wallpaper_exe@, s.proton_path->0@)
    } else {
        &&& cfg.wine.command@ == s.wine_command@
        &&& cfg.wine.command_mode == WineCommandMode::ExeWithArgs
        &&& strs_view(cfg.wine.args@) == base_args(s, ty, project_json)
        &&& cfg.wine.env@ == Map::<Seq<char>, Seq<char>>::empty()
    }
    &&& cfg.capture.wm_class_contains@ == s.wm_class_contains@
    &&& cfg.capture.title_contains@ == s.play_in_window_title@
    &&& cfg.capture.output_window_map@.len() == 0
    &&& cfg.runtime is Some
    &&& cfg.runtime->0.mode == (if video {
        RuntimeMode::VideoNative
    } else {
        RuntimeMode::WineLayerd
    })
    &&& cfg.runtime->0.wallpaper_type == runtime_type_of(ty)
    &&& opt_view(cfg.runtime->0.video_file) == (if video {
        video_file
    } else {
        None
    })
    &&& cfg.cgroup.enabled == s.cgroup_enabled
    &&& cfg.cgroup.mode == s.cgroup_mode
    &&& opt_view(cfg.cgroup.memory_max) == opt_view(s.cgroup_memory_max)
    &&& opt_view(cfg.cgroup.cpu_max) == opt_view(s.cgroup_cpu_max)
}

/// A file `<root>/steamapps/common/<app>/<file>` of a Steam library.
pub open spec fn steam_app_file(root: Seq<char>, app: Seq<char>, file: Seq<char>) -> Seq<char> {
    child_path(child_path(child_path(child_path(root, "steamapps"@), "common"@), app), file)
}

/// A file `<root>/compatibilitytools.d/<tool>/<file>` of a Steam root.
pub open spec fn compat_tool_file(root: Seq<char>, tool: Seq<char>, file: Seq<char>) -> Seq<char> {
    child_path(child_path(child_path(root, "compatibilitytools.d"@), tool), file)
}

/// `p` is the file `file` of the app `app` in the Steam library at `root`,
/// all given plainly.
pub open spec fn steam_layout(p: Seq<char>, root: Seq<char>, app: Seq<char>, file: Seq<char>) -> bool {
    plain_dir(root) && plain_name(app) && plain_name(file) && p == steam_app_file(root, app, file)
}

/// `p` is the file `file` of the compatibility tool `tool` under the Steam
/// root `root`, all given plainly.
pub open spec fn compat_layout(p: Seq<char>, root: Seq<char>, tool: Seq<char>, file: Seq<char>) -> bool {
    plain_dir(root) && plain_name(tool) && plain_name(file) && p == compat_tool_file(root, tool, file)
}

proof fn lemma_library_names_plain()
    ensures
        plain_name("steamapps"@),
        plain_name("common"@),
        plain_name("compatibilitytools.d"@),
        "common"@ != "compatibilitytools.d"@,
{
    reveal_strlit("steamapps");
    reveal_strlit("common");
    reveal_strlit("compatibilitytools.d");
    assert("steamapps"@ != seq!['.'] && "steamapps"@ != seq!['.', '.']) by {
        assert("steamapps"@.len() == 9);
    }
    assert("common"@ != seq!['.'] && "common"@ != seq!['.', '.']) by {
        assert("common"@.len() == 6);
    }
    assert("compatibilitytools.d"@ != seq!['.'] && "compatibilitytools.d"@ != seq!['.', '.']) by {
        assert("compatibilitytools.d"@.len() == 20);
    }
    assert("common"@.len() != "compatibilitytools.d"@.len());
}

/// The Steam root of a path inside a Steam library (see `steam_root_of`):
/// for `<root>/steamapps/common/<app>/<file>` and for
/// `<root>/compatibilitytools.d/<tool>/<file>` it is `<root>`.
pub fn derive_steam_root_from_path(p: &str) -> (r: Option<String>)
    ensures
        opt_view(r) == steam_root_of(p@),
        forall|root: Seq<char>, app: Seq<char>, file: Seq<char>|
            #[trigger] steam_layout(p@, root, app, file) ==> opt_view(r) == Some(root),
        forall|root: Seq<char>, tool: Seq<char>, file: Seq<char>|
            #[trigger] compat_layout(p@, root, tool, file) ==> opt_view(r) == Some(root),
{
    proof {
        lemma_library_names_plain();
    }
    let ghost pv = p@;
    let dir = match path_parent(p) {
        Some(d) => d,
        None => {
            proof {
                assert forall|root: Seq<char>, app: Seq<char>, file: Seq<char>|
                    #[trigger] steam_layout(pv, root, app, file) implies false by {
                    let a = child_path(child_path(child_path(root, "steamapps"@), "common"@), app);
                    lemma_child_is_plain_dir(child_path(child_path(root, "steamapps"@), "common"@), app);
                    assert(pv == child_path(a, file));
                }
                assert forall|root: Seq<char>, tool: Seq<char>, file: Seq<char>|
                    #[trigger] compat_layout(pv, root, tool, file) implies false by {
                    let t = child_path(child_path(root, "compatibilitytools.d"@), tool);
                    lemma_child_is_plain_dir(child_path(root, "compatibilitytools.d"@), tool);
                    assert(pv == child_path(t, file));
                }
            }
            return None;
        },
    };
    proof {
        assert forall|root: Seq<char>, app: Seq<char>, file: Seq<char>|
            #[trigger] steam_layout(pv, root, app, file) implies dir@ == child_path(
            child_path(child_path(root, "steamapps"@), "common"@),
            app,
        ) by {
            let a = child_path(child_path(child_path(root, "steamapps"@), "common"@), app);
            lemma_child_is_plain_dir(child_path(child_path(root, "steamapps"@), "common"@), app);
            assert(pv == child_path(a, file));
        }
        assert forall|root: Seq<char>, tool: Seq<char>, file: Seq<char>|
            #[trigger] compat_layout(pv, root, tool, file) implies dir@ == child_path(
            child_path(root, "compatibilitytools.d"@),
            tool,
        ) by {
            let t = child_path(child_path(root, "compatibilitytools.d"@), tool);
            lemma_child_is_plain_dir(child_path(root, "compatibilitytools.d"@), tool);
            assert(pv == child_path(t, file));
        }
    }
    let dir_name = match path_file_name(dir.as_str()) {
        Some(n) => n,
        None => {
            proof {
                assert forall|root: Seq<char>, app: Seq<char>, file: Seq<char>|
                    #[trigger] steam_layout(pv, root, app, file) implies false by {
                    assert(dir@ == child_path(child_path(child_path(root, "steamapps"@), "common"@), app));
                }
                assert forall|root: Seq<char>, tool: Seq<char>, file: Seq<char>|
                    #[trigger] compat_layout(pv, root, tool, file) implies false by {
                    assert(dir@ == child_path(child_path(root, "compatibilitytools.d"@), tool));
                }
            }
            return None;
        },
    };
    proof {
        assert forall|root: Seq<char>, app: Seq<char>, file: Seq<char>|
            #[trigger] steam_layout(pv, root, app, file) implies dir_name@ == app by {
            assert(dir@ == child_path(child_path(child_path(root, "steamapps"@), "common"@), app));
        }
        assert forall|root: Seq<char>, tool: Seq<char>, file: Seq<char>|
            #[trigger] compat_layout(pv, root, tool, file) implies dir_name@ == tool by {
            assert(dir@ == child_path(child_path(root, "compatibilitytools.d"@), tool));
        }
    }
    if dir_name.as_str().is_empty() {
        return None;
    }
    let up = match path_parent(dir.as_str()) {
        Some(u) => u,
        None => {
            proof {
                assert forall|root: Seq<char>, app: Seq<char>, file: Seq<char>|
                    #[trigger] steam_layout(pv, root, app, file) implies false by {
                    let c = child_path(child_path(root, "steamapps"@), "common"@);
                    lemma_child_is_plain_dir(child_path(root, "steamapps"@), "common"@);
                    assert(dir@ == child_path(c, app));
                }
                assert forall|root: Seq<char>, tool: Seq<char>, file: Seq<char>|
                    #[trigger] compat_layout(pv, root, tool, file) implies false by {
                    let c = child_path(root, "compatibilitytools.d"@);
                    lemma_child_is_plain_dir(root, "compatibilitytools.d"@);
                    assert(dir@ == child_path(c, tool));
                }
            }
            return None;
        },
    };
    proof {
        assert forall|root: Seq<char>, app: Seq<char>, file: Seq<char>|
            #[trigger] steam_layout(pv, root, app, file) implies up@ == child_path(
            child_path(root, "steamapps"@),
            "common"@,
        ) by {
            let c = child_path(child_path(root, "steamapps"@), "common"@);
            lemma_child_is_plain_dir(child_path(root, "steamapps"@), "common"@);
            assert(dir@ == child_path(c, app));
        }
        assert forall|root: Seq<char>, tool: Seq<char>, file: Seq<char>|
            #[trigger] compat_layout(pv, root, tool, file) implies up@ == child_path(
            root,
            "compatibilitytools.d"@,
        ) by {
            let c = child_path(root, "compatibilitytools.d"@);
            lemma_child_is_plain_dir(root, "compatibilitytools.d"@);
            assert(dir@ == child_path(c, tool));
        }
    }
    let up_name = match path_file_name(up.as_str()) {
        Some(n) => n,
        None => {
            proof {
                assert forall|root: Seq<char>, app: Seq<char>, file: Seq<char>|
                    #[trigger] steam_layout(pv, root, app, file) implies false by {
                    assert(up@ == child_path(child_path(root, "steamapps"@), "common"@));
                }
                assert forall|root: Seq<char>, tool: Seq<char>, file: Seq<char>|
                    #[trigger] compat_layout(pv, root, tool, file) implies false by {
                    assert(up@ == child_path(root, "compatibilitytools.d"@));
                }
            }
            return None;
        },
    };
    proof {
        assert forall|root: Seq<char>, app: Seq<char>, file: Seq<char>|
            #[trigger] steam_layout(pv, root, app, file) implies up_name@ == "common"@ by {
            assert(up@ == child_path(child_path(root, "steamapps"@), "common"@));
        }
        assert forall|root: Seq<char>, tool: Seq<char>, file: Seq<char>|
            #[trigger] compat_layout(pv, root, tool, file) implies up_name@ == "compatibilitytools.d"@ by {
            assert(up@ == child_path(root, "compatibilitytools.d"@));
        }
    }
    if str_eq(up_name.as_str(), "common") {
        let up2 = match path_parent(up.as_str()) {
            Some(u) => u,
            None => {
                proof {
                    assert forall|root: Seq<char>, app: Seq<char>, file: Seq<char>|
                        #[trigger] steam_layout(pv, root, app, file) implies false by {
                        lemma_child_is_plain_dir(root, "steamapps"@);
                        assert(up@ == child_path(child_path(root, "steamapps"@), "common"@));
                    }
                }
                return None;
            },
        };
        proof {
            assert forall|root: Seq<char>, app: Seq<char>, file: Seq<char>|
                #[trigger] steam_layout(pv, root, app, file) implies up2@ == child_path(root, "steamapps"@) by {
                lemma_child_is_plain_dir(root, "steamapps"@);
                assert(up@ == child_path(child_path(root, "steamapps"@), "common"@));
            }
        }
        let up2_name = match path_file_name(up2.as_str()) {
            Some(n) => n,
            None => {
                proof {
                    assert forall|root: Seq<char>, app: Seq<char>, file: Seq<char>|
                        #[trigger] steam_layout(pv, root, app, file) implies false by {
                        assert(up2@ == child_path(root, "steamapps"@));
                    }
                }
                return None;
            },
        };
        proof {
            assert forall|root: Seq<char>, app: Seq<char>, file: Seq<char>|
                #[trigger] steam_layout(pv, root, app, file) implies up2_name@ == "steamapps"@ by {
                assert(up2@ == child_path(root, "steamapps"@));
            }
        }
        if str_eq(up2_name.as_str(), "steamapps") {
            let r = path_parent(up2.as_str());
            proof {
                assert forall|root: Seq<char>, app: Seq<char>, file: Seq<char>|
                    #[trigger] steam_layout(pv, root, app, file) implies opt_view(r) == Some(root) by {
                    assert(up2@ == child_path(root, "steamapps"@));
                }
            }
            return r;
        }
    }
    if str_eq(up_name.as_str(), "compatibilitytools.d") {
        proof {
            reveal_strlit("common");
            reveal_strlit("compatibilitytools.d");
            assert("common"@.len() != "compatibilitytools.d"@.len());
        }
        let r = path_parent(up.as_str());
        proof {
            assert forall|root: Seq<char>, tool: Seq<char>, file: Seq<char>|
                #[trigger] compat_layout(pv, root, tool, file) implies opt_view(r) == Some(root) by {
                assert(up@ == child_path(root, "compatibilitytools.d"@));
            }
        }
        return r;
    }
    None
}

/// The arguments that open a scene or web wallpaper in a window.
pub fn build_window_wallpaper_args(settings: &LaunchSettings, project_json: &str) -> (args: Vec<
    String,
>)
    ensures
        strs_view(args@) == window_wallpaper_args(*settings, project_json@),
{
    let mut args = vec![
        lit("-control"),
        lit("openWallpaper"),
        lit("-file"),
        owned(project_json),
        lit("-playInWindow"),
        settings.play_in_window_title.clone(),
        lit("-width"),
        u32_to_decimal(settings.width),
        lit("-height"),
        u32_to_decimal(settings.height),
        lit("-x"),
        i32_to_decimal(settings.x),
        lit("-y"),
        i32_to_decimal(settings.y),
    ];
    let ghost head = args@;
    if settings.borderless {
        args.push(lit("-borderless"));
    }
    assert(strs_view(args@) =~= window_wallpaper_args(*settings, project_json@));
    args
}

/// Sets the runtime block and the window arguments of a scene, web or
/// unknown wallpaper.
fn apply_window_wallpaper_config(
    cfg: &mut AppConfig,
    settings: &LaunchSettings,
    project_json: &str,
    wallpaper_type: RuntimeWallpaperType,
)
    ensures
        final(cfg).general == old(cfg).general,
        final(cfg).isolation == old(cfg).isolation,
        final(cfg).wine.command == old(cfg).wine.command,
        final(cfg).wine.command_mode == old(cfg).wine.command_mode,
        final(cfg).wine.wallpaper_exe == old(cfg).wine.wallpaper_exe,
        final(cfg).wine.workshop_path == old(cfg).wine.workshop_path,
        final(cfg).wine.env == old(cfg).wine.env,
        strs_view(final(cfg).wine.args@) == window_wallpaper_args(*settings, project_json@),
        final(cfg).capture == old(cfg).capture,
        final(cfg).cgroup == old(cfg).cgroup,
        final(cfg).runtime == Some(
            RuntimeConfig { mode: RuntimeMode::WineLayerd, wallpaper_type, video_file: None },
        ),
{
    cfg.runtime = Some(
        RuntimeConfig { mode: RuntimeMode::WineLayerd, wallpaper_type, video_file: None },
    );
    cfg.wine.args = build_window_wallpaper_args(settings, project_json);
}

/// Builds the runner configuration for a wallpaper from the launch settings:
/// the settings' values, the runtime block that the wallpaper type calls for,
/// the window arguments of scene and web wallpapers, and, in Proton mode,
/// the `proton run` command line with the Steam compatibility environment.
pub fn build_config(
    settings: &LaunchSettings,
    wallpaper_type: WallpaperType,
    project_json: &str,
    video_file: Option<&str>,
) -> (cfg: AppConfig)
    ensures
        built_config(
            *settings,
            wallpaper_type,
            project_json@,
            match video_file {
                Some(v) => Some(v@),
                None => None,
            },
            cfg,
        ),
{
    let mut cfg = AppConfig::default();
    cfg.general.fps_limit = settings.fps_limit;
    cfg.general.show_fps = settings.show_fps;
    cfg.general.hide_debug_window = settings.hide_debug_window;
    cfg.general.hidden_workspace_name = settings.hidden_workspace_name.clone();
    cfg.general.disable_debug_window_input = settings.disable_debug_window_input;
    cfg.isolation.mode = settings.isolation_mode;
    cfg.isolation.command = settings.isolation_command.clone();
    cfg.isolation.width = settings.isolation_width;
    cfg.isolation.height = settings.isolation_height;
    cfg.isolation.startup_timeout_secs = if settings.isolation_startup_timeout_secs >= 1 {
        settings.isolation_startup_timeout_secs
    } else {
        1
    };
    cfg.wine.command = settings.wine_command.clone();
    cfg.wine.command_mode = WineCommandMode::ExeWithArgs;
    cfg.wine.wallpaper_exe = settings.wallpaper_exe.clone();
    cfg.wine.workshop_path = settings.workshop_path.clone();
    cfg.wine.env = EnvMap::new();
    cfg.capture.wm_class_contains = settings.wm_class_contains.clone();
    cfg.capture.title_contains = settings.play_in_window_title.clone();
    cfg.cgroup.enabled = settings.cgroup_enabled;
    cfg.cgroup.mode = settings.cgroup_mode;
    cfg.cgroup.memory_max = copy_opt(&settings.cgroup_memory_max);
    cfg.cgroup.cpu_max = copy_opt(&settings.cgroup_cpu_max);

    match wallpaper_type {
        WallpaperType::Video => {
            cfg.general.restart_wine_on_exit = false;
            cfg.general.refind_window_on_capture_error = false;
            let video = match video_file {
                Some(p) => Some(owned(p)),
                None => None,
            };
            cfg.runtime = Some(
                RuntimeConfig {
                    mode: RuntimeMode::VideoNative,
                    wallpaper_type: RuntimeWallpaperType::Video,
                    video_file: video,
                },
            );
            cfg.wine.args = Vec::new();
            assert(strs_view(cfg.wine.args@) =~= Seq::<Seq<char>>::empty());
        },
        WallpaperType::Scene => {
            apply_window_wallpaper_config(
                &mut cfg,
                settings,
                project_json,
                RuntimeWallpaperType::Scene,
            );
        },
        WallpaperType::Web => {
            apply_window_wallpaper_config(
                &mut cfg,
                settings,
                project_json,
                RuntimeWallpaperType::Web,
            );
        },
        WallpaperType::Unknown => {
            apply_window_wallpaper_config(
                &mut cfg,
                settings,
                project_json,
                RuntimeWallpaperType::Unknown,
            );
        },
    }

    if settings.launcher == WindowsLauncher::Proton {
        if let Some(proton) = &settings.proton_path {
            if !is_blank(proton.as_str()) {
                let exe = settings.wallpaper_exe.as_str();
                let launcher_exe = match path_parent(exe) {
                    Some(dir) => path_join(dir.as_str(), "launcher.exe"),
                    None => lit("launcher.exe"),
                };
                let wallpaper_name = match path_file_name(exe) {
                    Some(name) => name,
                    None => lit("wallpaper64.exe"),
                };
                cfg.wine.command = proton.clone();
                cfg.wine.command_mode = WineCommandMode::CommandOnly;
                let mut proton_args = vec![
                    lit("run"),
                    launcher_exe,
                    lit("-run"),
                    wallpaper_name,
                    lit("-nobrowse"),
                ];
                let ghost prefix = proton_args@;
                let rest = copy_strings(&cfg.wine.args);
                let mut i: usize = 0;
                while i < rest.len()
                    invariant
                        i <= rest.len(),
                        strs_view(proton_args@) == strs_view(prefix) + strs_view(rest@).take(
                            i as int,
                        ),
                    decreases rest.len() - i,
                {
                    let ghost before = proton_args@;
                    proton_args.push(rest[i].clone());
                    proof {
                        assert(strs_view(proton_args@) =~= strs_view(before).push(rest@[i as int]@));
                        assert(strs_view(rest@).take(i + 1) =~= strs_view(rest@).take(i as int).push(
                            rest@[i as int]@,
                        ));
                    }
                    i += 1;
                }
                assert(strs_view(rest@).take(rest.len() as int) == strs_view(rest@));
                assert(strs_view(prefix) =~= proton_prefix(settings.wallpaper_exe@));
                cfg.wine.args = proton_args;
                let proton_steam_root = derive_steam_root_from_path(proton.as_str());
                if let Some(steam_root) = &proton_steam_root {
                    cfg.wine.env.insert(
                        lit("STEAM_COMPAT_CLIENT_INSTALL_PATH"),
                        steam_root.clone(),
                    );
                }
                let wallpaper_root = match derive_steam_root_from_path(exe) {
                    Some(root) => Some(root),
                    None => proton_steam_root,
                };
                if let Some(root) = wallpaper_root {
                    let steamapps = path_join(root.as_str(), "steamapps");
                    let compatdata = path_join(steamapps.as_str(), "compatdata");
                    let app_id = u32_to_decimal(WALLPAPER_ENGINE_APP_ID);
                    let data_path = path_join(compatdata.as_str(), app_id.as_str());
                    cfg.wine.env.insert(lit("STEAM_COMPAT_DATA_PATH"), data_path);
                }
            }
        }
    }
    cfg
}

// ---------------------------------------------------------------------------
// Reading launch settings back
// ---------------------------------------------------------------------------
/// A parsed dimension, at least 1.
pub open spec fn at_least_one(v: u32) -> u32 {
    if v >= 1 {
        v
    } else {
        1
    }
}

/// The value of a numeric flag in `args`, or `default` when the flag, its
/// value or a valid number is missing.
pub open spec fn flag_u32(args: Seq<Seq<char>>, flag: Seq<char>, default: u32) -> u32 {
    match value_after(args, flag) {
        Some(v) => match parse_u32(v) {
            Some(n) => at_least_one(n),
            None => default,
        },
        None => default,
    }
}

/// The value of a signed numeric flag in `args`, or 0.
pub open spec fn flag_i32(args: Seq<Seq<char>>, flag: Seq<char>) -> i32 {
    match value_after(args, flag) {
        Some(v) => match parse_i32(v) {
            Some(n) => n,
            None => 0,
        },
        None => 0,
    }
}

/// `s` holds the launch settings that a runner configuration describes.
pub open spec fn settings_of(cfg: AppConfig, s: LaunchSettings) -> bool {
    let args = strs_view(cfg.wine.args@);
    &&& s.fps_limit == cfg.general.fps_limit
    &&& s.show_fps == cfg.general.show_fps
    &&& s.hide_debug_window == cfg.general.hide_debug_window
    &&& s.hidden_workspace_name@ == cfg.general.hidden_workspace_name@
    &&& s.disable_debug_window_input == cfg.general.disable_debug_window_input
    &&& s.isolation_mode == cfg.isolation.mode
    &&& s.isolation_command@ == cfg.isolation.command@
    &&& s.isolation_width == cfg.isolation.width
    &&& s.isolation_height == cfg.isolation.height
    &&& s.isolation_startup_timeout_secs == (if cfg.isolation.startup_timeout_secs >= 1 {
        cfg.isolation.startup_timeout_secs
    } else {
        1
    })
    &&& s.wm_class_contains@ == cfg.capture.wm_class_contains@
    &&& s.play_in_window_title@ == cfg.capture.title_contains@
    &&& s.cgroup_enabled == cfg.cgroup.enabled
    &&& s.cgroup_mode == cfg.cgroup.mode
    &&& opt_view(s.cgroup_memory_max) == opt_view(cfg.cgroup.memory_max)
    &&& opt_view(s.cgroup_cpu_max) == opt_view(cfg.cgroup.cpu_max)
    &&& s.wallpaper_exe@ == cfg.wine.wallpaper_exe@
    &&& s.workshop_path@ == cfg.wine.workshop_path@
    &&& match cfg.wine.command_mode {
        WineCommandMode::ExeWithArgs => {
            &&& s.launcher == WindowsLauncher::Wine
            &&& s.wine_command@ == cfg.wine.command@
            &&& s.proton_path is None
        },
        WineCommandMode::CommandOnly => {
            &&& s.launcher == WindowsLauncher::Proton
            &&& s.wine_command@ == "wine"@
            &&& opt_view(s.proton_path) == Some(cfg.wine.command@)
        },
    }
    &&& s.width == flag_u32(args, "-width"@, 2560)
    &&& s.height == flag_u32(args, "-height"@, 1600)
    &&& s.x == flag_i32(args, "-x"@)
    &&& s.y == flag_i32(args, "-y"@)
    &&& s.borderless == args.contains("-borderless"@)
}

/// The value of a numeric flag, at least 1.
fn read_u32_flag(args: &Vec<String>, flag: &str, default: u32) -> (v: u32)
    ensures
        v == flag_u32(strs_view(args@), flag@, default),
{
    match arg_value(args, flag) {
        Some(raw) => match parse_u32_str(raw.as_str()) {
            Some(n) => if n >= 1 {
                n
            } else {
                1
            },
            None => default,
        },
        None => default,
    }
}

/// The value of a signed numeric flag, or 0.
fn read_i32_flag(args: &Vec<String>, flag: &str) -> (v: i32)
    ensures
        v == flag_i32(strs_view(args@), flag@),
{
    match arg_value(args, flag) {
        Some(raw) => match parse_i32_str(raw.as_str()) {
            Some(n) => n,
            None => 0,
        },
        None => 0,
    }
}

/// The launch settings that a runner configuration describes: its values,
/// the launcher that its command mode implies, and the window geometry
/// read back from the `-width`, `-height`, `-x`, `-y` and `-borderless`
/// arguments.
pub fn launch_settings_from_config(cfg: AppConfig) -> (s: LaunchSettings)
    ensures
        settings_of(cfg, s),
{
    let ghost c = cfg;
    let mut settings = LaunchSettings::default();
    settings.fps_limit = cfg.general.fps_limit;
    settings.show_fps = cfg.general.show_fps;
    settings.hide_debug_window = cfg.general.hide_debug_window;
    settings.hidden_workspace_name = cfg.general.hidden_workspace_name;
    settings.disable_debug_window_input = cfg.general.disable_debug_window_input;
    settings.isolation_mode = cfg.isolation.mode;
    settings.isolation_command = cfg.isolation.command;
    settings.isolation_width = cfg.isolation.width;
    settings.isolation_height = cfg.isolation.height;
    settings.isolation_startup_timeout_secs = if cfg.isolation.startup_timeout_secs >= 1 {
        cfg.isolation.startup_timeout_secs
    } else {
        1
    };
    settings.wm_class_contains = cfg.capture.wm_class_contains;
    settings.play_in_window_title = cfg.capture.title_contains;
    settings.cgroup_enabled = cfg.cgroup.enabled;
    settings.cgroup_mode = cfg.cgroup.mode;
    settings.cgroup_memory_max = cfg.cgroup.memory_max;
    settings.cgroup_cpu_max = cfg.cgroup.cpu_max;
    settings.wallpaper_exe = cfg.wine.wallpaper_exe;
    settings.workshop_path = cfg.wine.workshop_path;
    match cfg.wine.command_mode {
        WineCommandMode::ExeWithArgs => {
            settings.launcher = WindowsLauncher::Wine;
            settings.wine_command = cfg.wine.command;
            settings.proton_path = None;
        },
        WineCommandMode::CommandOnly => {
            settings.launcher = WindowsLauncher::Proton;
            settings.proton_path = Some(cfg.wine.command);
        },
    }
    let args = cfg.wine.args;
    settings.width = read_u32_flag(&args, "-width", 2560);
    settings.height = read_u32_flag(&args, "-height", 1600);
    settings.x = read_i32_flag(&args, "-x");
    settings.y = read_i32_flag(&args, "-y");
    settings.borderless = has_arg(&args, "-borderless");
    settings
}


// ---------------------------------------------------------------------------
// Writing settings and reading them back
// ---------------------------------------------------------------------------
/// The flags whose values the launch settings are read back from.
pub open spec fn is_window_flag(a: Seq<char>) -> bool {
    ||| a == "-width"@
    ||| a == "-height"@
    ||| a == "-x"@
    ||| a == "-y"@
    ||| a == "-borderless"@
}

proof fn lemma_not_flag_by_char(a: Seq<char>, i: int)
    requires
        0 <= i <= 1,
        a.len() > i,
        i == 0 ==> a[0] != '-',
        i == 1 ==> a[1] != 'w' && a[1] != 'h' && a[1] != 'x' && a[1] != 'y' && a[1] != 'b',
    ensures
        !is_window_flag(a),
{
    reveal_strlit("-width");
    reveal_strlit("-height");
    reveal_strlit("-x");
    reveal_strlit("-y");
    reveal_strlit("-borderless");
    assert("-width"@[0] == '-' && "-width"@[1] == 'w');
    assert("-height"@[0] == '-' && "-height"@[1] == 'h');
    assert("-x"@[0] == '-' && "-x"@[1] == 'x');
    assert("-y"@[0] == '-' && "-y"@[1] == 'y');
    assert("-borderless"@[0] == '-' && "-borderless"@[1] == 'b');
}

/// The window arguments can be read back: no free-form argument before the
/// flags (the project file, the window title and, in Proton mode, the
/// launcher path and executable name) is itself one of the flags.
pub open spec fn window_args_readable(s: LaunchSettings, project_json: Seq<char>) -> bool {
    &&& !is_window_flag(project_json)
    &&& !is_window_flag(s.play_in_window_title@)
    &&& proton_selected(s) ==> !is_window_flag(launcher_exe_of(s.wallpaper_exe@))
        && !is_window_flag(wallpaper_name_of(s.wallpaper_exe@))
}

proof fn lemma_value_at(args: Seq<Seq<char>>, flag: Seq<char>, j: int)
    requires
        0 <= j,
        j + 1 < args.len(),
        args[j] == flag,
        forall|m: int| 0 <= m < j ==> args[m] != flag,
    ensures
        value_after(args, flag) == Some(args[j + 1]),
{
    lemma_index_from_at(args, flag, 0, j);
}

/// A number's rendering is never one of the flags.
proof fn lemma_number_not_flag(n: int)
    ensures
        !is_window_flag(signed_decimal(n)),
{
    lemma_decimal_shape(n);
    reveal_strlit("-width");
    reveal_strlit("-height");
    reveal_strlit("-x");
    reveal_strlit("-y");
    reveal_strlit("-borderless");
    let d = signed_decimal(n);
    if n >= 0 {
        assert(d[0] != '-');
    } else {
        assert(is_digit(d[1]));
    }
}

/// In Proton mode, `STEAM_COMPAT_CLIENT_INSTALL_PATH` is the Steam root of
/// the Proton path alone (`derive_steam_root_from_path` of it): it is set
/// exactly when that root exists, to that root, wherever the wallpaper
/// executable lies.
pub proof fn law_client_install_path_is_protons_steam_root(
    s: LaunchSettings,
    ty: WallpaperType,
    project_json: Seq<char>,
    video_file: Option<Seq<char>>,
    cfg: AppConfig,
)
    requires
        built_config(s, ty, project_json, video_file, cfg),
        proton_selected(s),
    ensures
        cfg.wine.env@.contains_key("STEAM_COMPAT_CLIENT_INSTALL_PATH"@) <==> steam_root_of(
            s.proton_path->0@,
        ) is Some,
        steam_root_of(s.proton_path->0@) matches Some(root) ==> cfg.wine.env@[
            "STEAM_COMPAT_CLIENT_INSTALL_PATH"@] == root,
{
    reveal_strlit("STEAM_COMPAT_CLIENT_INSTALL_PATH");
    reveal_strlit("STEAM_COMPAT_DATA_PATH");
    assert("STEAM_COMPAT_CLIENT_INSTALL_PATH"@.len() != "STEAM_COMPAT_DATA_PATH"@.len());
}

/// Two Proton configurations built with the same Proton path agree on
/// `STEAM_COMPAT_CLIENT_INSTALL_PATH`, whatever their wallpaper executables
/// and other settings: the wallpaper's Steam library never decides it.
pub proof fn law_client_install_path_ignores_wallpaper_exe(
    s1: LaunchSettings,
    s2: LaunchSettings,
    ty1: WallpaperType,
    ty2: WallpaperType,
    project_json1: Seq<char>,
    project_json2: Seq<char>,
    video_file1: Option<Seq<char>>,
    video_file2: Option<Seq<char>>,
    cfg1: AppConfig,
    cfg2: AppConfig,
)
    requires
        built_config(s1, ty1, project_json1, video_file1, cfg1),
        built_config(s2, ty2, project_json2, video_file2, cfg2),
        proton_selected(s1),
        proton_selected(s2),
        s1.proton_path->0@ == s2.proton_path->0@,
    ensures
        cfg1.wine.env@.contains_key("STEAM_COMPAT_CLIENT_INSTALL_PATH"@)
            == cfg2.wine.env@.contains_key("STEAM_COMPAT_CLIENT_INSTALL_PATH"@),
        cfg1.wine.env@.contains_key("STEAM_COMPAT_CLIENT_INSTALL_PATH"@) ==> cfg1.wine.env@[
            "STEAM_COMPAT_CLIENT_INSTALL_PATH"@] == cfg2.wine.env@[
            "STEAM_COMPAT_CLIENT_INSTALL_PATH"@],
{
    law_client_install_path_is_protons_steam_root(s1, ty1, project_json1, video_file1, cfg1);
    law_client_install_path_is_protons_steam_root(s2, ty2, project_json2, video_file2, cfg2);
}

/// Settings survive being written into a runner configuration and read back
/// from it. The launcher, commands, display, capture, cgroup and path
/// settings always do; the window geometry does for scene, web and unknown
/// wallpapers whose free-form arguments are not flags, a zero width or
/// height coming back as 1.
pub proof fn law_launch_settings_read_back(
    s: LaunchSettings,
    ty: WallpaperType,
    project_json: Seq<char>,
    video_file: Option<Seq<char>>,
    cfg: AppConfig,
    back: LaunchSettings,
)
    requires
        built_config(s, ty, project_json, video_file, cfg),
        settings_of(cfg, back),
    ensures
        back.fps_limit == s.fps_limit,
        back.show_fps == s.show_fps,
        back.hide_debug_window == s.hide_debug_window,
        back.hidden_workspace_name@ == s.hidden_workspace_name@,
        back.disable_debug_window_input == s.disable_debug_window_input,
        back.isolation_mode == s.isolation_mode,
        back.isolation_command@ == s.isolation_command@,
        back.isolation_width == s.isolation_width,
        back.isolation_height == s.isolation_height,
        back.isolation_startup_timeout_secs == (if s.isolation_startup_timeout_secs >= 1 {
            s.isolation_startup_timeout_secs
        } else {
            1
        }),
        back.wm_class_contains@ == s.wm_class_contains@,
        back.play_in_window_title@ == s.play_in_window_title@,
        back.cgroup_enabled == s.cgroup_enabled,
        back.cgroup_mode == s.cgroup_mode,
        opt_view(back.cgroup_memory_max) == opt_view(s.cgroup_memory_max),
        opt_view(back.cgroup_cpu_max) == opt_view(s.cgroup_cpu_max),
        back.wallpaper_exe@ == s.wallpaper_exe@,
        back.workshop_path@ == s.workshop_path@,
        proton_selected(s) ==> back.launcher == WindowsLauncher::Proton && opt_view(
            back.proton_path,
        ) == opt_view(s.proton_path),
        !proton_selected(s) ==> back.launcher == WindowsLauncher::Wine && back.wine_command@
            == s.wine_command@ && back.proton_path is None,
        ty != WallpaperType::Video && window_args_readable(s, project_json) ==> {
            &&& back.width == at_least_one(s.width)
            &&& back.height == at_least_one(s.height)
            &&& back.x == s.x
            &&& back.y == s.y
            &&& back.borderless == s.borderless
        },
{
    if ty != WallpaperType::Video && window_args_readable(s, project_json) {
        lemma_window_args_shape(s, project_json);
        lemma_flags_distinct();
        let w = window_wallpaper_args(s, project_json);
        let pre: Seq<Seq<char>> = if proton_selected(s) {
            proton_prefix(s.wallpaper_exe@)
        } else {
            Seq::empty()
        };
        lemma_prefix_not_flags(s);
        let args = strs_view(cfg.wine.args@);
        assert(args == pre + w);
        let k = pre.len() as int;
        lemma_read_geometry(s, args, pre, w, k);
    }
}

proof fn lemma_flags_distinct()
    ensures
        "-width"@ != "-height"@,
        "-width"@ != "-x"@,
        "-width"@ != "-y"@,
        "-height"@ != "-x"@,
        "-height"@ != "-y"@,
        "-x"@ != "-y"@,
        "-width"@ != "-borderless"@,
        "-height"@ != "-borderless"@,
        "-x"@ != "-borderless"@,
        "-y"@ != "-borderless"@,
{
    reveal_strlit("-width");
    reveal_strlit("-height");
    reveal_strlit("-x");
    reveal_strlit("-y");
    reveal_strlit("-borderless");
    assert("-width"@[1] == 'w');
    assert("-height"@[1] == 'h');
    assert("-x"@[1] == 'x');
    assert("-y"@[1] == 'y');
    assert("-borderless"@[1] == 'b');
}

proof fn lemma_prefix_not_flags(s: LaunchSettings)
    requires
        proton_selected(s) ==> !is_window_flag(launcher_exe_of(s.wallpaper_exe@))
            && !is_window_flag(wallpaper_name_of(s.wallpaper_exe@)),
    ensures
        proton_selected(s) ==> forall|m: int|
            0 <= m < proton_prefix(s.wallpaper_exe@).len() ==> !is_window_flag(
                #[trigger] proton_prefix(s.wallpaper_exe@)[m],
            ),
{
    reveal_strlit("-width");
    reveal_strlit("-height");
    reveal_strlit("-x");
    reveal_strlit("-y");
    reveal_strlit("-borderless");
    reveal_strlit("run");
    reveal_strlit("-run");
    reveal_strlit("-nobrowse");
    lemma_not_flag_by_char("run"@, 0);
    lemma_not_flag_by_char("-run"@, 1);
    lemma_not_flag_by_char("-nobrowse"@, 1);
    if proton_selected(s) {
        let p = proton_prefix(s.wallpaper_exe@);
        assert forall|m: int| 0 <= m < p.len() implies !is_window_flag(#[trigger] p[m]) by {
            if m == 0 {
                assert(p[0] == "run"@);
            } else if m == 2 {
                assert(p[2] == "-run"@);
            } else if m == 4 {
                assert(p[4] == "-nobrowse"@);
            }
        }
    }
}

proof fn lemma_window_args_shape(s: LaunchSettings, project_json: Seq<char>)
    requires
        !is_window_flag(project_json),
        !is_window_flag(s.play_in_window_title@),
    ensures
        ({
            let w = window_wallpaper_args(s, project_json);
            &&& w.len() == (if s.borderless {
                15int
            } else {
                14int
            })
            &&& w[6] == "-width"@
            &&& w[7] == decimal(s.width as nat)
            &&& w[8] == "-height"@
            &&& w[9] == decimal(s.height as nat)
            &&& w[10] == "-x"@
            &&& w[11] == signed_decimal(s.x as int)
            &&& w[12] == "-y"@
            &&& w[13] == signed_decimal(s.y as int)
            &&& s.borderless ==> w[14] == "-borderless"@
            &&& forall|i: int|
                0 <= i < 14 && i != 6 && i != 8 && i != 10 && i != 12 ==> !is_window_flag(
                    #[trigger] w[i],
                )
        }),
{
    reveal_strlit("-control");
    reveal_strlit("openWallpaper");
    reveal_strlit("-file");
    reveal_strlit("-playInWindow");
    reveal_strlit("-width");
    reveal_strlit("-height");
    reveal_strlit("-x");
    reveal_strlit("-y");
    reveal_strlit("-borderless");
    lemma_number_not_flag(s.width as int);
    lemma_number_not_flag(s.height as int);
    lemma_number_not_flag(s.x as int);
    lemma_number_not_flag(s.y as int);
    assert(signed_decimal(s.width as int) == decimal(s.width as nat));
    assert(signed_decimal(s.height as int) == decimal(s.height as nat));
    lemma_not_flag_by_char("-control"@, 1);
    lemma_not_flag_by_char("openWallpaper"@, 0);
    lemma_not_flag_by_char("-file"@, 1);
    lemma_not_flag_by_char("-playInWindow"@, 1);
    let base = seq![
        "-control"@,
        "openWallpaper"@,
        "-file"@,
        project_json,
        "-playInWindow"@,
        s.play_in_window_title@,
        "-width"@,
        decimal(s.width as nat),
        "-height"@,
        decimal(s.height as nat),
        "-x"@,
        signed_decimal(s.x as int),
        "-y"@,
        signed_decimal(s.y as int),
    ];
    let tail = if s.borderless {
        seq!["-borderless"@]
    } else {
        Seq::<Seq<char>>::empty()
    };
    let w = window_wallpaper_args(s, project_json);
    assert(w == base + tail);
    assert(base.len() == 14);
    assert forall|i: int| 0 <= i < 14 implies #[trigger] w[i] == base[i] by {}
    if s.borderless {
        assert(w[14] == tail[0]);
    }
    assert forall|i: int|
        0 <= i < 14 && i != 6 && i != 8 && i != 10 && i != 12 implies !is_window_flag(
        #[trigger] w[i],
    ) by {
        assert(w[i] == base[i]);
    }
}

#[verifier::rlimit(40)]
proof fn lemma_read_geometry(
    s: LaunchSettings,
    args: Seq<Seq<char>>,
    pre: Seq<Seq<char>>,
    w: Seq<Seq<char>>,
    k: int,
)
    requires
        args == pre + w,
        k == pre.len(),
        forall|m: int| 0 <= m < pre.len() ==> !is_window_flag(#[trigger] pre[m]),
        w.len() == (if s.borderless {
            15int
        } else {
            14int
        }),
        w[6] == "-width"@,
        w[7] == decimal(s.width as nat),
        w[8] == "-height"@,
        w[9] == decimal(s.height as nat),
        w[10] == "-x"@,
        w[11] == signed_decimal(s.x as int),
        w[12] == "-y"@,
        w[13] == signed_decimal(s.y as int),
        s.borderless ==> w[14] == "-borderless"@,
        forall|i: int|
            0 <= i < 14 && i != 6 && i != 8 && i != 10 && i != 12 ==> !is_window_flag(
                #[trigger] w[i],
            ),
        "-width"@ != "-height"@,
        "-width"@ != "-x"@,
        "-width"@ != "-y"@,
        "-height"@ != "-x"@,
        "-height"@ != "-y"@,
        "-x"@ != "-y"@,
        "-width"@ != "-borderless"@,
        "-height"@ != "-borderless"@,
        "-x"@ != "-borderless"@,
        "-y"@ != "-borderless"@,
    ensures
        flag_u32(args, "-width"@, 2560) == at_least_one(s.width),
        flag_u32(args, "-height"@, 1600) == at_least_one(s.height),
        flag_i32(args, "-x"@) == s.x,
        flag_i32(args, "-y"@) == s.y,
        args.contains("-borderless"@) == s.borderless,
{
    assert forall|m: int| 0 <= m < k + 14 implies (#[trigger] args[m] == "-width"@ ==> m == k + 6)
        && (args[m] == "-height"@ ==> m == k + 8) && (args[m] == "-x"@ ==> m == k + 10) && (args[m]
        == "-y"@ ==> m == k + 12) && args[m] != "-borderless"@ by {
        if m < k {
            assert(args[m] == pre[m]);
        } else {
            assert(args[m] == w[m - k]);
        }
    }
    lemma_value_at(args, "-width"@, k + 6);
    lemma_parse_u32_decimal(s.width);
    lemma_value_at(args, "-height"@, k + 8);
    lemma_parse_u32_decimal(s.height);
    lemma_value_at(args, "-x"@, k + 10);
    lemma_parse_i32_decimal(s.x);
    lemma_value_at(args, "-y"@, k + 12);
    lemma_parse_i32_decimal(s.y);
    if s.borderless {
        assert(args[k + 14] == "-borderless"@);
    } else {
        assert(args.len() == k + 14);
    }
}

} // verus!
