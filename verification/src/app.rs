//! The runner's orchestration state: what it runs, which session it is in,
//! how the status report reads, and which configuration changes can be made
//! without restarting Wine.
use vstd::prelude::*;

use crate::arglist::{arg_value, has_arg, position_of, value_after, first_index};
use crate::config::{Config, RuntimeMode, RuntimeWallpaperType};
use crate::config::IsolationMode;
use crate::gnome::{backend_for, resolve_backend, RegisteredWindow, ResolvedBackend};
use crate::wm_visibility::DebugWindowVisibility;
use crate::text::{
    concat, copy_opt, debug_quoted, debug_text, decimal, is_blank, join_strs, joined, lit,
    opt_view, parse_u32, parse_u32_str, strs_view, trim, u32_to_decimal, u64_to_decimal,
};

verus! {

/// What kind of wallpaper runtime is active.
#[derive(Debug, Clone, Copy, PartialEq, Eq, Structural)]
pub enum RuntimeKind {
    Idle,
    Window,
    Video,
}

impl RuntimeKind {
    /// The name used in the status report.
    pub fn as_str(self) -> (s: &'static str)
        ensures
            s@ == kind_name(self),
    {
        match self {
            RuntimeKind::Idle => "idle",
            RuntimeKind::Window => "window",
            RuntimeKind::Video => "video",
        }
    }
}

/// The status-report name of a runtime kind.
pub open spec fn kind_name(k: RuntimeKind) -> Seq<char> {
    match k {
        RuntimeKind::Idle => "idle"@,
        RuntimeKind::Window => "window"@,
        RuntimeKind::Video => "video"@,
    }
}

/// Where the current session is in its life.
#[derive(Debug, Clone, Copy, PartialEq, Eq, Structural)]
pub enum RuntimePhase {
    Idle,
    Starting,
    AwaitingWindow,
    Running,
    Switching,
    Stopping,
    Failed,
}

/// The status-report name of a phase.
pub open spec fn phase_name(p: RuntimePhase) -> Seq<char> {
    match p {
        RuntimePhase::Idle => "idle"@,
        RuntimePhase::Starting => "starting"@,
        RuntimePhase::AwaitingWindow => "awaiting_window"@,
        RuntimePhase::Running => "running"@,
        RuntimePhase::Switching => "switching"@,
        RuntimePhase::Stopping => "stopping"@,
        RuntimePhase::Failed => "failed"@,
    }
}

impl RuntimePhase {
    /// The name used in the status report.
    pub fn as_str(self) -> (s: &'static str)
        ensures
            s@ == phase_name(self),
    {
        match self {
            RuntimePhase::Idle => "idle",
            RuntimePhase::Starting => "starting",
            RuntimePhase::AwaitingWindow => "awaiting_window",
            RuntimePhase::Running => "running",
            RuntimePhase::Switching => "switching",
            RuntimePhase::Stopping => "stopping",
            RuntimePhase::Failed => "failed",
        }
    }
}

/// The status-report name of a backend.
pub open spec fn backend_label(b: ResolvedBackend) -> Seq<char> {
    match b {
        ResolvedBackend::LayerShell => "layer_shell"@,
        ResolvedBackend::GnomeShell => "gnome_shell"@,
    }
}

/// The name of a backend in the status report.
pub fn backend_name(backend: ResolvedBackend) -> (s: &'static str)
    ensures
        s@ == backend_label(backend),
{
    match backend {
        ResolvedBackend::LayerShell => "layer_shell",
        ResolvedBackend::GnomeShell => "gnome_shell",
    }
}

/// The X11 window that the runtime shows.
#[derive(Debug, Clone)]
pub struct RuntimeTarget {
    pub xid: u32,
    pub pid: u32,
    pub title: String,
    pub wm_class: String,
}

impl RuntimeTarget {
    /// The target for a window registered with GNOME Shell.
    pub fn from_registered(value: &RegisteredWindow) -> (t: RuntimeTarget)
        ensures
            t.xid == value.xid,
            t.pid == value.pid,
            t.title@ == value.title@,
            t.wm_class@ == value.wm_class@,
    {
        RuntimeTarget {
            xid: value.xid,
            pid: value.pid,
            title: value.title.clone(),
            wm_class: value.wm_class.clone(),
        }
    }
}

/// What the configuration asks the runtime to be.
#[derive(Debug, Clone)]
pub struct DesiredRuntime {
    pub kind: RuntimeKind,
    pub video_file: Option<String>,
}

/// The configuration asks for native video.
pub open spec fn wants_video(cfg: Config) -> bool {
    cfg.runtime is Some && cfg.runtime->0.mode == RuntimeMode::VideoNative
}

/// `d` is what `cfg` asks for: native video with its file, or a window.
pub open spec fn desired_of(cfg: Config, d: DesiredRuntime) -> bool {
    if wants_video(cfg) {
        d.kind == RuntimeKind::Video && opt_view(d.video_file) == opt_view(cfg.runtime->0.video_file)
    } else {
        d.kind == RuntimeKind::Window && d.video_file is None
    }
}

impl DesiredRuntime {
    /// What a configuration asks for.
    pub fn from_config(cfg: &Config) -> (d: DesiredRuntime)
        ensures
            desired_of(*cfg, d),
    {
        match &cfg.runtime {
            Some(runtime) => if runtime.mode == RuntimeMode::VideoNative {
                DesiredRuntime { kind: RuntimeKind::Video, video_file: copy_opt(&runtime.video_file) }
            } else {
                DesiredRuntime { kind: RuntimeKind::Window, video_file: None }
            },
            None => DesiredRuntime { kind: RuntimeKind::Window, video_file: None },
        }
    }
}

/// The runner's state as the status report shows it. Every update but the
/// start of a session names the session it belongs to, and an update for
/// any session but the current one changes nothing.
#[derive(Debug, Clone)]
pub struct RuntimeState {
    pub backend: ResolvedBackend,
    pub kind: RuntimeKind,
    pub phase: RuntimePhase,
    pub generation: u64,
    pub target: Option<RuntimeTarget>,
    pub video_file: Option<String>,
    pub desired: DesiredRuntime,
    pub error: Option<String>,
}

impl RuntimeState {
    /// The state before any session, for a configuration in a session that
    /// is or is not GNOME.
    pub fn new(cfg: &Config, gnome_session: bool) -> (s: RuntimeState)
        ensures
            s.backend == backend_for(cfg.general.backend, gnome_session),
            s.kind == RuntimeKind::Idle,
            s.phase == RuntimePhase::Idle,
            s.generation == 0,
            s.target is None,
            s.video_file is None,
            desired_of(*cfg, s.desired),
            s.error is None,
    {
        RuntimeState {
            backend: resolve_backend(cfg, gnome_session),
            kind: RuntimeKind::Idle,
            phase: RuntimePhase::Idle,
            generation: 0,
            target: None,
            video_file: None,
            desired: DesiredRuntime::from_config(cfg),
            error: None,
        }
    }

    /// Starts a new session: the generation moves on (saturating), and the
    /// state is reset to a starting session for `cfg`. Returns the new
    /// generation.
    pub fn begin_session(&mut self, cfg: &Config, gnome_session: bool) -> (generation: u64)
        ensures
            generation == final(self).generation,
            final(self).generation == (if old(self).generation < u64::MAX {
                (old(self).generation + 1) as u64
            } else {
                u64::MAX
            }),
            final(self).backend == backend_for(cfg.general.backend, gnome_session),
            desired_of(*cfg, final(self).desired),
            final(self).kind == RuntimeKind::Idle,
            final(self).phase == RuntimePhase::Starting,
            final(self).target is None,
            final(self).video_file is None,
            final(self).error is None,
    {
        self.generation = if self.generation < u64::MAX {
            self.generation + 1
        } else {
            u64::MAX
        };
        self.backend = resolve_backend(cfg, gnome_session);
        self.desired = DesiredRuntime::from_config(cfg);
        self.kind = RuntimeKind::Idle;
        self.phase = RuntimePhase::Starting;
        self.target = None;
        self.video_file = None;
        self.error = None;
        self.generation
    }

    /// A switch to `cfg` has begun.
    pub fn begin_switch(&mut self, cfg: &Config, gnome_session: bool)
        ensures
            final(self).backend == backend_for(cfg.general.backend, gnome_session),
            desired_of(*cfg, final(self).desired),
            final(self).phase == RuntimePhase::Switching,
            final(self).error is None,
            final(self).kind == old(self).kind,
            final(self).generation == old(self).generation,
            final(self).target == old(self).target,
            final(self).video_file == old(self).video_file,
    {
        self.backend = resolve_backend(cfg, gnome_session);
        self.desired = DesiredRuntime::from_config(cfg);
        self.phase = RuntimePhase::Switching;
        self.error = None;
    }

    /// A switch to `cfg` was made without restarting Wine.
    pub fn finish_hot_switch(&mut self, cfg: &Config, gnome_session: bool)
        ensures
            final(self).backend == backend_for(cfg.general.backend, gnome_session),
            desired_of(*cfg, final(self).desired),
            final(self).kind == RuntimeKind::Window,
            final(self).phase == RuntimePhase::Running,
            final(self).video_file is None,
            final(self).error is None,
            final(self).generation == old(self).generation,
            final(self).target == old(self).target,
    {
        self.backend = resolve_backend(cfg, gnome_session);
        self.desired = DesiredRuntime::from_config(cfg);
        self.kind = RuntimeKind::Window;
        self.phase = RuntimePhase::Running;
        self.video_file = None;
        self.error = None;
    }

    /// Session `generation` waits for its window.
    pub fn mark_awaiting_window(&mut self, generation: u64)
        ensures
            generation != old(self).generation ==> *final(self) == *old(self),
            generation == old(self).generation ==> {
                &&& final(self).kind == RuntimeKind::Window
                &&& final(self).phase == RuntimePhase::AwaitingWindow
                &&& final(self).target is None
                &&& final(self).video_file is None
                &&& final(self).error is None
                &&& final(self).generation == old(self).generation
                &&& final(self).backend == old(self).backend
                &&& final(self).desired == old(self).desired
            },
    {
        if generation != self.generation {
            return ;
        }
        self.kind = RuntimeKind::Window;
        self.phase = RuntimePhase::AwaitingWindow;
        self.target = None;
        self.video_file = None;
        self.error = None;
    }

    /// Session `generation` shows a window.
    pub fn mark_running_window(&mut self, generation: u64, target: Option<RuntimeTarget>)
        ensures
            generation != old(self).generation ==> *final(self) == *old(self),
            generation == old(self).generation ==> {
                &&& final(self).kind == RuntimeKind::Window
                &&& final(self).phase == RuntimePhase::Running
                &&& final(self).target == target
                &&& final(self).video_file is None
                &&& final(self).error is None
                &&& final(self).generation == old(self).generation
                &&& final(self).backend == old(self).backend
                &&& final(self).desired == old(self).desired
            },
    {
        if generation != self.generation {
            return ;
        }
        self.kind = RuntimeKind::Window;
        self.phase = RuntimePhase::Running;
        self.target = target;
        self.video_file = None;
        self.error = None;
    }

    /// Session `generation` plays a video.
    pub fn mark_running_video(&mut self, generation: u64, video_file: String)
        ensures
            generation != old(self).generation ==> *final(self) == *old(self),
            generation == old(self).generation ==> {
                &&& final(self).kind == RuntimeKind::Video
                &&& final(self).phase == RuntimePhase::Running
                &&& final(self).target is None
                &&& final(self).video_file == Some(video_file)
                &&& final(self).error is None
                &&& final(self).generation == old(self).generation
                &&& final(self).backend == old(self).backend
                &&& final(self).desired == old(self).desired
            },
    {
        if generation != self.generation {
            return ;
        }
        self.kind = RuntimeKind::Video;
        self.phase = RuntimePhase::Running;
        self.target = None;
        self.video_file = Some(video_file);
        self.error = None;
    }

    /// Session `generation` is stopping.
    pub fn mark_stopping(&mut self, generation: u64)
        ensures
            generation != old(self).generation ==> *final(self) == *old(self),
            generation == old(self).generation ==> *final(self) == (RuntimeState {
                phase: RuntimePhase::Stopping,
                ..*old(self)
            }),
    {
        if generation != self.generation {
            return ;
        }
        self.phase = RuntimePhase::Stopping;
    }

    /// Session `generation` has ended.
    pub fn mark_idle(&mut self, generation: u64)
        ensures
            generation != old(self).generation ==> *final(self) == *old(self),
            generation == old(self).generation ==> {
                &&& final(self).kind == RuntimeKind::Idle
                &&& final(self).phase == RuntimePhase::Idle
                &&& final(self).target is None
                &&& final(self).video_file is None
                &&& final(self).error is None
                &&& final(self).generation == old(self).generation
                &&& final(self).backend == old(self).backend
                &&& final(self).desired == old(self).desired
            },
    {
        if generation != self.generation {
            return ;
        }
        self.kind = RuntimeKind::Idle;
        self.phase = RuntimePhase::Idle;
        self.target = None;
        self.video_file = None;
        self.error = None;
    }

    /// Session `generation` failed with `error`.
    pub fn fail(&mut self, generation: u64, error: String)
        ensures
            generation != old(self).generation ==> *final(self) == *old(self),
            generation == old(self).generation ==> *final(self) == (RuntimeState {
                phase: RuntimePhase::Failed,
                error: Some(error),
                ..*old(self)
            }),
    {
        if generation != self.generation {
            return ;
        }
        self.phase = RuntimePhase::Failed;
        self.error = Some(error);
    }

    /// The `[orchestrator]` block of the status report.
    pub fn render_status_toml(&self) -> (out: String)
        ensures
            out@ == joined(status_lines(*self), "\n"@),
    {
        let mut lines: Vec<String> = Vec::new();
        lines.push(lit("[orchestrator]"));
        lines.push(quoted_line("backend = \"", backend_name(self.backend)));
        lines.push(quoted_line("kind = \"", self.kind.as_str()));
        lines.push(quoted_line("phase = \"", self.phase.as_str()));
        let g = u64_to_decimal(self.generation);
        lines.push(concat("generation = ", g.as_str()));
        lines.push(quoted_line("desired_kind = \"", self.desired.kind.as_str()));
        let ghost head = strs_view(lines@);
        assert(head =~= seq![
            "[orchestrator]"@,
            "backend = \""@ + backend_label(self.backend) + "\""@,
            "kind = \""@ + kind_name(self.kind) + "\""@,
            "phase = \""@ + phase_name(self.phase) + "\""@,
            "generation = "@ + decimal(self.generation as nat),
            "desired_kind = \""@ + kind_name(self.desired.kind) + "\""@,
        ]);
        if let Some(video_file) = &self.desired.video_file {
            let q = debug_quoted(video_file.as_str());
            lines.push(concat("desired_video_file = ", q.as_str()));
        }
        let ghost l2 = strs_view(lines@);
        assert(l2 =~= head + desired_video_line(*self));
        if let Some(video_file) = &self.video_file {
            let q = debug_quoted(video_file.as_str());
            lines.push(concat("video_file = ", q.as_str()));
        }
        let ghost l3 = strs_view(lines@);
        assert(l3 =~= l2 + video_line(*self));
        if let Some(target) = &self.target {
            let x = u32_to_decimal(target.xid);
            lines.push(concat("target_xid = ", x.as_str()));
            let p = u32_to_decimal(target.pid);
            lines.push(concat("target_pid = ", p.as_str()));
            let t = debug_quoted(target.title.as_str());
            lines.push(concat("target_title = ", t.as_str()));
            let c = debug_quoted(target.wm_class.as_str());
            lines.push(concat("target_wm_class = ", c.as_str()));
        }
        let ghost l4 = strs_view(lines@);
        assert(l4 =~= l3 + target_lines(*self));
        if let Some(error) = &self.error {
            let q = debug_quoted(error.as_str());
            lines.push(concat("error = ", q.as_str()));
        }
        assert(strs_view(lines@) =~= l4 + error_line(*self));
        join_strs(&lines, "\n")
    }
}

/// `prefix`, a name, and a closing quote.
fn quoted_line(prefix: &str, name: &str) -> (out: String)
    ensures
        out@ == prefix@ + name@ + "\""@,
{
    let a = concat(prefix, name);
    concat(a.as_str(), "\"")
}

/// The `desired_video_file` line, when the desired runtime has a file.
pub open spec fn desired_video_line(s: RuntimeState) -> Seq<Seq<char>> {
    match s.desired.video_file {
        Some(v) => seq!["desired_video_file = "@ + debug_text(v@)],
        None => Seq::empty(),
    }
}

/// The `video_file` line, when a video plays.
pub open spec fn video_line(s: RuntimeState) -> Seq<Seq<char>> {
    match s.video_file {
        Some(v) => seq!["video_file = "@ + debug_text(v@)],
        None => Seq::empty(),
    }
}

/// The `target_*` lines, when a window is shown.
pub open spec fn target_lines(s: RuntimeState) -> Seq<Seq<char>> {
    match s.target {
        Some(t) => seq![
            "target_xid = "@ + decimal(t.xid as nat),
            "target_pid = "@ + decimal(t.pid as nat),
            "target_title = "@ + debug_text(t.title@),
            "target_wm_class = "@ + debug_text(t.wm_class@),
        ],
        None => Seq::empty(),
    }
}

/// The `error` line, when the session failed.
pub open spec fn error_line(s: RuntimeState) -> Seq<Seq<char>> {
    match s.error {
        Some(e) => seq!["error = "@ + debug_text(e@)],
        None => Seq::empty(),
    }
}

/// The lines of the `[orchestrator]` status block.
pub open spec fn status_lines(s: RuntimeState) -> Seq<Seq<char>> {
    seq![
        "[orchestrator]"@,
        "backend = \""@ + backend_label(s.backend) + "\""@,
        "kind = \""@ + kind_name(s.kind) + "\""@,
        "phase = \""@ + phase_name(s.phase) + "\""@,
        "generation = "@ + decimal(s.generation as nat),
        "desired_kind = \""@ + kind_name(s.desired.kind) + "\""@,
    ] + desired_video_line(s) + video_line(s) + target_lines(s) + error_line(s)
}

// ---------------------------------------------------------------------------
// Deriving the runtime configuration
// ---------------------------------------------------------------------------
/// The window title named after `-playInWindow`, when it is not blank.
pub open spec fn play_in_window_hint(args: Seq<Seq<char>>) -> Option<Seq<char>> {
    match value_after(args, "-playInWindow"@) {
        Some(v) => if trim(v).len() > 0 {
            Some(v)
        } else {
            None
        },
        None => None,
    }
}

/// The window title that the Wine arguments ask Wallpaper Engine to use.
pub fn extract_play_in_window_hint(args: &Vec<String>) -> (r: Option<String>)
    ensures
        opt_view(r) == play_in_window_hint(strs_view(args@)),
{
    match arg_value(args, "-playInWindow") {
        Some(v) => if is_blank(v.as_str()) {
            None
        } else {
            Some(v)
        },
        None => None,
    }
}

/// The arguments after replacing the value of a numeric `flag` by
/// `replacement`, and the change made: nothing when the flag, its value or a
/// valid number is missing, or when the value already equals `replacement`.
pub open spec fn numeric_replacement(args: Seq<Seq<char>>, flag: Seq<char>, replacement: u32) -> Option<(int, u32)> {
    match first_index(args, flag) {
        Some(i) => if i + 1 < args.len() {
            match parse_u32(args[i + 1]) {
                Some(v) => if v != replacement {
                    Some((i + 1, v))
                } else {
                    None
                },
                None => None,
            }
        } else {
            None
        },
        None => None,
    }
}

/// Replaces the value of a numeric flag; returns the old and new values
/// when something changed.
pub fn replace_numeric_wine_arg(args: &mut Vec<String>, flag: &str, replacement: u32) -> (r: Option<(u32, u32)>)
    ensures
        match numeric_replacement(strs_view(old(args)@), flag@, replacement) {
            Some((slot, before)) => {
                &&& r == Some((before, replacement))
                &&& strs_view(final(args)@) == strs_view(old(args)@).update(slot, decimal(replacement as nat))
            },
            None => r is None && strs_view(final(args)@) == strs_view(old(args)@),
        },
{
    let index = match position_of(args, flag) {
        Some(i) => i,
        None => return None,
    };
    proof {
        crate::arglist::lemma_index_from(strs_view(args@), flag@, 0);
    }
    if index >= args.len() - 1 {
        return None;
    }
    let value = match parse_u32_str(args[index + 1].as_str()) {
        Some(v) => v,
        None => return None,
    };
    if replacement == value {
        return None;
    }
    let ghost before = args@;
    args.set(index + 1, u32_to_decimal(replacement));
    assert(strs_view(args@) =~= strs_view(before).update(index + 1, decimal(replacement as nat)));
    Some((value, replacement))
}

/// The Wine arguments open a wallpaper in a window, so the XWayland root
/// size applies.
pub fn needs_root_size(cfg: &Config) -> (r: bool)
    ensures
        r == strs_view(cfg.wine.args@).contains("-playInWindow"@),
{
    has_arg(&cfg.wine.args, "-playInWindow")
}

/// Sets `-width` and `-height` to the XWayland root size (when the
/// arguments open a window and the size is known); returns the width and
/// height changes that were made.
pub fn apply_xwayland_root_size(cfg: &mut Config, root_size: Option<(u32, u32)>) -> (changes: (Option<(u32, u32)>, Option<(u32, u32)>))
    ensures
        final(cfg).general == old(cfg).general,
        final(cfg).isolation == old(cfg).isolation,
        final(cfg).capture == old(cfg).capture,
        final(cfg).runtime == old(cfg).runtime,
        final(cfg).cgroup == old(cfg).cgroup,
        final(cfg).gnome == old(cfg).gnome,
        final(cfg).wine.command == old(cfg).wine.command,
        final(cfg).wine.command_mode == old(cfg).wine.command_mode,
        final(cfg).wine.wallpaper_exe == old(cfg).wine.wallpaper_exe,
        final(cfg).wine.env == old(cfg).wine.env,
        strs_view(final(cfg).wine.args@) == root_size_args(strs_view(old(cfg).wine.args@), root_size),
{
    if !has_arg(&cfg.wine.args, "-playInWindow") {
        return (None, None);
    }
    let (w, h) = match root_size {
        Some(size) => size,
        None => return (None, None),
    };
    let ghost a0 = strs_view(cfg.wine.args@);
    let wc = replace_numeric_wine_arg(&mut cfg.wine.args, "-width", w);
    let ghost a1 = strs_view(cfg.wine.args@);
    assert(a1 == with_numeric(a0, "-width"@, w));
    let hc = replace_numeric_wine_arg(&mut cfg.wine.args, "-height", h);
    (wc, hc)
}

/// `args` with the numeric `flag` set to `value` (see `numeric_replacement`).
pub open spec fn with_numeric(args: Seq<Seq<char>>, flag: Seq<char>, value: u32) -> Seq<Seq<char>> {
    match numeric_replacement(args, flag, value) {
        Some((slot, _)) => args.update(slot, decimal(value as nat)),
        None => args,
    }
}

/// The Wine arguments once the XWayland root size is applied.
pub open spec fn root_size_args(args: Seq<Seq<char>>, root_size: Option<(u32, u32)>) -> Seq<Seq<char>> {
    match root_size {
        Some((w, h)) => if args.contains("-playInWindow"@) {
            with_numeric(with_numeric(args, "-width"@, w), "-height"@, h)
        } else {
            args
        },
        None => args,
    }
}

/// The configuration that a session runs with: the capture title taken from
/// `-playInWindow` when none is configured, and the window size set to the
/// XWayland root size when the arguments open a window.
pub fn effective_runtime_config(cfg: Config, root_size: Option<(u32, u32)>) -> (out: Config)
    ensures
        out.general == cfg.general,
        out.isolation == cfg.isolation,
        out.runtime == cfg.runtime,
        out.cgroup == cfg.cgroup,
        out.gnome == cfg.gnome,
        out.wine.command == cfg.wine.command,
        out.wine.command_mode == cfg.wine.command_mode,
        out.wine.wallpaper_exe == cfg.wine.wallpaper_exe,
        out.wine.env == cfg.wine.env,
        strs_view(out.wine.args@) == root_size_args(strs_view(cfg.wine.args@), root_size),
        out.capture.wm_class_contains == cfg.capture.wm_class_contains,
        out.capture.net_wm_pid == cfg.capture.net_wm_pid,
        out.capture.debug_save_frame_png == cfg.capture.debug_save_frame_png,
        out.capture.output_window_map == cfg.capture.output_window_map,
        opt_view(out.capture.title_contains) == (match cfg.capture.title_contains {
            Some(t) => Some(t@),
            None => play_in_window_hint(strs_view(cfg.wine.args@)),
        }),
{
    let mut runtime_cfg = cfg;
    if runtime_cfg.capture.title_contains.is_none() {
        if let Some(title_hint) = extract_play_in_window_hint(&runtime_cfg.wine.args) {
            runtime_cfg.capture.title_contains = Some(title_hint);
        }
    }
    let _ = apply_xwayland_root_size(&mut runtime_cfg, root_size);
    runtime_cfg
}

// ---------------------------------------------------------------------------
// Hot switching and video
// ---------------------------------------------------------------------------
/// Why a configuration cannot be switched to without restarting Wine.
#[derive(Debug, Clone, Copy, PartialEq, Eq, Structural)]
pub enum SwitchError {
    MissingRuntime,
    NotWindowWallpaper,
}

impl SwitchError {
    /// The message shown for this error.
    pub fn message(&self) -> (s: &'static str)
        ensures
            *self == SwitchError::MissingRuntime ==> s@ == "runtime block is required for wallpaper switching"@,
            *self == SwitchError::NotWindowWallpaper ==> s@ == "only scene/web wallpapers can be switched without restarting Wine"@,
    {
        match self {
            SwitchError::MissingRuntime => "runtime block is required for wallpaper switching",
            SwitchError::NotWindowWallpaper => "only scene/web wallpapers can be switched without restarting Wine",
        }
    }
}

/// A configuration runs a scene or web wallpaper in Wine.
pub open spec fn switchable(cfg: Config) -> bool {
    &&& cfg.runtime is Some
    &&& cfg.runtime->0.mode == RuntimeMode::WineLayerd
    &&& (cfg.runtime->0.wallpaper_type == RuntimeWallpaperType::Scene || cfg.runtime->0.wallpaper_type == RuntimeWallpaperType::Web)
}

/// Checks that a configuration runs a scene or web wallpaper in Wine.
pub fn ensure_switchable_runtime(cfg: &Config) -> (r: Result<(), SwitchError>)
    ensures
        r is Ok <==> switchable(*cfg),
        cfg.runtime is None ==> r == Err::<(), SwitchError>(SwitchError::MissingRuntime),
        cfg.runtime is Some && !switchable(*cfg) ==> r == Err::<(), SwitchError>(SwitchError::NotWindowWallpaper),
{
    let runtime = match &cfg.runtime {
        Some(r) => r,
        None => return Err(SwitchError::MissingRuntime),
    };
    if runtime.mode != RuntimeMode::WineLayerd {
        return Err(SwitchError::NotWindowWallpaper);
    }
    if !(runtime.wallpaper_type == RuntimeWallpaperType::Scene || runtime.wallpaper_type == RuntimeWallpaperType::Web) {
        return Err(SwitchError::NotWindowWallpaper);
    }
    Ok(())
}

/// The running wallpaper can be replaced by the next one in place: both are
/// scene or web wallpapers running in Wine.
pub open spec fn hot_switch_between(current_cfg: Config, next_cfg: Config) -> bool {
    switchable(current_cfg) && switchable(next_cfg)
}

/// Whether the running wallpaper can be replaced by the next one by sending
/// Wallpaper Engine a new `openWallpaper` command: both must be scene or web
/// wallpapers running in Wine.
pub fn can_hot_switch_between(current_cfg: &Config, next_cfg: &Config) -> (r: bool)
    ensures
        r == hot_switch_between(*current_cfg, *next_cfg),
{
    ensure_switchable_runtime(current_cfg).is_ok() && ensure_switchable_runtime(next_cfg).is_ok()
}

/// Hot switching runs between window runtimes only: it goes both ways and
/// chains; a configuration can switch to itself exactly when its wallpaper
/// can be switched in place at all; and no configuration without a runtime
/// block, with a video runtime or with a video or unknown wallpaper takes
/// part in one.
pub proof fn law_hot_switch_between_window_runtimes(a: Config, b: Config, c: Config)
    ensures
        hot_switch_between(a, b) == hot_switch_between(b, a),
        hot_switch_between(a, b) && hot_switch_between(b, c) ==> hot_switch_between(a, c),
        hot_switch_between(a, a) == switchable(a),
        a.runtime is None ==> !hot_switch_between(a, b) && !hot_switch_between(b, a),
        a.runtime is Some && a.runtime->0.mode == RuntimeMode::VideoNative ==> !hot_switch_between(a, b)
            && !hot_switch_between(b, a),
        a.runtime is Some && (a.runtime->0.wallpaper_type == RuntimeWallpaperType::Video
            || a.runtime->0.wallpaper_type == RuntimeWallpaperType::Unknown) ==> !hot_switch_between(
            a,
            b,
        ) && !hot_switch_between(b, a),
{
}

/// The video to play in native video mode: the configured file, when it is
/// not blank.
pub fn video_to_play(video_file: &Option<String>) -> (r: Option<String>)
    ensures
        opt_view(r) == (match video_file {
            Some(v) => if trim(v@).len() > 0 {
                Some(v@)
            } else {
                None
            },
            None => None,
        }),
{
    match video_file {
        Some(v) => if is_blank(v.as_str()) {
            None
        } else {
            Some(v.clone())
        },
        None => None,
    }
}

// ---------------------------------------------------------------------------
// Sessions
// ---------------------------------------------------------------------------
/// What a runtime session runs.
#[derive(Debug, Clone, PartialEq, Eq)]
pub enum SessionPlan {
    /// Play a video through the GNOME Shell extension.
    VideoGnome { video_file: String },
    /// Play a video on the layer-shell surface.
    VideoLayer { video_file: String },
    /// Run Wallpaper Engine's window, shown through the GNOME Shell
    /// extension (`gnome`) or the layer-shell surface.
    Window { gnome: bool },
}

/// Why a session cannot start.
#[derive(Debug, Clone, Copy, PartialEq, Eq, Structural)]
pub enum SessionError {
    /// Native video mode without a video file.
    MissingVideoFile,
}

impl SessionError {
    /// The message reported for the error.
    pub fn message(&self) -> (s: &'static str)
        ensures
            s@ == "runtime.video_file is required when runtime.mode=video_native"@,
    {
        "runtime.video_file is required when runtime.mode=video_native"
    }
}

/// The session a runtime configuration calls for: native video mode plays
/// its (non-blank) video file through the resolved backend and fails
/// without one; anything else runs Wallpaper Engine's window.
pub open spec fn session_of(cfg: Config, gnome_session: bool, r: Result<SessionPlan, SessionError>) -> bool {
    let gnome = backend_for(cfg.general.backend, gnome_session) == ResolvedBackend::GnomeShell;
    if cfg.runtime is Some && cfg.runtime->0.mode == RuntimeMode::VideoNative {
        match cfg.runtime->0.video_file {
            Some(v) => if trim(v@).len() > 0 {
                if gnome {
                    r matches Ok(SessionPlan::VideoGnome { video_file }) && video_file@ == v@
                } else {
                    r matches Ok(SessionPlan::VideoLayer { video_file }) && video_file@ == v@
                }
            } else {
                r == Err::<SessionPlan, SessionError>(SessionError::MissingVideoFile)
            },
            None => r == Err::<SessionPlan, SessionError>(SessionError::MissingVideoFile),
        }
    } else {
        r == Ok::<SessionPlan, SessionError>(SessionPlan::Window { gnome })
    }
}

/// Decides what a runtime session runs.
pub fn session_plan(cfg: &Config, gnome_session: bool) -> (r: Result<SessionPlan, SessionError>)
    ensures
        session_of(*cfg, gnome_session, r),
{
    let gnome = resolve_backend(cfg, gnome_session) == ResolvedBackend::GnomeShell;
    if let Some(runtime) = &cfg.runtime {
        if runtime.mode == RuntimeMode::VideoNative {
            return match video_to_play(&runtime.video_file) {
                Some(video_file) => if gnome {
                    Ok(SessionPlan::VideoGnome { video_file })
                } else {
                    Ok(SessionPlan::VideoLayer { video_file })
                },
                None => Err(SessionError::MissingVideoFile),
            };
        }
    }
    Ok(SessionPlan::Window { gnome })
}

/// What a `switch-config` request does.
#[derive(Debug, Clone, Copy, PartialEq, Eq, Structural)]
pub enum SwitchPlan {
    /// Tell the running Wallpaper Engine to open the new wallpaper.
    HotSwitch,
    /// Restart the runtime with the new configuration.
    Reconfigure,
}

/// A switch is made in place when both the running and the requested
/// runtime configurations run a scene or web wallpaper in Wine; otherwise
/// the runtime restarts.
pub fn switch_plan(current_runtime: &Config, next_runtime: &Config) -> (p: SwitchPlan)
    ensures
        p == (if hot_switch_between(*current_runtime, *next_runtime) {
            SwitchPlan::HotSwitch
        } else {
            SwitchPlan::Reconfigure
        }),
{
    if can_hot_switch_between(current_runtime, next_runtime) {
        SwitchPlan::HotSwitch
    } else {
        SwitchPlan::Reconfigure
    }
}

/// The debug window is hidden on its own only when asked to and no
/// isolated display hides it already.
pub fn should_auto_hide(visibility: &DebugWindowVisibility, cfg: &Config) -> (r: bool)
    ensures
        r == (visibility.auto_hide && cfg.isolation.mode == IsolationMode::Off),
{
    visibility.auto_hide && cfg.isolation.mode == IsolationMode::Off
}

/// The advice given when the X11 display cannot be used: about the
/// authentication cookie when the error says the key is wrong, else about
/// the display settings in general.
pub open spec fn x11_hint_of(error_text: Seq<char>) -> Seq<char> {
    if crate::text::contains(crate::text::ascii_lower(error_text), "invalid mit-magic-cookie-1 key"@) {
        "X11 authentication failed. Start we-layerd from the same graphical user session as XWayland, or export the matching X11 cookie file via XAUTHORITY before launching."@
    } else {
        "X11 setup failed. Check DISPLAY, XAUTHORITY, and whether this process can access the active XWayland/X11 session."@
    }
}

/// The message added to an X11 access error: the advice, then the values
/// of `DISPLAY` and `XAUTHORITY` (`<unset>` where unset).
pub open spec fn x11_access_text(error_text: Seq<char>, display: Option<Seq<char>>, xauthority: Option<Seq<char>>) -> Seq<char> {
    x11_hint_of(error_text) + " DISPLAY="@ + (match display {
        Some(d) => d,
        None => "<unset>"@,
    }) + " XAUTHORITY="@ + (match xauthority {
        Some(x) => x,
        None => "<unset>"@,
    })
}

/// The message added to an X11 access error.
pub fn x11_access_message(error_text: &str, display: &Option<String>, xauthority: &Option<String>) -> (m:
    String)
    ensures
        m@ == x11_access_text(error_text@, opt_view(*display), opt_view(*xauthority)),
{
    let lower = crate::text::to_ascii_lower(error_text);
    let hint = if crate::text::contains_str(lower.as_str(), "invalid mit-magic-cookie-1 key") {
        "X11 authentication failed. Start we-layerd from the same graphical user session as XWayland, or export the matching X11 cookie file via XAUTHORITY before launching."
    } else {
        "X11 setup failed. Check DISPLAY, XAUTHORITY, and whether this process can access the active XWayland/X11 session."
    };
    let m = concat(hint, " DISPLAY=");
    let m = match display {
        Some(d) => concat(m.as_str(), d.as_str()),
        None => concat(m.as_str(), "<unset>"),
    };
    let m = concat(m.as_str(), " XAUTHORITY=");
    match xauthority {
        Some(x) => concat(m.as_str(), x.as_str()),
        None => concat(m.as_str(), "<unset>"),
    }
}

} // verus!
