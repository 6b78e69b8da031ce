//! The GNOME Shell backend: when it is used and what window it is told about.
use vstd::prelude::*;

use crate::config::{Backend, Config};
use crate::ipc::{ControlCommand, RuntimeLoopExit};
use crate::text::{ascii_lower, contains, contains_str, opt_view, strs_view, to_ascii_lower};
use crate::x11::window_finder::WindowFinderResult;

verus! {

/// The window registered with the GNOME Shell extension.
#[derive(Debug, Clone)]
pub struct RegisteredWindow {
    pub xid: u32,
    pub pid: u32,
    pub title: String,
    pub wm_class: String,
}

/// The backend in use once `auto` is decided.
#[derive(Debug, Clone, Copy, PartialEq, Eq, Structural)]
pub enum ResolvedBackend {
    LayerShell,
    GnomeShell,
}

/// The backend for a configuration in a session that is or is not GNOME.
pub open spec fn backend_for(backend: Backend, gnome_session: bool) -> ResolvedBackend {
    match backend {
        Backend::LayerShell => ResolvedBackend::LayerShell,
        Backend::GnomeShell => ResolvedBackend::GnomeShell,
        Backend::Auto => if gnome_session {
            ResolvedBackend::GnomeShell
        } else {
            ResolvedBackend::LayerShell
        },
    }
}

/// Resolves the configured backend: `auto` means GNOME Shell in a GNOME
/// session and layer shell elsewhere.
pub fn resolve_backend(cfg: &Config, gnome_session: bool) -> (b: ResolvedBackend)
    ensures
        b == backend_for(cfg.general.backend, gnome_session),
{
    match cfg.general.backend {
        Backend::LayerShell => ResolvedBackend::LayerShell,
        Backend::GnomeShell => ResolvedBackend::GnomeShell,
        Backend::Auto => if gnome_session {
            ResolvedBackend::GnomeShell
        } else {
            ResolvedBackend::LayerShell
        },
    }
}

/// Some desktop name mentions GNOME, whatever its case.
pub open spec fn names_gnome(desktops: Seq<Seq<char>>) -> bool {
    exists|i: int| 0 <= i < desktops.len() && contains(ascii_lower(desktops[i]), "gnome"@)
}

/// Whether any of the given desktop names mentions GNOME, whatever its case.
pub fn is_gnome_session_from(desktops: &Vec<String>) -> (r: bool)
    ensures
        r == names_gnome(strs_view(desktops@)),
{
    let mut i: usize = 0;
    while i < desktops.len()
        invariant
            i <= desktops.len(),
            forall|j: int| 0 <= j < i ==> !contains(ascii_lower(#[trigger] strs_view(desktops@)[j]), "gnome"@),
        decreases desktops.len() - i,
    {
        let lower = to_ascii_lower(desktops[i].as_str());
        if contains_str(lower.as_str(), "gnome") {
            assert(strs_view(desktops@)[i as int] == desktops@[i as int]@);
            return true;
        }
        i += 1;
    }
    false
}

/// The desktop that `XDG_CURRENT_DESKTOP` names is GNOME, whatever its case.
pub open spec fn gnome_desktop(current_desktop: Option<Seq<char>>) -> bool {
    match current_desktop {
        Some(d) => contains(ascii_lower(d), "gnome"@),
        None => false,
    }
}

/// Whether the session counts as GNOME for the `auto` backend, given the
/// values of `XDG_CURRENT_DESKTOP`, `XDG_SESSION_DESKTOP` and
/// `DESKTOP_SESSION` that are set. As the configuration documents it, only
/// `XDG_CURRENT_DESKTOP` decides; the other two do not count.
pub fn is_gnome_session_env(
    current_desktop: &Option<String>,
    session_desktop: &Option<String>,
    desktop_session: &Option<String>,
) -> (r: bool)
    ensures
        r == gnome_desktop(opt_view(*current_desktop)),
{
    let _ = (session_desktop, desktop_session);
    match current_desktop {
        Some(d) => {
            let lower = to_ascii_lower(d.as_str());
            contains_str(lower.as_str(), "gnome")
        },
        None => false,
    }
}

/// The `auto` backend is GNOME Shell exactly when `XDG_CURRENT_DESKTOP`
/// names GNOME (whatever `XDG_SESSION_DESKTOP` and `DESKTOP_SESSION` say);
/// a fixed backend is used as configured.
pub proof fn law_auto_backend_follows_current_desktop(
    backend: Backend,
    current_desktop: Option<Seq<char>>,
)
    ensures
        backend == Backend::LayerShell ==> backend_for(backend, gnome_desktop(current_desktop))
            == ResolvedBackend::LayerShell,
        backend == Backend::GnomeShell ==> backend_for(backend, gnome_desktop(current_desktop))
            == ResolvedBackend::GnomeShell,
        backend == Backend::Auto ==> (backend_for(backend, gnome_desktop(current_desktop))
            == ResolvedBackend::GnomeShell <==> (current_desktop is Some && contains(
            ascii_lower(current_desktop->0),
            "gnome"@,
        ))),
        backend == Backend::Auto && !gnome_desktop(current_desktop) ==> backend_for(
            backend,
            gnome_desktop(current_desktop),
        ) == ResolvedBackend::LayerShell,
{
}

/// The registration for a found window (a missing pid becomes 0).
pub fn window_from_found(found: &WindowFinderResult) -> (w: RegisteredWindow)
    ensures
        w.xid == found.window,
        w.pid == (match found.metadata.pid {
            Some(p) => p,
            None => 0,
        }),
        w.title@ == found.metadata.title@,
        w.wm_class@ == found.metadata.wm_class@,
{
    RegisteredWindow {
        xid: found.window,
        pid: match found.metadata.pid {
            Some(p) => p,
            None => 0,
        },
        title: found.metadata.title.clone(),
        wm_class: found.metadata.wm_class.clone(),
    }
}

/// Two registrations name the same window with the same details.
pub fn same_window(a: &RegisteredWindow, b: &RegisteredWindow) -> (r: bool)
    ensures
        r == (a.xid == b.xid && a.pid == b.pid && a.title@ == b.title@ && a.wm_class@
            == b.wm_class@),
{
    a.xid == b.xid && a.pid == b.pid && crate::text::str_eq(a.title.as_str(), b.title.as_str())
        && crate::text::str_eq(a.wm_class.as_str(), b.wm_class.as_str())
}

/// The extension is probed only in a GNOME session; the probe is given the
/// extension's D-Bus name and answers its version or why it failed.
pub open spec fn doctor_outcome<P: Fn(String) -> Result<String, String>>(
    probe: P,
    bus_name: Seq<char>,
    gnome_session: bool,
    r: Result<Option<String>, String>,
) -> bool {
    if !gnome_session {
        r == Ok::<Option<String>, String>(None)
    } else {
        exists|s: String, answer: Result<String, String>|
            s@ == bus_name && call_ensures(probe, (s,), answer) && match answer {
                Ok(v) => r == Ok::<Option<String>, String>(Some(v)),
                Err(e) => r == Err::<Option<String>, String>(e),
            }
    }
}

/// Checks the GNOME Shell extension: outside a GNOME session there is
/// nothing to check; inside one the extension is pinged over D-Bus and its
/// version is returned.
pub fn doctor<P: Fn(String) -> Result<String, String>>(cfg: &Config, gnome_session: bool, ping: P) -> (r:
    Result<Option<String>, String>)
    requires
        forall|s: String| call_requires(ping, (s,)),
    ensures
        doctor_outcome(ping, cfg.gnome.extension_dbus_name@, gnome_session, r),
{
    if !gnome_session {
        return Ok(None);
    }
    let name = crate::text::lit(cfg.gnome.extension_dbus_name.as_str());
    let ghost arg = name;
    let answer = ping(name);
    proof {
        assert(call_ensures(ping, (arg,), answer));
    }
    match answer {
        Ok(v) => Ok(Some(v)),
        Err(e) => Err(e),
    }
}

/// What the control channel gave on one poll.
#[derive(Debug, Clone, Copy, PartialEq, Eq, Structural)]
pub enum ControlEvent {
    Command(ControlCommand),
    Empty,
    Disconnected,
}

/// How a control event ends a running session, where it does: `stop`, or
/// the daemon's side of the channel going away, stops the daemon;
/// `reconfigure` (a switch that cannot happen in place) restarts it with
/// the new configuration; anything else leaves the session running.
pub fn session_end(ev: ControlEvent) -> (r: Option<RuntimeLoopExit>)
    ensures
        r == match ev {
            ControlEvent::Command(ControlCommand::Stop) => Some(RuntimeLoopExit::Stop),
            ControlEvent::Command(ControlCommand::Reconfigure) => Some(RuntimeLoopExit::Reconfigure),
            ControlEvent::Disconnected => Some(RuntimeLoopExit::Stop),
            _ => None::<RuntimeLoopExit>,
        },
{
    match ev {
        ControlEvent::Command(ControlCommand::Stop) => Some(RuntimeLoopExit::Stop),
        ControlEvent::Command(ControlCommand::Reconfigure) => Some(RuntimeLoopExit::Reconfigure),
        ControlEvent::Disconnected => Some(RuntimeLoopExit::Stop),
        _ => None,
    }
}

/// What the video bridge does next.
#[derive(Debug, Clone, Copy, PartialEq, Eq, Structural)]
pub enum VideoBridgeStep {
    /// Stop the video and leave the loop.
    Exit,
    PauseVideo,
    ResumeVideo,
    /// Start the video again.
    RestartVideo,
    /// Nothing to do; poll again.
    Continue,
    /// Nothing came; wait 200 ms before polling again.
    Wait,
}

/// The video bridge's answer to a control event.
pub open spec fn video_step_for(ev: ControlEvent) -> VideoBridgeStep {
    match ev {
        ControlEvent::Command(ControlCommand::Stop) => VideoBridgeStep::Exit,
        ControlEvent::Command(ControlCommand::Pause) => VideoBridgeStep::PauseVideo,
        ControlEvent::Command(ControlCommand::Resume) => VideoBridgeStep::ResumeVideo,
        ControlEvent::Command(ControlCommand::Reload) => VideoBridgeStep::RestartVideo,
        ControlEvent::Command(_) => VideoBridgeStep::Continue,
        ControlEvent::Empty => VideoBridgeStep::Wait,
        ControlEvent::Disconnected => VideoBridgeStep::Exit,
    }
}

/// What the video bridge does for a control event.
pub fn video_bridge_step(ev: ControlEvent) -> (step: VideoBridgeStep)
    ensures
        step == video_step_for(ev),
{
    match ev {
        ControlEvent::Command(ControlCommand::Stop) => VideoBridgeStep::Exit,
        ControlEvent::Command(ControlCommand::Pause) => VideoBridgeStep::PauseVideo,
        ControlEvent::Command(ControlCommand::Resume) => VideoBridgeStep::ResumeVideo,
        ControlEvent::Command(ControlCommand::Reload) => VideoBridgeStep::RestartVideo,
        ControlEvent::Command(_) => VideoBridgeStep::Continue,
        ControlEvent::Empty => VideoBridgeStep::Wait,
        ControlEvent::Disconnected => VideoBridgeStep::Exit,
    }
}

/// What the window bridge does next.
#[derive(Debug, Clone)]
pub enum WindowBridgeStep {
    /// Leave the loop (unregistering the active window).
    Exit,
    /// Unregister the window and register it again.
    Reregister(RegisteredWindow),
    /// Register the window found; it becomes the active one.
    Register(RegisteredWindow),
    /// Unregister the window with this id; none is active any more.
    Unregister(u32),
    Continue,
}

/// The window bridge's answer to a control event: stop on `stop` or when
/// the channel is gone, register the active window again on `reload`.
pub fn window_bridge_on_control(active: &Option<RegisteredWindow>, ev: ControlEvent) -> (step:
    WindowBridgeStep)
    ensures
        match ev {
            ControlEvent::Command(ControlCommand::Stop) | ControlEvent::Disconnected => step is Exit,
            ControlEvent::Command(ControlCommand::Reload) => match active {
                Some(w) => step matches WindowBridgeStep::Reregister(x) && x.xid == w.xid && x.pid
                    == w.pid && x.title@ == w.title@ && x.wm_class@ == w.wm_class@,
                None => step is Continue,
            },
            _ => step is Continue,
        },
{
    match ev {
        ControlEvent::Command(ControlCommand::Stop) | ControlEvent::Disconnected => WindowBridgeStep::Exit,
        ControlEvent::Command(ControlCommand::Reload) => match active {
            Some(w) => WindowBridgeStep::Reregister(copy_window(w)),
            None => WindowBridgeStep::Continue,
        },
        _ => WindowBridgeStep::Continue,
    }
}

fn copy_window(w: &RegisteredWindow) -> (x: RegisteredWindow)
    ensures
        x.xid == w.xid,
        x.pid == w.pid,
        x.title@ == w.title@,
        x.wm_class@ == w.wm_class@,
{
    RegisteredWindow {
        xid: w.xid,
        pid: w.pid,
        title: crate::text::lit(w.title.as_str()),
        wm_class: crate::text::lit(w.wm_class.as_str()),
    }
}

/// What a rescan for the wallpaper window gave.
#[derive(Debug, Clone)]
pub enum ScanOutcome {
    Found(RegisteredWindow),
    NotFound,
    /// The rescan failed; it is only reported.
    Failed,
}

/// The window bridge's answer to a rescan: a found window that differs
/// from the active one is registered; when none is found the active one is
/// unregistered; otherwise nothing changes.
pub fn window_bridge_on_scan(active: &Option<RegisteredWindow>, scan: ScanOutcome) -> (step:
    WindowBridgeStep)
    ensures
        match scan {
            ScanOutcome::Found(w) => match active {
                Some(a) => if a.xid == w.xid && a.pid == w.pid && a.title@ == w.title@ && a.wm_class@
                    == w.wm_class@ {
                    step is Continue
                } else {
                    step matches WindowBridgeStep::Register(x) && x == w
                },
                None => step matches WindowBridgeStep::Register(x) && x == w,
            },
            ScanOutcome::NotFound => match active {
                Some(a) => step == WindowBridgeStep::Unregister(a.xid),
                None => step is Continue,
            },
            ScanOutcome::Failed => step is Continue,
        },
{
    match scan {
        ScanOutcome::Found(w) => match active {
            Some(a) => if same_window(a, &w) {
                WindowBridgeStep::Continue
            } else {
                WindowBridgeStep::Register(w)
            },
            None => WindowBridgeStep::Register(w),
        },
        ScanOutcome::NotFound => match active {
            Some(a) => WindowBridgeStep::Unregister(a.xid),
            None => WindowBridgeStep::Continue,
        },
        ScanOutcome::Failed => WindowBridgeStep::Continue,
    }
}

} // verus!
