//! Hiding and showing the Wallpaper Engine debug window under the window
//! managers that the runner knows: which manager runs, which windows match,
//! and what each manager is asked to do.
use vstd::prelude::*;

use crate::config::CaptureConfig;
use crate::text::{
    lines, sorted_unique, trimmed_lines, trimmed_nonempty, strictly_ascending, strs_view, ascii_lower, concat, contains, contains_str, i32_to_decimal, is_blank, lit, opt_view,
    parse_u64, parse_u64_str, str_eq, to_ascii_lower, trim, trim_str, u64_to_decimal,
};

verus! {

/// The window managers whose debug window the runner can hide.
#[derive(Debug, Clone, Copy, PartialEq, Eq, Structural)]
pub enum DesktopWm {
    Hyprland,
    Sway,
    Niri,
    Kde,
    Unknown,
}

/// What the environment tells about the running window manager: which of
/// its variables are set, and `XDG_CURRENT_DESKTOP`.
#[derive(Debug, Clone)]
pub struct WmEnv {
    pub hyprland_instance_signature: bool,
    pub swaysock: bool,
    pub niri_socket: bool,
    pub kde_full_session: bool,
    pub kde_session_version: bool,
    pub current_desktop: Option<String>,
}

/// The text of an optional string, empty where it is absent.
pub open spec fn or_empty(o: Option<String>) -> Seq<char> {
    match o {
        Some(s) => s@,
        None => Seq::empty(),
    }
}

/// The window manager the environment names: a manager's own socket
/// variable first, then `XDG_CURRENT_DESKTOP` (compared in lower case).
pub open spec fn wm_of(env: WmEnv) -> DesktopWm {
    let desktop = ascii_lower(or_empty(env.current_desktop));
    if env.hyprland_instance_signature {
        DesktopWm::Hyprland
    } else if env.swaysock {
        DesktopWm::Sway
    } else if env.niri_socket {
        DesktopWm::Niri
    } else if env.kde_full_session || env.kde_session_version {
        DesktopWm::Kde
    } else if contains(desktop, "hyprland"@) {
        DesktopWm::Hyprland
    } else if contains(desktop, "sway"@) {
        DesktopWm::Sway
    } else if contains(desktop, "niri"@) {
        DesktopWm::Niri
    } else if contains(desktop, "kde"@) || contains(desktop, "plasma"@) {
        DesktopWm::Kde
    } else {
        DesktopWm::Unknown
    }
}

/// The text of an optional string, empty where it is absent.
fn text_or_empty(o: &Option<String>) -> (r: String)
    ensures
        r@ == or_empty(*o),
{
    match o {
        Some(s) => lit(s.as_str()),
        None => String::new(),
    }
}

/// Detects the running window manager.
pub fn detect_wm(env: &WmEnv) -> (wm: DesktopWm)
    ensures
        wm == wm_of(*env),
{
    if env.hyprland_instance_signature {
        return DesktopWm::Hyprland;
    }
    if env.swaysock {
        return DesktopWm::Sway;
    }
    if env.niri_socket {
        return DesktopWm::Niri;
    }
    if env.kde_full_session || env.kde_session_version {
        return DesktopWm::Kde;
    }
    let raw = text_or_empty(&env.current_desktop);
    let desktop = to_ascii_lower(raw.as_str());
    if contains_str(desktop.as_str(), "hyprland") {
        DesktopWm::Hyprland
    } else if contains_str(desktop.as_str(), "sway") {
        DesktopWm::Sway
    } else if contains_str(desktop.as_str(), "niri") {
        DesktopWm::Niri
    } else if contains_str(desktop.as_str(), "kde") || contains_str(desktop.as_str(), "plasma") {
        DesktopWm::Kde
    } else {
        DesktopWm::Unknown
    }
}

/// Why the debug window could not be hidden or shown.
#[derive(Debug, Clone, PartialEq, Eq, Structural)]
pub enum WmError {
    /// No supported window manager runs; `hiding` tells whether it was hide.
    NoSupportedWm { hiding: bool },
    /// No Hyprland client matched.
    NoHyprWindows,
    /// Hyprland moved none of the matching clients.
    HyprMoveFailed,
    /// No KDE window matched.
    NoKdeWindow,
    /// KDE activated none of the matching windows.
    KdeShowFailed,
    /// niri moved none of the matching windows; `hiding` tells whether it was hide.
    NiriMoveFailed { hiding: bool },
    /// No niri workspace is focused.
    NoFocusedNiriWorkspace,
    /// No niri workspace has an index.
    NoTopNiriWorkspace,
    /// No niri workspace bears the name.
    NoNamedNiriWorkspace,
}

impl WmError {
    /// The message reported for the error.
    pub fn message(&self, name: &str) -> (m: String)
        ensures
            m@ == wm_error_text(*self, name@),
    {
        match self {
            WmError::NoSupportedWm { hiding } => {
                if *hiding {
                    lit("no supported WM detected for hide-window action")
                } else {
                    lit("no supported WM detected for show-window action")
                }
            },
            WmError::NoHyprWindows => lit("no matching hyprland windows found"),
            WmError::HyprMoveFailed => lit("failed to move matching hyprland windows"),
            WmError::NoKdeWindow => lit("no matching KDE window found via kdotool"),
            WmError::KdeShowFailed => lit("kde show did not activate any matching window"),
            WmError::NiriMoveFailed { hiding } => {
                if *hiding {
                    lit("niri hide did not move any matching window")
                } else {
                    lit("niri show did not move any matching window")
                }
            },
            WmError::NoFocusedNiriWorkspace => lit("cannot determine focused niri workspace"),
            WmError::NoTopNiriWorkspace => lit("cannot determine top niri workspace id"),
            WmError::NoNamedNiriWorkspace => concat(
                "cannot resolve niri workspace id by name: ",
                name,
            ),
        }
    }
}

/// The message of an error; `name` is the workspace name looked up.
pub open spec fn wm_error_text(e: WmError, name: Seq<char>) -> Seq<char> {
    match e {
        WmError::NoSupportedWm { hiding } => if hiding {
            "no supported WM detected for hide-window action"@
        } else {
            "no supported WM detected for show-window action"@
        },
        WmError::NoHyprWindows => "no matching hyprland windows found"@,
        WmError::HyprMoveFailed => "failed to move matching hyprland windows"@,
        WmError::NoKdeWindow => "no matching KDE window found via kdotool"@,
        WmError::KdeShowFailed => "kde show did not activate any matching window"@,
        WmError::NiriMoveFailed { hiding } => if hiding {
            "niri hide did not move any matching window"@
        } else {
            "niri show did not move any matching window"@
        },
        WmError::NoFocusedNiriWorkspace => "cannot determine focused niri workspace"@,
        WmError::NoTopNiriWorkspace => "cannot determine top niri workspace id"@,
        WmError::NoNamedNiriWorkspace => "cannot resolve niri workspace id by name: "@ + name,
    }
}

/// Where niri is asked to put the hidden debug window.
#[derive(Debug, Clone, PartialEq, Eq)]
pub enum WorkspaceTarget {
    /// The workspace with the lowest index.
    Top,
    /// A workspace by its id.
    Id(u64),
    /// A workspace by its name.
    Named(String),
}

/// What the window manager is asked to do to hide or show the debug window.
#[derive(Debug, Clone, PartialEq, Eq)]
pub enum VisibilityAction {
    /// Move the matching Hyprland clients to `workspace`.
    Hyprland { workspace: String },
    /// Run `swaymsg` with these arguments.
    Sway { args: Vec<String> },
    /// Move the matching niri windows to `target`, float them and put them
    /// in a corner.
    NiriHide { target: WorkspaceTarget },
    /// Move the matching niri windows to the focused workspace and focus them.
    NiriShow,
    /// Set (hide) or clear (show) the KDE window states of the matching
    /// windows.
    Kde { hiding: bool },
}

/// Hides and shows the Wallpaper Engine debug window.
#[derive(Debug, Clone)]
pub struct DebugWindowVisibility {
    pub auto_hide: bool,
    pub hidden_workspace_name: String,
    pub title_hint: Option<String>,
    pub class_hint: Option<String>,
}

/// `Some(s)` for a text that is not blank, `None` otherwise.
pub open spec fn non_blank(o: Option<Seq<char>>) -> Option<Seq<char>> {
    match o {
        Some(s) => if trim(s).len() > 0 {
            Some(s)
        } else {
            None
        },
        None => None,
    }
}

/// The window class that selects the debug window: the configured class
/// where it is not blank, else `wallpaper64`.
pub open spec fn selector_class_of(class_hint: Option<Seq<char>>) -> Seq<char> {
    match non_blank(class_hint) {
        Some(s) => s,
        None => "wallpaper64"@,
    }
}

/// The `swaymsg` criteria for a window class.
pub open spec fn sway_criteria(class: Seq<char>) -> Seq<char> {
    "[class=\""@ + class + "\"]"@
}

/// The `swaymsg` arguments that hide (to the scratchpad) or show (from it)
/// the windows of a class.
pub open spec fn sway_args_of(class: Seq<char>, hiding: bool) -> Seq<Seq<char>> {
    if hiding {
        seq![sway_criteria(class), "move"@, "scratchpad"@]
    } else {
        seq![sway_criteria(class), "scratchpad"@, "show"@]
    }
}

/// What the hide or show action is for a window manager.
pub open spec fn action_of(
    v: DebugWindowVisibility,
    wm: DesktopWm,
    hiding: bool,
) -> Result<VisibilityActionView, WmError> {
    match wm {
        DesktopWm::Hyprland => Ok(
            VisibilityActionView::Hyprland {
                workspace: if hiding {
                    "special:"@ + v.hidden_workspace_name@
                } else {
                    "+0"@
                },
            },
        ),
        DesktopWm::Sway => Ok(
            VisibilityActionView::Sway { args: sway_args_of(v.selector_class_spec(), hiding) },
        ),
        DesktopWm::Niri => if hiding {
            Ok(
                VisibilityActionView::NiriHide {
                    target: workspace_target_of(v.hidden_workspace_name@),
                },
            )
        } else {
            Ok(VisibilityActionView::NiriShow)
        },
        DesktopWm::Kde => Ok(VisibilityActionView::Kde { hiding }),
        DesktopWm::Unknown => Err(WmError::NoSupportedWm { hiding }),
    }
}

/// A workspace target, its name taken as text.
pub enum WorkspaceTargetView {
    Top,
    Id(u64),
    Named(Seq<char>),
}

/// An action, its texts taken as character sequences.
pub enum VisibilityActionView {
    Hyprland { workspace: Seq<char> },
    Sway { args: Seq<Seq<char>> },
    NiriHide { target: WorkspaceTargetView },
    NiriShow,
    Kde { hiding: bool },
}

/// The view of a workspace target.
pub open spec fn target_view(t: WorkspaceTarget) -> WorkspaceTargetView {
    match t {
        WorkspaceTarget::Top => WorkspaceTargetView::Top,
        WorkspaceTarget::Id(n) => WorkspaceTargetView::Id(n),
        WorkspaceTarget::Named(s) => WorkspaceTargetView::Named(s@),
    }
}

/// The view of an action.
pub open spec fn action_view(a: VisibilityAction) -> VisibilityActionView {
    match a {
        VisibilityAction::Hyprland { workspace } => VisibilityActionView::Hyprland {
            workspace: workspace@,
        },
        VisibilityAction::Sway { args } => VisibilityActionView::Sway {
            args: args@.map_values(|s: String| s@),
        },
        VisibilityAction::NiriHide { target } => VisibilityActionView::NiriHide {
            target: target_view(target),
        },
        VisibilityAction::NiriShow => VisibilityActionView::NiriShow,
        VisibilityAction::Kde { hiding } => VisibilityActionView::Kde { hiding },
    }
}

/// The view of a result of `hide_window` or `show`.
pub open spec fn action_result_view(r: Result<VisibilityAction, WmError>) -> Result<
    VisibilityActionView,
    WmError,
> {
    match r {
        Ok(a) => Ok(action_view(a)),
        Err(e) => Err(e),
    }
}

/// The niri workspace that a configured name designates: the top one for a
/// blank name or `top` (in any case), a workspace id for a number, else a
/// workspace by its (trimmed) name.
pub open spec fn workspace_target_of(configured: Seq<char>) -> WorkspaceTargetView {
    let t = trim(configured);
    if t.len() == 0 || ascii_lower(t) == "top"@ {
        WorkspaceTargetView::Top
    } else {
        match parse_u64(t) {
            Some(n) => WorkspaceTargetView::Id(n),
            None => WorkspaceTargetView::Named(t),
        }
    }
}

/// Resolves a configured workspace name to a niri target.
pub fn workspace_target(configured: &str) -> (t: WorkspaceTarget)
    ensures
        target_view(t) == workspace_target_of(configured@),
{
    let t = trim_str(configured);
    let lower = to_ascii_lower(t.as_str());
    proof {
        reveal_strlit("");
        assert(t@.len() == 0 ==> t@ =~= ""@);
    }
    if str_eq(t.as_str(), "") || str_eq(lower.as_str(), "top") {
        return WorkspaceTarget::Top;
    }
    match parse_u64_str(t.as_str()) {
        Some(n) => WorkspaceTarget::Id(n),
        None => WorkspaceTarget::Named(t),
    }
}

impl DebugWindowVisibility {
    /// The window class that selects the debug window.
    pub open spec fn selector_class_spec(&self) -> Seq<char> {
        selector_class_of(opt_view(self.class_hint))
    }

    /// The window title that selects the debug window, where one is set.
    pub open spec fn selector_title_spec(&self) -> Option<Seq<char>> {
        non_blank(opt_view(self.title_hint))
    }

    /// The debug-window handling of a configuration: whether to hide it on
    /// its own, the workspace it is hidden on, and the title and class that
    /// select it.
    pub fn new(auto_hide: bool, hidden_workspace_name: String, capture: &CaptureConfig) -> (v:
        DebugWindowVisibility)
        ensures
            v.auto_hide == auto_hide,
            v.hidden_workspace_name == hidden_workspace_name,
            opt_view(v.title_hint) == opt_view(capture.title_contains),
            opt_view(v.class_hint) == opt_view(capture.wm_class_contains),
    {
        let title_hint = match &capture.title_contains {
            Some(t) => Some(lit(t.as_str())),
            None => None,
        };
        let class_hint = match &capture.wm_class_contains {
            Some(c) => Some(lit(c.as_str())),
            None => None,
        };
        DebugWindowVisibility { auto_hide, hidden_workspace_name, title_hint, class_hint }
    }

    /// The window class that selects the debug window.
    pub fn selector_class(&self) -> (s: String)
        ensures
            s@ == self.selector_class_spec(),
    {
        match &self.class_hint {
            Some(c) => if !is_blank(c.as_str()) {
                lit(c.as_str())
            } else {
                lit("wallpaper64")
            },
            None => lit("wallpaper64"),
        }
    }

    /// The window title that selects the debug window, where one is set.
    pub fn selector_title(&self) -> (s: Option<String>)
        ensures
            opt_view(s) == self.selector_title_spec(),
    {
        match &self.title_hint {
            Some(t) => if !is_blank(t.as_str()) {
                Some(lit(t.as_str()))
            } else {
                None
            },
            None => None,
        }
    }

    /// What the window manager is asked to do to hide the debug window.
    pub fn hide_window(&self, wm: DesktopWm) -> (r: Result<VisibilityAction, WmError>)
        ensures
            action_result_view(r) == action_of(*self, wm, true),
    {
        self.action_for(wm, true)
    }

    /// What the window manager is asked to do to show the debug window.
    pub fn show(&self, wm: DesktopWm) -> (r: Result<VisibilityAction, WmError>)
        ensures
            action_result_view(r) == action_of(*self, wm, false),
    {
        self.action_for(wm, false)
    }

    fn action_for(&self, wm: DesktopWm, hiding: bool) -> (r: Result<VisibilityAction, WmError>)
        ensures
            action_result_view(r) == action_of(*self, wm, hiding),
    {
        match wm {
            DesktopWm::Hyprland => {
                let workspace = if hiding {
                    concat("special:", self.hidden_workspace_name.as_str())
                } else {
                    lit("+0")
                };
                Ok(VisibilityAction::Hyprland { workspace })
            },
            DesktopWm::Sway => {
                let class = self.selector_class();
                let args = sway_args(class.as_str(), hiding);
                Ok(VisibilityAction::Sway { args })
            },
            DesktopWm::Niri => {
                if hiding {
                    let target = workspace_target(self.hidden_workspace_name.as_str());
                    Ok(VisibilityAction::NiriHide { target })
                } else {
                    Ok(VisibilityAction::NiriShow)
                }
            },
            DesktopWm::Kde => Ok(VisibilityAction::Kde { hiding }),
            DesktopWm::Unknown => Err(WmError::NoSupportedWm { hiding }),
        }
    }
}

/// The `swaymsg` arguments that hide or show the windows of a class.
pub fn sway_args(class: &str, hiding: bool) -> (args: Vec<String>)
    ensures
        args@.map_values(|s: String| s@) == sway_args_of(class@, hiding),
{
    let a = concat("[class=\"", class);
    let criteria = concat(a.as_str(), "\"]");
    let mut args: Vec<String> = Vec::new();
    args.push(criteria);
    if hiding {
        args.push(lit("move"));
        args.push(lit("scratchpad"));
    } else {
        args.push(lit("scratchpad"));
        args.push(lit("show"));
    }
    assert(args@.map_values(|s: String| s@) =~= sway_args_of(class@, hiding));
    args
}

/// The lower-case text of an optional string, empty where it is absent.
fn lower_text(o: &Option<String>) -> (r: String)
    ensures
        r@ == ascii_lower(or_empty(*o)),
{
    let t = text_or_empty(o);
    to_ascii_lower(t.as_str())
}

/// An optional text in lower case.
pub open spec fn lower_opt(o: Option<Seq<char>>) -> Option<Seq<char>> {
    match o {
        Some(s) => Some(ascii_lower(s)),
        None => None,
    }
}

/// `field` (in lower case) holds the title hint.
pub open spec fn title_matches(field: Option<String>, title_hint: Option<Seq<char>>) -> bool {
    match title_hint {
        Some(t) => contains(ascii_lower(or_empty(field)), t),
        None => false,
    }
}

/// `field` (in lower case) holds a non-empty class hint.
pub open spec fn class_matches(field: Option<String>, class_hint: Seq<char>) -> bool {
    class_hint.len() > 0 && contains(ascii_lower(or_empty(field)), class_hint)
}

fn title_matches_exec(field: &Option<String>, title_hint: &Option<String>) -> (r: bool)
    ensures
        r == title_matches(*field, opt_view(*title_hint)),
{
    match title_hint {
        Some(t) => {
            let f = lower_text(field);
            contains_str(f.as_str(), t.as_str())
        },
        None => false,
    }
}

fn class_matches_exec(field: &Option<String>, class_hint: &str) -> (r: bool)
    ensures
        r == class_matches(*field, class_hint@),
{
    if str_eq(class_hint, "") {
        proof {
            reveal_strlit("");
        }
        false
    } else {
        proof {
            reveal_strlit("");
            assert(class_hint@.len() == 0 ==> class_hint@ =~= ""@);
        }
        let f = lower_text(field);
        contains_str(f.as_str(), class_hint)
    }
}

/// A Hyprland client as `hyprctl clients -j` lists it.
#[derive(Debug, Clone)]
pub struct HyprClient {
    pub class: Option<String>,
    pub initial_class: Option<String>,
    pub title: Option<String>,
    pub address: Option<String>,
}

/// A client is the debug window: its class or initial class holds the
/// class hint, or its title holds the title hint (all in lower case).
pub open spec fn hypr_client_matches(
    c: HyprClient,
    class_hint: Seq<char>,
    title_hint: Option<Seq<char>>,
) -> bool {
    class_matches(c.class, class_hint) || class_matches(c.initial_class, class_hint)
        || title_matches(c.title, title_hint)
}

/// The addresses of the matching clients that have one, in order.
pub open spec fn hypr_addresses(
    clients: Seq<HyprClient>,
    class_hint: Seq<char>,
    title_hint: Option<Seq<char>>,
) -> Seq<Seq<char>>
    decreases clients.len(),
{
    if clients.len() == 0 {
        Seq::empty()
    } else {
        let prev = hypr_addresses(clients.drop_last(), class_hint, title_hint);
        let c = clients.last();
        if hypr_client_matches(c, class_hint, title_hint) && c.address is Some {
            prev.push(c.address->0@)
        } else {
            prev
        }
    }
}

/// A niri window as `niri msg -j windows` lists it.
#[derive(Debug, Clone)]
pub struct NiriWindow {
    pub id: Option<u64>,
    pub app_id: Option<String>,
    pub title: Option<String>,
}

/// The ids of the matching niri windows that have one, in order: the app
/// id holds the class hint or the title holds the title hint.
pub open spec fn niri_ids(
    windows: Seq<NiriWindow>,
    class_hint: Seq<char>,
    title_hint: Option<Seq<char>>,
) -> Seq<u64>
    decreases windows.len(),
{
    if windows.len() == 0 {
        Seq::empty()
    } else {
        let prev = niri_ids(windows.drop_last(), class_hint, title_hint);
        let w = windows.last();
        if (class_matches(w.app_id, class_hint) || title_matches(w.title, title_hint))
            && w.id is Some {
            prev.push(w.id->0)
        } else {
            prev
        }
    }
}

impl DebugWindowVisibility {
    /// The lower-case class hint that matching uses.
    pub open spec fn class_key(&self) -> Seq<char> {
        ascii_lower(self.selector_class_spec())
    }

    /// The lower-case title hint that matching uses.
    pub open spec fn title_key(&self) -> Option<Seq<char>> {
        lower_opt(self.selector_title_spec())
    }

    fn match_keys(&self) -> (r: (String, Option<String>))
        ensures
            r.0@ == self.class_key(),
            opt_view(r.1) == self.title_key(),
    {
        let class = self.selector_class();
        let class_key = to_ascii_lower(class.as_str());
        let title_key = match self.selector_title() {
            Some(t) => Some(to_ascii_lower(t.as_str())),
            None => None,
        };
        (class_key, title_key)
    }

    /// The addresses of the Hyprland clients that are the debug window.
    pub fn matching_hypr_addresses(&self, clients: &Vec<HyprClient>) -> (r: Vec<String>)
        ensures
            strs_view(r@) == hypr_addresses(clients@, self.class_key(), self.title_key()),
    {
        let (class_key, title_key) = self.match_keys();
        let mut out: Vec<String> = Vec::new();
        let mut i: usize = 0;
        while i < clients.len()
            invariant
                i <= clients.len(),
                class_key@ == self.class_key(),
                opt_view(title_key) == self.title_key(),
                strs_view(out@) == hypr_addresses(clients@.take(i as int), self.class_key(), self.title_key()),
            decreases clients.len() - i,
        {
            let c = &clients[i];
            assert(clients@.take(i + 1).drop_last() =~= clients@.take(i as int));
            let matched = class_matches_exec(&c.class, class_key.as_str())
                || class_matches_exec(&c.initial_class, class_key.as_str())
                || title_matches_exec(&c.title, &title_key);
            if matched {
                if let Some(a) = &c.address {
                    out.push(lit(a.as_str()));
                    assert(strs_view(out@) =~= strs_view(out@.drop_last()).push(a@));
                }
            }
            i += 1;
        }
        assert(clients@.take(clients.len() as int) =~= clients@);
        out
    }

    /// The ids of the niri windows that are the debug window.
    pub fn matching_niri_window_ids(&self, windows: &Vec<NiriWindow>) -> (r: Vec<u64>)
        ensures
            r@ == niri_ids(windows@, self.class_key(), self.title_key()),
    {
        let (class_key, title_key) = self.match_keys();
        let mut out: Vec<u64> = Vec::new();
        let mut i: usize = 0;
        while i < windows.len()
            invariant
                i <= windows.len(),
                class_key@ == self.class_key(),
                opt_view(title_key) == self.title_key(),
                out@ == niri_ids(windows@.take(i as int), self.class_key(), self.title_key()),
            decreases windows.len() - i,
        {
            let w = &windows[i];
            assert(windows@.take(i + 1).drop_last() =~= windows@.take(i as int));
            let matched = class_matches_exec(&w.app_id, class_key.as_str())
                || title_matches_exec(&w.title, &title_key);
            if matched {
                if let Some(id) = w.id {
                    out.push(id);
                }
            }
            i += 1;
        }
        assert(windows@.take(windows.len() as int) =~= windows@);
        out
    }
}

/// A niri workspace as `niri msg -j workspaces` lists it.
#[derive(Debug, Clone)]
pub struct NiriWorkspace {
    pub id: Option<u64>,
    pub idx: Option<i64>,
    pub name: Option<String>,
    pub is_focused: Option<bool>,
    pub is_active: Option<bool>,
}

/// The id of the first workspace that is focused or active and has an id.
pub open spec fn focused_workspace(ws: Seq<NiriWorkspace>) -> Option<u64>
    decreases ws.len(),
{
    if ws.len() == 0 {
        None
    } else {
        let w = ws[0];
        if (w.is_focused == Some(true) || w.is_active == Some(true)) && w.id is Some {
            w.id
        } else {
            focused_workspace(ws.drop_first())
        }
    }
}

/// The index and id of the first workspace of lowest index among those that
/// have both.
pub open spec fn top_workspace(ws: Seq<NiriWorkspace>) -> Option<(i64, u64)>
    decreases ws.len(),
{
    if ws.len() == 0 {
        None
    } else {
        let prev = top_workspace(ws.drop_last());
        let w = ws.last();
        if w.idx is Some && w.id is Some && (match prev {
            Some(b) => w.idx->0 < b.0,
            None => true,
        }) {
            Some((w.idx->0, w.id->0))
        } else {
            prev
        }
    }
}

/// The id of the first workspace that bears `name` and has an id (a
/// workspace without a name bears the empty one).
pub open spec fn named_workspace(ws: Seq<NiriWorkspace>, name: Seq<char>) -> Option<u64>
    decreases ws.len(),
{
    if ws.len() == 0 {
        None
    } else {
        let w = ws[0];
        if or_empty(w.name) == name && w.id is Some {
            w.id
        } else {
            named_workspace(ws.drop_first(), name)
        }
    }
}

/// The focused niri workspace.
pub fn current_niri_workspace_id(ws: &Vec<NiriWorkspace>) -> (r: Result<u64, WmError>)
    ensures
        match focused_workspace(ws@) {
            Some(id) => r == Ok::<u64, WmError>(id),
            None => r == Err::<u64, WmError>(WmError::NoFocusedNiriWorkspace),
        },
{
    let mut i: usize = 0;
    assert(ws@.skip(0) =~= ws@);
    while i < ws.len()
        invariant
            i <= ws.len(),
            focused_workspace(ws@) == focused_workspace(ws@.skip(i as int)),
        decreases ws.len() - i,
    {
        assert(ws@.skip(i as int).drop_first() =~= ws@.skip(i + 1));
        let w = &ws[i];
        let focused = w.is_focused == Some(true) || w.is_active == Some(true);
        if focused {
            if let Some(id) = w.id {
                return Ok(id);
            }
        }
        i += 1;
    }
    Err(WmError::NoFocusedNiriWorkspace)
}

/// The niri workspace of lowest index.
pub fn top_niri_workspace_id(ws: &Vec<NiriWorkspace>) -> (r: Result<u64, WmError>)
    ensures
        match top_workspace(ws@) {
            Some(best) => r == Ok::<u64, WmError>(best.1),
            None => r == Err::<u64, WmError>(WmError::NoTopNiriWorkspace),
        },
{
    let mut best: Option<(i64, u64)> = None;
    let mut i: usize = 0;
    while i < ws.len()
        invariant
            i <= ws.len(),
            best == top_workspace(ws@.take(i as int)),
        decreases ws.len() - i,
    {
        assert(ws@.take(i + 1).drop_last() =~= ws@.take(i as int));
        let w = &ws[i];
        if let (Some(idx), Some(id)) = (w.idx, w.id) {
            let replace = match best {
                Some(b) => idx < b.0,
                None => true,
            };
            if replace {
                best = Some((idx, id));
            }
        }
        i += 1;
    }
    assert(ws@.take(ws.len() as int) =~= ws@);
    match best {
        Some(b) => Ok(b.1),
        None => Err(WmError::NoTopNiriWorkspace),
    }
}

/// The niri workspace that bears a name.
pub fn workspace_id_by_name(ws: &Vec<NiriWorkspace>, name: &str) -> (r: Result<u64, WmError>)
    ensures
        match named_workspace(ws@, name@) {
            Some(id) => r == Ok::<u64, WmError>(id),
            None => r == Err::<u64, WmError>(WmError::NoNamedNiriWorkspace),
        },
{
    let mut i: usize = 0;
    assert(ws@.skip(0) =~= ws@);
    while i < ws.len()
        invariant
            i <= ws.len(),
            named_workspace(ws@, name@) == named_workspace(ws@.skip(i as int), name@),
        decreases ws.len() - i,
    {
        assert(ws@.skip(i as int).drop_first() =~= ws@.skip(i + 1));
        let w = &ws[i];
        let n = text_or_empty(&w.name);
        if str_eq(n.as_str(), name) {
            if let Some(id) = w.id {
                return Ok(id);
            }
        }
        i += 1;
    }
    Err(WmError::NoNamedNiriWorkspace)
}

/// The workspace a target designates, given the workspaces niri lists.
pub open spec fn resolved_target(t: WorkspaceTargetView, ws: Seq<NiriWorkspace>) -> Result<u64, WmError> {
    match t {
        WorkspaceTargetView::Top => match top_workspace(ws) {
            Some(best) => Ok(best.1),
            None => Err(WmError::NoTopNiriWorkspace),
        },
        WorkspaceTargetView::Id(n) => Ok(n),
        WorkspaceTargetView::Named(name) => match named_workspace(ws, name) {
            Some(id) => Ok(id),
            None => Err(WmError::NoNamedNiriWorkspace),
        },
    }
}

/// Resolves a target to a workspace id; an id needs no workspace list.
pub fn resolve_workspace_target(t: &WorkspaceTarget, ws: &Vec<NiriWorkspace>) -> (r: Result<u64, WmError>)
    ensures
        r == resolved_target(target_view(*t), ws@),
{
    match t {
        WorkspaceTarget::Top => top_niri_workspace_id(ws),
        WorkspaceTarget::Id(n) => Ok(*n),
        WorkspaceTarget::Named(name) => workspace_id_by_name(ws, name.as_str()),
    }
}

/// The hyprctl selector that moves a client to a workspace.
pub open spec fn hypr_selector(workspace: Seq<char>, address: Seq<char>) -> Seq<char> {
    workspace + ",address:"@ + address
}

/// The `hyprctl dispatch movetoworkspacesilent` selectors for the matching
/// clients; an error where none matched.
pub fn hypr_move_selectors(addresses: &Vec<String>, workspace: &str) -> (r: Result<Vec<String>, WmError>)
    ensures
        addresses.len() == 0 ==> r == Err::<Vec<String>, WmError>(WmError::NoHyprWindows),
        addresses.len() > 0 ==> r is Ok && strs_view(r->Ok_0@) == strs_view(addresses@).map_values(
            |a: Seq<char>| hypr_selector(workspace@, a),
        ),
{
    if addresses.len() == 0 {
        return Err(WmError::NoHyprWindows);
    }
    let mut out: Vec<String> = Vec::new();
    let mut i: usize = 0;
    while i < addresses.len()
        invariant
            i <= addresses.len(),
            strs_view(out@) == strs_view(addresses@.take(i as int)).map_values(
                |a: Seq<char>| hypr_selector(workspace@, a),
            ),
        decreases addresses.len() - i,
    {
        let a = concat(workspace, ",address:");
        let sel = concat(a.as_str(), addresses[i].as_str());
        let ghost before = out@;
        out.push(sel);
        proof {
            let f = |a: Seq<char>| hypr_selector(workspace@, a);
            let prev = strs_view(addresses@.take(i as int));
            assert(strs_view(addresses@.take(i + 1)) =~= prev.push(addresses@[i as int]@));
            assert(prev.push(addresses@[i as int]@).map_values(f) =~= prev.map_values(f).push(
                f(addresses@[i as int]@),
            ));
            assert(strs_view(out@) =~= strs_view(before).push(out@[i as int]@));
        }
        i += 1;
    }
    assert(addresses@.take(addresses.len() as int) =~= addresses@);
    Ok(out)
}

/// The outcome of moving or activating the matching windows one by one:
/// success where at least one went through, else `err`.
pub fn any_succeeded(results: &Vec<bool>, err: WmError) -> (r: Result<(), WmError>)
    ensures
        (exists|i: int| 0 <= i < results.len() && results[i]) ==> r is Ok,
        !(exists|i: int| 0 <= i < results.len() && results[i]) ==> r == Err::<(), WmError>(err),
{
    let mut i: usize = 0;
    while i < results.len()
        invariant
            i <= results.len(),
            forall|j: int| 0 <= j < i ==> !results[j],
        decreases results.len() - i,
    {
        if results[i] {
            return Ok(());
        }
        i += 1;
    }
    Err(err)
}

/// `niri msg action` arguments that float a window.
pub fn niri_float_args(id: u64) -> (args: Vec<String>)
    ensures
        strs_view(args@) == seq!["msg"@, "action"@, "move-window-to-floating"@, "--id"@, crate::text::decimal(id as nat)],
{
    let mut args: Vec<String> = Vec::new();
    args.push(lit("msg"));
    args.push(lit("action"));
    args.push(lit("move-window-to-floating"));
    args.push(lit("--id"));
    args.push(u64_to_decimal(id));
    assert(strs_view(args@) =~= seq!["msg"@, "action"@, "move-window-to-floating"@, "--id"@, crate::text::decimal(id as nat)]);
    args
}

/// `niri msg action` arguments that focus a window.
pub fn niri_focus_args(id: u64) -> (args: Vec<String>)
    ensures
        strs_view(args@) == seq!["msg"@, "action"@, "focus-window"@, "--id"@, crate::text::decimal(id as nat)],
{
    let mut args: Vec<String> = Vec::new();
    args.push(lit("msg"));
    args.push(lit("action"));
    args.push(lit("focus-window"));
    args.push(lit("--id"));
    args.push(u64_to_decimal(id));
    assert(strs_view(args@) =~= seq!["msg"@, "action"@, "focus-window"@, "--id"@, crate::text::decimal(id as nat)]);
    args
}

/// The corner where a hidden floating window goes on an output of the
/// given logical width (1920 where it is unknown): eight pixels short of
/// the right edge, at the top.
pub open spec fn corner_of(width: Option<i32>) -> (i32, i32) {
    let w = match width {
        Some(w) => w as int,
        None => 1920,
    };
    (if w - 8 > 0 {
        (w - 8) as i32
    } else {
        0i32
    }, 0i32)
}

/// The corner where a hidden floating window goes.
pub fn hidden_corner(width: Option<i32>) -> (r: (i32, i32))
    ensures
        r == corner_of(width),
{
    let w: i32 = match width {
        Some(w) => w,
        None => 1920,
    };
    let x: i32 = if w > 8 {
        w - 8
    } else {
        0
    };
    (x, 0)
}

/// `niri msg action` arguments that move a floating window to a position.
pub fn niri_corner_args(id: u64, x: i32, y: i32) -> (args: Vec<String>)
    ensures
        strs_view(args@) == seq![
            "msg"@,
            "action"@,
            "move-floating-window"@,
            "--id"@,
            crate::text::decimal(id as nat),
            "-x"@,
            crate::text::signed_decimal(x as int),
            "-y"@,
            crate::text::signed_decimal(y as int),
        ],
{
    let mut args: Vec<String> = Vec::new();
    args.push(lit("msg"));
    args.push(lit("action"));
    args.push(lit("move-floating-window"));
    args.push(lit("--id"));
    args.push(u64_to_decimal(id));
    args.push(lit("-x"));
    args.push(i32_to_decimal(x));
    args.push(lit("-y"));
    args.push(i32_to_decimal(y));
    assert(strs_view(args@) =~= seq![
        "msg"@,
        "action"@,
        "move-floating-window"@,
        "--id"@,
        crate::text::decimal(id as nat),
        "-x"@,
        crate::text::signed_decimal(x as int),
        "-y"@,
        crate::text::signed_decimal(y as int),
    ]);
    args
}

/// The `niri msg` arguments that float a window.
pub open spec fn niri_float_seq(id: u64) -> Seq<Seq<char>> {
    seq!["msg"@, "action"@, "move-window-to-floating"@, "--id"@, crate::text::decimal(id as nat)]
}

/// The `niri msg` arguments that focus a window.
pub open spec fn niri_focus_seq(id: u64) -> Seq<Seq<char>> {
    seq!["msg"@, "action"@, "focus-window"@, "--id"@, crate::text::decimal(id as nat)]
}

/// The `niri msg` arguments that move a floating window to a position.
pub open spec fn niri_corner_seq(id: u64, at: (i32, i32)) -> Seq<Seq<char>> {
    seq![
        "msg"@,
        "action"@,
        "move-floating-window"@,
        "--id"@,
        crate::text::decimal(id as nat),
        "-x"@,
        crate::text::signed_decimal(at.0 as int),
        "-y"@,
        crate::text::signed_decimal(at.1 as int),
    ]
}

/// The `niri` commands to run for a window once the attempt to move it to
/// another workspace is over, in order: when hiding and the move went
/// through, float it, then put it in the corner of an output of logical
/// `width`; when showing and the move went through, focus it; nothing when
/// the move failed.
pub fn niri_after_move(id: u64, hiding: bool, moved: bool, width: Option<i32>) -> (cmds: Vec<Vec<String>>)
    ensures
        !moved ==> cmds.len() == 0,
        moved && hiding ==> cmds.len() == 2 && strs_view(cmds[0]@) == niri_float_seq(id)
            && strs_view(cmds[1]@) == niri_corner_seq(id, corner_of(width)),
        moved && !hiding ==> cmds.len() == 1 && strs_view(cmds[0]@) == niri_focus_seq(id),
{
    let mut cmds: Vec<Vec<String>> = Vec::new();
    if !moved {
        return cmds;
    }
    if hiding {
        let (x, y) = hidden_corner(width);
        cmds.push(niri_float_args(id));
        cmds.push(niri_corner_args(id, x, y));
    } else {
        cmds.push(niri_focus_args(id));
    }
    cmds
}

/// The window ids that `kdotool search` prints: its trimmed, non-empty
/// lines.
pub fn kdotool_ids(stdout: &str) -> (ids: Vec<String>)
    ensures
        strs_view(ids@) == trimmed_nonempty(lines(stdout@)),
{
    trimmed_lines(stdout)
}

/// Three arguments.
fn three_args(a: &str, b: &str, c: &str) -> (args: Vec<String>)
    ensures
        strs_view(args@) == seq![a@, b@, c@],
{
    let mut args: Vec<String> = Vec::new();
    args.push(lit(a));
    args.push(lit(b));
    args.push(lit(c));
    assert(strs_view(args@) =~= seq![a@, b@, c@]);
    args
}

impl DebugWindowVisibility {
    /// The `kdotool` arguments that search the debug window by title, where
    /// a title selects it.
    pub fn kde_title_search(&self) -> (args: Option<Vec<String>>)
        ensures
            match self.selector_title_spec() {
                Some(t) => args is Some && strs_view(args->0@) == seq!["search"@, "--name"@, t],
                None => args is None,
            },
    {
        match self.selector_title() {
            Some(t) => Some(three_args("search", "--name", t.as_str())),
            None => None,
        }
    }

    /// The `kdotool` arguments that search the debug window by class, where
    /// the title search found nothing.
    pub fn kde_class_search(&self, found_by_title: &Vec<String>) -> (args: Option<Vec<String>>)
        ensures
            found_by_title.len() == 0 && trim(self.selector_class_spec()).len() > 0 ==> args is Some
                && strs_view(args->0@) == seq!["search"@, "--class"@, self.selector_class_spec()],
            !(found_by_title.len() == 0 && trim(self.selector_class_spec()).len() > 0) ==> args is None,
    {
        let class = self.selector_class();
        if found_by_title.len() == 0 && !is_blank(class.as_str()) {
            Some(three_args("search", "--class", class.as_str()))
        } else {
            None
        }
    }
}

/// The KDE windows to act on: the ids found, sorted and each once; an
/// error where none was found.
pub fn kde_window_ids(found: &Vec<String>) -> (r: Result<Vec<String>, WmError>)
    ensures
        found.len() == 0 ==> r == Err::<Vec<String>, WmError>(WmError::NoKdeWindow),
        found.len() > 0 ==> r is Ok && strictly_ascending(strs_view(r->Ok_0@))
            && strs_view(r->Ok_0@).to_set() == strs_view(found@).to_set(),
{
    if found.len() == 0 {
        return Err(WmError::NoKdeWindow);
    }
    Ok(sorted_unique(found))
}

/// The window states that hiding sets and showing clears: `below`,
/// `skip_taskbar`, `skip_pager`, and for hiding also `no_border`.
pub open spec fn kde_states_of(hiding: bool) -> Seq<Seq<char>> {
    if hiding {
        seq!["below"@, "skip_taskbar"@, "skip_pager"@, "no_border"@]
    } else {
        seq!["below"@, "skip_taskbar"@, "skip_pager"@]
    }
}

/// The window states that hiding sets and showing clears.
pub fn kde_states(hiding: bool) -> (states: Vec<String>)
    ensures
        strs_view(states@) == kde_states_of(hiding),
{
    let mut states = three_args("below", "skip_taskbar", "skip_pager");
    if hiding {
        let ghost before = states@;
        states.push(lit("no_border"));
        assert(strs_view(states@) =~= strs_view(before).push("no_border"@));
    }
    assert(strs_view(states@) =~= kde_states_of(hiding));
    states
}

/// The `kdotool windowstate` arguments that set or clear a state.
pub fn kde_state_args(window_id: &str, add: bool, state: &str) -> (args: Vec<String>)
    ensures
        strs_view(args@) == seq![
            "windowstate"@,
            if add {
                "--add"@
            } else {
                "--remove"@
            },
            state@,
            window_id@,
        ],
{
    let mut args: Vec<String> = Vec::new();
    args.push(lit("windowstate"));
    args.push(
        if add {
            lit("--add")
        } else {
            lit("--remove")
        },
    );
    args.push(lit(state));
    args.push(lit(window_id));
    assert(strs_view(args@) =~= seq![
        "windowstate"@,
        if add {
            "--add"@
        } else {
            "--remove"@
        },
        state@,
        window_id@,
    ]);
    args
}

} // verus!
