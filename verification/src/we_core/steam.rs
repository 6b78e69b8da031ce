//! Steam library locations and the state of the Wallpaper Engine install.
//!
//! Where a decision rests on what the file system holds, the check is a
//! probe handed in by the caller; what is proved holds whatever the probe
//! answers.
use vstd::prelude::*;

use crate::probe::{answered, ask, first_accepted, first_accepted_spec, total_probe};
use crate::pathname::{file_name_of, join, parent_of, path_file_name, path_join, path_parent};
use crate::text::{
    positions, stable_order, stable_order_of, sorted_unique, starts_with, starts_with_str, strictly_ascending, text_less, text_lt, lemma_text_less_transitive, lemma_text_less_total,
    lemma_text_less_irreflexive,
    ascii_lower, decimal, is_blank, lit, opt_view, str_eq, strs_view, to_ascii_lower, trim,
    u32_to_decimal,
};

verus! {

/// The Steam application id of Wallpaper Engine.
pub const WALLPAPER_ENGINE_APP_ID: u32 = 431960;

/// The Steam library folders under a home directory, relative to it.
pub open spec fn common_rels() -> Seq<Seq<char>> {
    seq![
        ".local/share/Steam/steamapps/common"@,
        ".var/app/com.valvesoftware.Steam/.local/share/Steam/steamapps/common"@,
        "snap/steam/common/.local/share/Steam/steamapps/common"@,
    ]
}

/// The Steam workshop folders under a home directory, relative to it.
pub open spec fn workshop_rels() -> Seq<Seq<char>> {
    seq![
        ".local/share/Steam/steamapps/workshop/content"@,
        ".var/app/com.valvesoftware.Steam/.local/share/Steam/steamapps/workshop/content"@,
        "snap/steam/common/.local/share/Steam/steamapps/workshop/content"@,
    ]
}

/// Each relative folder joined to the home directory; none without one.
pub open spec fn roots_under(home: Option<Seq<char>>, rels: Seq<Seq<char>>) -> Seq<Seq<char>> {
    match home {
        Some(h) => rels.map_values(|r: Seq<char>| join(h, r)),
        None => Seq::empty(),
    }
}

fn roots_from(home: &Option<String>, a: &str, b: &str, c: &str) -> (roots: Vec<String>)
    ensures
        strs_view(roots@) == roots_under(crate::text::opt_view(*home), seq![a@, b@, c@]),
{
    let mut roots: Vec<String> = Vec::new();
    if let Some(h) = home {
        roots.push(path_join(h.as_str(), a));
        roots.push(path_join(h.as_str(), b));
        roots.push(path_join(h.as_str(), c));
        assert(strs_view(roots@) =~= roots_under(crate::text::opt_view(*home), seq![a@, b@, c@]));
    } else {
        assert(strs_view(roots@) =~= roots_under(crate::text::opt_view(*home), seq![a@, b@, c@]));
    }
    roots
}

/// The Steam library folders (`steamapps/common`) of the native, Flatpak
/// and Snap installs under a home directory.
pub fn steam_common_roots(home: &Option<String>) -> (roots: Vec<String>)
    ensures
        strs_view(roots@) == roots_under(crate::text::opt_view(*home), common_rels()),
{
    roots_from(
        home,
        ".local/share/Steam/steamapps/common",
        ".var/app/com.valvesoftware.Steam/.local/share/Steam/steamapps/common",
        "snap/steam/common/.local/share/Steam/steamapps/common",
    )
}

/// The Steam workshop folders of the native, Flatpak and Snap installs
/// under a home directory.
pub fn steam_workshop_roots(home: &Option<String>) -> (roots: Vec<String>)
    ensures
        strs_view(roots@) == roots_under(crate::text::opt_view(*home), workshop_rels()),
{
    roots_from(
        home,
        ".local/share/Steam/steamapps/workshop/content",
        ".var/app/com.valvesoftware.Steam/.local/share/Steam/steamapps/workshop/content",
        "snap/steam/common/.local/share/Steam/steamapps/workshop/content",
    )
}

/// The path that a probe result picks out of the candidates.
pub open spec fn picked(paths: Seq<Seq<char>>, i: Option<usize>) -> Option<Seq<char>> {
    match i {
        Some(k) => Some(paths[k as int]),
        None => None,
    }
}

/// Each root joined with `sub`.
pub open spec fn joined_each(roots: Seq<Seq<char>>, sub: Seq<char>) -> Seq<Seq<char>> {
    roots.map_values(|r: Seq<char>| join(r, sub))
}

fn join_each(roots: &Vec<String>, sub: &str) -> (out: Vec<String>)
    ensures
        strs_view(out@) == joined_each(strs_view(roots@), sub@),
{
    let mut out: Vec<String> = Vec::new();
    let mut i: usize = 0;
    while i < roots.len()
        invariant
            i <= roots.len(),
            strs_view(out@) == joined_each(strs_view(roots@).take(i as int), sub@),
        decreases roots.len() - i,
    {
        let ghost before = out@;
        out.push(path_join(roots[i].as_str(), sub));
        proof {
            assert(strs_view(roots@).take(i + 1) =~= strs_view(roots@).take(i as int).push(
                roots@[i as int]@,
            ));
            assert(strs_view(out@) =~= strs_view(before).push(out@[i as int]@));
            assert(strs_view(out@) =~= joined_each(strs_view(roots@).take(i + 1), sub@));
        }
        i += 1;
    }
    assert(strs_view(roots@).take(roots.len() as int) =~= strs_view(roots@));
    out
}

/// The Wallpaper Engine folder in each Steam library.
pub open spec fn app_dirs(home: Option<Seq<char>>) -> Seq<Seq<char>> {
    joined_each(roots_under(home, common_rels()), "wallpaper_engine"@)
}

/// The executables looked for, in order: in each library's Wallpaper
/// Engine folder, `wallpaper64.exe` then `wallpaper32.exe`.
pub open spec fn exe_candidates(dirs: Seq<Seq<char>>) -> Seq<Seq<char>>
    decreases dirs.len(),
{
    if dirs.len() == 0 {
        Seq::empty()
    } else {
        exe_candidates(dirs.drop_last()) + seq![
            join(dirs.last(), "wallpaper64.exe"@),
            join(dirs.last(), "wallpaper32.exe"@),
        ]
    }
}

fn exe_candidate_list(dirs: &Vec<String>) -> (out: Vec<String>)
    ensures
        strs_view(out@) == exe_candidates(strs_view(dirs@)),
{
    let mut out: Vec<String> = Vec::new();
    let mut i: usize = 0;
    while i < dirs.len()
        invariant
            i <= dirs.len(),
            strs_view(out@) == exe_candidates(strs_view(dirs@).take(i as int)),
        decreases dirs.len() - i,
    {
        let ghost before = out@;
        let a = path_join(dirs[i].as_str(), "wallpaper64.exe");
        let b = path_join(dirs[i].as_str(), "wallpaper32.exe");
        out.push(a);
        out.push(b);
        proof {
            let d = strs_view(dirs@).take(i + 1);
            assert(d.drop_last() =~= strs_view(dirs@).take(i as int));
            assert(d.last() == dirs@[i as int]@);
            assert(strs_view(out@) =~= strs_view(before) + seq![a@, b@]);
        }
        i += 1;
    }
    assert(strs_view(dirs@).take(dirs.len() as int) =~= strs_view(dirs@));
    out
}

/// The Wallpaper Engine executable of the first Steam library that holds
/// one (`wallpaper64.exe` before `wallpaper32.exe`), asking `is_file` about
/// each candidate in turn.
pub fn discover_wallpaper_engine_exe<F: Fn(String) -> bool>(home: &Option<String>, is_file: F) -> (r:
    Option<String>)
    requires
        total_probe(is_file),
    ensures
        exists|i: Option<usize>|
            first_accepted_spec(is_file, exe_candidates(app_dirs(opt_view(*home))), i) && opt_view(r)
                == picked(exe_candidates(app_dirs(opt_view(*home))), i),
{
    let roots = steam_common_roots(home);
    let dirs = join_each(&roots, "wallpaper_engine");
    let cands = exe_candidate_list(&dirs);
    let i = first_accepted(&is_file, &cands);
    let r = match i {
        Some(k) => Some(lit(cands[k].as_str())),
        None => None,
    };
    assert(strs_view(dirs@) == app_dirs(opt_view(*home)));
    assert(opt_view(r) == picked(strs_view(cands@), i));
    r
}

/// The Wallpaper Engine workshop folder of the first Steam library that
/// has one, asking `is_dir` about each in turn.
pub fn discover_workshop_wallpaper_root<F: Fn(String) -> bool>(home: &Option<String>, is_dir: F) -> (r:
    Option<String>)
    requires
        total_probe(is_dir),
    ensures
        exists|i: Option<usize>|
            first_accepted_spec(
                is_dir,
                joined_each(roots_under(opt_view(*home), workshop_rels()), decimal(WALLPAPER_ENGINE_APP_ID as nat)),
                i,
            ) && opt_view(r) == picked(
                joined_each(roots_under(opt_view(*home), workshop_rels()), decimal(WALLPAPER_ENGINE_APP_ID as nat)),
                i,
            ),
{
    let roots = steam_workshop_roots(home);
    let id = u32_to_decimal(WALLPAPER_ENGINE_APP_ID);
    let cands = join_each(&roots, id.as_str());
    let i = first_accepted(&is_dir, &cands);
    let r = match i {
        Some(k) => Some(lit(cands[k].as_str())),
        None => None,
    };
    assert(opt_view(r) == picked(strs_view(cands@), i));
    r
}

/// The Wallpaper Engine folder of the first Steam library that has one,
/// asking `is_dir` about each in turn.
pub fn discover_wallpaper_engine_app_dir<F: Fn(String) -> bool>(home: &Option<String>, is_dir: F) -> (r:
    Option<String>)
    requires
        total_probe(is_dir),
    ensures
        exists|i: Option<usize>|
            first_accepted_spec(is_dir, app_dirs(opt_view(*home)), i) && opt_view(r) == picked(
                app_dirs(opt_view(*home)),
                i,
            ),
{
    let roots = steam_common_roots(home);
    let dirs = join_each(&roots, "wallpaper_engine");
    let i = first_accepted(&is_dir, &dirs);
    let r = match i {
        Some(k) => Some(lit(dirs[k].as_str())),
        None => None,
    };
    assert(strs_view(dirs@) == app_dirs(opt_view(*home)));
    assert(opt_view(r) == picked(strs_view(dirs@), i));
    r
}

/// The default configuration file under a home directory.
pub fn default_config_path(home: &Option<String>) -> (r: Option<String>)
    ensures
        opt_view(r) == match opt_view(*home) {
            Some(h) => Some(join(h, ".config/we-layerd/config.toml"@)),
            None => None::<Seq<char>>,
        },
{
    match home {
        Some(h) => Some(path_join(h.as_str(), ".config/we-layerd/config.toml")),
        None => None,
    }
}

/// What the Steam libraries hold of Wallpaper Engine.
#[derive(Debug, Clone, PartialEq, Eq)]
pub enum WallpaperEngineInstallState {
    NotInstalled,
    FirstRunRequired { app_dir: String },
    Installed { app_dir: String, exe_path: String },
}

/// An install state, its paths taken as text.
pub enum InstallStateView {
    NotInstalled,
    FirstRunRequired { app_dir: Seq<char> },
    Installed { app_dir: Seq<char>, exe_path: Seq<char> },
}

/// The view of an install state.
pub open spec fn install_view(s: WallpaperEngineInstallState) -> InstallStateView {
    match s {
        WallpaperEngineInstallState::NotInstalled => InstallStateView::NotInstalled,
        WallpaperEngineInstallState::FirstRunRequired { app_dir } => InstallStateView::FirstRunRequired {
            app_dir: app_dir@,
        },
        WallpaperEngineInstallState::Installed { app_dir, exe_path } => InstallStateView::Installed {
            app_dir: app_dir@,
            exe_path: exe_path@,
        },
    }
}

/// A run of the scan over the Wallpaper Engine folders `dirs`, consistent
/// with the probes' answers, that ends in `r`: a folder that is not a
/// directory is skipped; in one that is, `wallpaper64.exe`, then
/// `wallpaper32.exe`, make it installed, else `installer.exe` makes it wait
/// for its first run, else the scan goes on; after the last folder nothing
/// is installed.
pub open spec fn scan_outcome<F: Fn(String) -> bool, G: Fn(String) -> bool>(
    is_file: F,
    is_dir: G,
    dirs: Seq<Seq<char>>,
    r: InstallStateView,
) -> bool
    decreases dirs.len(),
{
    if dirs.len() == 0 {
        r == InstallStateView::NotInstalled
    } else {
        let app = dirs[0];
        let exe64 = join(app, "wallpaper64.exe"@);
        let exe32 = join(app, "wallpaper32.exe"@);
        let installer = join(app, "installer.exe"@);
        ||| answered(is_dir, app, false) && scan_outcome(is_file, is_dir, dirs.drop_first(), r)
        ||| answered(is_dir, app, true) && answered(is_file, exe64, true) && r
            == InstallStateView::Installed { app_dir: app, exe_path: exe64 }
        ||| answered(is_dir, app, true) && answered(is_file, exe64, false) && answered(
            is_file,
            exe32,
            true,
        ) && r == InstallStateView::Installed { app_dir: app, exe_path: exe32 }
        ||| answered(is_dir, app, true) && answered(is_file, exe64, false) && answered(
            is_file,
            exe32,
            false,
        ) && answered(is_file, installer, true) && r == InstallStateView::FirstRunRequired {
            app_dir: app,
        }
        ||| answered(is_dir, app, true) && answered(is_file, exe64, false) && answered(
            is_file,
            exe32,
            false,
        ) && answered(is_file, installer, false) && scan_outcome(
            is_file,
            is_dir,
            dirs.drop_first(),
            r,
        )
    }
}

proof fn lemma_executables_distinct(app: Seq<char>)
    ensures
        join(app, "wallpaper64.exe"@) != join(app, "wallpaper32.exe"@),
{
    reveal_strlit("wallpaper64.exe");
    reveal_strlit("wallpaper32.exe");
    let p: Seq<char> = if app.len() == 0 || app.last() == '/' {
        app
    } else {
        app + seq!['/']
    };
    assert(join(app, "wallpaper64.exe"@) == p + "wallpaper64.exe"@);
    assert(join(app, "wallpaper32.exe"@) == p + "wallpaper32.exe"@);
    assert((p + "wallpaper64.exe"@)[p.len() + 9int] == '6');
    assert((p + "wallpaper32.exe"@)[p.len() + 9int] == '3');
}

/// The scan prefers `wallpaper64.exe`: where the folders before the `k`-th
/// are not directories and the `k`-th is a directory holding
/// `wallpaper64.exe` (the probes never answer otherwise), the install state
/// is that folder with `<folder>/wallpaper64.exe`, whether or not
/// `wallpaper32.exe` is there too. `detect_wallpaper_engine_install_state`
/// scans `app_dirs(home)` this way when no executable is configured.
pub proof fn law_scan_prefers_wallpaper64<F: Fn(String) -> bool, G: Fn(String) -> bool>(
    is_file: F,
    is_dir: G,
    dirs: Seq<Seq<char>>,
    k: int,
    r: InstallStateView,
)
    requires
        0 <= k < dirs.len(),
        forall|j: int| 0 <= j < k ==> !answered(is_dir, #[trigger] dirs[j], true),
        !answered(is_dir, dirs[k], false),
        !answered(is_file, join(dirs[k], "wallpaper64.exe"@), false),
        scan_outcome(is_file, is_dir, dirs, r),
    ensures
        r == (InstallStateView::Installed {
            app_dir: dirs[k],
            exe_path: join(dirs[k], "wallpaper64.exe"@),
        }),
    decreases k,
{
    if k > 0 {
        assert(!answered(is_dir, dirs[0], true));
        let rest = dirs.drop_first();
        assert forall|j: int| 0 <= j < k - 1 implies !answered(is_dir, #[trigger] rest[j], true) by {
            assert(rest[j] == dirs[j + 1]);
        }
        assert(rest[k - 1] == dirs[k]);
        law_scan_prefers_wallpaper64(is_file, is_dir, rest, k - 1, r);
    }
}

/// `wallpaper32.exe` is chosen only where `wallpaper64.exe` is absent: an
/// install state whose executable is `<folder>/wallpaper32.exe` comes from a
/// scan in which the probe said that `<folder>/wallpaper64.exe` is not a
/// file.
pub proof fn law_scan_wallpaper32_only_without_wallpaper64<F: Fn(String) -> bool, G: Fn(String) -> bool>(
    is_file: F,
    is_dir: G,
    dirs: Seq<Seq<char>>,
    r: InstallStateView,
)
    requires
        scan_outcome(is_file, is_dir, dirs, r),
    ensures
        r matches InstallStateView::Installed { app_dir, exe_path } ==> (exe_path == join(
            app_dir,
            "wallpaper32.exe"@,
        ) ==> answered(is_file, join(app_dir, "wallpaper64.exe"@), false)),
    decreases dirs.len(),
{
    if dirs.len() > 0 {
        let app = dirs[0];
        lemma_executables_distinct(app);
        if scan_outcome(is_file, is_dir, dirs.drop_first(), r) {
            law_scan_wallpaper32_only_without_wallpaper64(is_file, is_dir, dirs.drop_first(), r);
        }
    }
}

/// The file name is one of the two Wallpaper Engine executables (in any
/// case).
pub open spec fn is_supported_exe(exe: Seq<char>) -> bool {
    match file_name_of(exe) {
        Some(n) => ascii_lower(n) == "wallpaper64.exe"@ || ascii_lower(n) == "wallpaper32.exe"@,
        None => false,
    }
}

/// The folder of a configured executable (`PathBuf::pop`: the path itself
/// where it has no parent).
pub open spec fn folder_of(exe: Seq<char>) -> Seq<char> {
    match parent_of(exe) {
        Some(p) => p,
        None => exe,
    }
}

/// The state for a configured executable: installed where it is a file
/// named as a Wallpaper Engine executable.
pub open spec fn custom_outcome<F: Fn(String) -> bool>(is_file: F, exe: Seq<char>, r: InstallStateView) -> bool {
    ||| answered(is_file, exe, true) && is_supported_exe(exe) && r == InstallStateView::Installed {
        app_dir: folder_of(exe),
        exe_path: exe,
    }
    ||| answered(is_file, exe, true) && !is_supported_exe(exe) && r == InstallStateView::NotInstalled
    ||| answered(is_file, exe, false) && r == InstallStateView::NotInstalled
}

fn scan_app_dirs<F: Fn(String) -> bool, G: Fn(String) -> bool>(
    is_file: &F,
    is_dir: &G,
    dirs: &Vec<String>,
    from: usize,
) -> (r: WallpaperEngineInstallState)
    requires
        total_probe(*is_file),
        total_probe(*is_dir),
        from <= dirs.len(),
    ensures
        scan_outcome(*is_file, *is_dir, strs_view(dirs@).skip(from as int), install_view(r)),
    decreases dirs.len() - from,
{
    if from == dirs.len() {
        assert(strs_view(dirs@).skip(from as int) =~= Seq::<Seq<char>>::empty());
        return WallpaperEngineInstallState::NotInstalled;
    }
    let ghost rest = strs_view(dirs@).skip(from as int);
    assert(rest[0] == dirs@[from as int]@);
    assert(rest.drop_first() =~= strs_view(dirs@).skip(from + 1));
    let app = dirs[from].as_str();
    if !ask(is_dir, app) {
        return scan_app_dirs(is_file, is_dir, dirs, from + 1);
    }
    let exe64 = path_join(app, "wallpaper64.exe");
    if ask(is_file, exe64.as_str()) {
        return WallpaperEngineInstallState::Installed { app_dir: lit(app), exe_path: exe64 };
    }
    let exe32 = path_join(app, "wallpaper32.exe");
    if ask(is_file, exe32.as_str()) {
        return WallpaperEngineInstallState::Installed { app_dir: lit(app), exe_path: exe32 };
    }
    let installer = path_join(app, "installer.exe");
    if ask(is_file, installer.as_str()) {
        return WallpaperEngineInstallState::FirstRunRequired { app_dir: lit(app) };
    }
    scan_app_dirs(is_file, is_dir, dirs, from + 1)
}

/// Where and how Wallpaper Engine is installed. With no executable
/// configured (a blank one), the Steam libraries under `home` are scanned
/// in order; with one configured, it alone is checked.
pub fn detect_wallpaper_engine_install_state<F: Fn(String) -> bool, G: Fn(String) -> bool>(
    wallpaper_exe: &str,
    home: &Option<String>,
    is_file: F,
    is_dir: G,
) -> (r: WallpaperEngineInstallState)
    requires
        total_probe(is_file),
        total_probe(is_dir),
    ensures
        trim(wallpaper_exe@).len() == 0 ==> scan_outcome(
            is_file,
            is_dir,
            app_dirs(opt_view(*home)),
            install_view(r),
        ),
        trim(wallpaper_exe@).len() > 0 ==> custom_outcome(is_file, wallpaper_exe@, install_view(r)),
{
    if is_blank(wallpaper_exe) {
        let roots = steam_common_roots(home);
        let dirs = join_each(&roots, "wallpaper_engine");
        let r = scan_app_dirs(&is_file, &is_dir, &dirs, 0);
        assert(strs_view(dirs@).skip(0) =~= strs_view(dirs@));
        assert(strs_view(dirs@) == app_dirs(opt_view(*home)));
        r
    } else {
        let exists = ask(&is_file, wallpaper_exe);
        let supported = match path_file_name(wallpaper_exe) {
            Some(name) => {
                let lower = to_ascii_lower(name.as_str());
                str_eq(lower.as_str(), "wallpaper64.exe") || str_eq(lower.as_str(), "wallpaper32.exe")
            },
            None => false,
        };
        if exists && supported {
            let app_dir = match path_parent(wallpaper_exe) {
                Some(p) => p,
                None => lit(wallpaper_exe),
            };
            WallpaperEngineInstallState::Installed { app_dir, exe_path: lit(wallpaper_exe) }
        } else {
            WallpaperEngineInstallState::NotInstalled
        }
    }
}

/// A Proton build found in a Steam library or in `compatibilitytools.d`.
#[derive(Debug, Clone, PartialEq, Eq)]
pub struct ProtonInstall {
    pub name: String,
    pub proton_path: String,
}

/// A folder listed while looking for Proton builds, with what the file
/// system said of it: whether it is a directory and whether it holds a
/// `proton` file.
#[derive(Debug, Clone)]
pub struct ProtonCandidate {
    pub dir: String,
    pub is_dir: bool,
    pub proton_is_file: bool,
}

/// A Proton build as a pair of texts: its name and its `proton` script.
pub open spec fn install_pair(p: ProtonInstall) -> (Seq<char>, Seq<char>) {
    (p.name@, p.proton_path@)
}

/// The name shown for a Proton folder: its final component, else `Proton`.
pub open spec fn proton_name(dir: Seq<char>) -> Seq<char> {
    match file_name_of(dir) {
        Some(n) => n,
        None => "Proton"@,
    }
}

/// The builds found in the listed folders, in listing order, each
/// `proton` script once (its first folder kept).
pub open spec fn found_builds(c: Seq<ProtonCandidate>) -> Seq<(Seq<char>, Seq<char>)>
    decreases c.len(),
{
    if c.len() == 0 {
        Seq::empty()
    } else {
        let prev = found_builds(c.drop_last());
        let d = c.last();
        let path = join(d.dir@, "proton"@);
        if d.is_dir && d.proton_is_file && !(exists|k: int| 0 <= k < prev.len() && #[trigger] prev[k].1 == path) {
            prev.push((proton_name(d.dir@), path))
        } else {
            prev
        }
    }
}

/// `r` is `d` sorted by name with equal names kept in their order (the
/// result of a stable sort): `idx` says where each entry of `r` stood in
/// `d`.
pub open spec fn stable_sorted_by_name_with(
    r: Seq<(Seq<char>, Seq<char>)>,
    d: Seq<(Seq<char>, Seq<char>)>,
    idx: Seq<int>,
) -> bool {
    &&& r.len() == d.len()
    &&& idx.len() == r.len()
    &&& forall|p: int| 0 <= p < r.len() ==> 0 <= #[trigger] idx[p] < d.len() && r[p] == d[idx[p]]
    &&& forall|p: int, q: int| 0 <= p < q < r.len() ==> idx[p] != idx[q]
    &&& forall|p: int, q: int| 0 <= p < q < r.len() ==> !text_less(r[q].0, r[p].0)
    &&& forall|p: int, q: int| 0 <= p < q < r.len() && r[p].0 == r[q].0 ==> idx[p] < idx[q]
}

/// `r` is `d` stably sorted by name.
pub open spec fn stable_sorted_by_name(r: Seq<(Seq<char>, Seq<char>)>, d: Seq<(Seq<char>, Seq<char>)>) -> bool {
    exists|idx: Seq<int>| stable_sorted_by_name_with(r, d, idx)
}

/// The views of a list of builds.
pub open spec fn builds_view(v: Seq<ProtonInstall>) -> Seq<(Seq<char>, Seq<char>)> {
    v.map_values(|p: ProtonInstall| install_pair(p))
}

fn collect_builds(c: &Vec<ProtonCandidate>) -> (out: Vec<ProtonInstall>)
    ensures
        builds_view(out@) == found_builds(c@),
{
    let mut out: Vec<ProtonInstall> = Vec::new();
    let mut i: usize = 0;
    while i < c.len()
        invariant
            i <= c.len(),
            builds_view(out@) == found_builds(c@.take(i as int)),
        decreases c.len() - i,
    {
        assert(c@.take(i + 1).drop_last() =~= c@.take(i as int));
        let d = &c[i];
        if d.is_dir && d.proton_is_file {
            let path = path_join(d.dir.as_str(), "proton");
            let mut seen = false;
            let mut k: usize = 0;
            while k < out.len()
                invariant
                    k <= out.len(),
                    seen == (exists|j: int| 0 <= j < k && #[trigger] builds_view(out@)[j].1 == path@),
                decreases out.len() - k,
            {
                if str_eq(out[k].proton_path.as_str(), path.as_str()) {
                    seen = true;
                }
                proof {
                    if seen {
                        if !(exists|j: int| 0 <= j < k && #[trigger] builds_view(out@)[j].1 == path@) {
                            assert(builds_view(out@)[k as int].1 == path@);
                        }
                    }
                }
                k += 1;
            }
            if !seen {
                let name = match path_file_name(d.dir.as_str()) {
                    Some(n) => n,
                    None => lit("Proton"),
                };
                let ghost before = out@;
                out.push(ProtonInstall { name, proton_path: path });
                assert(builds_view(out@) =~= builds_view(before).push(install_pair(out@[before.len() as int])));
            }
        }
        i += 1;
    }
    assert(c@.take(c.len() as int) =~= c@);
    out
}

/// Sorts builds by name, keeping builds of equal name in their order.
fn sort_builds_by_name(v: Vec<ProtonInstall>) -> (out: Vec<ProtonInstall>)
    ensures
        stable_sorted_by_name(builds_view(out@), builds_view(v@)),
{
    let ghost d = builds_view(v@);
    let mut names: Vec<String> = Vec::new();
    let mut i: usize = 0;
    while i < v.len()
        invariant
            i <= v.len(),
            d == builds_view(v@),
            names.len() == i,
            forall|p: int| 0 <= p < i ==> #[trigger] names@[p]@ == d[p].0,
        decreases v.len() - i,
    {
        names.push(lit(v[i].name.as_str()));
        i += 1;
    }
    assert(strs_view(names@) =~= d.map_values(|e: (Seq<char>, Seq<char>)| e.0));
    let order = stable_order(&names);
    let ghost idx = positions(order@);
    let mut out: Vec<ProtonInstall> = Vec::new();
    let mut p: usize = 0;
    while p < order.len()
        invariant
            p <= order.len(),
            order.len() == v.len(),
            d == builds_view(v@),
            stable_order_of(strs_view(names@), idx),
            idx == positions(order@),
            out.len() == p,
            forall|q: int| 0 <= q < p ==> #[trigger] builds_view(out@)[q] == d[idx[q]],
        decreases order.len() - p,
    {
        assert(0 <= idx[p as int] < v.len());
        let e = &v[order[p]];
        let ghost before = out@;
        out.push(ProtonInstall { name: lit(e.name.as_str()), proton_path: lit(e.proton_path.as_str()) });
        proof {
            assert(builds_view(out@)[p as int] == install_pair(out@[p as int]));
            assert(install_pair(out@[p as int]) == install_pair(*e));
            assert(*e == v@[idx[p as int]]);
            assert forall|q: int| 0 <= q < p + 1 implies #[trigger] builds_view(out@)[q] == d[idx[q]] by {
                if q < p {
                    assert(out@[q] == before[q]);
                    assert(builds_view(out@)[q] == builds_view(before)[q]);
                } else {
                    assert(idx[q] == order@[q] as int);
                    assert(d[idx[q]] == install_pair(v@[idx[q]]));
                }
            }
        }
        p += 1;
    }
    proof {
        let r = builds_view(out@);
        let ks = strs_view(names@);
        assert forall|q: int| 0 <= q < r.len() implies r[q].0 == ks[idx[q]] by {
            assert(r[q] == d[idx[q]]);
        }
        assert(stable_sorted_by_name_with(r, d, idx));
    }
    out
}

/// The Proton builds among the listed folders: those that are directories
/// holding a `proton` file, each script once, sorted by name with builds
/// of equal name in listing order.
pub fn discover_proton_installs(listed: &Vec<ProtonCandidate>) -> (r: Vec<ProtonInstall>)
    ensures
        stable_sorted_by_name(builds_view(r@), found_builds(listed@)),
{
    let found = collect_builds(listed);
    sort_builds_by_name(found)
}

/// The `compatibilitytools.d` folder of the Steam install that holds a
/// library folder (`<steam>/steamapps/common`).
pub open spec fn compat_root_of(common_root: Seq<char>) -> Option<Seq<char>> {
    match parent_of(common_root) {
        Some(steamapps) => match parent_of(steamapps) {
            Some(steam) => Some(join(steam, "compatibilitytools.d"@)),
            None => None,
        },
        None => None,
    }
}

/// The folders listed for Proton builds, in order: each library folder,
/// then the compatibility tools of its Steam install where it has one.
pub open spec fn proton_search_dirs_of(roots: Seq<Seq<char>>) -> Seq<Seq<char>>
    decreases roots.len(),
{
    if roots.len() == 0 {
        Seq::empty()
    } else {
        let prev = proton_search_dirs_of(roots.drop_last());
        match compat_root_of(roots.last()) {
            Some(c) => prev + seq![roots.last(), c],
            None => prev.push(roots.last()),
        }
    }
}

/// The folders to list for Proton builds under a home directory.
pub fn proton_search_dirs(home: &Option<String>) -> (dirs: Vec<String>)
    ensures
        strs_view(dirs@) == proton_search_dirs_of(roots_under(opt_view(*home), common_rels())),
{
    let roots = steam_common_roots(home);
    let mut out: Vec<String> = Vec::new();
    let mut i: usize = 0;
    while i < roots.len()
        invariant
            i <= roots.len(),
            strs_view(out@) == proton_search_dirs_of(strs_view(roots@).take(i as int)),
        decreases roots.len() - i,
    {
        let root = roots[i].as_str();
        let ghost before = out@;
        proof {
            let t = strs_view(roots@).take(i + 1);
            assert(t.drop_last() =~= strs_view(roots@).take(i as int));
            assert(t.last() == roots@[i as int]@);
        }
        out.push(lit(root));
        let compat = match path_parent(root) {
            Some(steamapps) => match path_parent(steamapps.as_str()) {
                Some(steam) => Some(path_join(steam.as_str(), "compatibilitytools.d")),
                None => None,
            },
            None => None,
        };
        if let Some(c) = compat {
            out.push(c);
            assert(strs_view(out@) =~= strs_view(before) + seq![roots@[i as int]@, c@]);
        } else {
            assert(strs_view(out@) =~= strs_view(before).push(roots@[i as int]@));
        }
        i += 1;
    }
    assert(strs_view(roots@).take(roots.len() as int) =~= strs_view(roots@));
    out
}

/// A file name that is a Wine launcher: `wine`, `wine64`, `wine-staging`
/// or any `wine-` name.
pub open spec fn is_wine_command_name(name: Seq<char>) -> bool {
    name == "wine"@ || name == "wine64"@ || name == "wine-staging"@ || starts_with(name, "wine-"@)
}

/// Whether a file name is a Wine launcher.
pub fn wine_command_name(name: &str) -> (r: bool)
    ensures
        r == is_wine_command_name(name@),
{
    str_eq(name, "wine") || str_eq(name, "wine64") || str_eq(name, "wine-staging")
        || starts_with_str(name, "wine-")
}

/// The Wine launchers to offer: `wine`, `wine64`, `wine-staging` and the
/// Wine launchers among the file names found on `PATH`, sorted, each once.
pub fn discover_wine_commands(found_on_path: &Vec<String>) -> (r: Vec<String>)
    ensures
        strictly_ascending(strs_view(r@)),
        forall|t: Seq<char>| #[trigger] strs_view(r@).contains(t) <==> (t == "wine"@ || t == "wine64"@ || t
            == "wine-staging"@ || (strs_view(found_on_path@).contains(t) && is_wine_command_name(t))),
{
    let mut all: Vec<String> = Vec::new();
    all.push(lit("wine"));
    all.push(lit("wine64"));
    all.push(lit("wine-staging"));
    proof {
        let s3 = strs_view(all@);
        assert(s3 =~= seq!["wine"@, "wine64"@, "wine-staging"@]);
        assert forall|t: Seq<char>| #[trigger] s3.contains(t) <==> (t == "wine"@ || t == "wine64"@ || t
            == "wine-staging"@) by {
            if t == "wine"@ {
                assert(s3[0] == t);
            }
            if t == "wine64"@ {
                assert(s3[1] == t);
            }
            if t == "wine-staging"@ {
                assert(s3[2] == t);
            }
        }
        assert(strs_view(found_on_path@).take(0) =~= Seq::<Seq<char>>::empty());
    }
    let mut i: usize = 0;
    while i < found_on_path.len()
        invariant
            i <= found_on_path.len(),
            forall|t: Seq<char>| #[trigger] strs_view(all@).contains(t) <==> (t == "wine"@ || t == "wine64"@ || t
                == "wine-staging"@ || (strs_view(found_on_path@).take(i as int).contains(t)
                && is_wine_command_name(t))),
        decreases found_on_path.len() - i,
    {
        let name = found_on_path[i].as_str();
        let ghost before = strs_view(all@);
        proof {
            assert(strs_view(found_on_path@).take(i + 1) =~= strs_view(found_on_path@).take(i as int).push(
                name@,
            ));
        }
        if wine_command_name(name) {
            all.push(lit(name));
            assert(strs_view(all@) =~= before.push(name@));
            assert forall|t: Seq<char>| #[trigger] strs_view(all@).contains(t) <==> (t == "wine"@ || t
                == "wine64"@ || t == "wine-staging"@ || (strs_view(found_on_path@).take(i + 1).contains(t)
                && is_wine_command_name(t))) by {
                if strs_view(all@).contains(t) && t != name@ {
                    let j = choose|j: int| 0 <= j < strs_view(all@).len() && #[trigger] strs_view(all@)[j] == t;
                    assert(before[j] == t);
                }
                if strs_view(found_on_path@).take(i + 1).contains(t) && t != name@ {
                    let j = choose|j: int| 0 <= j < i + 1 && #[trigger] strs_view(found_on_path@).take(i + 1)[j] == t;
                    assert(strs_view(found_on_path@).take(i as int)[j] == t);
                }
                if before.contains(t) {
                    let j = choose|j: int| 0 <= j < before.len() && #[trigger] before[j] == t;
                    assert(strs_view(all@)[j] == t);
                }
                if t == name@ {
                    assert(strs_view(all@)[before.len() as int] == t);
                    assert(strs_view(found_on_path@).take(i + 1)[i as int] == t);
                }
            }
        } else {
            assert forall|t: Seq<char>| #[trigger] strs_view(all@).contains(t) <==> (t == "wine"@ || t
                == "wine64"@ || t == "wine-staging"@ || (strs_view(found_on_path@).take(i + 1).contains(t)
                && is_wine_command_name(t))) by {
                if strs_view(found_on_path@).take(i + 1).contains(t) && t != name@ {
                    let j = choose|j: int| 0 <= j < i + 1 && #[trigger] strs_view(found_on_path@).take(i + 1)[j] == t;
                    assert(strs_view(found_on_path@).take(i as int)[j] == t);
                }
                if strs_view(found_on_path@).take(i as int).contains(t) {
                    let j = choose|j: int| 0 <= j < i && #[trigger] strs_view(found_on_path@).take(i as int)[j] == t;
                    assert(strs_view(found_on_path@).take(i + 1)[j] == t);
                }
            }
        }
        i += 1;
    }
    assert(strs_view(found_on_path@).take(found_on_path.len() as int) =~= strs_view(found_on_path@));
    let r = sorted_unique(&all);
    assert forall|t: Seq<char>| #[trigger] strs_view(r@).contains(t) <==> strs_view(all@).contains(t) by {
        assert(strs_view(r@).to_set().contains(t) == strs_view(r@).contains(t));
        assert(strs_view(all@).to_set().contains(t) == strs_view(all@).contains(t));
    }
    r
}

} // verus!
