//! The settings panel: its choices, the screen resolutions it offers and
//! the way it shows paths.
use vstd::prelude::*;

use crate::text::{
    chars_range, concat, is_blank, lines, lit, opt_view, parse_u32, parse_u32_str, split_lines,
    split_words, str_eq, strs_view, to_chars, trim, trim_str, u32_to_decimal, decimal, words,
    starts_with, starts_with_str,
};

verus! {

/// A screen resolution offered in the panel.
#[derive(Debug, Clone, Copy, PartialEq, Eq, Structural)]
pub struct ResolutionOption {
    pub width: u32,
    pub height: u32,
}

/// The label of a resolution: `<width> x <height>`.
pub open spec fn resolution_label(r: ResolutionOption) -> Seq<char> {
    decimal(r.width as nat) + " x "@ + decimal(r.height as nat)
}

impl ResolutionOption {
    /// The label shown for the resolution.
    pub fn label(&self) -> (s: String)
        ensures
            s@ == resolution_label(*self),
    {
        let w = u32_to_decimal(self.width);
        let h = u32_to_decimal(self.height);
        let a = concat(w.as_str(), " x ");
        concat(a.as_str(), h.as_str())
    }
}

/// Which Wallpaper Engine executable is launched.
#[derive(Debug, Clone, Copy, PartialEq, Eq, Structural)]
pub enum ExecutableVariantOption {
    Wallpaper64,
    Wallpaper32,
}

/// The file name of an executable variant.
pub open spec fn variant_file(v: ExecutableVariantOption) -> Seq<char> {
    match v {
        ExecutableVariantOption::Wallpaper64 => "wallpaper64.exe"@,
        ExecutableVariantOption::Wallpaper32 => "wallpaper32.exe"@,
    }
}

impl ExecutableVariantOption {
    /// The file name of the executable; it is also its label.
    pub fn filename(self) -> (s: &'static str)
        ensures
            s@ == variant_file(self),
    {
        match self {
            ExecutableVariantOption::Wallpaper64 => "wallpaper64.exe",
            ExecutableVariantOption::Wallpaper32 => "wallpaper32.exe",
        }
    }
}

/// How Windows programs are started.
#[derive(Debug, Clone, Copy, PartialEq, Eq, Structural)]
pub enum LauncherModeOption {
    Wine,
    Proton,
}

impl LauncherModeOption {
    /// The label shown for the launcher.
    pub fn label(self) -> (s: &'static str)
        ensures
            s@ == match self {
                LauncherModeOption::Wine => "Wine"@,
                LauncherModeOption::Proton => "Proton"@,
            },
    {
        match self {
            LauncherModeOption::Wine => "Wine",
            LauncherModeOption::Proton => "Proton",
        }
    }
}

/// An entry of the Wine command or Proton version lists.
#[derive(Debug, Clone, PartialEq, Eq)]
pub struct LauncherChoice {
    pub label: String,
    pub value: String,
}

/// How the cgroup support works.
#[derive(Debug, Clone, Copy, PartialEq, Eq, Structural)]
pub enum CgroupModeOption {
    Detect,
    LimitWine,
}

impl CgroupModeOption {
    /// The label shown for the mode.
    pub fn label(self) -> (s: &'static str)
        ensures
            s@ == match self {
                CgroupModeOption::Detect => "Detect (observe self + wine)"@,
                CgroupModeOption::LimitWine => "Limit Wine only"@,
            },
    {
        match self {
            CgroupModeOption::Detect => "Detect (observe self + wine)",
            CgroupModeOption::LimitWine => "Limit Wine only",
        }
    }
}

/// What the settings panel holds, as the user edits it.
#[derive(Debug, Clone)]
pub struct UiSettings {
    pub wallpaper_exe: String,
    pub executable_variant: ExecutableVariantOption,
    pub workshop_path: String,
    pub launcher_mode: LauncherModeOption,
    pub wine_command: String,
    pub proton_path: String,
    pub fps_limit: String,
    pub show_fps: bool,
    pub borderless: bool,
    pub hide_debug_window: bool,
    pub hidden_workspace_name: String,
    pub selected_resolution: Option<ResolutionOption>,
    pub cgroup_enabled: bool,
    pub cgroup_mode: CgroupModeOption,
    pub cgroup_memory_max: String,
    pub cgroup_cpu_max: String,
    pub status_text: String,
}

// ---------------------------------------------------------------------------
// Resolutions
// ---------------------------------------------------------------------------
/// The position of the first `c` in `s`.
pub open spec fn find_char(s: Seq<char>, c: char) -> Option<int>
    decreases s.len(),
{
    if s.len() == 0 {
        None
    } else if s[0] == c {
        Some(0)
    } else {
        match find_char(s.drop_first(), c) {
            Some(i) => Some(i + 1),
            None => None,
        }
    }
}

/// The resolution a `<width>x<height>` word names (split at its first
/// `x`), where both are numbers and it is at least 640 x 360.
pub open spec fn token_resolution(tok: Seq<char>) -> Option<ResolutionOption> {
    match find_char(tok, 'x') {
        Some(i) => match (parse_u32(tok.take(i)), parse_u32(tok.skip(i + 1))) {
            (Some(w), Some(h)) => if w >= 640 && h >= 360 {
                Some(ResolutionOption { width: w, height: h })
            } else {
                None
            },
            _ => None,
        },
        None => None,
    }
}

/// The resolutions named by a list of words, in order.
pub open spec fn resolutions_in_words(ws: Seq<Seq<char>>) -> Seq<ResolutionOption>
    decreases ws.len(),
{
    if ws.len() == 0 {
        Seq::empty()
    } else {
        let prev = resolutions_in_words(ws.drop_last());
        match token_resolution(ws.last()) {
            Some(r) => prev.push(r),
            None => prev,
        }
    }
}

/// The resolutions named in a list of lines, in order.
pub open spec fn resolutions_in_lines(ls: Seq<Seq<char>>) -> Seq<ResolutionOption>
    decreases ls.len(),
{
    if ls.len() == 0 {
        Seq::empty()
    } else {
        resolutions_in_lines(ls.drop_last()) + resolutions_in_words(words(trim(ls.last())))
    }
}

/// The position of the first `c` in a character list.
fn find_char_exec(v: &Vec<char>, c: char) -> (r: Option<usize>)
    ensures
        match r {
            Some(i) => i < v.len(),
            None => true,
        },
        match find_char(v@, c) {
            Some(i) => 0 <= i < v.len() && r == Some(i as usize),
            None => r is None,
        },
{
    let mut i: usize = 0;
    assert(v@.skip(0) =~= v@);
    while i < v.len()
        invariant
            i <= v.len(),
            forall|j: int| 0 <= j < i ==> v@[j] != c,
            find_char(v@, c) == match find_char(v@.skip(i as int), c) {
                Some(k) => Some(k + i),
                None => None,
            },
        decreases v.len() - i,
    {
        assert(v@.skip(i as int).drop_first() =~= v@.skip(i + 1));
        if v[i] == c {
            return Some(i);
        }
        i += 1;
    }
    None
}

/// The resolution a word names, if any.
pub fn token_to_resolution(tok: &str) -> (r: Option<ResolutionOption>)
    ensures
        r == token_resolution(tok@),
{
    let v = to_chars(tok);
    match find_char_exec(&v, 'x') {
        Some(i) => {
            assert(find_char(tok@, 'x') == Some(i as int));
            let w = chars_range(&v, 0, i);
            let h = chars_range(&v, i + 1, v.len());
            assert(w@ =~= tok@.take(i as int));
            assert(h@ =~= tok@.skip(i + 1));
            match (parse_u32_str(w.as_str()), parse_u32_str(h.as_str())) {
                (Some(width), Some(height)) => {
                    if width >= 640 && height >= 360 {
                        Some(ResolutionOption { width, height })
                    } else {
                        None
                    }
                },
                _ => None,
            }
        },
        None => None,
    }
}

/// The resolutions that `wlr-randr` or `xrandr --query` print: every word
/// `<width>x<height>` of at least 640 x 360, in order.
pub fn parse_resolutions_from_text(raw: &str) -> (r: Vec<ResolutionOption>)
    ensures
        r@ == resolutions_in_lines(lines(raw@)),
{
    let ls = split_lines(raw);
    let mut out: Vec<ResolutionOption> = Vec::new();
    let mut i: usize = 0;
    while i < ls.len()
        invariant
            i <= ls.len(),
            strs_view(ls@) == lines(raw@),
            out@ == resolutions_in_lines(strs_view(ls@).take(i as int)),
        decreases ls.len() - i,
    {
        let line = trim_str(ls[i].as_str());
        let ws = split_words(line.as_str());
        let ghost start = out@;
        let mut j: usize = 0;
        while j < ws.len()
            invariant
                j <= ws.len(),
                out@ == start + resolutions_in_words(strs_view(ws@).take(j as int)),
            decreases ws.len() - j,
        {
            proof {
                let t = strs_view(ws@).take(j + 1);
                assert(t.drop_last() =~= strs_view(ws@).take(j as int));
                assert(t.last() == ws@[j as int]@);
            }
            if let Some(res) = token_to_resolution(ws[j].as_str()) {
                out.push(res);
            }
            j += 1;
        }
        proof {
            assert(strs_view(ws@).take(ws.len() as int) =~= strs_view(ws@));
            let t = strs_view(ls@).take(i + 1);
            assert(t.drop_last() =~= strs_view(ls@).take(i as int));
            assert(t.last() == ls@[i as int]@);
        }
        i += 1;
    }
    assert(strs_view(ls@).take(ls.len() as int) =~= strs_view(ls@));
    out
}

/// `a` comes before `b` ordered by width, then height.
pub open spec fn resolution_less(a: ResolutionOption, b: ResolutionOption) -> bool {
    a.width < b.width || (a.width == b.width && a.height < b.height)
}

/// Each resolution comes before every later one.
pub open spec fn ascending_resolutions(s: Seq<ResolutionOption>) -> bool {
    forall|i: int, j: int| 0 <= i < j < s.len() ==> resolution_less(s[i], s[j])
}

/// The resolutions of `v` sorted by width and height, each once.
pub fn sorted_unique_resolutions(v: &Vec<ResolutionOption>) -> (r: Vec<ResolutionOption>)
    ensures
        ascending_resolutions(r@),
        r@.to_set() == v@.to_set(),
{
    let mut out: Vec<ResolutionOption> = Vec::new();
    let mut i: usize = 0;
    while i < v.len()
        invariant
            i <= v.len(),
            ascending_resolutions(out@),
            out@.to_set() == v@.take(i as int).to_set(),
        decreases v.len() - i,
    {
        let x = v[i];
        let mut k: usize = 0;
        while k < out.len() && resolution_before(out[k], x)
            invariant
                k <= out.len(),
                forall|j: int| 0 <= j < k ==> resolution_less(#[trigger] out@[j], x),
            decreases out.len() - k,
        {
            k += 1;
        }
        let ghost before = out@;
        assert(v@.take(i + 1) =~= v@.take(i as int).push(x));
        proof {
            v@.take(i as int).lemma_push_to_set_commute(x);
        }
        if k < out.len() && out[k] == x {
            assert(before.contains(x)) by {
                assert(before[k as int] == x);
            }
            assert(v@.take(i + 1).to_set() =~= before.to_set());
        } else {
            assert(k < before.len() ==> resolution_less(x, before[k as int]));
            out.insert(k, x);
            proof {
                let after = out@;
                assert(after =~= before.insert(k as int, x));
                assert forall|p: int, q: int| 0 <= p < q < after.len() implies resolution_less(
                    after[p],
                    after[q],
                ) by {
                    if q < k {
                    } else if q == k {
                    } else if p < k {
                        assert(after[p] == before[p]);
                        assert(resolution_less(before[p], x));
                        assert(after[q] == before[q - 1]);
                        if q - 1 > k {
                            assert(resolution_less(before[k as int], before[q - 1]));
                        }
                    } else if p == k {
                        assert(after[q] == before[q - 1]);
                        if q - 1 > k {
                            assert(resolution_less(before[k as int], before[q - 1]));
                        }
                    } else {
                        assert(after[p] == before[p - 1]);
                        assert(after[q] == before[q - 1]);
                    }
                }
                assert(after.to_set() =~= before.to_set().insert(x)) by {
                    assert forall|t: ResolutionOption| after.to_set().contains(t) implies before.to_set().insert(
                        x,
                    ).contains(t) by {
                        let j = choose|j: int| 0 <= j < after.len() && #[trigger] after[j] == t;
                        if j < k {
                            assert(before[j] == t);
                        } else if j > k {
                            assert(before[j - 1] == t);
                        }
                    }
                    assert forall|t: ResolutionOption| before.to_set().insert(x).contains(t) implies after.to_set().contains(
                        t,
                    ) by {
                        if t == x {
                            assert(after[k as int] == t);
                        } else {
                            let j = choose|j: int| 0 <= j < before.len() && #[trigger] before[j] == t;
                            if j < k {
                                assert(after[j] == t);
                            } else {
                                assert(after[j + 1] == t);
                            }
                        }
                    }
                }
            }
        }
        i += 1;
    }
    assert(v@.take(v.len() as int) =~= v@);
    out
}

/// Whether `a` comes before `b` ordered by width, then height.
pub fn resolution_before(a: ResolutionOption, b: ResolutionOption) -> (r: bool)
    ensures
        r == resolution_less(a, b),
{
    a.width < b.width || (a.width == b.width && a.height < b.height)
}

/// The resolutions first found, or 1920 x 1080 where none was.
pub open spec fn or_default_resolution(found: Seq<ResolutionOption>) -> Seq<ResolutionOption> {
    if found.len() == 0 {
        seq![ResolutionOption { width: 1920, height: 1080 }]
    } else {
        found
    }
}

/// The resolutions an output names (none where the tool did not run).
pub open spec fn output_resolutions(output: Option<String>) -> Seq<ResolutionOption> {
    match output {
        Some(text) => resolutions_in_lines(lines(text@)),
        None => Seq::empty(),
    }
}

fn resolutions_of_output(output: &Option<String>) -> (r: Vec<ResolutionOption>)
    ensures
        r@ == output_resolutions(*output),
{
    match output {
        Some(text) => parse_resolutions_from_text(text.as_str()),
        None => Vec::new(),
    }
}

/// The resolutions the panel offers: those `wlr-randr` prints, else those
/// `xrandr --query` prints (asked only then), else 1920 x 1080; sorted by
/// width and height, each once. Each tool is a closure that gives its
/// output where it ran and succeeded.
pub fn detect_supported_resolutions<F: Fn() -> Option<String>, G: Fn() -> Option<String>>(
    wlr_randr: F,
    xrandr: G,
) -> (r: Vec<ResolutionOption>)
    requires
        call_requires(wlr_randr, ()),
        call_requires(xrandr, ()),
    ensures
        ascending_resolutions(r@),
        exists|w: Option<String>|
            call_ensures(wlr_randr, (), w) && (output_resolutions(w).len() > 0 ==> r@.to_set()
                == output_resolutions(w).to_set()) && (output_resolutions(w).len() == 0 ==> exists|
                x: Option<String>,
            |
                call_ensures(xrandr, (), x) && r@.to_set() == or_default_resolution(
                    output_resolutions(x),
                ).to_set()),
{
    let w = wlr_randr();
    let mut values = resolutions_of_output(&w);
    if values.len() == 0 {
        let x = xrandr();
        values = resolutions_of_output(&x);
        if values.len() == 0 {
            values.push(ResolutionOption { width: 1920, height: 1080 });
        }
        let r = sorted_unique_resolutions(&values);
        assert(values@ =~= or_default_resolution(output_resolutions(x)));
        assert(call_ensures(xrandr, (), x));
        r
    } else {
        sorted_unique_resolutions(&values)
    }
}

/// The offered resolution equal to the configured size, if offered.
pub fn pick_initial_resolution(supported: &Vec<ResolutionOption>, width: u32, height: u32) -> (r:
    Option<ResolutionOption>)
    ensures
        supported@.contains((ResolutionOption { width, height })) ==> r == Some(
            ResolutionOption { width, height },
        ),
        !supported@.contains((ResolutionOption { width, height })) ==> r is None,
{
    let mut i: usize = 0;
    while i < supported.len()
        invariant
            i <= supported.len(),
            forall|j: int| 0 <= j < i ==> supported@[j] != (ResolutionOption { width, height }),
        decreases supported.len() - i,
    {
        let r = supported[i];
        if r.width == width && r.height == height {
            return Some(r);
        }
        i += 1;
    }
    None
}

/// The choice whose value is selected, the first where several are.
pub fn pick_selected_choice(choices: &Vec<LauncherChoice>, value: &str) -> (r: Option<LauncherChoice>)
    ensures
        match r {
            Some(c) => exists|i: int|
                0 <= i < choices.len() && choices@[i].value@ == value@ && c.label@ == choices@[i].label@
                    && c.value@ == choices@[i].value@ && forall|j: int|
                    0 <= j < i ==> #[trigger] choices@[j].value@ != value@,
            None => forall|j: int| 0 <= j < choices.len() ==> #[trigger] choices@[j].value@ != value@,
        },
{
    let mut i: usize = 0;
    while i < choices.len()
        invariant
            i <= choices.len(),
            forall|j: int| 0 <= j < i ==> #[trigger] choices@[j].value@ != value@,
        decreases choices.len() - i,
    {
        if str_eq(choices[i].value.as_str(), value) {
            return Some(
                LauncherChoice {
                    label: lit(choices[i].label.as_str()),
                    value: lit(choices[i].value.as_str()),
                },
            );
        }
        i += 1;
    }
    None
}

// ---------------------------------------------------------------------------
// Paths
// ---------------------------------------------------------------------------
/// A path with the home directory at its start written `~`.
pub open spec fn home_shortened(path: Seq<char>, home: Option<Seq<char>>) -> Seq<char> {
    match home {
        Some(h) => if starts_with(path, h) {
            "~"@ + path.skip(h.len() as int)
        } else {
            path
        },
        None => path,
    }
}

/// A path as the panel shows it: the home directory written `~`, and where
/// it is still longer than `max_chars` characters, its head and tail around
/// `...` so that it fits.
pub open spec fn displayed_path(path: Seq<char>, home: Option<Seq<char>>, max_chars: nat) -> Seq<char> {
    let r = home_shortened(path, home);
    if r.len() <= max_chars {
        r
    } else {
        let keep = if max_chars >= 3 {
            (max_chars - 3) as nat
        } else {
            0nat
        };
        let head = keep / 2;
        let tail = (keep - head) as nat;
        r.take(head as int) + "..."@ + r.skip(r.len() - tail)
    }
}

/// Shows a path in the panel within `max_chars` characters.
pub fn format_path_for_display(path: &str, home: &Option<String>, max_chars: usize) -> (r: String)
    ensures
        r@ == displayed_path(path@, opt_view(*home), max_chars as nat),
        max_chars >= 3 ==> r@.len() <= max_chars,
{
    let rendered = match home {
        Some(h) => {
            if starts_with_str(path, h.as_str()) {
                let v = to_chars(path);
                let hv = to_chars(h.as_str());
                let rest = chars_range(&v, hv.len(), v.len());
                proof {
                    reveal_strlit("~");
                }
                concat("~", rest.as_str())
            } else {
                lit(path)
            }
        },
        None => lit(path),
    };
    let rv = to_chars(rendered.as_str());
    if rv.len() <= max_chars {
        return rendered;
    }
    let keep: usize = if max_chars >= 3 {
        max_chars - 3
    } else {
        0
    };
    let keep_head = keep / 2;
    let keep_tail = keep - keep_head;
    let head = chars_range(&rv, 0, keep_head);
    let tail = chars_range(&rv, rv.len() - keep_tail, rv.len());
    let a = concat(head.as_str(), "...");
    let out = concat(a.as_str(), tail.as_str());
    assert(head@ =~= rendered@.take(keep_head as int));
    assert(tail@ =~= rendered@.skip(rendered@.len() - keep_tail));
    proof {
        reveal_strlit("...");
    }
    out
}

} // verus!
