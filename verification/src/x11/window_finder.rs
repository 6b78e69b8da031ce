//! Which X11 window is the Wallpaper Engine output window.
use vstd::prelude::*;

use crate::config::CaptureConfig;
use crate::text::{contains, contains_str, join_strs, joined, opt_view, strs_view};

verus! {

/// What `str::to_lowercase` gives for a string (full Unicode case mapping).
pub uninterp spec fn lowercase_of(s: Seq<char>) -> Seq<char>;

/// `str::to_lowercase`.
#[verifier::external_body]
pub(crate) fn to_lowercase(s: &str) -> (r: String)
    ensures
        r@ == lowercase_of(s@),
{
    s.to_lowercase()
}

/// Whether `needle` occurs in `haystack` once both are lower-cased.
pub open spec fn contains_ci(haystack: Seq<char>, needle: Seq<char>) -> bool {
    contains(lowercase_of(haystack), lowercase_of(needle))
}

/// Case-insensitive substring test.
pub fn contains_case_insensitive(haystack: &str, needle: &str) -> (r: bool)
    ensures
        r == contains_ci(haystack@, needle@),
{
    let h = to_lowercase(haystack);
    let n = to_lowercase(needle);
    contains_str(h.as_str(), n.as_str())
}

/// What the finder reads of one X11 window.
#[derive(Debug, Clone)]
pub struct WindowMetadata {
    pub wm_class: String,
    pub title: String,
    pub pid: Option<u32>,
    pub is_viewable: bool,
    pub width: u16,
    pub height: u16,
}

/// The window that was chosen, and how many windows were looked at.
#[derive(Debug, Clone)]
pub struct WindowFinderResult {
    pub window: u32,
    pub scanned_windows: usize,
    pub metadata: WindowMetadata,
}

/// The pid that the window must belong to: the configured one, else the
/// Wine process's.
pub open spec fn target_pid_of(config: CaptureConfig, fallback_pid: Option<u32>) -> Option<u32> {
    match config.net_wm_pid {
        Some(p) => Some(p),
        None => fallback_pid,
    }
}

/// The pid that the window must belong to.
pub fn target_pid(config: &CaptureConfig, fallback_pid: Option<u32>) -> (r: Option<u32>)
    ensures
        r == target_pid_of(*config, fallback_pid),
{
    match config.net_wm_pid {
        Some(p) => Some(p),
        None => fallback_pid,
    }
}

/// A window passes the configured filters: its pid, class and title.
pub open spec fn window_matches(config: CaptureConfig, target_pid: Option<u32>, meta: WindowMetadata) -> bool {
    &&& (target_pid matches Some(pid) ==> meta.pid == Some(pid))
    &&& (opt_view(config.wm_class_contains) matches Some(needle) ==> contains_ci(meta.wm_class@, needle))
    &&& (opt_view(config.title_contains) matches Some(needle) ==> contains_ci(meta.title@, needle))
}

/// Whether a window passes the configured filters.
pub fn is_match(config: &CaptureConfig, target_pid: Option<u32>, meta: &WindowMetadata) -> (r: bool)
    ensures
        r == window_matches(*config, target_pid, *meta),
{
    let pid_ok = match target_pid {
        Some(pid) => meta.pid == Some(pid),
        None => true,
    };
    let class_ok = match &config.wm_class_contains {
        Some(needle) => contains_case_insensitive(meta.wm_class.as_str(), needle.as_str()),
        None => true,
    };
    let title_ok = match &config.title_contains {
        Some(needle) => contains_case_insensitive(meta.title.as_str(), needle.as_str()),
        None => true,
    };
    pid_ok && class_ok && title_ok
}

/// How good a candidate window is: -1 when it is not viewable or smaller
/// than 64 pixels in either direction; otherwise 200 for the target pid, 80
/// for a title, 40 for a class that contains "wallpaper", and one point per
/// 10000 pixels of area up to 120.
pub open spec fn window_score(target_pid: Option<u32>, meta: WindowMetadata) -> int {
    if !meta.is_viewable || meta.width < 64 || meta.height < 64 {
        -1
    } else {
        (if target_pid is Some && meta.pid == target_pid {
            200int
        } else {
            0int
        }) + (if meta.title@.len() > 0 {
            80int
        } else {
            0int
        }) + (if contains_ci(meta.wm_class@, "wallpaper"@) {
            40int
        } else {
            0int
        }) + (if (meta.width as int) * (meta.height as int) / 10000 <= 120 {
            (meta.width as int) * (meta.height as int) / 10000
        } else {
            120int
        })
    }
}

/// The score of a candidate window.
pub fn score_window(target_pid: Option<u32>, meta: &WindowMetadata) -> (score: i64)
    ensures
        score as int == window_score(target_pid, *meta),
{
    if !meta.is_viewable {
        return -1;
    }
    if meta.width < 64 || meta.height < 64 {
        return -1;
    }
    let mut score: i64 = 0;
    if target_pid.is_some() && meta.pid == target_pid {
        score += 200;
    }
    if !meta.title.as_str().is_empty() {
        score += 80;
    }
    if contains_case_insensitive(meta.wm_class.as_str(), "wallpaper") {
        score += 40;
    }
    let w = meta.width as i64;
    let h = meta.height as i64;
    assert(0 <= w * h <= 65535 * 65535) by (nonlinear_arith)
        requires
            0 <= w <= 65535,
            0 <= h <= 65535,
    ;
    let area: i64 = w * h / 10000;
    score += if area <= 120 {
        area
    } else {
        120
    };
    score
}

/// A window passes the filters and has a usable score.
pub open spec fn eligible(
    config: CaptureConfig,
    target_pid: Option<u32>,
    windows: Seq<WindowMetadata>,
    i: int,
) -> bool {
    0 <= i < windows.len() && window_matches(config, target_pid, windows[i]) && window_score(
        target_pid,
        windows[i],
    ) >= 0
}

/// The index of the best matching window: among the eligible windows, the
/// first one with the highest score; `None` when no window is eligible.
pub open spec fn is_best_window(
    config: CaptureConfig,
    target_pid: Option<u32>,
    windows: Seq<WindowMetadata>,
    best: Option<int>,
) -> bool {
    match best {
        Some(b) => {
            &&& eligible(config, target_pid, windows, b)
            &&& forall|i: int| #[trigger]
                eligible(config, target_pid, windows, i) ==> window_score(target_pid, windows[i])
                    <= window_score(target_pid, windows[b])
            &&& forall|i: int|
                0 <= i < b && #[trigger] eligible(config, target_pid, windows, i) ==> window_score(
                    target_pid,
                    windows[i],
                ) < window_score(target_pid, windows[b])
        },
        None => forall|i: int| !#[trigger] eligible(config, target_pid, windows, i),
    }
}

/// Picks the window to capture among the scanned ones.
pub fn select_window(
    config: &CaptureConfig,
    target_pid: Option<u32>,
    windows: &Vec<WindowMetadata>,
) -> (best: Option<usize>)
    ensures
        is_best_window(
            *config,
            target_pid,
            windows@,
            match best {
                Some(b) => Some(b as int),
                None => None,
            },
        ),
{
    let mut best: Option<usize> = None;
    let mut best_score: i64 = -1;
    let mut i: usize = 0;
    while i < windows.len()
        invariant
            i <= windows.len(),
            match best {
                Some(b) => {
                    &&& b < i
                    &&& eligible(*config, target_pid, windows@, b as int)
                    &&& best_score as int == window_score(target_pid, windows@[b as int])
                    &&& forall|j: int|
                        0 <= j < i && #[trigger] eligible(*config, target_pid, windows@, j)
                            ==> window_score(target_pid, windows@[j]) <= best_score
                    &&& forall|j: int|
                        0 <= j < b && #[trigger] eligible(*config, target_pid, windows@, j)
                            ==> window_score(target_pid, windows@[j]) < best_score
                },
                None => forall|j: int|
                    0 <= j < i ==> !#[trigger] eligible(*config, target_pid, windows@, j),
            },
        decreases windows.len() - i,
    {
        let meta = &windows[i];
        if is_match(config, target_pid, meta) {
            let score = score_window(target_pid, meta);
            if score >= 0 {
                let better = match best {
                    Some(_) => score > best_score,
                    None => true,
                };
                if better {
                    best = Some(i);
                    best_score = score;
                }
            }
        }
        i += 1;
    }
    best
}

/// What `String::from_utf8_lossy` gives for some bytes (invalid sequences
/// replaced by U+FFFD).
pub uninterp spec fn utf8_lossy(bytes: Seq<u8>) -> Seq<char>;

/// `String::from_utf8_lossy`.
#[verifier::external_body]
fn decode_lossy(bytes: &Vec<u8>) -> (r: String)
    ensures
        r@ == utf8_lossy(bytes@),
{
    String::from_utf8_lossy(bytes.as_slice()).to_string()
}

/// The pieces finished so far and the piece being read, after reading
/// `s` from the left: a NUL byte ends a piece.
pub open spec fn split_state(s: Seq<u8>) -> (Seq<Seq<u8>>, Seq<u8>)
    decreases s.len(),
{
    if s.len() == 0 {
        (Seq::empty(), Seq::empty())
    } else {
        let prev = split_state(s.drop_last());
        if s.last() == 0 {
            (if prev.1.len() > 0 {
                prev.0.push(prev.1)
            } else {
                prev.0
            }, Seq::empty())
        } else {
            (prev.0, prev.1.push(s.last()))
        }
    }
}

/// The non-empty pieces of `s` between NUL bytes, in order.
pub open spec fn nul_pieces(s: Seq<u8>) -> Seq<Seq<u8>> {
    let st = split_state(s);
    if st.1.len() > 0 {
        st.0.push(st.1)
    } else {
        st.0
    }
}

/// The views of a list of byte strings.
pub open spec fn bytes_view(v: Seq<Vec<u8>>) -> Seq<Seq<u8>> {
    v.map_values(|b: Vec<u8>| b@)
}

/// The non-empty pieces of a property value between NUL bytes.
pub fn nul_separated_pieces(value: &Vec<u8>) -> (r: Vec<Vec<u8>>)
    ensures
        bytes_view(r@) == nul_pieces(value@),
{
    let mut done: Vec<Vec<u8>> = Vec::new();
    let mut cur: Vec<u8> = Vec::new();
    let mut i: usize = 0;
    while i < value.len()
        invariant
            i <= value.len(),
            (bytes_view(done@), cur@) == split_state(value@.take(i as int)),
        decreases value.len() - i,
    {
        assert(value@.take(i + 1).drop_last() =~= value@.take(i as int));
        let b = value[i];
        if b == 0 {
            if cur.len() > 0 {
                let ghost before = done@;
                let finished = cur;
                done.push(finished);
                assert(bytes_view(done@) =~= bytes_view(before).push(finished@));
            }
            cur = Vec::new();
        } else {
            cur.push(b);
        }
        i += 1;
    }
    assert(value@.take(value.len() as int) =~= value@);
    if cur.len() > 0 {
        let ghost before = done@;
        let last = cur;
        done.push(last);
        assert(bytes_view(done@) =~= bytes_view(before).push(last@));
    }
    done
}

/// The text of a window property: `None` for an empty value, else its
/// non-empty NUL-separated pieces, each decoded as UTF-8 (lossily), joined
/// by spaces.
pub open spec fn property_text_of(value: Seq<u8>) -> Option<Seq<char>> {
    if value.len() == 0 {
        None
    } else {
        Some(joined(nul_pieces(value).map_values(|p: Seq<u8>| utf8_lossy(p)), " "@))
    }
}

/// The text of a window property value.
pub fn property_text(value: &Vec<u8>) -> (r: Option<String>)
    ensures
        opt_view(r) == property_text_of(value@),
{
    if value.len() == 0 {
        return None;
    }
    let pieces = nul_separated_pieces(value);
    let mut texts: Vec<String> = Vec::new();
    let mut i: usize = 0;
    while i < pieces.len()
        invariant
            i <= pieces.len(),
            texts.len() == i,
            forall|j: int| 0 <= j < i ==> #[trigger] texts@[j]@ == utf8_lossy(pieces@[j]@),
        decreases pieces.len() - i,
    {
        texts.push(decode_lossy(&pieces[i]));
        i += 1;
    }
    assert(strs_view(texts@) =~= nul_pieces(value@).map_values(|p: Seq<u8>| utf8_lossy(p)));
    Some(join_strs(&texts, " "))
}

/// The window picked for capture is one that the finder can use: it passes
/// the filters, scores at least 0, is viewable (mapped) and is at least 64
/// pixels wide and high. A window that Wine has created but not mapped yet,
/// or a small helper window, is never picked.
pub proof fn law_picked_window_is_usable(
    config: CaptureConfig,
    target_pid: Option<u32>,
    windows: Seq<WindowMetadata>,
    b: int,
)
    requires
        is_best_window(config, target_pid, windows, Some(b)),
    ensures
        0 <= b < windows.len(),
        window_matches(config, target_pid, windows[b]),
        window_score(target_pid, windows[b]) >= 0,
        windows[b].is_viewable,
        windows[b].width >= 64,
        windows[b].height >= 64,
{
}

/// While every window that passes the filters is unmapped or smaller than
/// 64 pixels in some direction (so scores -1), no window is picked: the
/// finder keeps looking.
pub proof fn law_no_usable_window_picks_none(
    config: CaptureConfig,
    target_pid: Option<u32>,
    windows: Seq<WindowMetadata>,
    best: Option<int>,
)
    requires
        forall|i: int|
            0 <= i < windows.len() && #[trigger] window_matches(config, target_pid, windows[i])
                ==> !windows[i].is_viewable || windows[i].width < 64 || windows[i].height < 64,
        is_best_window(config, target_pid, windows, best),
    ensures
        best == None::<int>,
{
    if let Some(b) = best {
        assert(eligible(config, target_pid, windows, b));
        assert(window_matches(config, target_pid, windows[b]));
    }
}

} // verus!
