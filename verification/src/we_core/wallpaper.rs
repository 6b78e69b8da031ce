//! Wallpaper metadata read from a workshop item's `project.json`.
use vstd::prelude::*;

use crate::pathname::{file_name_of, join, path_file_name, path_join};
use crate::probe::{answered, ask, first_accepted, first_accepted_spec, total_probe};
use crate::text::{
    ascii_lower, is_blank, lemma_ascii_lower_idempotent, lit, opt_view, positions, stable_order, stable_order_of, str_eq, strs_view,
    to_ascii_lower, trim,
};

verus! {

/// The kind of a workshop wallpaper.
#[derive(Debug, Clone, Copy, PartialEq, Eq, Structural)]
pub enum WallpaperType {
    Video,
    Scene,
    Web,
    Unknown,
}

/// One wallpaper found in the workshop folder.
#[derive(Debug, Clone)]
pub struct WallpaperEntry {
    pub id: String,
    pub project_json: String,
    pub title: String,
    pub ty: WallpaperType,
    pub preview: Option<String>,
}

/// The type named by a `project.json` `type` value, compared without ASCII
/// case.
pub open spec fn type_named(value: Seq<char>) -> WallpaperType {
    let v = ascii_lower(value);
    if v == "video"@ {
        WallpaperType::Video
    } else if v == "scene"@ {
        WallpaperType::Scene
    } else if v == "web"@ {
        WallpaperType::Web
    } else {
        WallpaperType::Unknown
    }
}

/// The title shown for a wallpaper: its own, or `Untitled` when that is blank.
pub open spec fn shown_title(title: Seq<char>) -> Seq<char> {
    if trim(title).len() == 0 {
        "Untitled"@
    } else {
        title
    }
}

/// Maps a `project.json` `type` value to a wallpaper type.
pub fn parse_type(value: &str) -> (t: WallpaperType)
    ensures
        t == type_named(value@),
{
    let v = to_ascii_lower(value);
    if str_eq(v.as_str(), "video") {
        WallpaperType::Video
    } else if str_eq(v.as_str(), "scene") {
        WallpaperType::Scene
    } else if str_eq(v.as_str(), "web") {
        WallpaperType::Web
    } else {
        WallpaperType::Unknown
    }
}

/// Builds the entry for a workshop item from its folder name, the path of
/// its `project.json`, the `title` and `type` read from that file, and the
/// preview image found beside it.
pub fn wallpaper_entry(
    id: String,
    project_json: String,
    title: String,
    type_value: &str,
    preview: Option<String>,
) -> (e: WallpaperEntry)
    ensures
        e.id == id,
        e.project_json == project_json,
        e.title@ == shown_title(title@),
        e.ty == type_named(type_value@),
        e.preview == preview,
{
    let shown = if is_blank(title.as_str()) {
        lit("Untitled")
    } else {
        title
    };
    WallpaperEntry { id, project_json, title: shown, ty: parse_type(type_value), preview }
}

/// The file names, in order of preference, that serve as a wallpaper's
/// preview image.
pub fn preview_candidates() -> (v: Vec<String>)
    ensures
        crate::text::strs_view(v@) == seq![
            "preview.jpg"@,
            "preview.jpeg"@,
            "preview.png"@,
            "preview.gif"@,
            "thumbnail.jpg"@,
            "thumbnail.png"@,
        ],
{
    let v = vec![
        lit("preview.jpg"),
        lit("preview.jpeg"),
        lit("preview.png"),
        lit("preview.gif"),
        lit("thumbnail.jpg"),
        lit("thumbnail.png"),
    ];
    assert(crate::text::strs_view(v@) =~= seq![
        "preview.jpg"@,
        "preview.jpeg"@,
        "preview.png"@,
        "preview.gif"@,
        "thumbnail.jpg"@,
        "thumbnail.png"@,
    ]);
    v
}

/// The `title` and `type` read from a `project.json` (empty where absent).
#[derive(Debug, Clone)]
pub struct ProjectMeta {
    pub title: String,
    pub wallpaper_type: String,
}

/// A wallpaper entry with its texts taken as character sequences.
pub struct EntryView {
    pub id: Seq<char>,
    pub project_json: Seq<char>,
    pub title: Seq<char>,
    pub ty: WallpaperType,
    pub preview: Option<Seq<char>>,
}

/// The view of an entry.
pub open spec fn entry_view(e: WallpaperEntry) -> EntryView {
    EntryView {
        id: e.id@,
        project_json: e.project_json@,
        title: e.title@,
        ty: e.ty,
        preview: opt_view(e.preview),
    }
}

/// The views of a list of entries.
pub open spec fn entries_view(v: Seq<WallpaperEntry>) -> Seq<EntryView> {
    v.map_values(|e: WallpaperEntry| entry_view(e))
}

/// The preview images looked for in a wallpaper folder, in order.
pub open spec fn preview_paths(dir: Seq<char>) -> Seq<Seq<char>> {
    seq![
        join(dir, "preview.jpg"@),
        join(dir, "preview.jpeg"@),
        join(dir, "preview.png"@),
        join(dir, "preview.gif"@),
        join(dir, "thumbnail.jpg"@),
        join(dir, "thumbnail.png"@),
    ]
}

fn preview_path_list(dir: &str) -> (v: Vec<String>)
    ensures
        strs_view(v@) == preview_paths(dir@),
{
    let names = preview_candidates();
    let mut v: Vec<String> = Vec::new();
    let mut i: usize = 0;
    while i < names.len()
        invariant
            i <= names.len(),
            strs_view(names@) == seq![
                "preview.jpg"@,
                "preview.jpeg"@,
                "preview.png"@,
                "preview.gif"@,
                "thumbnail.jpg"@,
                "thumbnail.png"@,
            ],
            v.len() == i,
            forall|j: int| 0 <= j < i ==> #[trigger] v@[j]@ == join(dir@, strs_view(names@)[j]),
        decreases names.len() - i,
    {
        v.push(path_join(dir, names[i].as_str()));
        i += 1;
    }
    assert(strs_view(names@).len() == 6);
    assert(names.len() == 6);
    assert forall|j: int| 0 <= j < 6 implies #[trigger] strs_view(v@)[j] == preview_paths(dir@)[j] by {
        assert(v@[j]@ == join(dir@, strs_view(names@)[j]));
    }
    assert(strs_view(v@) =~= preview_paths(dir@));
    v
}

/// The first preview image (`preview.jpg`, `.jpeg`, `.png`, `.gif`, then
/// `thumbnail.jpg`, `.png`) that `is_file` accepts in a wallpaper folder.
pub fn detect_preview_image<F: Fn(String) -> bool>(wallpaper_dir: &str, is_file: &F) -> (r: Option<String>)
    requires
        total_probe(*is_file),
    ensures
        exists|i: Option<usize>|
            first_accepted_spec(*is_file, preview_paths(wallpaper_dir@), i) && opt_view(r) == match i {
                Some(k) => Some(preview_paths(wallpaper_dir@)[k as int]),
                None => None::<Seq<char>>,
            },
{
    let cands = preview_path_list(wallpaper_dir);
    let i = first_accepted(is_file, &cands);
    let r = match i {
        Some(k) => Some(lit(cands[k].as_str())),
        None => None,
    };
    assert(opt_view(r) == match i {
        Some(k) => Some(preview_paths(wallpaper_dir@)[k as int]),
        None => None::<Seq<char>>,
    });
    r
}

/// The reader of a `project.json` gave `answer` for `path`.
pub open spec fn read_gave<H: Fn(String) -> Result<ProjectMeta, String>>(
    read: H,
    path: Seq<char>,
    answer: Result<ProjectMeta, String>,
) -> bool {
    exists|s: String| s@ == path && call_ensures(read, (s,), answer)
}

/// The ids of a list of entries.
pub open spec fn entry_ids(d: Seq<EntryView>) -> Seq<Seq<char>> {
    d.map_values(|e: EntryView| e.id)
}

/// `r` holds the entries of `d`, sorted by id with equal ids in their
/// order.
pub open spec fn sorted_by_id(r: Seq<EntryView>, d: Seq<EntryView>) -> bool {
    exists|idx: Seq<int>|
        #[trigger] stable_order_of(entry_ids(d), idx) && r.len() == d.len()
            && forall|p: int| 0 <= p < r.len() ==> #[trigger] r[p] == d[idx[p]]
}

/// The entry made for a wallpaper folder.
pub open spec fn made_entry(
    id: Seq<char>,
    project_json: Seq<char>,
    meta: ProjectMeta,
    preview: Option<Seq<char>>,
) -> EntryView {
    EntryView {
        id,
        project_json,
        title: shown_title(meta.title@),
        ty: type_named(meta.wallpaper_type@),
        preview,
    }
}

/// A run of the workshop scan over the listed folders, consistent with
/// the probes' and the reader's answers, that ends in `r`, `found` being
/// the entries made so far: a folder is skipped unless it is a directory
/// with a name and a `project.json` file; a `project.json` that cannot be
/// read ends the scan with its error; otherwise the folder gives an entry
/// with its title (`Untitled` when blank), its type and its preview image.
/// At the end the entries come sorted by id.
pub open spec fn scan_run<F: Fn(String) -> bool, G: Fn(String) -> bool, H: Fn(String) -> Result<
    ProjectMeta,
    String,
>>(
    is_dir: F,
    is_file: G,
    read: H,
    listed: Seq<Seq<char>>,
    found: Seq<EntryView>,
    r: Result<Seq<EntryView>, Seq<char>>,
) -> bool
    decreases listed.len(),
{
    if listed.len() == 0 {
        r is Ok && sorted_by_id(r->Ok_0, found)
    } else {
        let dir = listed[0];
        let rest = listed.drop_first();
        let pj = join(dir, "project.json"@);
        ||| answered(is_dir, dir, false) && scan_run(is_dir, is_file, read, rest, found, r)
        ||| answered(is_dir, dir, true) && file_name_of(dir) is None && scan_run(
            is_dir,
            is_file,
            read,
            rest,
            found,
            r,
        )
        ||| answered(is_dir, dir, true) && file_name_of(dir) is Some && answered(is_file, pj, false)
            && scan_run(is_dir, is_file, read, rest, found, r)
        ||| answered(is_dir, dir, true) && file_name_of(dir) is Some && answered(is_file, pj, true)
            && exists|e: String| read_gave(read, pj, Err(e)) && r == Err::<Seq<EntryView>, Seq<char>>(e@)
        ||| answered(is_dir, dir, true) && file_name_of(dir) is Some && answered(is_file, pj, true)
            && exists|meta: ProjectMeta, pi: Option<usize>|
            read_gave(read, pj, Ok(meta)) && first_accepted_spec(is_file, preview_paths(dir), pi)
                && scan_run(
                is_dir,
                is_file,
                read,
                rest,
                found.push(
                    made_entry(
                        file_name_of(dir)->0,
                        pj,
                        meta,
                        match pi {
                            Some(k) => Some(preview_paths(dir)[k as int]),
                            None => None,
                        },
                    ),
                ),
                r,
            )
    }
}

/// The entries sorted by id, entries of equal id kept in their order.
pub fn sort_by_id(v: Vec<WallpaperEntry>) -> (out: Vec<WallpaperEntry>)
    ensures
        sorted_by_id(entries_view(out@), entries_view(v@)),
{
    let ghost d = entries_view(v@);
    let mut ids: Vec<String> = Vec::new();
    let mut i: usize = 0;
    while i < v.len()
        invariant
            i <= v.len(),
            d == entries_view(v@),
            ids.len() == i,
            forall|p: int| 0 <= p < i ==> #[trigger] ids@[p]@ == d[p].id,
        decreases v.len() - i,
    {
        ids.push(lit(v[i].id.as_str()));
        i += 1;
    }
    assert(strs_view(ids@) =~= entry_ids(d));
    let order = stable_order(&ids);
    let ghost idx = positions(order@);
    let mut out: Vec<WallpaperEntry> = Vec::new();
    let mut p: usize = 0;
    while p < order.len()
        invariant
            p <= order.len(),
            order.len() == v.len(),
            d == entries_view(v@),
            stable_order_of(strs_view(ids@), idx),
            idx == positions(order@),
            out.len() == p,
            forall|q: int| 0 <= q < p ==> #[trigger] entries_view(out@)[q] == d[idx[q]],
        decreases order.len() - p,
    {
        assert(0 <= idx[p as int] < v.len());
        let e = &v[order[p]];
        let ghost before = out@;
        let copy = WallpaperEntry {
            id: lit(e.id.as_str()),
            project_json: lit(e.project_json.as_str()),
            title: lit(e.title.as_str()),
            ty: e.ty,
            preview: crate::text::copy_opt(&e.preview),
        };
        out.push(copy);
        proof {
            assert(entries_view(out@)[p as int] == entry_view(out@[p as int]));
            assert(entry_view(out@[p as int]) == entry_view(*e));
            assert(*e == v@[idx[p as int]]);
            assert forall|q: int| 0 <= q < p + 1 implies #[trigger] entries_view(out@)[q] == d[idx[q]] by {
                if q < p {
                    assert(out@[q] == before[q]);
                    assert(entries_view(out@)[q] == entries_view(before)[q]);
                }
            }
        }
        p += 1;
    }
    out
}

fn scan_from<F: Fn(String) -> bool, G: Fn(String) -> bool, H: Fn(String) -> Result<ProjectMeta, String>>(
    is_dir: &F,
    is_file: &G,
    read: &H,
    listed: &Vec<String>,
    from: usize,
    found: Vec<WallpaperEntry>,
) -> (r: Result<Vec<WallpaperEntry>, String>)
    requires
        total_probe(*is_dir),
        total_probe(*is_file),
        forall|s: String| call_requires(*read, (s,)),
        from <= listed.len(),
    ensures
        scan_run(
            *is_dir,
            *is_file,
            *read,
            strs_view(listed@).skip(from as int),
            entries_view(found@),
            match r {
                Ok(v) => Ok(entries_view(v@)),
                Err(e) => Err(e@),
            },
        ),
    decreases listed.len() - from,
{
    if from == listed.len() {
        assert(strs_view(listed@).skip(from as int) =~= Seq::<Seq<char>>::empty());
        return Ok(sort_by_id(found));
    }
    let ghost rest = strs_view(listed@).skip(from as int);
    assert(rest[0] == listed@[from as int]@);
    assert(rest.drop_first() =~= strs_view(listed@).skip(from + 1));
    let dir = listed[from].as_str();
    if !ask(is_dir, dir) {
        return scan_from(is_dir, is_file, read, listed, from + 1, found);
    }
    let name = match path_file_name(dir) {
        Some(n) => n,
        None => {
            return scan_from(is_dir, is_file, read, listed, from + 1, found);
        },
    };
    let project_json = path_join(dir, "project.json");
    if !ask(is_file, project_json.as_str()) {
        return scan_from(is_dir, is_file, read, listed, from + 1, found);
    }
    let arg = lit(project_json.as_str());
    let answer = read(arg);
    proof {
        assert(call_ensures(*read, (arg,), answer));
    }
    match answer {
        Err(e) => {
            assert(read_gave(*read, project_json@, Err(e)));
            Err(e)
        },
        Ok(meta) => {
            assert(read_gave(*read, project_json@, Ok(meta)));
            let cands = preview_path_list(dir);
            let pi = first_accepted(is_file, &cands);
            let preview = match pi {
                Some(k) => Some(lit(cands[k].as_str())),
                None => None,
            };
            let entry = wallpaper_entry(
                name,
                project_json,
                meta.title,
                meta.wallpaper_type.as_str(),
                preview,
            );
            let mut found = found;
            let ghost before = entries_view(found@);
            found.push(entry);
            assert(entries_view(found@) =~= before.push(entry_view(entry)));
            scan_from(is_dir, is_file, read, listed, from + 1, found)
        },
    }
}

/// The wallpapers among the folders listed in the workshop folder, sorted
/// by id; an error where a `project.json` could not be read. `is_dir` and
/// `is_file` answer for paths, `read_project` reads a `project.json`.
pub fn scan_workshop_wallpapers<F: Fn(String) -> bool, G: Fn(String) -> bool, H: Fn(String) -> Result<
    ProjectMeta,
    String,
>>(listed: &Vec<String>, is_dir: F, is_file: G, read_project: H) -> (r: Result<
    Vec<WallpaperEntry>,
    String,
>)
    requires
        total_probe(is_dir),
        total_probe(is_file),
        forall|s: String| call_requires(read_project, (s,)),
    ensures
        scan_run(
            is_dir,
            is_file,
            read_project,
            strs_view(listed@),
            Seq::empty(),
            match r {
                Ok(v) => Ok(entries_view(v@)),
                Err(e) => Err(e@),
            },
        ),
{
    let empty: Vec<WallpaperEntry> = Vec::new();
    assert(entries_view(empty@) =~= Seq::<EntryView>::empty());
    let r = scan_from(&is_dir, &is_file, &read_project, listed, 0, empty);
    assert(strs_view(listed@).skip(0) =~= strs_view(listed@));
    r
}

/// The type of a wallpaper ignores ASCII case: every value names the same
/// type as its lower-case form, so every value whose lower-case form is
/// `web`, `scene` or `video` (such as `Web`, `WEB`, `Scene` or `VIDEO`)
/// names that type.
pub proof fn law_type_ignores_ascii_case(value: Seq<char>)
    ensures
        type_named(value) == type_named(ascii_lower(value)),
        ascii_lower(value) == "web"@ ==> type_named(value) == WallpaperType::Web,
        ascii_lower(value) == "scene"@ ==> type_named(value) == WallpaperType::Scene,
        ascii_lower(value) == "video"@ ==> type_named(value) == WallpaperType::Video,
{
    lemma_ascii_lower_idempotent(value);
    reveal_strlit("web");
    reveal_strlit("scene");
    reveal_strlit("video");
    assert("web"@.len() == 3 && "scene"@.len() == 5 && "video"@.len() == 5);
    assert("scene"@[0] != "video"@[0]);
}

} // verus!
