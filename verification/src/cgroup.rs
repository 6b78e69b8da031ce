//! cgroup v2 support: which process is tracked, what the limited group is
//! given, how kernel files are read, and how the status block reads.
use vstd::prelude::*;

use crate::config::{CgroupConfig, CgroupMode};
use crate::pathname::{join, path_join};
use crate::text::{
    concat, decimal, lines, lit, opt_view, parse_u64, parse_u64_str, push_char, split_lines,
    split_words, starts_with, str_eq, strip_prefix_str, strs_view, to_chars, trim, trim_str,
    u32_to_decimal, u64_to_decimal, words,
};

verus! {

/// The cgroup state of the runner: its configuration, the Wine process it
/// tracks and the last error met while limiting it.
#[derive(Debug, Clone)]
pub struct RuntimeCgroup {
    pub cfg: CgroupConfig,
    pub wine_pid: Option<u32>,
    pub last_error: Option<String>,
}

/// The figures read for one cgroup.
#[derive(Debug, Clone)]
pub struct ProcCgroupStats {
    pub path: String,
    pub cpu_usage_usec: Option<u64>,
    pub memory_current: Option<u64>,
}

/// The configuration asks to move Wine into the limited group.
pub open spec fn limits_wine(cfg: CgroupConfig) -> bool {
    cfg.enabled && cfg.mode == CgroupMode::LimitWine
}

impl RuntimeCgroup {
    /// Cgroup state for a configuration, tracking no process yet.
    pub fn new(cfg: CgroupConfig) -> (c: RuntimeCgroup)
        ensures
            c.cfg == cfg,
            c.wine_pid is None,
            c.last_error is None,
    {
        RuntimeCgroup { cfg, wine_pid: None, last_error: None }
    }

    /// Records a newly spawned Wine process; returns whether it is to be
    /// moved into the limited group.
    pub fn on_wine_spawn(&mut self, pid: u32) -> (attach: bool)
        ensures
            final(self).wine_pid == Some(pid),
            final(self).cfg == old(self).cfg,
            final(self).last_error == old(self).last_error,
            attach == limits_wine(old(self).cfg),
    {
        self.wine_pid = Some(pid);
        self.cfg.enabled && self.cfg.mode == CgroupMode::LimitWine
    }

    /// Records how moving Wine into the limited group went: a failure
    /// becomes the last error, reported as `cgroup limit attach failed:
    /// <why>`; a success leaves the last error as it was.
    pub fn record_attach_result(&mut self, result: Result<(), String>)
        ensures
            final(self).cfg == old(self).cfg,
            final(self).wine_pid == old(self).wine_pid,
            match result {
                Ok(_) => final(self).last_error == old(self).last_error,
                Err(e) => final(self).last_error matches Some(m) && m@ == "cgroup limit attach failed: "@
                    + e@,
            },
    {
        if let Err(e) = result {
            let message = concat("cgroup limit attach failed: ", e.as_str());
            self.set_error(message);
        }
    }

    /// Records an error met while limiting Wine.
    pub fn set_error(&mut self, message: String)
        ensures
            final(self).last_error == Some(message),
            final(self).cfg == old(self).cfg,
            final(self).wine_pid == old(self).wine_pid,
    {
        self.last_error = Some(message);
    }

    /// The `[status.cgroup]` block of the status report, given this
    /// process's pid and the figures read for this process's cgroup, the
    /// Wine process's cgroup and the limited group (`None` where they could
    /// not be read).
    pub fn render_status_toml(
        &self,
        self_pid: u32,
        self_stats: &Option<ProcCgroupStats>,
        wine_stats: &Option<ProcCgroupStats>,
        limit_stats: &Option<ProcCgroupStats>,
    ) -> (out: String)
        ensures
            out@ == status_text(*self, self_pid, *self_stats, *wine_stats, *limit_stats),
    {
        let head = self.settings_lines();
        let pids = self.pid_lines(self_pid);
        let figures = self.figure_lines(self_stats, wine_stats, limit_stats);
        let out = concat(head.as_str(), pids.as_str());
        let out = concat(out.as_str(), figures.as_str());
        match &self.last_error {
            Some(err) => {
                let line = quoted_setting("last_error", err.as_str());
                concat(out.as_str(), line.as_str())
            },
            None => out,
        }
    }

    /// The header and the configured settings.
    fn settings_lines(&self) -> (out: String)
        ensures
            out@ == settings_text(self.cfg),
    {
        let mut out = lit("[status.cgroup]\n");
        out = concat(out.as_str(), "enabled = ");
        out = concat(out.as_str(), if self.cfg.enabled {
            "true"
        } else {
            "false"
        });
        out = concat(out.as_str(), "\nmode = \"");
        out = concat(out.as_str(), cgroup_mode_name(self.cfg.mode));
        out = concat(out.as_str(), "\"\n");
        if let Some(memory_max) = &self.cfg.memory_max {
            let line = quoted_setting("memory_max", memory_max.as_str());
            out = concat(out.as_str(), line.as_str());
        }
        if let Some(cpu_max) = &self.cfg.cpu_max {
            let line = quoted_setting("cpu_max", cpu_max.as_str());
            out = concat(out.as_str(), line.as_str());
        }
        out
    }

    /// The pid lines.
    fn pid_lines(&self, self_pid: u32) -> (out: String)
        ensures
            out@ == pid_text(self_pid, self.wine_pid),
    {
        let out = lit("supported = true\nself_pid = ");
        let p = u32_to_decimal(self_pid);
        let out = concat(out.as_str(), p.as_str());
        let out = concat(out.as_str(), "\n");
        match self.wine_pid {
            Some(pid) => {
                let w = u32_to_decimal(pid);
                let out = concat(out.as_str(), "wine_pid = ");
                let out = concat(out.as_str(), w.as_str());
                concat(out.as_str(), "\n")
            },
            None => out,
        }
    }

    /// The figures read, as the mode asks for them.
    fn figure_lines(
        &self,
        self_stats: &Option<ProcCgroupStats>,
        wine_stats: &Option<ProcCgroupStats>,
        limit_stats: &Option<ProcCgroupStats>,
    ) -> (out: String)
        ensures
            out@ == figures_text(*self, *self_stats, *wine_stats, *limit_stats),
    {
        if self.cfg.enabled {
            if self.cfg.mode == CgroupMode::Detect {
                let s = stats_block("self", self_stats);
                if self.wine_pid.is_some() {
                    let w = stats_block("wine", wine_stats);
                    concat(s.as_str(), w.as_str())
                } else {
                    s
                }
            } else {
                stats_block("wine_limit", limit_stats)
            }
        } else {
            String::new()
        }
    }
}

/// The TOML name of a cgroup mode.
pub open spec fn mode_label(mode: CgroupMode) -> Seq<char> {
    match mode {
        CgroupMode::Detect => "detect"@,
        CgroupMode::LimitWine => "limit_wine"@,
    }
}

/// The TOML name of a cgroup mode.
pub fn cgroup_mode_name(mode: CgroupMode) -> (s: &'static str)
    ensures
        s@ == mode_label(mode),
{
    match mode {
        CgroupMode::Detect => "detect",
        CgroupMode::LimitWine => "limit_wine",
    }
}

/// One character escaped for a TOML basic string.
pub open spec fn escaped_char(c: char) -> Seq<char> {
    if c == '\\' {
        seq!['\\', '\\']
    } else if c == '"' {
        seq!['\\', '"']
    } else {
        seq![c]
    }
}

/// `raw` with backslashes and double quotes escaped.
pub open spec fn escaped(raw: Seq<char>) -> Seq<char>
    decreases raw.len(),
{
    if raw.len() == 0 {
        Seq::empty()
    } else {
        escaped(raw.drop_last()) + escaped_char(raw.last())
    }
}

/// Escapes backslashes and double quotes for a TOML basic string.
pub fn escape_toml(raw: &str) -> (out: String)
    ensures
        out@ == escaped(raw@),
{
    let v = to_chars(raw);
    let mut out = String::new();
    let mut i: usize = 0;
    while i < v.len()
        invariant
            i <= v.len(),
            v@ == raw@,
            out@ == escaped(raw@.take(i as int)),
        decreases v.len() - i,
    {
        let c = v[i];
        if c == '\\' {
            push_char(&mut out, '\\');
            push_char(&mut out, '\\');
        } else if c == '"' {
            push_char(&mut out, '\\');
            push_char(&mut out, '"');
        } else {
            push_char(&mut out, c);
        }
        proof {
            assert(raw@.take(i + 1).drop_last() =~= raw@.take(i as int));
            assert(out@ =~= escaped(raw@.take(i as int)) + escaped_char(c));
        }
        i += 1;
    }
    assert(raw@.take(v.len() as int) =~= raw@);
    out
}

/// `name = "<escaped value>"` and a line feed.
pub open spec fn quoted_line(name: Seq<char>, value: Seq<char>) -> Seq<char> {
    name + " = \""@ + escaped(value) + "\"\n"@
}

/// A quoted setting line.
fn quoted_setting(name: &str, value: &str) -> (out: String)
    ensures
        out@ == quoted_line(name@, value@),
{
    let a = concat(name, " = \"");
    let e = escape_toml(value);
    let b = concat(a.as_str(), e.as_str());
    concat(b.as_str(), "\"\n")
}

/// `name = <number>` and a line feed.
pub open spec fn number_line(name: Seq<char>, value: nat) -> Seq<char> {
    name + " = "@ + decimal(value) + "\n"@
}

/// A numeric setting line.
fn number_setting(name: &str, value: u64) -> (out: String)
    ensures
        out@ == number_line(name@, value as nat),
{
    let a = concat(name, " = ");
    let d = u64_to_decimal(value);
    let b = concat(a.as_str(), d.as_str());
    concat(b.as_str(), "\n")
}

/// The lines for one cgroup's figures, under a name prefix.
pub open spec fn stats_text(prefix: Seq<char>, stats: Option<ProcCgroupStats>) -> Seq<char> {
    match stats {
        Some(s) => quoted_line(prefix + "_cgroup"@, s.path@) + (match s.cpu_usage_usec {
            Some(u) => number_line(prefix + "_cpu_usage_usec"@, u as nat),
            None => Seq::empty(),
        }) + (match s.memory_current {
            Some(m) => number_line(prefix + "_memory_current"@, m as nat),
            None => Seq::empty(),
        }),
        None => Seq::empty(),
    }
}

/// The lines for one cgroup's figures.
fn stats_block(prefix: &str, stats: &Option<ProcCgroupStats>) -> (out: String)
    ensures
        out@ == stats_text(prefix@, *stats),
{
    match stats {
        Some(s) => {
            let name = concat(prefix, "_cgroup");
            let mut out = quoted_setting(name.as_str(), s.path.as_str());
            let ghost first = out@;
            let ghost cpu: Seq<char> = match s.cpu_usage_usec {
                Some(u) => number_line(prefix@ + "_cpu_usage_usec"@, u as nat),
                None => Seq::empty(),
            };
            let ghost mem: Seq<char> = match s.memory_current {
                Some(m) => number_line(prefix@ + "_memory_current"@, m as nat),
                None => Seq::empty(),
            };
            if let Some(u) = s.cpu_usage_usec {
                let n = concat(prefix, "_cpu_usage_usec");
                let l = number_setting(n.as_str(), u);
                out = concat(out.as_str(), l.as_str());
            }
            assert(out@ =~= first + cpu);
            let ghost second = out@;
            if let Some(m) = s.memory_current {
                let n = concat(prefix, "_memory_current");
                let l = number_setting(n.as_str(), m);
                out = concat(out.as_str(), l.as_str());
            }
            assert(out@ =~= second + mem);
            out
        },
        None => String::new(),
    }
}

/// The header of the `[status.cgroup]` block and the configured settings.
pub open spec fn settings_text(cfg: CgroupConfig) -> Seq<char> {
    "[status.cgroup]\n"@ + "enabled = "@ + (if cfg.enabled {
        "true"@
    } else {
        "false"@
    }) + "\nmode = \""@ + mode_label(cfg.mode) + "\"\n"@ + (match cfg.memory_max {
        Some(m) => quoted_line("memory_max"@, m@),
        None => Seq::empty(),
    }) + (match cfg.cpu_max {
        Some(m) => quoted_line("cpu_max"@, m@),
        None => Seq::empty(),
    })
}

/// The pid lines of the `[status.cgroup]` block.
pub open spec fn pid_text(self_pid: u32, wine_pid: Option<u32>) -> Seq<char> {
    "supported = true\nself_pid = "@ + decimal(self_pid as nat) + "\n"@ + (match wine_pid {
        Some(p) => "wine_pid = "@ + decimal(p as nat) + "\n"@,
        None => Seq::empty(),
    })
}

/// The figures of the `[status.cgroup]` block: in detect mode those of the
/// runner's cgroup and, once Wine runs, of Wine's; in limit mode those of
/// the limited group; none while disabled.
pub open spec fn figures_text(
    c: RuntimeCgroup,
    self_stats: Option<ProcCgroupStats>,
    wine_stats: Option<ProcCgroupStats>,
    limit_stats: Option<ProcCgroupStats>,
) -> Seq<char> {
    if c.cfg.enabled {
        if c.cfg.mode == CgroupMode::Detect {
            stats_text("self"@, self_stats) + (if c.wine_pid is Some {
                stats_text("wine"@, wine_stats)
            } else {
                Seq::empty()
            })
        } else {
            stats_text("wine_limit"@, limit_stats)
        }
    } else {
        Seq::empty()
    }
}

/// The `[status.cgroup]` block.
pub open spec fn status_text(
    c: RuntimeCgroup,
    self_pid: u32,
    self_stats: Option<ProcCgroupStats>,
    wine_stats: Option<ProcCgroupStats>,
    limit_stats: Option<ProcCgroupStats>,
) -> Seq<char> {
    settings_text(c.cfg) + pid_text(self_pid, c.wine_pid) + figures_text(
        c,
        self_stats,
        wine_stats,
        limit_stats,
    ) + (match c.last_error {
        Some(e) => quoted_line("last_error"@, e@),
        None => Seq::empty(),
    })
}

/// The line of the status block that names the Wine process.
pub open spec fn wine_pid_line(pid: u32) -> Seq<char> {
    "wine_pid = "@ + decimal(pid as nat) + "\n"@
}

/// Once a Wine process has been recorded, the status block names it: the
/// line `wine_pid = <pid>` of the latest one recorded stands right after the
/// runner's own pid, whatever the settings, figures and error around it.
pub proof fn law_recorded_wine_pid_is_reported(
    c: RuntimeCgroup,
    pid: u32,
    self_pid: u32,
    self_stats: Option<ProcCgroupStats>,
    wine_stats: Option<ProcCgroupStats>,
    limit_stats: Option<ProcCgroupStats>,
)
    requires
        c.wine_pid == Some(pid),
    ensures
        status_text(c, self_pid, self_stats, wine_stats, limit_stats) == settings_text(c.cfg)
            + "supported = true\nself_pid = "@ + decimal(self_pid as nat) + "\n"@ + wine_pid_line(pid)
            + figures_text(c, self_stats, wine_stats, limit_stats) + (match c.last_error {
            Some(e) => quoted_line("last_error"@, e@),
            None => Seq::empty(),
        }),
        exists|pre: Seq<char>, post: Seq<char>|
            status_text(c, self_pid, self_stats, wine_stats, limit_stats) == pre + wine_pid_line(pid)
                + post,
{
    let pre = settings_text(c.cfg) + "supported = true\nself_pid = "@ + decimal(self_pid as nat) + "\n"@;
    let post = figures_text(c, self_stats, wine_stats, limit_stats) + (match c.last_error {
        Some(e) => quoted_line("last_error"@, e@),
        None => Seq::empty(),
    });
    assert(status_text(c, self_pid, self_stats, wine_stats, limit_stats) =~= pre + wine_pid_line(pid) + post);
}

// ---------------------------------------------------------------------------
// Kernel files
// ---------------------------------------------------------------------------
/// The rest of the first line that starts with `prefix`.
pub open spec fn first_with_prefix(ls: Seq<Seq<char>>, prefix: Seq<char>) -> Option<Seq<char>>
    decreases ls.len(),
{
    if ls.len() == 0 {
        None
    } else if starts_with(ls[0], prefix) {
        Some(ls[0].subrange(prefix.len() as int, ls[0].len() as int))
    } else {
        first_with_prefix(ls.drop_first(), prefix)
    }
}

/// The cgroup v2 path in the contents of `/proc/<pid>/cgroup`: the rest of
/// its first `0::` line.
pub fn cgroup_path_from_proc(content: &str) -> (r: Option<String>)
    ensures
        opt_view(r) == first_with_prefix(lines(content@), "0::"@),
{
    let ls = split_lines(content);
    let mut i: usize = 0;
    assert(strs_view(ls@).skip(0) =~= strs_view(ls@));
    while i < ls.len()
        invariant
            i <= ls.len(),
            strs_view(ls@) == lines(content@),
            first_with_prefix(lines(content@), "0::"@) == first_with_prefix(
                strs_view(ls@).skip(i as int),
                "0::"@,
            ),
        decreases ls.len() - i,
    {
        let ghost rest = strs_view(ls@).skip(i as int);
        assert(rest[0] == ls@[i as int]@);
        assert(rest.drop_first() =~= strs_view(ls@).skip(i + 1));
        if let Some(r) = strip_prefix_str(ls[i].as_str(), "0::") {
            return Some(r);
        }
        i += 1;
    }
    None
}

/// The value of the first line of `cpu.stat` whose first word is
/// `usage_usec` and whose second word is a number.
pub open spec fn usage_in(ls: Seq<Seq<char>>) -> Option<u64>
    decreases ls.len(),
{
    if ls.len() == 0 {
        None
    } else {
        let w = words(ls[0]);
        if w.len() >= 2 && w[0] == "usage_usec"@ && parse_u64(w[1]) is Some {
            parse_u64(w[1])
        } else {
            usage_in(ls.drop_first())
        }
    }
}

/// The CPU time of a cgroup, from the contents of its `cpu.stat`.
pub fn cpu_usage_from_stat(content: &str) -> (r: Option<u64>)
    ensures
        r == usage_in(lines(content@)),
{
    let ls = split_lines(content);
    let mut i: usize = 0;
    assert(strs_view(ls@).skip(0) =~= strs_view(ls@));
    while i < ls.len()
        invariant
            i <= ls.len(),
            strs_view(ls@) == lines(content@),
            usage_in(lines(content@)) == usage_in(strs_view(ls@).skip(i as int)),
        decreases ls.len() - i,
    {
        let ghost rest = strs_view(ls@).skip(i as int);
        assert(rest[0] == ls@[i as int]@);
        assert(rest.drop_first() =~= strs_view(ls@).skip(i + 1));
        let parts = split_words(ls[i].as_str());
        if parts.len() >= 2 && str_eq(parts[0].as_str(), "usage_usec") {
            assert(strs_view(parts@)[0] == parts@[0]@);
            assert(strs_view(parts@)[1] == parts@[1]@);
            if let Some(v) = parse_u64_str(parts[1].as_str()) {
                return Some(v);
            }
        }
        i += 1;
    }
    None
}

/// The memory use of a cgroup, from the contents of its `memory.current`.
pub fn memory_current_from(content: &str) -> (r: Option<u64>)
    ensures
        r == parse_u64(trim(content@)),
{
    let t = trim_str(content);
    parse_u64_str(t.as_str())
}

/// `s` without leading slashes.
pub open spec fn without_leading_slashes(s: Seq<char>) -> Seq<char>
    decreases s.len(),
{
    if s.len() > 0 && s[0] == '/' {
        without_leading_slashes(s.drop_first())
    } else {
        s
    }
}

/// `s` without trailing slashes.
pub open spec fn without_trailing_slashes(s: Seq<char>) -> Seq<char>
    decreases s.len(),
{
    if s.len() > 0 && s.last() == '/' {
        without_trailing_slashes(s.drop_last())
    } else {
        s
    }
}

/// `str::trim_start_matches('/')`.
fn trim_leading_slashes(s: &str) -> (out: String)
    ensures
        out@ == without_leading_slashes(s@),
{
    let v = to_chars(s);
    let mut i: usize = 0;
    assert(s@.skip(0) =~= s@);
    while i < v.len() && v[i] == '/'
        invariant
            i <= v.len(),
            v@ == s@,
            without_leading_slashes(s@) == without_leading_slashes(s@.skip(i as int)),
        decreases v.len() - i,
    {
        assert(s@.skip(i as int).drop_first() =~= s@.skip(i + 1));
        i += 1;
    }
    assert(s@.skip(i as int) =~= v@.subrange(i as int, v.len() as int));
    crate::text::chars_range(&v, i, v.len())
}

/// `str::trim_end_matches('/')`.
fn trim_trailing_slashes(s: &str) -> (out: String)
    ensures
        out@ == without_trailing_slashes(s@),
{
    let v = to_chars(s);
    let mut e: usize = v.len();
    assert(s@.take(v.len() as int) =~= s@);
    while e > 0 && v[e - 1] == '/'
        invariant
            e <= v.len(),
            v@ == s@,
            without_trailing_slashes(s@) == without_trailing_slashes(s@.take(e as int)),
        decreases e,
    {
        assert(s@.take(e as int).drop_last() =~= s@.take(e - 1));
        e -= 1;
    }
    assert(s@.take(e as int) =~= v@.subrange(0, e as int));
    crate::text::chars_range(&v, 0, e)
}

/// The absolute path of a cgroup given relative to the cgroup root.
pub fn cgroup_abs_path(relative: &str) -> (r: String)
    ensures
        r@ == join("/sys/fs/cgroup"@, without_leading_slashes(relative@)),
{
    let rel = trim_leading_slashes(relative);
    path_join("/sys/fs/cgroup", rel.as_str())
}

/// The limited group under the runner's own cgroup, relative to the cgroup
/// root.
pub open spec fn limit_group_relative(current: Seq<char>) -> Seq<char> {
    without_leading_slashes(without_trailing_slashes(current) + "/we-layerd/wine"@)
}

/// The limited group under the runner's own cgroup (given relative to the
/// cgroup root): its absolute path and its path relative to the root, as
/// the status report shows it.
pub fn wine_limit_group_paths(current: &str) -> (r: (String, String))
    ensures
        r.0@ == join("/sys/fs/cgroup"@, limit_group_relative(current@)),
        r.1@ == limit_group_relative(current@),
{
    let base = trim_trailing_slashes(current);
    let rel = concat(base.as_str(), "/we-layerd/wine");
    let shown = trim_leading_slashes(rel.as_str());
    (cgroup_abs_path(rel.as_str()), shown)
}

/// The files written to move Wine into the limited group, in order, with
/// their contents: `memory.max` and `cpu.max` when configured, then the pid
/// into `cgroup.procs`.
pub open spec fn attach_writes_spec(cfg: CgroupConfig, pid: u32, group: Seq<char>) -> Seq<(Seq<char>, Seq<char>)> {
    (match cfg.memory_max {
        Some(m) => seq![(join(group, "memory.max"@), m@)],
        None => Seq::empty(),
    }) + (match cfg.cpu_max {
        Some(c) => seq![(join(group, "cpu.max"@), c@)],
        None => Seq::empty(),
    }) + seq![(join(group, "cgroup.procs"@), decimal(pid as nat))]
}

/// The files written to move Wine into the limited group.
pub fn attach_writes(cfg: &CgroupConfig, pid: u32, group: &str) -> (w: Vec<(String, String)>)
    ensures
        w@.map_values(|p: (String, String)| (p.0@, p.1@)) == attach_writes_spec(*cfg, pid, group@),
{
    let mut w: Vec<(String, String)> = Vec::new();
    if let Some(m) = &cfg.memory_max {
        w.push((path_join(group, "memory.max"), m.clone()));
    }
    if let Some(c) = &cfg.cpu_max {
        w.push((path_join(group, "cpu.max"), c.clone()));
    }
    w.push((path_join(group, "cgroup.procs"), u32_to_decimal(pid)));
    assert(w@.map_values(|p: (String, String)| (p.0@, p.1@)) =~= attach_writes_spec(*cfg, pid, group@));
    w
}

} // verus!
