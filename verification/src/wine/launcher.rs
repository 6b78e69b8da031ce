//! The Wine command line, when a Wine process that exited is started again,
//! and which processes of the user are Wallpaper Engine's helper windows.
use vstd::prelude::*;

use crate::config::{WineCommandMode, WineConfig};
use crate::probe::{answered, ask, total_probe};
use crate::text::{
    ascii_lower, concat, contains, contains_str, lines, lit, parse_i32, parse_i32_str, parse_u32,
    parse_u32_str, split_lines, split_words, starts_with, str_eq, strip_prefix_str, strs_view,
    to_ascii_lower, words,
};

verus! {

/// Why Wine could not be started.
#[derive(Debug, Clone, PartialEq, Eq)]
pub enum LaunchError {
    /// `wine.wallpaper_exe` is empty.
    EmptyWallpaperExe,
    /// The executable does not exist.
    MissingWallpaperExe(String),
}

impl LaunchError {
    /// The message reported for the error.
    pub fn message(&self) -> (m: String)
        ensures
            m@ == match self {
                LaunchError::EmptyWallpaperExe => "wine.wallpaper_exe is empty; set the Wallpaper Engine executable path"@,
                LaunchError::MissingWallpaperExe(p) => "Wallpaper executable does not exist: "@ + p@,
            },
    {
        match self {
            LaunchError::EmptyWallpaperExe => lit(
                "wine.wallpaper_exe is empty; set the Wallpaper Engine executable path",
            ),
            LaunchError::MissingWallpaperExe(p) => concat(
                "Wallpaper executable does not exist: ",
                p.as_str(),
            ),
        }
    }
}

/// The program and arguments that start Wine: the executable and then the
/// arguments in `exe_with_args` mode, the arguments alone in `command_only`
/// mode; refused when the executable is empty or does not exist (`exists`
/// is asked only then).
pub open spec fn command_line_outcome<F: Fn(String) -> bool>(
    config: WineConfig,
    exists: F,
    r: Result<(Seq<char>, Seq<Seq<char>>), LaunchError>,
) -> bool {
    match config.command_mode {
        WineCommandMode::ExeWithArgs => if config.wallpaper_exe@.len() == 0 {
            r == Err::<(Seq<char>, Seq<Seq<char>>), LaunchError>(LaunchError::EmptyWallpaperExe)
        } else {
            ||| answered(exists, config.wallpaper_exe@, false) && (r matches Err(
                LaunchError::MissingWallpaperExe(p),
            ) && p@ == config.wallpaper_exe@)
            ||| answered(exists, config.wallpaper_exe@, true) && r == Ok::<
                (Seq<char>, Seq<Seq<char>>),
                LaunchError,
            >((config.command@, seq![config.wallpaper_exe@] + strs_view(config.args@)))
        },
        WineCommandMode::CommandOnly => r == Ok::<(Seq<char>, Seq<Seq<char>>), LaunchError>(
            (config.command@, strs_view(config.args@)),
        ),
    }
}

/// The view of a command line result.
pub open spec fn command_line_view(r: Result<(String, Vec<String>), LaunchError>) -> Result<
    (Seq<char>, Seq<Seq<char>>),
    LaunchError,
> {
    match r {
        Ok(c) => Ok((c.0@, strs_view(c.1@))),
        Err(e) => Err(e),
    }
}

/// The program and arguments that start Wine for a configuration.
pub fn wine_command_line<F: Fn(String) -> bool>(config: &WineConfig, exists: F) -> (r: Result<
    (String, Vec<String>),
    LaunchError,
>)
    requires
        total_probe(exists),
    ensures
        command_line_outcome(*config, exists, command_line_view(r)),
{
    match config.command_mode {
        WineCommandMode::ExeWithArgs => {
            if str_eq(config.wallpaper_exe.as_str(), "") {
                proof {
                    reveal_strlit("");
                }
                return Err(LaunchError::EmptyWallpaperExe);
            }
            proof {
                reveal_strlit("");
                assert(config.wallpaper_exe@.len() == 0 ==> config.wallpaper_exe@ =~= ""@);
            }
            if !ask(&exists, config.wallpaper_exe.as_str()) {
                return Err(LaunchError::MissingWallpaperExe(lit(config.wallpaper_exe.as_str())));
            }
            let mut args: Vec<String> = Vec::new();
            args.push(lit(config.wallpaper_exe.as_str()));
            let mut i: usize = 0;
            while i < config.args.len()
                invariant
                    i <= config.args.len(),
                    strs_view(args@) == seq![config.wallpaper_exe@] + strs_view(config.args@).take(
                        i as int,
                    ),
                decreases config.args.len() - i,
            {
                let ghost before = args@;
                args.push(lit(config.args[i].as_str()));
                proof {
                    assert(strs_view(args@) =~= strs_view(before).push(config.args@[i as int]@));
                    assert(strs_view(config.args@).take(i + 1) =~= strs_view(config.args@).take(
                        i as int,
                    ).push(config.args@[i as int]@));
                }
                i += 1;
            }
            assert(strs_view(config.args@).take(config.args.len() as int) =~= strs_view(config.args@));
            Ok((lit(config.command.as_str()), args))
        },
        WineCommandMode::CommandOnly => {
            let args = crate::text::copy_strings(&config.args);
            Ok((lit(config.command.as_str()), args))
        },
    }
}

/// What the exit monitor does when the Wine process has exited.
#[derive(Debug, Clone, Copy, PartialEq, Eq, Structural)]
pub enum ExitDecision {
    /// The runner is stopping: leave the monitor.
    Leave,
    /// Start Wine again.
    Restart,
    /// Leave Wine stopped and keep watching.
    KeepStopped,
}

/// What to do after Wine exited: leave when stopping, start it again
/// when asked to and it failed, otherwise leave it stopped.
pub fn exit_decision(stopping: bool, restart_on_exit: bool, exited_ok: bool) -> (d: ExitDecision)
    ensures
        stopping ==> d == ExitDecision::Leave,
        !stopping && restart_on_exit && !exited_ok ==> d == ExitDecision::Restart,
        !stopping && !(restart_on_exit && !exited_ok) ==> d == ExitDecision::KeepStopped,
{
    if stopping {
        ExitDecision::Leave
    } else if restart_on_exit && !exited_ok {
        ExitDecision::Restart
    } else {
        ExitDecision::KeepStopped
    }
}

/// The real user id in a `/proc/<pid>/status` text: the first word after
/// `Uid:` on the first line that starts with it.
pub open spec fn status_uid(ls: Seq<Seq<char>>) -> Option<u32>
    decreases ls.len(),
{
    if ls.len() == 0 {
        None
    } else if starts_with(ls[0], "Uid:"@) {
        let w = words(ls[0].skip(4));
        if w.len() > 0 {
            parse_u32(w[0])
        } else {
            None
        }
    } else {
        status_uid(ls.drop_first())
    }
}

/// The real user id in a `/proc/<pid>/status` text.
pub fn uid_from_status(status: &str) -> (r: Option<u32>)
    ensures
        r == status_uid(lines(status@)),
{
    let ls = split_lines(status);
    let mut i: usize = 0;
    assert(strs_view(ls@).skip(0) =~= strs_view(ls@));
    while i < ls.len()
        invariant
            i <= ls.len(),
            strs_view(ls@) == lines(status@),
            status_uid(lines(status@)) == status_uid(strs_view(ls@).skip(i as int)),
        decreases ls.len() - i,
    {
        let ghost rest = strs_view(ls@).skip(i as int);
        assert(rest[0] == ls@[i as int]@);
        assert(rest.drop_first() =~= strs_view(ls@).skip(i + 1));
        if let Some(after) = strip_prefix_str(ls[i].as_str(), "Uid:") {
            proof {
                reveal_strlit("Uid:");
            }
            assert(after@ =~= ls@[i as int]@.skip(4));
            let w = split_words(after.as_str());
            if w.len() > 0 {
                assert(strs_view(w@)[0] == w@[0]@);
                return parse_u32_str(w[0].as_str());
            }
            return None;
        }
        i += 1;
    }
    None
}

/// The helper windows Wallpaper Engine opens at start and the runner
/// closes.
pub fn bootstrap_window_names() -> (names: Vec<String>)
    ensures
        strs_view(names@) == seq!["explorer.exe"@, "ui32.exe"@],
{
    let names = vec![lit("explorer.exe"), lit("ui32.exe")];
    assert(strs_view(names@) =~= seq!["explorer.exe"@, "ui32.exe"@]);
    names
}

/// A process is one of the named programs: its command line or its name
/// (in lower case) holds one of the names.
pub open spec fn process_named(cmdline: Seq<char>, comm: Seq<char>, names: Seq<Seq<char>>) -> bool {
    exists|i: int|
        0 <= i < names.len() && (contains(ascii_lower(cmdline), #[trigger] names[i]) || contains(
            ascii_lower(comm),
            names[i],
        ))
}

/// Whether a process is one of the named programs.
pub fn is_named_process(cmdline: &str, comm: &str, names: &Vec<String>) -> (r: bool)
    ensures
        r == process_named(cmdline@, comm@, strs_view(names@)),
{
    let c = to_ascii_lower(cmdline);
    let m = to_ascii_lower(comm);
    let mut i: usize = 0;
    while i < names.len()
        invariant
            i <= names.len(),
            c@ == ascii_lower(cmdline@),
            m@ == ascii_lower(comm@),
            forall|j: int|
                0 <= j < i ==> !(contains(ascii_lower(cmdline@), #[trigger] strs_view(names@)[j])
                    || contains(ascii_lower(comm@), strs_view(names@)[j])),
        decreases names.len() - i,
    {
        assert(strs_view(names@)[i as int] == names@[i as int]@);
        if contains_str(c.as_str(), names[i].as_str()) || contains_str(m.as_str(), names[i].as_str()) {
            return true;
        }
        i += 1;
    }
    false
}

/// The pid a `/proc` entry names, where its name is a number.
pub fn proc_entry_pid(name: &str) -> (r: Option<i32>)
    ensures
        r == parse_i32(name@),
{
    parse_i32_str(name)
}

} // verus!
