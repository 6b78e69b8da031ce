//! The isolated headless display: its size and the command that starts it.
use vstd::prelude::*;

use crate::arglist::{arg_value, value_after};
use crate::config::IsolationConfig;
use crate::text::{decimal, lit, owned, parse_u32, parse_u32_str, strs_view, u32_to_decimal};

verus! {

/// The size of the isolated display.
#[derive(Debug, Clone, Copy, PartialEq, Eq, Structural)]
pub struct DisplaySize {
    pub width: u32,
    pub height: u32,
}

/// The width used when neither the configuration nor the arguments give one.
pub const DEFAULT_WIDTH: u32 = 1920;

/// The height used when neither the configuration nor the arguments give one.
pub const DEFAULT_HEIGHT: u32 = 1080;

/// The positive value of a numeric flag in `args`.
pub open spec fn positive_flag(args: Seq<Seq<char>>, flag: Seq<char>) -> Option<u32> {
    match value_after(args, flag) {
        Some(v) => match parse_u32(v) {
            Some(n) => if n > 0 {
                Some(n)
            } else {
                None
            },
            None => None,
        },
        None => None,
    }
}

/// The positive value of a numeric flag.
pub fn numeric_arg(args: &Vec<String>, flag: &str) -> (r: Option<u32>)
    ensures
        r == positive_flag(strs_view(args@), flag@),
{
    match arg_value(args, flag) {
        Some(v) => match parse_u32_str(v.as_str()) {
            Some(n) => if n > 0 {
                Some(n)
            } else {
                None
            },
            None => None,
        },
        None => None,
    }
}

/// The configured dimension, else the one in the arguments, else the default.
pub open spec fn dimension(configured: Option<u32>, from_args: Option<u32>, default: u32) -> u32 {
    match configured {
        Some(v) => v,
        None => match from_args {
            Some(v) => v,
            None => default,
        },
    }
}

/// The size of the isolated display: each dimension from the isolation
/// configuration, else from the Wine `-width`/`-height` arguments, else
/// 1920x1080.
pub fn resolve_display_size(config: &IsolationConfig, wine_args: &Vec<String>) -> (size: DisplaySize)
    ensures
        size.width == dimension(config.width, positive_flag(strs_view(wine_args@), "-width"@), 1920),
        size.height == dimension(config.height, positive_flag(strs_view(wine_args@), "-height"@), 1080),
{
    let width = match config.width {
        Some(w) => w,
        None => match numeric_arg(wine_args, "-width") {
            Some(w) => w,
            None => DEFAULT_WIDTH,
        },
    };
    let height = match config.height {
        Some(h) => h,
        None => match numeric_arg(wine_args, "-height") {
            Some(h) => h,
            None => DEFAULT_HEIGHT,
        },
    };
    DisplaySize { width, height }
}

/// The arguments of the headless gamescope command: the output and nested
/// sizes, one XWayland server, and a shell that writes the display name to
/// `display_file` and then waits.
pub open spec fn gamescope_args(size: DisplaySize, display_file: Seq<char>) -> Seq<Seq<char>> {
    seq![
        "--backend"@,
        "headless"@,
        "-W"@,
        decimal(size.width as nat),
        "-H"@,
        decimal(size.height as nat),
        "-w"@,
        decimal(size.width as nat),
        "-h"@,
        decimal(size.height as nat),
        "--xwayland-count"@,
        "1"@,
        "--"@,
        "/bin/sh"@,
        "-c"@,
        "printf '%s\n' \"$DISPLAY\" > \"$1\"; exec sleep infinity"@,
        "we-layerd-gamescope-display"@,
        display_file,
    ]
}

/// The arguments of the headless gamescope command.
pub fn gamescope_headless_args(size: &DisplaySize, display_file: &str) -> (args: Vec<String>)
    ensures
        strs_view(args@) == gamescope_args(*size, display_file@),
{
    let args = vec![
        lit("--backend"),
        lit("headless"),
        lit("-W"),
        u32_to_decimal(size.width),
        lit("-H"),
        u32_to_decimal(size.height),
        lit("-w"),
        u32_to_decimal(size.width),
        lit("-h"),
        u32_to_decimal(size.height),
        lit("--xwayland-count"),
        lit("1"),
        lit("--"),
        lit("/bin/sh"),
        lit("-c"),
        lit("printf '%s\n' \"$DISPLAY\" > \"$1\"; exec sleep infinity"),
        lit("we-layerd-gamescope-display"),
        owned(display_file),
    ];
    assert(strs_view(args@) =~= gamescope_args(*size, display_file@));
    args
}

/// The startup timeout, at least one second.
pub fn startup_timeout_secs(config: &IsolationConfig) -> (t: u64)
    ensures
        t == (if config.startup_timeout_secs >= 1 {
            config.startup_timeout_secs
        } else {
            1
        }),
{
    if config.startup_timeout_secs >= 1 {
        config.startup_timeout_secs
    } else {
        1
    }
}

} // verus!
