//! The frames `ffmpeg` decodes and the command lines of `ffprobe` and
//! `ffmpeg`.
use vstd::prelude::*;

use crate::text::{lines, lit, parse_u32, parse_u32_str, strs_view, trimmed_lines, trimmed_nonempty};

verus! {

/// A decoded frame: tightly packed BGRA rows.
#[derive(Debug, Clone)]
pub struct VideoFrame {
    pub width: u32,
    pub height: u32,
    pub stride: u32,
    pub bgra: Vec<u8>,
}

/// The bytes of one decoded frame, where they fit in a `u32`.
pub open spec fn frame_len(width: u32, height: u32) -> Option<u32> {
    if width * height <= u32::MAX && width * height * 4 <= u32::MAX {
        Some((width * height * 4) as u32)
    } else {
        None
    }
}

/// The bytes of one decoded frame (`None` where the size overflows).
pub fn frame_byte_len(width: u32, height: u32) -> (r: Option<u32>)
    ensures
        r == frame_len(width, height),
{
    match width.checked_mul(height) {
        Some(px) => px.checked_mul(4),
        None => None,
    }
}

/// The frame made of the bytes read for one picture.
pub fn frame_from_bytes(width: u32, height: u32, bgra: Vec<u8>) -> (f: VideoFrame)
    requires
        width * 4 <= u32::MAX,
    ensures
        f.width == width,
        f.height == height,
        f.stride == width * 4,
        f.bgra@ == bgra@,
{
    VideoFrame { width, height, stride: width * 4, bgra }
}

/// The `ffprobe` arguments that print a file's width, height and average
/// frame rate, one per line.
pub fn ffprobe_args(path: &str) -> (args: Vec<String>)
    ensures
        strs_view(args@) == seq![
            "-v"@,
            "error"@,
            "-select_streams"@,
            "v:0"@,
            "-show_entries"@,
            "stream=width,height,avg_frame_rate"@,
            "-of"@,
            "default=noprint_wrappers=1:nokey=1"@,
            path@,
        ],
{
    let args = vec![
        lit("-v"),
        lit("error"),
        lit("-select_streams"),
        lit("v:0"),
        lit("-show_entries"),
        lit("stream=width,height,avg_frame_rate"),
        lit("-of"),
        lit("default=noprint_wrappers=1:nokey=1"),
        lit(path),
    ];
    assert(strs_view(args@) =~= seq![
        "-v"@,
        "error"@,
        "-select_streams"@,
        "v:0"@,
        "-show_entries"@,
        "stream=width,height,avg_frame_rate"@,
        "-of"@,
        "default=noprint_wrappers=1:nokey=1"@,
        path@,
    ]);
    args
}

/// The `ffmpeg` arguments that decode a file to raw BGRA frames on
/// standard output, looping forever where asked.
pub open spec fn decoder_args_of(path: Seq<char>, loop_playback: bool) -> Seq<Seq<char>> {
    (seq!["-v"@, "error"@] + if loop_playback {
        seq!["-stream_loop"@, "-1"@]
    } else {
        Seq::empty()
    }) + seq![
        "-i"@,
        path,
        "-an"@,
        "-sn"@,
        "-dn"@,
        "-vf"@,
        "format=bgra"@,
        "-pix_fmt"@,
        "bgra"@,
        "-f"@,
        "rawvideo"@,
        "-"@,
    ]
}

/// The `ffmpeg` arguments that decode a file.
pub fn ffmpeg_decoder_args(path: &str, loop_playback: bool) -> (args: Vec<String>)
    ensures
        strs_view(args@) == decoder_args_of(path@, loop_playback),
{
    let mut args: Vec<String> = vec![lit("-v"), lit("error")];
    if loop_playback {
        args.push(lit("-stream_loop"));
        args.push(lit("-1"));
    }
    let ghost head = strs_view(args@);
    let tail = vec![
        lit("-i"),
        lit(path),
        lit("-an"),
        lit("-sn"),
        lit("-dn"),
        lit("-vf"),
        lit("format=bgra"),
        lit("-pix_fmt"),
        lit("bgra"),
        lit("-f"),
        lit("rawvideo"),
        lit("-"),
    ];
    let ghost t = strs_view(tail@);
    let mut i: usize = 0;
    while i < tail.len()
        invariant
            i <= tail.len(),
            t == strs_view(tail@),
            strs_view(args@) == head + t.take(i as int),
        decreases tail.len() - i,
    {
        let ghost before = args@;
        args.push(lit(tail[i].as_str()));
        proof {
            assert(strs_view(args@) =~= strs_view(before).push(tail@[i as int]@));
            assert(t.take(i + 1) =~= t.take(i as int).push(tail@[i as int]@));
        }
        i += 1;
    }
    assert(t.take(tail.len() as int) =~= t);
    assert(strs_view(args@) =~= decoder_args_of(path@, loop_playback));
    args
}

/// Why `ffprobe`'s output could not be read.
#[derive(Debug, Clone, PartialEq, Eq)]
pub enum ProbeError {
    /// Fewer than three non-empty lines.
    TooFewLines(usize),
    InvalidWidth(String),
    InvalidHeight(String),
}

/// What `ffprobe` printed: the width and height (its first two non-empty
/// trimmed lines) and the text of the frame rate (the third).
pub open spec fn probe_outcome(stdout: Seq<char>, r: Result<(u32, u32, Seq<char>), ProbeError>) -> bool {
    let ls = trimmed_nonempty(lines(stdout));
    if ls.len() < 3 {
        r == Err::<(u32, u32, Seq<char>), ProbeError>(ProbeError::TooFewLines(ls.len() as usize))
    } else {
        match (parse_u32(ls[0]), parse_u32(ls[1])) {
            (Some(w), Some(h)) => r == Ok::<(u32, u32, Seq<char>), ProbeError>((w, h, ls[2])),
            (None, _) => r matches Err(ProbeError::InvalidWidth(t)) && t@ == ls[0],
            (Some(_), None) => r matches Err(ProbeError::InvalidHeight(t)) && t@ == ls[1],
        }
    }
}

/// Reads `ffprobe`'s output.
pub fn parse_probe_output(stdout: &str) -> (r: Result<(u32, u32, String), ProbeError>)
    ensures
        probe_outcome(
            stdout@,
            match r {
                Ok(v) => Ok((v.0, v.1, v.2@)),
                Err(e) => Err(e),
            },
        ),
{
    let ls = trimmed_lines(stdout);
    if ls.len() < 3 {
        return Err(ProbeError::TooFewLines(ls.len()));
    }
    assert(strs_view(ls@)[0] == ls@[0]@);
    assert(strs_view(ls@)[1] == ls@[1]@);
    assert(strs_view(ls@)[2] == ls@[2]@);
    let w = match parse_u32_str(ls[0].as_str()) {
        Some(w) => w,
        None => {
            return Err(ProbeError::InvalidWidth(lit(ls[0].as_str())));
        },
    };
    let h = match parse_u32_str(ls[1].as_str()) {
        Some(h) => h,
        None => {
            return Err(ProbeError::InvalidHeight(lit(ls[1].as_str())));
        },
    };
    Ok((w, h, lit(ls[2].as_str())))
}

/// `a[i]` is read by `ffmpeg` as an option name: it is not the value of the
/// `-i` that stands before it.
pub open spec fn option_position(a: Seq<Seq<char>>, i: int) -> bool {
    0 <= i < a.len() && !(i > 0 && a[i - 1] == "-i"@)
}

/// The decoder asks `ffmpeg` for raw BGRA frames, whatever the file and
/// whether it loops: the pixel format passed with `-pix_fmt` is `bgra` and
/// the filter passed with `-vf` is `format=bgra`, wherever these options
/// stand, so the bytes read back are in the BGRA layout that
/// `frame_from_bytes` (four bytes a pixel, BGRA rows) takes them to be.
pub proof fn law_decoder_asks_for_bgra(path: Seq<char>, loop_playback: bool)
    ensures
        ({
            let a = decoder_args_of(path, loop_playback);
            &&& exists|i: int| #[trigger]
                option_position(a, i) && i + 1 < a.len() && a[i] == "-pix_fmt"@ && a[i + 1]
                    == "bgra"@
            &&& exists|i: int| #[trigger]
                option_position(a, i) && i + 1 < a.len() && a[i] == "-vf"@ && a[i + 1]
                    == "format=bgra"@
            &&& forall|i: int| #[trigger]
                option_position(a, i) && a[i] == "-pix_fmt"@ ==> i + 1 < a.len() && a[i + 1]
                    == "bgra"@
            &&& forall|i: int| #[trigger]
                option_position(a, i) && a[i] == "-vf"@ ==> i + 1 < a.len() && a[i + 1]
                    == "format=bgra"@
        }),
{
    reveal_strlit("-v");
    reveal_strlit("error");
    reveal_strlit("-stream_loop");
    reveal_strlit("-1");
    reveal_strlit("-i");
    reveal_strlit("-an");
    reveal_strlit("-sn");
    reveal_strlit("-dn");
    reveal_strlit("-vf");
    reveal_strlit("format=bgra");
    reveal_strlit("-pix_fmt");
    reveal_strlit("bgra");
    reveal_strlit("-f");
    reveal_strlit("rawvideo");
    reveal_strlit("-");
    let a = decoder_args_of(path, loop_playback);
    let o: int = if loop_playback { 2 } else { 0 };
    assert(a.len() == 14 + o);
    assert(a[0] == "-v"@ && a[1] == "error"@);
    assert(loop_playback ==> a[2] == "-stream_loop"@ && a[3] == "-1"@);
    assert(a[2 + o] == "-i"@ && a[3 + o] == path && a[4 + o] == "-an"@ && a[5 + o] == "-sn"@);
    assert(a[6 + o] == "-dn"@ && a[7 + o] == "-vf"@ && a[8 + o] == "format=bgra"@);
    assert(a[9 + o] == "-pix_fmt"@ && a[10 + o] == "bgra"@ && a[11 + o] == "-f"@);
    assert(a[12 + o] == "rawvideo"@ && a[13 + o] == "-"@);
    assert(option_position(a, 9 + o));
    assert(option_position(a, 7 + o));
    assert forall|i: int| #[trigger] option_position(a, i) && a[i] == "-pix_fmt"@ implies i + 1
        < a.len() && a[i + 1] == "bgra"@ by {
        if i != 9 + o {
            assert(i != 3 + o);
            assert(a[i].len() != 8 || a[i][0] != '-' || a[i][1] != 'p');
        }
    }
    assert forall|i: int| #[trigger] option_position(a, i) && a[i] == "-vf"@ implies i + 1 < a.len()
        && a[i + 1] == "format=bgra"@ by {
        if i != 7 + o {
            assert(i != 3 + o);
            assert(a[i].len() != 3 || a[i][0] != '-' || a[i][1] != 'v');
        }
    }
}

} // verus!
