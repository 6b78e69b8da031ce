//! Native video playback through `ffmpeg`: the frames it yields and the
//! commands that probe and decode a file.
pub mod decoder;
