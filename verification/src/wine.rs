//! Starting and watching the Wine process that runs Wallpaper Engine.
pub mod launcher;
