//! The platform-neutral core: Steam discovery decisions, wallpaper metadata
//! and the configuration that the companion application writes.
pub mod config;
pub mod steam;
pub mod wallpaper;
