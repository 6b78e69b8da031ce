//! The layer-shell wallpaper surface: what its render loop is configured
//! with and what a frame upload must satisfy.
pub mod layer_shell;
pub mod render_wgpu;
