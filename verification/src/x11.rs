//! Choosing the Wallpaper Engine window among the X11 windows, and the
//! pixel layout of captured frames.
pub mod capture_xcomposite;
pub mod window_finder;
