//! Decisions and data of a Wallpaper Engine runner for Linux compositors:
//! its configuration, the launch arguments it builds, the runtime state it
//! reports, the control protocol it speaks and the window selection it makes.
pub mod app;
pub mod arglist;
pub mod cgroup;
pub mod cli;
pub mod config;
pub mod display_isolation;
pub mod gnome;
pub mod gui;
pub mod ipc;
pub mod pathname;
pub mod probe;
pub mod text;
pub mod video;
pub mod wayland;
pub mod we_core;
pub mod wine;
pub mod wm_visibility;
pub mod x11;
