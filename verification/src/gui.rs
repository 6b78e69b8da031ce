//! The companion application's logic: its settings panel, its tray menu
//! and the way it turns the user's actions into configuration and commands.
pub mod settings_panel;
pub mod shell;
pub mod tray;
pub mod update;
