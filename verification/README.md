# we-layerd

Runs Wallpaper Engine under Wine and shows it as the desktop wallpaper on
Wayland: a wlr layer-shell surface fed by XComposite captures of the
Wallpaper Engine window, or the GNOME Shell extension over D-Bus, or a
video decoded by ffmpeg.

## Layout

- `src/` — the library, verified with Verus: the configuration and its
  defaults, the runtime state machine and session planning, the control
  protocol (requests, replies, endpoints), window matching and scoring,
  frame packing and upload checks, the window-manager commands that hide
  the debug window, cgroup status and limits, Wine command lines and exit
  handling, Steam/workshop discovery, wallpaper scanning, and the settings
  application's state machine.
- `app/` — the `we-layerd` program around it: command line, TOML files,
  sockets, processes, X11, D-Bus, wgpu and the Wayland surface.
- `tests/` — tests of the library.

The settings application's wallpaper list does not carry the video file of a
video wallpaper, so picking one there writes a configuration without
`runtime.video_file`; the runner then refuses to start it until that key is
set by hand.
