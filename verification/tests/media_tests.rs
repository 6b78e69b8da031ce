use we_layerd::x11::capture_xcomposite::frame_from_shm_rows;
use we_layerd::config::{Config, WineCommandMode, WineConfig};
use we_layerd::gnome::{
    doctor, is_gnome_session_env, is_gnome_session_from, session_end, video_bridge_step, window_bridge_on_control,
    window_bridge_on_scan, ControlEvent, RegisteredWindow, ScanOutcome, VideoBridgeStep, WindowBridgeStep,
};
use we_layerd::ipc::{ControlCommand, RuntimeLoopExit};
use we_layerd::video::decoder::{ffmpeg_decoder_args, ffprobe_args, frame_byte_len, parse_probe_output, ProbeError};
use we_layerd::wayland::layer_shell::{layer_run_config, render_fps};
use we_layerd::wayland::render_wgpu::{check_bgra_upload, surface_size, UploadError};
use we_layerd::we_core::config::EnvMap;
use we_layerd::wine::launcher::{
    bootstrap_window_names, exit_decision, is_named_process, proc_entry_pid, uid_from_status, wine_command_line,
    ExitDecision, LaunchError,
};
use we_layerd::x11::capture_xcomposite::{bgra_to_rgba, frame_from_image, x11_stride_for_format, CaptureError};

fn window(xid: u32) -> RegisteredWindow {
    RegisteredWindow { xid, pid: 1, title: "t".to_string(), wm_class: "c".to_string() }
}

#[test]
fn captured_images_are_checked_and_repacked() {
    assert_eq!(frame_from_image(2, 2, 16, vec![0; 16]).err(), Some(CaptureError::UnsupportedDepth(16)));
    assert_eq!(
        frame_from_image(2, 2, 24, vec![0; 15]).err(),
        Some(CaptureError::ShortPayload { got: 15, expected: 16 })
    );
    let exact: Vec<u8> = (0..16).collect();
    let f = frame_from_image(2, 2, 32, exact.clone()).expect("frame");
    assert_eq!((f.width, f.height, f.stride), (2, 2, 8));
    assert_eq!(f.bgra, exact);
    let padded: Vec<u8> = (0..24).collect();
    let f = frame_from_image(2, 2, 32, padded).expect("frame");
    assert_eq!(f.bgra, vec![0, 1, 2, 3, 4, 5, 6, 7, 12, 13, 14, 15, 16, 17, 18, 19]);
    let f = frame_from_image(0, 0, 24, vec![9; 4]).expect("frame");
    assert_eq!((f.width, f.height), (1, 1));
}

#[test]
fn pixmap_stride_and_color_order() {
    assert_eq!(x11_stride_for_format(32, 32, 3), Ok(12));
    assert_eq!(x11_stride_for_format(32, 0, 1), Ok(4));
    assert_eq!(x11_stride_for_format(24, 32, 3), Err(CaptureError::UnsupportedBitsPerPixel(24)));
    assert_eq!(bgra_to_rgba(&vec![1, 2, 3, 4, 5, 6, 7, 8, 9]), vec![3, 2, 1, 4, 7, 6, 5, 8, 9]);
}

#[test]
fn uploads_are_checked() {
    assert_eq!(check_bgra_upload(10, 2, 48, 88, 8192), Ok(88));
    assert_eq!(check_bgra_upload(10, 0, 40, 0, 8192), Ok(0));
    assert_eq!(check_bgra_upload(10, 2, 39, 100, 8192), Err(UploadError::BadStride { got: 39, expected: 40 }));
    assert_eq!(check_bgra_upload(10, 2, 40, 79, 8192), Err(UploadError::ShortPayload { got: 79, expected: 80 }));
    assert_eq!(check_bgra_upload(9000, 2, 40, 79, 8192), Err(UploadError::TooLarge { width: 9000, height: 2, max: 8192 }));
    assert_eq!(surface_size(0, 5), (1, 5));
}

#[test]
fn video_helpers() {
    assert_eq!(frame_byte_len(1920, 1080), Some(8294400));
    assert_eq!(frame_byte_len(70000, 70000), None);
    assert_eq!(frame_byte_len(40000, 40000), None);
    assert_eq!(ffprobe_args("/v.mp4").last().map(String::as_str), Some("/v.mp4"));
    let args = ffmpeg_decoder_args("/v.mp4", true);
    assert_eq!(&args[0..4], &["-v".to_string(), "error".to_string(), "-stream_loop".to_string(), "-1".to_string()]);
    assert_eq!(args.last().map(String::as_str), Some("-"));
    assert_eq!(ffmpeg_decoder_args("/v.mp4", false).len(), 14);
    assert_eq!(parse_probe_output("1920\n\n1080\n30000/1001\n"), Ok((1920, 1080, "30000/1001".to_string())));
    assert_eq!(parse_probe_output("1920\n"), Err(ProbeError::TooFewLines(1)));
    assert_eq!(parse_probe_output("w\n1\n2\n"), Err(ProbeError::InvalidWidth("w".to_string())));
}

#[test]
fn layer_shell_configuration() {
    let mut cfg = Config::default();
    cfg.capture.output_window_map = vec![("DP-1".to_string(), 7)];
    cfg.general.fps_limit = 0;
    let run = layer_run_config(&cfg, Some(5), Some(99));
    assert_eq!(run.capture_window, Some(5));
    assert_eq!(run.output_window_map, vec![("DP-1".to_string(), 7)]);
    assert_eq!(run.wine_pid, Some(99));
    assert_eq!(render_fps(run.fps_limit), 1);
    assert_eq!(render_fps(60), 60);
}

fn wine_cfg(mode: WineCommandMode, exe: &str) -> WineConfig {
    WineConfig {
        command: "wine".to_string(),
        command_mode: mode,
        args: vec!["-a".to_string()],
        wallpaper_exe: exe.to_string(),
        env: EnvMap::new(),
    }
}

#[test]
fn wine_command_lines() {
    let cfg = wine_cfg(WineCommandMode::ExeWithArgs, "/g/wallpaper64.exe");
    assert_eq!(
        wine_command_line(&cfg, |_p: String| true),
        Ok(("wine".to_string(), vec!["/g/wallpaper64.exe".to_string(), "-a".to_string()]))
    );
    let e = wine_command_line(&cfg, |_p: String| false).unwrap_err();
    assert_eq!(e, LaunchError::MissingWallpaperExe("/g/wallpaper64.exe".to_string()));
    assert_eq!(e.message(), "Wallpaper executable does not exist: /g/wallpaper64.exe");
    let empty = wine_cfg(WineCommandMode::ExeWithArgs, "");
    assert_eq!(wine_command_line(&empty, |_p: String| true), Err(LaunchError::EmptyWallpaperExe));
    let only = wine_cfg(WineCommandMode::CommandOnly, "");
    assert_eq!(wine_command_line(&only, |_p: String| false), Ok(("wine".to_string(), vec!["-a".to_string()])));
}

#[test]
fn wine_process_watching() {
    assert_eq!(exit_decision(true, true, false), ExitDecision::Leave);
    assert_eq!(exit_decision(false, true, false), ExitDecision::Restart);
    assert_eq!(exit_decision(false, true, true), ExitDecision::KeepStopped);
    assert_eq!(exit_decision(false, false, false), ExitDecision::KeepStopped);
    assert_eq!(uid_from_status("Name:\tx\nUid:\t1000\t1000\t1000\t1000\n"), Some(1000));
    assert_eq!(uid_from_status("Uid:\n"), None);
    assert_eq!(uid_from_status("Name: x\n"), None);
    let names = bootstrap_window_names();
    assert!(is_named_process("C:\\windows\\EXPLORER.EXE /desktop", "", &names));
    assert!(is_named_process("", "ui32.exe\n", &names));
    assert!(!is_named_process("wine64", "wineserver", &names));
    assert_eq!(proc_entry_pid("123"), Some(123));
    assert_eq!(proc_entry_pid("self"), None);
}

#[test]
fn gnome_bridges() {
    assert!(is_gnome_session_from(&vec!["ubuntu:GNOME".to_string()]));
    assert!(!is_gnome_session_from(&vec!["KDE".to_string()]));
    let cfg = Config::default();
    assert_eq!(doctor(&cfg, false, |_n: String| -> Result<String, String> { panic!("not probed") }), Ok(None));
    assert_eq!(doctor(&cfg, true, |_n: String| Ok("3".to_string())), Ok(Some("3".to_string())));
    assert_eq!(doctor(&cfg, true, |_n: String| Err("no".to_string())), Err("no".to_string()));
    assert_eq!(video_bridge_step(ControlEvent::Command(ControlCommand::Pause)), VideoBridgeStep::PauseVideo);
    assert_eq!(video_bridge_step(ControlEvent::Empty), VideoBridgeStep::Wait);
    assert_eq!(video_bridge_step(ControlEvent::Disconnected), VideoBridgeStep::Exit);
    assert!(matches!(
        window_bridge_on_control(&Some(window(4)), ControlEvent::Command(ControlCommand::Reload)),
        WindowBridgeStep::Reregister(w) if w.xid == 4
    ));
    assert!(matches!(window_bridge_on_control(&None, ControlEvent::Command(ControlCommand::Reload)), WindowBridgeStep::Continue));
    assert!(matches!(window_bridge_on_scan(&Some(window(4)), ScanOutcome::Found(window(4))), WindowBridgeStep::Continue));
    assert!(matches!(window_bridge_on_scan(&Some(window(4)), ScanOutcome::Found(window(5))), WindowBridgeStep::Register(w) if w.xid == 5));
    assert!(matches!(window_bridge_on_scan(&Some(window(4)), ScanOutcome::NotFound), WindowBridgeStep::Unregister(4)));
    assert!(matches!(window_bridge_on_scan(&None, ScanOutcome::Failed), WindowBridgeStep::Continue));
}

#[test]
fn shared_memory_rows_are_packed() {
    let data: Vec<u8> = (0..24).collect();
    let f = frame_from_shm_rows(2, 2, 24, 12, &data).expect("frame");
    assert_eq!(f.bgra, vec![0, 1, 2, 3, 4, 5, 6, 7, 12, 13, 14, 15, 16, 17, 18, 19]);
    assert_eq!(frame_from_shm_rows(2, 2, 24, 4, &data).err(), Some(CaptureError::InvalidStride { stride: 4, width: 2 }));
    assert_eq!(frame_from_shm_rows(2, 2, 8, 12, &data).err(), Some(CaptureError::UnsupportedDepth(8)));
}

#[test]
fn color_swap_twice_restores_the_frame() {
    let frame: Vec<u8> = (0..11).collect();
    assert_eq!(bgra_to_rgba(&bgra_to_rgba(&frame)), frame);
}

#[test]
fn control_events_that_end_a_session() {
    assert_eq!(session_end(ControlEvent::Command(ControlCommand::Stop)), Some(RuntimeLoopExit::Stop));
    assert_eq!(
        session_end(ControlEvent::Command(ControlCommand::Reconfigure)),
        Some(RuntimeLoopExit::Reconfigure)
    );
    assert_eq!(session_end(ControlEvent::Disconnected), Some(RuntimeLoopExit::Stop));
    assert_eq!(session_end(ControlEvent::Command(ControlCommand::Reload)), None);
    assert_eq!(session_end(ControlEvent::Command(ControlCommand::Pause)), None);
    assert_eq!(session_end(ControlEvent::Empty), None);
}

#[test]
fn auto_backend_looks_at_the_current_desktop_only() {
    let some = |s: &str| Some(s.to_string());
    assert!(is_gnome_session_env(&some("ubuntu:GNOME"), &None, &None));
    assert!(!is_gnome_session_env(&some("KDE"), &some("gnome"), &some("gnome")));
    assert!(!is_gnome_session_env(&None, &some("gnome"), &some("gnome")));
}
