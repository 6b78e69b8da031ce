//! The configuration of the layer-shell render loop.
use vstd::prelude::*;

use crate::config::{CaptureConfig, Config, ScaleMode};
use crate::text::{copy_opt, lit, opt_view};

verus! {

/// What the layer-shell render loop runs with.
#[derive(Debug, Clone)]
pub struct LayerRunConfig {
    pub capture_window: Option<u32>,
    pub output_window_map: Vec<(String, u32)>,
    pub fps_limit: u32,
    pub show_fps: bool,
    pub fps_report_interval_secs: u64,
    pub scale_mode: ScaleMode,
    pub auto_refind_window: bool,
    pub capture_match: CaptureConfig,
    pub disable_debug_window_input: bool,
    pub wine_pid: Option<u32>,
}

/// The texts and numbers of an output-to-window map.
pub open spec fn window_map_view(m: Seq<(String, u32)>) -> Seq<(Seq<char>, u32)> {
    m.map_values(|p: (String, u32)| (p.0@, p.1))
}

/// Two capture settings say the same.
pub open spec fn same_capture(a: CaptureConfig, b: CaptureConfig) -> bool {
    &&& opt_view(a.wm_class_contains) == opt_view(b.wm_class_contains)
    &&& opt_view(a.title_contains) == opt_view(b.title_contains)
    &&& a.net_wm_pid == b.net_wm_pid
    &&& opt_view(a.debug_save_frame_png) == opt_view(b.debug_save_frame_png)
    &&& window_map_view(a.output_window_map@) == window_map_view(b.output_window_map@)
}

fn copy_window_map(m: &Vec<(String, u32)>) -> (r: Vec<(String, u32)>)
    ensures
        window_map_view(r@) == window_map_view(m@),
{
    let mut r: Vec<(String, u32)> = Vec::new();
    let mut i: usize = 0;
    while i < m.len()
        invariant
            i <= m.len(),
            window_map_view(r@) == window_map_view(m@).take(i as int),
        decreases m.len() - i,
    {
        let ghost before = r@;
        r.push((lit(m[i].0.as_str()), m[i].1));
        proof {
            assert(window_map_view(r@) =~= window_map_view(before).push((m@[i as int].0@, m@[i as int].1)));
            assert(window_map_view(m@).take(i + 1) =~= window_map_view(m@).take(i as int).push(
                (m@[i as int].0@, m@[i as int].1),
            ));
        }
        i += 1;
    }
    assert(window_map_view(m@).take(m.len() as int) =~= window_map_view(m@));
    r
}

/// A copy of capture settings.
pub fn copy_capture(c: &CaptureConfig) -> (r: CaptureConfig)
    ensures
        same_capture(r, *c),
{
    CaptureConfig {
        wm_class_contains: copy_opt(&c.wm_class_contains),
        title_contains: copy_opt(&c.title_contains),
        net_wm_pid: c.net_wm_pid,
        debug_save_frame_png: copy_opt(&c.debug_save_frame_png),
        output_window_map: copy_window_map(&c.output_window_map),
    }
}

/// The render loop's configuration for a runtime configuration, the
/// captured window and the Wine process.
pub fn layer_run_config(cfg: &Config, capture_window: Option<u32>, wine_pid: Option<u32>) -> (r:
    LayerRunConfig)
    ensures
        r.capture_window == capture_window,
        window_map_view(r.output_window_map@) == window_map_view(cfg.capture.output_window_map@),
        r.fps_limit == cfg.general.fps_limit,
        r.show_fps == cfg.general.show_fps,
        r.fps_report_interval_secs == cfg.general.fps_report_interval_secs,
        r.scale_mode == cfg.general.scale_mode,
        r.auto_refind_window == cfg.general.refind_window_on_capture_error,
        same_capture(r.capture_match, cfg.capture),
        r.disable_debug_window_input == cfg.general.disable_debug_window_input,
        r.wine_pid == wine_pid,
{
    LayerRunConfig {
        capture_window,
        output_window_map: copy_window_map(&cfg.capture.output_window_map),
        fps_limit: cfg.general.fps_limit,
        show_fps: cfg.general.show_fps,
        fps_report_interval_secs: cfg.general.fps_report_interval_secs,
        scale_mode: cfg.general.scale_mode,
        auto_refind_window: cfg.general.refind_window_on_capture_error,
        capture_match: copy_capture(&cfg.capture),
        disable_debug_window_input: cfg.general.disable_debug_window_input,
        wine_pid,
    }
}

/// The frame rate the render loop paces itself to: the limit, at least 1.
pub fn render_fps(fps_limit: u32) -> (fps: u32)
    ensures
        fps == if fps_limit >= 1 {
            fps_limit
        } else {
            1
        },
{
    if fps_limit >= 1 {
        fps_limit
    } else {
        1
    }
}

} // verus!
