//! The tray menu: its entries, the action each click stands for, and the
//! icon it shows.
use vstd::prelude::*;

use crate::text::lit;

verus! {

/// What a click on a tray menu entry asks for.
#[derive(Debug, Clone, Copy, PartialEq, Eq, Structural)]
pub enum TrayAction {
    ShowWindow,
    PlaySwitch,
    Stop,
    Pause,
    Resume,
    Quit,
}

/// The ids the menu gave to its entries.
#[derive(Debug, Clone)]
pub struct TrayMenuIds {
    pub play: String,
    pub stop: String,
    pub pause: String,
    pub resume: String,
    pub quit: String,
}

/// The action of the entry a click went to, checked in menu order.
pub open spec fn action_for(ids: TrayMenuIds, id: Seq<char>) -> Option<TrayAction> {
    if id == ids.play@ {
        Some(TrayAction::PlaySwitch)
    } else if id == ids.stop@ {
        Some(TrayAction::Stop)
    } else if id == ids.pause@ {
        Some(TrayAction::Pause)
    } else if id == ids.resume@ {
        Some(TrayAction::Resume)
    } else if id == ids.quit@ {
        Some(TrayAction::Quit)
    } else {
        None
    }
}

/// The action a click on the entry with this id asks for.
pub fn action_for_menu_id(ids: &TrayMenuIds, id: &str) -> (r: Option<TrayAction>)
    ensures
        r == action_for(*ids, id@),
{
    if crate::text::str_eq(id, ids.play.as_str()) {
        Some(TrayAction::PlaySwitch)
    } else if crate::text::str_eq(id, ids.stop.as_str()) {
        Some(TrayAction::Stop)
    } else if crate::text::str_eq(id, ids.pause.as_str()) {
        Some(TrayAction::Pause)
    } else if crate::text::str_eq(id, ids.resume.as_str()) {
        Some(TrayAction::Resume)
    } else if crate::text::str_eq(id, ids.quit.as_str()) {
        Some(TrayAction::Quit)
    } else {
        None
    }
}

/// The labels of the menu entries, in order.
pub fn menu_labels() -> (labels: Vec<String>)
    ensures
        crate::text::strs_view(labels@) == seq![
            "Play / Switch"@,
            "Stop"@,
            "Pause"@,
            "Resume"@,
            "Quit"@,
        ],
{
    let labels = vec![lit("Play / Switch"), lit("Stop"), lit("Pause"), lit("Resume"), lit("Quit")];
    assert(crate::text::strs_view(labels@) =~= seq![
        "Play / Switch"@,
        "Stop"@,
        "Pause"@,
        "Resume"@,
        "Quit"@,
    ]);
    labels
}

/// The side of the square tray icon, in pixels.
pub const ICON_SIZE: usize = 16;

/// The RGBA value of the icon pixel at (`x`, `y`): a blue frame one pixel
/// wide around a dark body.
pub open spec fn icon_pixel(x: int, y: int) -> Seq<u8> {
    if x == 0 || y == 0 || x == 15 || y == 15 {
        seq![30u8, 140u8, 240u8, 255u8]
    } else {
        seq![10u8, 45u8, 70u8, 220u8]
    }
}

/// The icon's pixels, row by row, four bytes (RGBA) each.
pub fn icon_rgba() -> (rgba: Vec<u8>)
    ensures
        rgba.len() == 16 * 16 * 4,
        forall|y: int, x: int, c: int|
            0 <= y < 16 && 0 <= x < 16 && 0 <= c < 4 ==> rgba@[(y * 16 + x) * 4 + c] == #[trigger] icon_pixel(
                x,
                y,
            )[c],
{
    let mut rgba: Vec<u8> = Vec::new();
    let mut y: usize = 0;
    while y < 16
        invariant
            y <= 16,
            rgba.len() == y * 16 * 4,
            forall|yy: int, x: int, c: int|
                0 <= yy < y && 0 <= x < 16 && 0 <= c < 4 ==> rgba@[(yy * 16 + x) * 4 + c]
                    == #[trigger] icon_pixel(x, yy)[c],
        decreases 16 - y,
    {
        let mut x: usize = 0;
        while x < 16
            invariant
                y < 16,
                x <= 16,
                rgba.len() == (y * 16 + x) * 4,
                forall|yy: int, xx: int, c: int|
                    0 <= yy < y && 0 <= xx < 16 && 0 <= c < 4 ==> rgba@[(yy * 16 + xx) * 4 + c]
                        == #[trigger] icon_pixel(xx, yy)[c],
                forall|xx: int, c: int|
                    0 <= xx < x && 0 <= c < 4 ==> rgba@[(y * 16 + xx) * 4 + c]
                        == #[trigger] icon_pixel(xx, y as int)[c],
            decreases 16 - x,
        {
            let edge = x == 0 || y == 0 || x == 15 || y == 15;
            let px: [u8; 4] = if edge {
                [30, 140, 240, 255]
            } else {
                [10, 45, 70, 220]
            };
            let ghost start = rgba@;
            rgba.push(px[0]);
            rgba.push(px[1]);
            rgba.push(px[2]);
            rgba.push(px[3]);
            proof {
                let base = (y * 16 + x) * 4;
                assert(rgba@.len() == base + 4);
                assert forall|c: int| 0 <= c < 4 implies rgba@[base + c] == #[trigger] icon_pixel(
                    x as int,
                    y as int,
                )[c] by {
                    assert(rgba@[base + c] == px@[c]);
                }
                assert forall|yy: int, xx: int, c: int|
                    0 <= yy < y && 0 <= xx < 16 && 0 <= c < 4 implies rgba@[(yy * 16 + xx) * 4 + c]
                        == #[trigger] icon_pixel(xx, yy)[c] by {
                    assert((yy * 16 + xx) * 4 + c < base) by (nonlinear_arith)
                        requires
                            0 <= yy < y,
                            0 <= xx < 16,
                            0 <= c < 4,
                            base == (y * 16 + x) * 4,
                            x >= 0,
                    ;
                    assert(rgba@[(yy * 16 + xx) * 4 + c] == start[(yy * 16 + xx) * 4 + c]);
                }
                assert forall|xx: int, c: int|
                    0 <= xx < x + 1 && 0 <= c < 4 implies rgba@[(y * 16 + xx) * 4 + c]
                        == #[trigger] icon_pixel(xx, y as int)[c] by {
                    if xx < x {
                        assert((y * 16 + xx) * 4 + c < base) by (nonlinear_arith)
                            requires
                                0 <= xx < x,
                                0 <= c < 4,
                                base == (y * 16 + x) * 4,
                        ;
                        assert(rgba@[(y * 16 + xx) * 4 + c] == start[(y * 16 + xx) * 4 + c]);
                    }
                }
            }
            x += 1;
        }
        y += 1;
    }
    rgba
}

} // verus!
