//! Target-size computation for preview decodes.
//!
//! A decode request carries the pixel size the worker should downscale to.
//! That size is derived from the terminal dimensions, capped to a maximum
//! preview size; the caps are tighter for `Priority` reloads so that a
//! revisited image reappears as fast as possible.

use vstd::prelude::*;

verus! {

/// Pixels of width assumed per terminal cell.
pub const CELL_PIXEL_WIDTH: u32 = 8;

/// Pixels of height assumed per terminal cell.
pub const CELL_PIXEL_HEIGHT: u32 = 16;

/// Upper bound on the width estimated from the terminal, in pixels.
pub const MAX_DISPLAY_WIDTH: u32 = 800;

/// Upper bound on the height estimated from the terminal, in pixels.
pub const MAX_DISPLAY_HEIGHT: u32 = 600;

/// Width cap for a first-time (`Normal`) preview decode.
pub const NORMAL_MAX_WIDTH: u32 = 600;

/// Height cap for a first-time (`Normal`) preview decode.
pub const NORMAL_MAX_HEIGHT: u32 = 400;

/// Width cap for a fast (`Priority`) re-decode.
pub const PRIORITY_MAX_WIDTH: u32 = 500;

/// Height cap for a fast (`Priority`) re-decode.
pub const PRIORITY_MAX_HEIGHT: u32 = 350;

/// Smaller of two mathematical integers.
pub open spec fn spec_min(a: int, b: int) -> int {
    if a <= b {
        a
    } else {
        b
    }
}

/// Display size estimated from terminal dimensions, in pixels: each cell
/// counts as 8x16 pixels, capped at 800x600.
pub open spec fn spec_terminal_display_size(w: u16, h: u16) -> (int, int) {
    (
        spec_min(w as int * CELL_PIXEL_WIDTH as int, MAX_DISPLAY_WIDTH as int),
        spec_min(h as int * CELL_PIXEL_HEIGHT as int, MAX_DISPLAY_HEIGHT as int),
    )
}

/// Target size of a `Normal` decode: the terminal estimate capped at
/// 600x400 when the terminal size is known, 600x400 outright otherwise.
pub open spec fn spec_normal_target_size(w: Option<u16>, h: Option<u16>) -> (int, int) {
    if w is Some && h is Some {
        (
            spec_min(spec_terminal_display_size(w->0, h->0).0, NORMAL_MAX_WIDTH as int),
            spec_min(spec_terminal_display_size(w->0, h->0).1, NORMAL_MAX_HEIGHT as int),
        )
    } else {
        (NORMAL_MAX_WIDTH as int, NORMAL_MAX_HEIGHT as int)
    }
}

/// Target size of a `Priority` decode: as for `Normal`, but capped at the
/// tighter 500x350.
pub open spec fn spec_priority_target_size(w: Option<u16>, h: Option<u16>) -> (int, int) {
    if w is Some && h is Some {
        (
            spec_min(spec_terminal_display_size(w->0, h->0).0, PRIORITY_MAX_WIDTH as int),
            spec_min(spec_terminal_display_size(w->0, h->0).1, PRIORITY_MAX_HEIGHT as int),
        )
    } else {
        (PRIORITY_MAX_WIDTH as int, PRIORITY_MAX_HEIGHT as int)
    }
}

/// Decode helpers that choose target pixel sizes for preview images.
pub struct FastImageLoader;

impl FastImageLoader {
    /// Estimated terminal display size in pixels, for choosing how far a
    /// preview decode should downscale.
    pub fn get_terminal_display_size(terminal_width: u16, terminal_height: u16) -> (r: (
        u32,
        u32,
    ))
        ensures
            (r.0 as int, r.1 as int) == spec_terminal_display_size(
                terminal_width,
                terminal_height,
            ),
    {
        let pixel_width: u32 = (terminal_width as u32) * CELL_PIXEL_WIDTH;
        let pixel_height: u32 = (terminal_height as u32) * CELL_PIXEL_HEIGHT;
        let w = if pixel_width <= MAX_DISPLAY_WIDTH {
            pixel_width
        } else {
            MAX_DISPLAY_WIDTH
        };
        let h = if pixel_height <= MAX_DISPLAY_HEIGHT {
            pixel_height
        } else {
            MAX_DISPLAY_HEIGHT
        };
        (w, h)
    }
}

/// Target size for a `Normal` decode request, from the terminal dimensions
/// when both are known.
pub fn normal_target_size(terminal_width: Option<u16>, terminal_height: Option<u16>) -> (r: (
    u32,
    u32,
))
    ensures
        (r.0 as int, r.1 as int) == spec_normal_target_size(terminal_width, terminal_height),
{
    if let (Some(w), Some(h)) = (terminal_width, terminal_height) {
        let (dw, dh) = FastImageLoader::get_terminal_display_size(w, h);
        let tw = if dw <= NORMAL_MAX_WIDTH {
            dw
        } else {
            NORMAL_MAX_WIDTH
        };
        let th = if dh <= NORMAL_MAX_HEIGHT {
            dh
        } else {
            NORMAL_MAX_HEIGHT
        };
        (tw, th)
    } else {
        (NORMAL_MAX_WIDTH, NORMAL_MAX_HEIGHT)
    }
}

/// Target size for a `Priority` decode request, from the terminal
/// dimensions when both are known.
pub fn priority_target_size(terminal_width: Option<u16>, terminal_height: Option<u16>) -> (r: (
    u32,
    u32,
))
    ensures
        (r.0 as int, r.1 as int) == spec_priority_target_size(terminal_width, terminal_height),
{
    if let (Some(w), Some(h)) = (terminal_width, terminal_height) {
        let (dw, dh) = FastImageLoader::get_terminal_display_size(w, h);
        let tw = if dw <= PRIORITY_MAX_WIDTH {
            dw
        } else {
            PRIORITY_MAX_WIDTH
        };
        let th = if dh <= PRIORITY_MAX_HEIGHT {
            dh
        } else {
            PRIORITY_MAX_HEIGHT
        };
        (tw, th)
    } else {
        (PRIORITY_MAX_WIDTH, PRIORITY_MAX_HEIGHT)
    }
}

} // verus!
