//! Where a popup goes on the screen.

use vstd::prelude::*;

verus! {

/// A rectangle of terminal cells.
#[derive(Debug, Clone, Copy, PartialEq, Eq)]
pub struct Area {
    pub x: u16,
    pub y: u16,
    pub width: u16,
    pub height: u16,
}

/// A rectangle `percent_x` percent as wide and `percent_y` percent as high as
/// `r` (rounded down), centred in a screen of `r`'s size.
pub fn centered_rect(percent_x: u16, percent_y: u16, r: Area) -> (p: Area)
    requires
        percent_x <= 100,
        percent_y <= 100,
    ensures
        p.width == r.width * percent_x / 100,
        p.height == r.height * percent_y / 100,
        p.x == (r.width - p.width) / 2,
        p.y == (r.height - p.height) / 2,
{
    let w: u32 = r.width as u32;
    let h: u32 = r.height as u32;
    assert(w * (percent_x as u32) <= 65535 * 100 && h * (percent_y as u32) <= 65535 * 100)
        by (nonlinear_arith)
        requires
            w <= 65535,
            h <= 65535,
            percent_x <= 100,
            percent_y <= 100,
    ;
    let scaled_w: u32 = w * (percent_x as u32) / 100;
    let scaled_h: u32 = h * (percent_y as u32) / 100;
    assert(scaled_w <= w && scaled_h <= h) by (nonlinear_arith)
        requires
            scaled_w == w * percent_x / 100,
            scaled_h == h * percent_y / 100,
            percent_x <= 100,
            percent_y <= 100,
    ;
    let popup_width = scaled_w as u16;
    let popup_height = scaled_h as u16;
    Area {
        x: (r.width - popup_width) / 2,
        y: (r.height - popup_height) / 2,
        width: popup_width,
        height: popup_height,
    }
}

} // verus!
