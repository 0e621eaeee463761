use vstd::prelude::*;
use vstd::arithmetic::div_mod::lemma_fundamental_div_mod_converse;

verus! {

/// Corner radius of a Windows 11 window; the inner edge of a border follows it.
pub const INNER_CORNER_RADIUS: i32 = 8;

/// How far the inner cut-out of a border is shrunk, so that the border
/// overlaps the window edge by one pixel.
pub const BORDER_INSET: i32 = 1;

/// Pixel (`px`, `py`) lies in the rectangle from (`left`, `top`)
/// (inclusive) to (`right`, `bottom`) (exclusive) with its corners rounded
/// by `radius`: a pixel in one of the four `radius`-by-`radius` corner
/// squares must also lie within `radius` of that corner's arc center.
pub open spec fn in_rounded_rect(
    px: int,
    py: int,
    left: int,
    top: int,
    right: int,
    bottom: int,
    radius: int,
) -> bool {
    let near_left = px < left + radius;
    let near_right = px >= right - radius;
    let near_top = py < top + radius;
    let near_bottom = py >= bottom - radius;
    let in_corner = (near_left && near_top) || (near_right && near_top) || (near_left
        && near_bottom) || (near_right && near_bottom);
    let cx = if near_left {
        left + radius
    } else {
        right - radius
    };
    let cy = if near_top {
        top + radius
    } else {
        bottom - radius
    };
    &&& left <= px < right
    &&& top <= py < bottom
    &&& in_corner ==> (px - cx) * (px - cx) + (py - cy) * (py - cy) <= radius * radius
}

/// Pixel (`px`, `py`) of a `width` x `height` overlay belongs to a border
/// of `border_width` pixels: it lies in the overlay rounded by the outer
/// radius (`INNER_CORNER_RADIUS + border_width`) and not in the inner
/// cut-out, which is inset by `border_width + BORDER_INSET` on every side
/// and rounded by `INNER_CORNER_RADIUS`.
pub open spec fn in_border(px: int, py: int, width: int, height: int, border_width: int) -> bool {
    let inset = border_width + BORDER_INSET;
    &&& in_rounded_rect(px, py, 0, 0, width, height, INNER_CORNER_RADIUS + border_width)
    &&& !in_rounded_rect(
        px,
        py,
        inset,
        inset,
        width - inset,
        height - inset,
        INNER_CORNER_RADIUS as int,
    )
}

/// The sizes for which a border mask can be computed without overflow.
pub open spec fn mask_size_ok(width: int, height: int, border_width: int) -> bool {
    &&& 0 <= width
    &&& 0 <= height
    &&& width * height <= i32::MAX
    &&& border_params_ok(width, height, border_width)
}

/// The inner cut-out of a border is given by `i32` values.
pub open spec fn border_params_ok(width: int, height: int, border_width: int) -> bool {
    &&& i32::MIN <= border_width + BORDER_INSET <= i32::MAX
    &&& i32::MIN <= width - border_width - BORDER_INSET <= i32::MAX
    &&& i32::MIN <= height - border_width - BORDER_INSET <= i32::MAX
}

/// The largest corner radius, in either sign, for which the rounded
/// rectangle test is computed exactly: any `i32` border width plus the
/// inner corner radius stays below it.
pub const MAX_CORNER_RADIUS: i64 = 0x1_0000_0000;

/// Returns true if the pixel at (`px`, `py`) falls inside the rounded
/// rectangle from (`left`, `top`) to (`right`, `bottom`) with the given
/// corner `radius`.
pub fn is_inside_rounded_rect(
    px: i32,
    py: i32,
    left: i32,
    top: i32,
    right: i32,
    bottom: i32,
    radius: i64,
) -> (r: bool)
    requires
        -MAX_CORNER_RADIUS <= radius <= MAX_CORNER_RADIUS,
    ensures
        r == in_rounded_rect(
            px as int,
            py as int,
            left as int,
            top as int,
            right as int,
            bottom as int,
            radius as int,
        ),
{
    if px < left || px >= right || py < top || py >= bottom {
        return false;
    }
    let px = px as i64;
    let py = py as i64;
    let left = left as i64;
    let top = top as i64;
    let right = right as i64;
    let bottom = bottom as i64;
    let r = radius;

    let near_left = px < left + r;
    let near_right = px >= right - r;
    let near_top = py < top + r;
    let near_bottom = py >= bottom - r;
    let in_corner = (near_left && near_top) || (near_right && near_top) || (near_left
        && near_bottom) || (near_right && near_bottom);
    if !in_corner {
        return true;
    }

    let cx: i64 = if near_left {
        left + r
    } else {
        right - r
    };
    let cy: i64 = if near_top {
        top + r
    } else {
        bottom - r
    };
    let dx = (px - cx) as i128;
    let dy = (py - cy) as i128;
    let rr = r as i128;
    assert(0 <= dx * dx <= 0x10_0000_0000_0000_0000) by (nonlinear_arith)
        requires
            -0x4_0000_0000 <= dx <= 0x4_0000_0000,
    ;
    assert(0 <= dy * dy <= 0x10_0000_0000_0000_0000) by (nonlinear_arith)
        requires
            -0x4_0000_0000 <= dy <= 0x4_0000_0000,
    ;
    assert(0 <= rr * rr <= 0x10_0000_0000_0000_0000) by (nonlinear_arith)
        requires
            -0x4_0000_0000 <= rr <= 0x4_0000_0000,
    ;
    dx * dx + dy * dy <= rr * rr
}

/// Returns true if pixel (`px`, `py`) of a `width` x `height` overlay is
/// drawn as part of a border `border_width` pixels wide.
pub fn is_border_pixel(px: i32, py: i32, width: i32, height: i32, border_width: i32) -> (r: bool)
    requires
        border_params_ok(width as int, height as int, border_width as int),
    ensures
        r == in_border(px as int, py as int, width as int, height as int, border_width as int),
{
    let outer_radius: i64 = INNER_CORNER_RADIUS as i64 + border_width as i64;
    let in_outer = is_inside_rounded_rect(px, py, 0, 0, width, height, outer_radius);
    let inset = border_width + BORDER_INSET;
    let in_inner = is_inside_rounded_rect(
        px,
        py,
        inset,
        inset,
        width - inset,
        height - inset,
        INNER_CORNER_RADIUS as i64,
    );
    in_outer && !in_inner
}

/// The row-major index of pixel (`px`, `py`) in a buffer `width` pixels wide.
pub open spec fn pixel_index(px: int, py: int, width: int) -> int {
    py * width + px
}

/// Computes, for every pixel of a `width` x `height` overlay in row-major
/// order, whether it is drawn as part of a border `border_width` pixels
/// wide. Pixels outside the border stay fully transparent.
pub fn border_pixel_mask(width: i32, height: i32, border_width: i32) -> (mask: Vec<bool>)
    requires
        mask_size_ok(width as int, height as int, border_width as int),
    ensures
        mask@.len() == width * height,
        forall|i: int|
            0 <= i < width * height ==> #[trigger] mask@[i] == in_border(
                i % (width as int),
                i / (width as int),
                width as int,
                height as int,
                border_width as int,
            ),
        forall|px: int, py: int|
            0 <= px < width && 0 <= py < height ==> #[trigger] mask@[pixel_index(
                px,
                py,
                width as int,
            )] == in_border(px, py, width as int, height as int, border_width as int),
{
    let mut mask: Vec<bool> = Vec::new();
    let mut py: i32 = 0;
    while py < height
        invariant
            mask_size_ok(width as int, height as int, border_width as int),
            0 <= py <= height,
            mask@.len() == py * width,
            forall|i: int|
                0 <= i < mask@.len() ==> #[trigger] mask@[i] == in_border(
                    i % (width as int),
                    i / (width as int),
                    width as int,
                    height as int,
                    border_width as int,
                ),
        decreases height - py,
    {
        let mut px: i32 = 0;
        while px < width
            invariant
                mask_size_ok(width as int, height as int, border_width as int),
                0 <= py < height,
                0 <= px <= width,
                mask@.len() == py * width + px,
                forall|i: int|
                    0 <= i < mask@.len() ==> #[trigger] mask@[i] == in_border(
                        i % (width as int),
                        i / (width as int),
                        width as int,
                        height as int,
                        border_width as int,
                    ),
            decreases width - px,
        {
            let b = is_border_pixel(px, py, width, height, border_width);
            proof {
                lemma_fundamental_div_mod_converse(
                    py * width + px,
                    width as int,
                    py as int,
                    px as int,
                );
            }
            mask.push(b);
            px = px + 1;
        }
        assert((py + 1) * width == py * width + width) by (nonlinear_arith);
        py = py + 1;
    }
    assert(height * width == width * height) by (nonlinear_arith);
    assert forall|px: int, py: int| 0 <= px < width && 0 <= py < height implies #[trigger] mask@[
        pixel_index(px, py, width as int)
    ] == in_border(px, py, width as int, height as int, border_width as int) by {
        lemma_fundamental_div_mod_converse(py * width + px, width as int, py, px);
        assert(py * width + px < width * height) by (nonlinear_arith)
            requires
                0 <= px < width,
                0 <= py < height,
        ;
    }
    mask
}

/// Every border pixel lies within the overlay.
pub proof fn law_border_within_overlay(
    px: int,
    py: int,
    width: int,
    height: int,
    border_width: int,
)
    requires
        in_border(px, py, width, height, border_width),
    ensures
        0 <= px < width,
        0 <= py < height,
{
}

/// The window inside the border stays uncovered: away from the rounded
/// corners, every pixel more than `border_width + BORDER_INSET` pixels inside
/// the overlay's edges is transparent.
pub proof fn law_window_interior_uncovered(
    px: int,
    py: int,
    width: int,
    height: int,
    border_width: int,
)
    requires
        0 <= border_width,
        border_width + BORDER_INSET + INNER_CORNER_RADIUS <= px < width - border_width
            - BORDER_INSET - INNER_CORNER_RADIUS,
        border_width + BORDER_INSET <= py < height - border_width - BORDER_INSET,
    ensures
        !in_border(px, py, width, height, border_width),
{
}

/// Along the straight part of the top edge, the border is drawn
/// `border_width + BORDER_INSET` pixels thick.
pub proof fn law_top_edge_drawn(px: int, py: int, width: int, height: int, border_width: int)
    requires
        0 <= border_width,
        INNER_CORNER_RADIUS + border_width <= px < width - INNER_CORNER_RADIUS - border_width,
        0 <= py < border_width + BORDER_INSET,
        py < height,
    ensures
        in_border(px, py, width, height, border_width),
{
}

/// All four corners are rounded alike: in a rectangle more than two radii
/// wide and tall, with a radius of at least 4, each of the four corner
/// pixels lies outside the rounded rectangle, while the pixels one radius
/// in from a corner along each of its two edges lie inside.
pub proof fn law_all_four_corners_rounded(
    left: int,
    top: int,
    right: int,
    bottom: int,
    radius: int,
)
    requires
        radius >= 4,
        right - left > 2 * radius,
        bottom - top > 2 * radius,
    ensures
        !in_rounded_rect(left, top, left, top, right, bottom, radius),
        !in_rounded_rect(right - 1, top, left, top, right, bottom, radius),
        !in_rounded_rect(left, bottom - 1, left, top, right, bottom, radius),
        !in_rounded_rect(right - 1, bottom - 1, left, top, right, bottom, radius),
        in_rounded_rect(left + radius, top, left, top, right, bottom, radius),
        in_rounded_rect(left, top + radius, left, top, right, bottom, radius),
        in_rounded_rect(right - 1 - radius, top, left, top, right, bottom, radius),
        in_rounded_rect(right - 1, top + radius, left, top, right, bottom, radius),
        in_rounded_rect(left + radius, bottom - 1, left, top, right, bottom, radius),
        in_rounded_rect(left, bottom - 1 - radius, left, top, right, bottom, radius),
        in_rounded_rect(right - 1 - radius, bottom - 1, left, top, right, bottom, radius),
        in_rounded_rect(right - 1, bottom - 1 - radius, left, top, right, bottom, radius),
{
    assert((-radius) * (-radius) == radius * radius) by (nonlinear_arith);
    assert(radius * radius + radius * radius > radius * radius) by (nonlinear_arith)
        requires
            radius >= 4,
    ;
    assert((radius - 1) * (radius - 1) + radius * radius > radius * radius) by (nonlinear_arith)
        requires
            radius >= 4,
    ;
    assert(radius * radius + (radius - 1) * (radius - 1) > radius * radius) by (nonlinear_arith)
        requires
            radius >= 4,
    ;
    assert((radius - 1) * (radius - 1) + (radius - 1) * (radius - 1) > radius * radius)
        by (nonlinear_arith)
        requires
            radius >= 4,
    ;
    assert(0 * 0 + radius * radius <= radius * radius) by (nonlinear_arith);
    assert((-radius) * (-radius) + 0 * 0 <= radius * radius) by (nonlinear_arith);
    assert(radius * radius + 0 * 0 <= radius * radius) by (nonlinear_arith);
    assert(0 * 0 + (-radius) * (-radius) <= radius * radius) by (nonlinear_arith);
    assert((-1) * (-1) + radius * radius > radius * radius) by (nonlinear_arith);
}

/// The border ring of an overlay has rounded outer corners at all four
/// corners: with a non-negative border width and an overlay more than two
/// outer radii wide and tall, none of its four corner pixels is drawn.
pub proof fn law_border_corners_transparent(width: int, height: int, border_width: int)
    requires
        0 <= border_width,
        width > 2 * (INNER_CORNER_RADIUS + border_width),
        height > 2 * (INNER_CORNER_RADIUS + border_width),
    ensures
        !in_border(0, 0, width, height, border_width),
        !in_border(width - 1, 0, width, height, border_width),
        !in_border(0, height - 1, width, height, border_width),
        !in_border(width - 1, height - 1, width, height, border_width),
{
    law_all_four_corners_rounded(0, 0, width, height, INNER_CORNER_RADIUS + border_width);
}

} // verus!
