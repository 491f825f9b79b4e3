//! Pixel sizes of surfaces and outputs.

use vstd::prelude::*;

verus! {

/// Width and height of an image in pixels.
#[derive(Clone, Copy, Debug, PartialEq, Eq, Structural)]
pub struct Extent2D {
    pub width: u32,
    pub height: u32,
}

/// One dimension scaled by `scale` in units of 1/120 and rounded to the nearest
/// pixel, half a pixel upwards. The result is kept to its low 32 bits.
pub open spec fn fractional_pixels(logical: u32, scale: u32) -> int {
    (logical * scale + 60) / 120 % 0x1_0000_0000
}

/// One dimension scaled by a whole factor, limited to what fits in 32 bits.
pub open spec fn integer_pixels(logical: u32, scale: int) -> int {
    if logical * scale > u32::MAX {
        u32::MAX as int
    } else {
        logical * scale
    }
}

/// The factor that an output announces, read as at least one.
pub open spec fn effective_scale(integer_scale: i32) -> int {
    if integer_scale < 1 {
        1
    } else {
        integer_scale as int
    }
}

/// The size of the buffer for a surface of the given logical size.
pub open spec fn physical_size(
    logical: (u32, u32),
    integer_scale: i32,
    fractional_scale_120: u32,
    has_viewport: bool,
) -> (int, int) {
    if fractional_scale_120 > 0 && has_viewport {
        (
            fractional_pixels(logical.0, fractional_scale_120),
            fractional_pixels(logical.1, fractional_scale_120),
        )
    } else {
        (
            integer_pixels(logical.0, effective_scale(integer_scale)),
            integer_pixels(logical.1, effective_scale(integer_scale)),
        )
    }
}

fn scale_fractional(logical: u32, scale: u32) -> (pixels: u32)
    ensures
        pixels == fractional_pixels(logical, scale),
{
    assert(logical * scale <= 0xffff_ffff * 0xffff_ffff) by (nonlinear_arith)
        requires
            logical <= 0xffff_ffff,
            scale <= 0xffff_ffff,
    ;
    let wide: u64 = (logical as u64 * scale as u64 + 60) / 120;
    assert(wide as u32 == wide % 0x1_0000_0000) by (bit_vector);
    #[verifier::truncate]
    let pixels: u32 = wide as u32;
    pixels
}

/// Multiplies a dimension by a factor, stopping at the largest 32-bit value.
pub fn scale_saturating(logical: u32, scale: u32) -> (pixels: u32)
    ensures
        pixels == integer_pixels(logical, scale as int),
{
    match logical.checked_mul(scale) {
        Some(pixels) => pixels,
        None => u32::MAX,
    }
}

/// The size in pixels of the buffer behind a surface. A fractional scale counts
/// only while a viewport maps the buffer back to the logical size; otherwise the
/// whole-number scale of the output applies.
pub fn physical_output_size(
    logical: (u32, u32),
    integer_scale: i32,
    fractional_scale_120: u32,
    has_viewport: bool,
) -> (size: (u32, u32))
    ensures
        (size.0 as int, size.1 as int) == physical_size(
            logical,
            integer_scale,
            fractional_scale_120,
            has_viewport,
        ),
{
    if fractional_scale_120 > 0 && has_viewport {
        return (
            scale_fractional(logical.0, fractional_scale_120),
            scale_fractional(logical.1, fractional_scale_120),
        );
    }
    let scale: u32 = if integer_scale < 1 {
        1
    } else {
        integer_scale as u32
    };
    (scale_saturating(logical.0, scale), scale_saturating(logical.1, scale))
}

/// A fractional scale picks the nearest whole pixel: the result differs from the
/// exact size by at most half a pixel, as long as it fits in 32 bits.
pub proof fn fractional_size_is_nearest(logical: u32, scale: u32)
    requires
        logical * scale + 60 < 120 * 0x1_0000_0000,
    ensures
        -60 <= 120 * fractional_pixels(logical, scale) - logical * scale <= 60,
{
    let wide = (logical * scale + 60) / 120;
    assert(0 <= logical * scale) by (nonlinear_arith)
        requires
            logical >= 0,
            scale >= 0,
    ;
    assert(0 <= wide < 0x1_0000_0000);
    assert(wide % 0x1_0000_0000 == wide);
}

/// A scale of exactly one, given either way, leaves the size as it is.
pub proof fn unit_scale_keeps_the_size(logical: (u32, u32), has_viewport: bool)
    ensures
        physical_size(logical, 1, 120, has_viewport) == (logical.0 as int, logical.1 as int),
        physical_size(logical, 1, 0, has_viewport) == (logical.0 as int, logical.1 as int),
{
    assert(fractional_pixels(logical.0, 120) == logical.0);
    assert(fractional_pixels(logical.1, 120) == logical.1);
    assert(integer_pixels(logical.0, 1) == logical.0);
    assert(integer_pixels(logical.1, 1) == logical.1);
}

/// How a frame is turned for the display: the axes are swapped first, each is then
/// mirrored or not.
#[derive(Clone, Copy, Debug, PartialEq, Eq, Structural)]
pub struct DisplayTransform {
    pub swap_axes: bool,
    pub flip_x: bool,
    pub flip_y: bool,
}

/// The turn that a transform number asks for; unknown numbers ask for none.
pub open spec fn turn(transform: u32) -> DisplayTransform {
    DisplayTransform {
        swap_axes: transform == 1 || transform == 3 || transform == 5 || transform == 7,
        flip_x: transform == 1 || transform == 2 || transform == 4 || transform == 7,
        flip_y: transform == 2 || transform == 3 || transform == 6 || transform == 7,
    }
}

/// The turn that a transform number asks for.
pub fn display_transform(transform: u32) -> (result: DisplayTransform)
    ensures
        result == turn(transform),
{
    match transform {
        1 => DisplayTransform { swap_axes: true, flip_x: true, flip_y: false },
        2 => DisplayTransform { swap_axes: false, flip_x: true, flip_y: true },
        3 => DisplayTransform { swap_axes: true, flip_x: false, flip_y: true },
        4 => DisplayTransform { swap_axes: false, flip_x: true, flip_y: false },
        5 => DisplayTransform { swap_axes: true, flip_x: false, flip_y: false },
        6 => DisplayTransform { swap_axes: false, flip_x: false, flip_y: true },
        7 => DisplayTransform { swap_axes: true, flip_x: true, flip_y: true },
        _ => DisplayTransform { swap_axes: false, flip_x: false, flip_y: false },
    }
}

/// The eight transform numbers ask for eight different turns.
pub proof fn turns_are_distinct(left: u32, right: u32)
    requires
        left < 8,
        right < 8,
        turn(left) == turn(right),
    ensures
        left == right,
{
}

/// Where a turn takes a corner: `true` stands for the far end of an axis.
pub open spec fn turned(transform: DisplayTransform, corner: (bool, bool)) -> (bool, bool) {
    let (x, y) = if transform.swap_axes {
        (corner.1, corner.0)
    } else {
        corner
    };
    (x != transform.flip_x, y != transform.flip_y)
}

/// The first three transforms are turns by one, two and three quarters; the next one
/// mirrors, and those after it turn by as many quarters and then mirror. Any other
/// leaves the frame as it is.
pub proof fn transforms_are_quarter_turns_and_mirrors(
    quarter: DisplayTransform,
    half: DisplayTransform,
    three_quarters: DisplayTransform,
    mirror: DisplayTransform,
    mirrored_quarter: DisplayTransform,
    mirrored_half: DisplayTransform,
    mirrored_three_quarters: DisplayTransform,
    number: u32,
    other: DisplayTransform,
    corner: (bool, bool),
)
    requires
        call_ensures(display_transform, (1u32,), quarter),
        call_ensures(display_transform, (2u32,), half),
        call_ensures(display_transform, (3u32,), three_quarters),
        call_ensures(display_transform, (4u32,), mirror),
        call_ensures(display_transform, (5u32,), mirrored_quarter),
        call_ensures(display_transform, (6u32,), mirrored_half),
        call_ensures(display_transform, (7u32,), mirrored_three_quarters),
        call_ensures(display_transform, (number,), other),
    ensures
        turned(quarter, corner) == (!corner.1, corner.0),
        turned(mirror, corner) == (!corner.0, corner.1),
        turned(half, corner) == turned(quarter, turned(quarter, corner)),
        turned(three_quarters, corner) == turned(quarter, turned(half, corner)),
        turned(three_quarters, turned(quarter, corner)) == corner,
        turned(mirrored_quarter, corner) == turned(mirror, turned(quarter, corner)),
        turned(mirrored_half, corner) == turned(mirror, turned(half, corner)),
        turned(mirrored_three_quarters, corner) == turned(mirror, turned(three_quarters, corner)),
        number == 0 || number > 7 ==> turned(other, corner) == corner,
{
}

/// A whole scale gives the same size, whether it comes in whole units or in fractions,
/// as long as the size fits: each dimension times the scale. Without a viewport the
/// fraction does not count.
pub proof fn whole_scales_agree(
    logical: (u32, u32),
    integer_scale: i32,
    fraction: u32,
    whole: (u32, u32),
    fractional: (u32, u32),
    unmapped: (u32, u32),
)
    requires
        integer_scale >= 1,
        integer_scale * 120 <= u32::MAX,
        logical.0 * integer_scale <= u32::MAX,
        logical.1 * integer_scale <= u32::MAX,
        call_ensures(physical_output_size, (logical, integer_scale, 0u32, true), whole),
        call_ensures(
            physical_output_size,
            (logical, 1i32, (integer_scale * 120) as u32, true),
            fractional,
        ),
        call_ensures(physical_output_size, (logical, integer_scale, fraction, false), unmapped),
    ensures
        whole.0 == logical.0 * integer_scale,
        whole.1 == logical.1 * integer_scale,
        fractional == whole,
        unmapped == whole,
{
    let scale = integer_scale as int;
    assert(logical.0 * (scale * 120) == (logical.0 * scale) * 120) by (nonlinear_arith);
    assert(logical.1 * (scale * 120) == (logical.1 * scale) * 120) by (nonlinear_arith);
    assert(0 <= logical.0 * scale && 0 <= logical.1 * scale) by (nonlinear_arith)
        requires
            scale >= 1,
    ;
    assert(fractional_pixels(logical.0, (scale * 120) as u32) == logical.0 * scale);
    assert(fractional_pixels(logical.1, (scale * 120) as u32) == logical.1 * scale);
}

/// A dimension times a factor is exact where it fits and the largest value where it does
/// not.
pub proof fn scaling_stops_at_the_largest_value(logical: u32, scale: u32, pixels: u32)
    requires
        call_ensures(scale_saturating, (logical, scale), pixels),
    ensures
        logical * scale <= u32::MAX ==> pixels == logical * scale,
        logical * scale > u32::MAX ==> pixels == u32::MAX,
{
}

} // verus!
