use vstd::prelude::*;

verus! {

/// How many presentation images the engine asks for when the surface allows
/// a choice.
pub const PREFERRED_IMAGE_COUNT: u32 = 3;

/// Driver token of the preferred presentation pixel format (8-bit BGRA with
/// sRGB encoding).
pub const FORMAT_B8G8R8A8_SRGB: u32 = 50;

/// Driver token of the preferred presentation colour space (non-linear sRGB).
pub const COLOR_SPACE_SRGB_NONLINEAR: u32 = 0;

/// `x` forced into `[min, max]`, with `min` winning when the bounds cross.
pub open spec fn clamp_spec(x: u32, min: u32, max: u32) -> u32 {
    if x < min {
        min
    } else if x > max {
        max
    } else {
        x
    }
}

#[inline]
pub fn clamp(x: u32, min: u32, max: u32) -> (r: u32)
    ensures
        r == clamp_spec(x, min, max),
{
    if x < min {
        return min;
    } else if x > max {
        return max;
    }
    x
}

/// The number of presentation images to create: the preferred count forced
/// into the surface's bounds, where a reported maximum of zero means
/// unbounded and only the minimum is honoured.
pub fn get_actual_swapchain_image_count(min_image_count: u32, max_image_count: u32) -> (count:
    u32)
    ensures
        max_image_count != 0 ==> count == clamp_spec(
            PREFERRED_IMAGE_COUNT,
            min_image_count,
            max_image_count,
        ),
        max_image_count == 0 ==> count == (if min_image_count < PREFERRED_IMAGE_COUNT {
            min_image_count
        } else {
            PREFERRED_IMAGE_COUNT
        }),
{
    if max_image_count != 0 {
        clamp(PREFERRED_IMAGE_COUNT, min_image_count, max_image_count)
    } else {
        if min_image_count < PREFERRED_IMAGE_COUNT {
            min_image_count
        } else {
            PREFERRED_IMAGE_COUNT
        }
    }
}

/// The presentation extent: the surface's current extent when it sits inside
/// the surface's bounds, otherwise the window's own size. Extents are
/// (width, height) pairs.
pub fn get_actual_swapchain_size(
    current_extent: (u32, u32),
    min_extent: (u32, u32),
    max_extent: (u32, u32),
    window_size: (u32, u32),
) -> (extent: (u32, u32))
    ensures
        extent == (if current_extent.0 != clamp_spec(current_extent.0, min_extent.0, max_extent.0)
            || current_extent.1 != clamp_spec(current_extent.1, min_extent.1, max_extent.1) {
            window_size
        } else {
            current_extent
        }),
{
    let clamped_width = clamp(current_extent.0, min_extent.0, max_extent.0);
    let clamped_height = clamp(current_extent.1, min_extent.1, max_extent.1);
    if current_extent.0 != clamped_width || current_extent.1 != clamped_height {
        window_size
    } else {
        current_extent
    }
}

/// Whether a (format, colour space) pair is the preferred presentation
/// format.
pub open spec fn preferred_format(format: (u32, u32)) -> bool {
    format.0 == FORMAT_B8G8R8A8_SRGB && format.1 == COLOR_SPACE_SRGB_NONLINEAR
}

/// The first preferred entry of the list, or `fallback` when none is.
pub open spec fn chosen_format(formats: Seq<(u32, u32)>, fallback: (u32, u32)) -> (u32, u32)
    decreases formats.len(),
{
    if formats.len() == 0 {
        fallback
    } else if preferred_format(formats[0]) {
        formats[0]
    } else {
        chosen_format(formats.drop_first(), fallback)
    }
}

/// Picks the surface format: the first entry carrying the preferred format
/// and colour space, or the first entry of the list when none does.
pub fn choose_surface_format(formats: &Vec<(u32, u32)>) -> (format: (u32, u32))
    requires
        formats@.len() > 0,
    ensures
        format == chosen_format(formats@, formats@[0]),
{
    let fallback = formats[0];
    let mut i: usize = 0;
    proof {
        assert(formats@.skip(0) =~= formats@);
    }
    while i < formats.len()
        invariant
            i <= formats@.len(),
            formats@.len() > 0,
            fallback == formats@[0],
            chosen_format(formats@, fallback) == chosen_format(formats@.skip(i as int), fallback),
        decreases formats@.len() - i,
    {
        let entry = formats[i];
        proof {
            assert(formats@.skip(i as int)[0] == formats@[i as int]);
            assert(formats@.skip(i as int).drop_first() =~= formats@.skip(i + 1 as int));
        }
        if entry.0 == FORMAT_B8G8R8A8_SRGB && entry.1 == COLOR_SPACE_SRGB_NONLINEAR {
            return entry;
        }
        i = i + 1;
    }
    proof {
        assert(formats@.skip(formats@.len() as int) =~= Seq::<(u32, u32)>::empty());
    }
    fallback
}

} // verus!
