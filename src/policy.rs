//! The orientation policy that bounds the size of every stored image.
use vstd::prelude::*;

verus! {

/// The bound on the long side of a stored image.
pub const MAX_IMAGE_BIG: u32 = 1280;

/// The bound on the short side of a stored image.
pub const MAX_IMAGE_SMALL: u32 = 720;

/// Whether an image of this size counts as landscape (strictly wider than tall).
pub open spec fn is_landscape(width: u32, height: u32) -> bool {
    width > height
}

/// The (width, height) bounds that apply to an image of this size.
pub open spec fn bounds_for(width: u32, height: u32) -> (u32, u32) {
    if is_landscape(width, height) {
        (MAX_IMAGE_BIG, MAX_IMAGE_SMALL)
    } else {
        (MAX_IMAGE_SMALL, MAX_IMAGE_BIG)
    }
}

/// The smaller of two sizes.
pub open spec fn min_u32(a: u32, b: u32) -> u32 {
    if a <= b {
        a
    } else {
        b
    }
}

/// The size an image is brought to: each side clamped to its bound, never enlarged.
pub open spec fn target_of(width: u32, height: u32) -> (u32, u32) {
    (min_u32(width, bounds_for(width, height).0), min_u32(height, bounds_for(width, height).1))
}

/// Computes the size that an image of `width` x `height` is resized to.
pub fn target_dimensions(width: u32, height: u32) -> (r: (u32, u32))
    ensures
        r == target_of(width, height),
{
    if width > height {
        (width.min(MAX_IMAGE_BIG), height.min(MAX_IMAGE_SMALL))
    } else {
        (width.min(MAX_IMAGE_SMALL), height.min(MAX_IMAGE_BIG))
    }
}

/// No target size exceeds the bounds of its orientation, nor the natural size
/// of the image; a side already within its bound is kept exactly.
pub proof fn lemma_target_within_bounds(width: u32, height: u32)
    ensures
        target_of(width, height).0 <= bounds_for(width, height).0,
        target_of(width, height).1 <= bounds_for(width, height).1,
        target_of(width, height).0 <= width,
        target_of(width, height).1 <= height,
        width <= bounds_for(width, height).0 ==> target_of(width, height).0 == width,
        height <= bounds_for(width, height).1 ==> target_of(width, height).1 == height,
        is_landscape(width, height) ==> target_of(width, height).0 <= 1280 && target_of(width, height).1 <= 720,
        !is_landscape(width, height) ==> target_of(width, height).0 <= 720 && target_of(width, height).1 <= 1280,
{
}

} // verus!
