//! Geometry of the shared render surface: where the document's stage lands on
//! it, and which rectangle of a capture holds one asset.
use vstd::prelude::*;

verus! {

/// Half of `x`, rounded to the nearest integer with halves rounded up.
pub open spec fn half_rounded(x: int) -> int {
    (x + 1) / 2
}

/// The offset at which a stage of `movie` pixels is centred on a surface of
/// `render` pixels, along one axis: `round((render - movie) / 2)`.
pub fn atlas_offset(render: u32, movie: u32) -> (r: u32)
    requires
        movie <= render,
    ensures
        r == half_rounded(render - movie),
        2 * r == render - movie || 2 * r == render - movie + 1,
{
    let d = render - movie;
    d / 2 + d % 2
}

/// A rectangle of a captured surface: its top-left corner and its size, in
/// pixels.
#[derive(Clone, Copy, Debug, PartialEq, Eq, Structural)]
pub struct CropRect {
    pub x: u32,
    pub y: u32,
    pub width: u32,
    pub height: u32,
}

/// Whether a rectangle lies within a surface of `w` by `h` pixels.
pub open spec fn fits(c: CropRect, w: u32, h: u32) -> bool {
    c.x + c.width <= w && c.y + c.height <= h
}

/// The rectangle of a capture that holds an asset of `width` by `height`
/// pixels anchored at the stage origin, the stage being centred at
/// `(origin_x, origin_y)`; or none when it does not lie within the surface of
/// `atlas_width` by `atlas_height` pixels.
pub fn crop_rect(origin_x: u32, origin_y: u32, width: u32, height: u32, atlas_width: u32, atlas_height: u32) -> (r: Option<CropRect>)
    ensures
        ({
            let c = CropRect { x: origin_x, y: origin_y, width, height };
            if fits(c, atlas_width, atlas_height) {
                r == Some(c)
            } else {
                r is None
            }
        }),
{
    if width <= atlas_width && origin_x <= atlas_width - width && height <= atlas_height && origin_y <= atlas_height - height {
        Some(CropRect { x: origin_x, y: origin_y, width, height })
    } else {
        None
    }
}

} // verus!
