//! The cached rendered-glyph artifact and its cache key.

use crate::fixed::Fixed;
use std::rc::Rc;
use vstd::prelude::*;

verus! {

/// Identity of one rasterized bitmap: which font bytes, which sub-font of
/// the collection, at which integer pixel size, and which glyph outline.
/// The pixel size takes part in the key because bitmaps are size-specific,
/// unlike parsed fonts.  Glyph index 0 is reserved upstream for "missing
/// glyph" and never reaches the cache.
#[derive(Clone, Copy, PartialEq, Eq, Hash, Structural, Debug)]
pub struct GlyphCacheKey {
    pub blob_id: u64,
    pub font_index: u32,
    pub pixel_size: i16,
    pub glyph_id: u16,
}

/// A rasterized glyph ready for blitting: a vertical offset in fixed point,
/// bitmap metrics, and a shared, immutable alpha-coverage buffer with one
/// byte per pixel, rows tightly packed.  Cloning shares the buffer; the
/// bytes are never copied on a cache hit.
pub struct RenderableVectorGlyph {
    pub y: Fixed,
    pub width: i16,
    pub height: i16,
    pub pixel_stride: u16,
    pub alpha_map: Rc<Vec<u8>>,
}

impl RenderableVectorGlyph {
    /// Well-formedness: metrics are non-negative, rows are tightly packed
    /// (stride equals width) and the coverage buffer holds exactly one byte
    /// per pixel.
    pub open spec fn wf(self) -> bool {
        &&& 0 <= self.width
        &&& 0 <= self.height
        &&& self.pixel_stride == self.width
        &&& self.alpha_map@.len() == self.width * self.height
    }

    /// The cache weight of this artifact: the byte length of its coverage
    /// buffer.
    pub open spec fn weight(self) -> int {
        self.alpha_map@.len() as int
    }
}

impl Clone for RenderableVectorGlyph {
    /// A shared-buffer clone: every field equal, and the coverage bytes
    /// shared rather than copied.
    fn clone(&self) -> (r: Self)
        ensures
            r == *self,
    {
        RenderableVectorGlyph {
            y: self.y,
            width: self.width,
            height: self.height,
            pixel_stride: self.pixel_stride,
            alpha_map: self.alpha_map.clone(),
        }
    }
}

/// Builds the cached artifact from a rasterizer's raw output: a vertical
/// offset, pixel metrics and the coverage bytes.  Returns `None` exactly
/// when the output does not fit the artifact's integer types or is not one
/// byte per pixel; for output obtained from a real rasterization at a sane
/// pixel size this does not happen.
pub fn make_renderable_glyph(ymin: i32, width: usize, height: usize, alpha_map: Vec<u8>) -> (r:
    Option<RenderableVectorGlyph>)
    ensures
        match r {
            Some(g) => {
                &&& i16::MIN <= ymin <= i16::MAX
                &&& width <= i16::MAX
                &&& height <= i16::MAX
                &&& alpha_map@.len() == width * height
                &&& g.wf()
                &&& g.y == (Fixed { whole: ymin as i16, frac: 0 })
                &&& g.width == width
                &&& g.height == height
                &&& g.pixel_stride == width
                &&& g.alpha_map@ == alpha_map@
                &&& g.weight() == alpha_map@.len()
            },
            None => !(i16::MIN <= ymin <= i16::MAX && width <= i16::MAX && height <= i16::MAX
                && alpha_map@.len() == width * height),
        },
{
    if ymin < i16::MIN as i32 || ymin > i16::MAX as i32 {
        return None;
    }
    if width > i16::MAX as usize || height > i16::MAX as usize {
        return None;
    }
    proof {
        assert(width * height <= 32767 * 32767) by (nonlinear_arith)
            requires
                width <= 32767,
                height <= 32767,
        ;
    }
    if alpha_map.len() != width * height {
        return None;
    }
    Some(RenderableVectorGlyph {
        y: Fixed::from_integer(ymin as i16),
        width: width as i16,
        height: height as i16,
        pixel_stride: width as u16,
        alpha_map: Rc::new(alpha_map),
    })
}

} // verus!
