//! A sized font handle and the cached glyph-rendering entry point.

use crate::assoc::{has_key, lookup, promote};
use crate::blob::{FontBlob, FontQuery};
use crate::fixed::Fixed;
use crate::glyph::{make_renderable_glyph, GlyphCacheKey, RenderableVectorGlyph};
use crate::glyph_cache::{evict_to_fit, total_weight, GlyphCache};
use std::rc::Rc;
use vstd::prelude::*;

verus! {

/// The number of glyph slots that fontdue reports for a parsed font.  It
/// depends on the font alone, and every glyph index below it lies within
/// the font's glyph table.
pub uninterp spec fn font_glyph_count(font: fontdue::Font) -> u16;

/// What fontdue's rasterizer returns for a glyph of a font at a pixel
/// size: the vertical offset of the bitmap's bottom edge, its pixel width,
/// its pixel height, and its coverage bytes.  Rasterization is
/// deterministic: the result depends on these three arguments alone.
pub uninterp spec fn rasterized(font: fontdue::Font, glyph_id: u16, pixel_size: i16) -> (
    i32,
    usize,
    usize,
    Seq<u8>,
);

/// Whether a rasterizer result fits the cached artifact's integer types:
/// the metrics within 16 bits and one coverage byte per pixel.
pub open spec fn raster_fits(m: (i32, usize, usize, Seq<u8>)) -> bool {
    &&& i16::MIN <= m.0 <= i16::MAX
    &&& m.1 <= i16::MAX
    &&& m.2 <= i16::MAX
    &&& m.3.len() == m.1 * m.2
}

/// Relies on fontdue::Font::glyph_count: reports the total number of
/// glyphs in the font.
#[verifier::external_body]
fn glyph_count(font: &Rc<fontdue::Font>) -> (r: u16)
    ensures
        r == font_glyph_count(**font),
{
    font.glyph_count()
}

/// Relies on fontdue::Font::rasterize_indexed: rasterizes a glyph at an
/// integer pixel size into layout metrics — here the vertical offset of
/// the bitmap's bottom edge (negative for glyphs reaching below the
/// baseline), its pixel width and its pixel height — and an
/// alpha-coverage bitmap of exactly width * height bytes, one byte per
/// pixel, starting at the top-left corner.  The glyph index must lie
/// within the font's glyph table, which fontdue indexes unchecked; a
/// non-positive pixel size yields zero metrics and an empty bitmap.
#[verifier::external_body]
fn rasterize_glyph(font: &Rc<fontdue::Font>, glyph_id: u16, pixel_size: i16) -> (r: (
    i32,
    usize,
    usize,
    Vec<u8>,
))
    requires
        glyph_id < font_glyph_count(**font),
    ensures
        (r.0, r.1, r.2, r.3@) == rasterized(**font, glyph_id, pixel_size),
        r.3@.len() == r.1 * r.2,
{
    let (metrics, alpha_map) = font.rasterize_indexed(glyph_id, pixel_size.into());
    (metrics.ymin, metrics.width, metrics.height, alpha_map)
}

/// A lightweight handle on one sub-font at one target pixel size: the
/// registered binary, the sub-font index, the shared parsed font derived
/// from them, and the pixel size glyphs are to be rendered at.  Handles
/// are created on demand by the font-matching layer and are not cached
/// themselves — only their rendered output is.
pub struct VectorFont {
    font_index: u32,
    font_blob: FontBlob,
    fontdue_font: Rc<fontdue::Font>,
    pixel_size: i16,
}

impl VectorFont {
    /// The underlying font binary.
    pub closed spec fn spec_blob(self) -> FontBlob {
        self.font_blob
    }

    /// The identity of the underlying font binary.
    pub closed spec fn spec_blob_id(self) -> u64 {
        self.font_blob.id
    }

    /// The sub-font index within the binary.
    pub closed spec fn spec_font_index(self) -> u32 {
        self.font_index
    }

    /// The target pixel size.
    pub closed spec fn spec_pixel_size(self) -> i16 {
        self.pixel_size
    }

    /// The shared parsed font this handle rasterizes with.
    pub closed spec fn spec_font(self) -> fontdue::Font {
        *self.fontdue_font
    }

    /// The rendered-glyph cache key this handle uses for a glyph: the
    /// pixel size takes part, so the same glyph at two sizes occupies two
    /// independent entries.
    pub open spec fn spec_key(self, glyph_id: u16) -> GlyphCacheKey {
        GlyphCacheKey {
            blob_id: self.spec_blob_id(),
            font_index: self.spec_font_index(),
            pixel_size: self.spec_pixel_size(),
            glyph_id,
        }
    }

    /// Builds a handle from a font-discovery answer.
    pub fn new(font: FontQuery, fontdue_font: Rc<fontdue::Font>, pixel_size: i16) -> (r:
        VectorFont)
        ensures
            r.spec_blob() == font.blob,
            r.spec_blob_id() == font.blob.id,
            r.spec_font_index() == font.index,
            r.spec_pixel_size() == pixel_size,
            r.spec_font() == *fontdue_font,
    {
        Self::new_from_blob_and_index(font.blob, font.index, fontdue_font, pixel_size)
    }

    /// Builds a handle from a binary and a sub-font index directly.
    pub fn new_from_blob_and_index(
        font_blob: FontBlob,
        font_index: u32,
        fontdue_font: Rc<fontdue::Font>,
        pixel_size: i16,
    ) -> (r: VectorFont)
        ensures
            r.spec_blob() == font_blob,
            r.spec_blob_id() == font_blob.id,
            r.spec_font_index() == font_index,
            r.spec_pixel_size() == pixel_size,
            r.spec_font() == *fontdue_font,
    {
        VectorFont { font_index, font_blob, fontdue_font, pixel_size }
    }

    /// Returns the rendered glyph for a nonzero glyph index (index 0 is
    /// reserved for "missing glyph" and filtered upstream), consulting and
    /// maintaining the rendered-glyph cache.
    ///
    /// On a hit the cached artifact is returned as a shared-buffer clone
    /// and promoted to most recently used.  On a miss the glyph is
    /// rasterized, the artifact is inserted — evicting least-recently-used
    /// entries as the weighted budget demands, or leaving the cache
    /// untouched when the artifact alone outweighs the whole capacity —
    /// and the artifact is returned either way: a cache-capacity failure
    /// never becomes a rendering failure.  `None` comes only on a miss
    /// whose glyph index lies beyond the font's glyph table, or whose
    /// rasterized metrics do not fit the artifact's integer types; the
    /// cache is then left unchanged.
    pub fn render_glyph(&self, cache: &mut GlyphCache, glyph_id: u16) -> (r: Option<
        RenderableVectorGlyph,
    >)
        requires
            glyph_id != 0,
            old(cache).wf(),
        ensures
            final(cache).wf(),
            final(cache).spec_capacity() == old(cache).spec_capacity(),
            total_weight(final(cache)@) <= final(cache).spec_capacity(),
            has_key(old(cache)@, self.spec_key(glyph_id)) ==> r == Some(
                lookup(old(cache)@, self.spec_key(glyph_id)),
            ) && final(cache)@ == promote(old(cache)@, self.spec_key(glyph_id)),
            !has_key(old(cache)@, self.spec_key(glyph_id)) ==> match r {
                Some(g) => {
                    &&& g.wf()
                    &&& glyph_id < font_glyph_count(self.spec_font())
                    &&& g.weight() > old(cache).spec_capacity() ==> final(cache)@ == old(cache)@
                    &&& g.weight() <= old(cache).spec_capacity() ==> final(cache)@ == evict_to_fit(
                        old(cache)@,
                        old(cache).spec_capacity() - g.weight(),
                    ).push((self.spec_key(glyph_id), g)) && has_key(
                        final(cache)@,
                        self.spec_key(glyph_id),
                    ) && lookup(final(cache)@, self.spec_key(glyph_id)) == g
                },
                None => final(cache)@ == old(cache)@,
            },
            !has_key(old(cache)@, self.spec_key(glyph_id)) && glyph_id < font_glyph_count(
                self.spec_font(),
            ) ==> ({
                let m = rasterized(self.spec_font(), glyph_id, self.spec_pixel_size());
                &&& (r is Some <==> raster_fits(m))
                &&& (r matches Some(g) ==> g.y == (Fixed { whole: m.0 as i16, frac: 0 })
                    && g.width == m.1 && g.height == m.2 && g.pixel_stride == m.1
                    && g.alpha_map@ == m.3)
            }),
            !has_key(old(cache)@, self.spec_key(glyph_id)) && glyph_id >= font_glyph_count(
                self.spec_font(),
            ) ==> r is None,
    {
        let cache_key = GlyphCacheKey {
            blob_id: self.font_blob.id,
            font_index: self.font_index,
            pixel_size: self.pixel_size,
            glyph_id,
        };
        if let Some(entry) = cache.get(cache_key) {
            return Some(entry);
        }
        if glyph_id >= glyph_count(&self.fontdue_font) {
            return None;
        }
        let (ymin, width, height, alpha_map) = rasterize_glyph(
            &self.fontdue_font,
            glyph_id,
            self.pixel_size,
        );
        match make_renderable_glyph(ymin, width, height, alpha_map) {
            Some(glyph) => {
                let rendered = glyph.clone();
                let _ = cache.put(cache_key, glyph);
                Some(rendered)
            },
            None => None,
        }
    }
}

} // verus!
