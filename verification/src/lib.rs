//! Two-tier caching layer between a font-rasterization backend and a
//! software rendering pipeline.
//!
//! A parsed-font cache memoizes the expensive "compile raw font bytes into a
//! rasterizer-ready structure" step, keyed by (blob identity, sub-font
//! index).  A rendered-glyph cache memoizes rasterized coverage bitmaps,
//! keyed by (blob identity, sub-font index, pixel size, glyph index), and is
//! bounded by a total byte-weight budget with least-recently-used eviction.

pub mod assoc;
pub mod blob;
pub mod fixed;
pub mod glyph;
pub mod glyph_cache;
pub mod parsed_fonts;
pub mod sfnt;
pub mod vectorfont;
