use std::rc::Rc;

use fontcache::blob::{FontBlob, FontQuery};
use fontcache::glyph_cache::GlyphCache;
use fontcache::parsed_fonts::{get_or_create_fontdue_font, ParsedFontCache};
use fontcache::vectorfont::VectorFont;

/// A minimal TrueType binary: the three mandatory tables (head, hhea,
/// maxp) declaring two glyphs, with no outlines.  fontdue parses it, and
/// rasterizing its glyphs yields empty zero-size bitmaps.  With
/// `hostile_name` a fourth table is appended: a "name" table whose
/// full-name record is unicode with an odd byte length — bytes that must
/// never reach a UTF-16 decoder that reads two bytes at a time.
fn build_font(hostile_name: bool) -> Vec<u8> {
    let num_tables: u16 = if hostile_name { 4 } else { 3 };
    let mut font: Vec<u8> = Vec::new();
    // Offset table.
    font.extend_from_slice(&0x00010000u32.to_be_bytes()); // sfnt version
    font.extend_from_slice(&num_tables.to_be_bytes());
    font.extend_from_slice(&[0; 6]); // searchRange, entrySelector, rangeShift
    // Table records, sorted by tag.
    let head_offset: u32 = 12 + num_tables as u32 * 16;
    let hhea_offset: u32 = head_offset + 54;
    let maxp_offset: u32 = hhea_offset + 36;
    let name_offset: u32 = maxp_offset + 6;
    let mut records =
        vec![(*b"head", head_offset, 54u32), (*b"hhea", hhea_offset, 36), (*b"maxp", maxp_offset, 6)];
    if hostile_name {
        records.push((*b"name", name_offset, 21));
    }
    for (tag, offset, length) in records {
        font.extend_from_slice(&tag);
        font.extend_from_slice(&0u32.to_be_bytes()); // checksum
        font.extend_from_slice(&offset.to_be_bytes());
        font.extend_from_slice(&length.to_be_bytes());
    }
    // head
    font.extend_from_slice(&0x00010000u32.to_be_bytes()); // version
    font.extend_from_slice(&0u32.to_be_bytes()); // font revision
    font.extend_from_slice(&0u32.to_be_bytes()); // checksum adjustment
    font.extend_from_slice(&0x5F0F3CF5u32.to_be_bytes()); // magic number
    font.extend_from_slice(&0u16.to_be_bytes()); // flags
    font.extend_from_slice(&1000u16.to_be_bytes()); // units per em
    font.extend_from_slice(&[0; 16]); // created + modified
    font.extend_from_slice(&[0; 8]); // xMin, yMin, xMax, yMax
    font.extend_from_slice(&0u16.to_be_bytes()); // mac style
    font.extend_from_slice(&8u16.to_be_bytes()); // lowest recommended ppem
    font.extend_from_slice(&2u16.to_be_bytes()); // font direction hint
    font.extend_from_slice(&0u16.to_be_bytes()); // index-to-location format
    font.extend_from_slice(&0u16.to_be_bytes()); // glyph data format
    // hhea
    font.extend_from_slice(&0x00010000u32.to_be_bytes()); // version
    font.extend_from_slice(&800u16.to_be_bytes()); // ascender
    font.extend_from_slice(&(-200i16).to_be_bytes()); // descender
    font.extend_from_slice(&0u16.to_be_bytes()); // line gap
    font.extend_from_slice(&[0; 24]); // metrics bounds, caret, reserved
    font.extend_from_slice(&0u16.to_be_bytes()); // numberOfHMetrics
    // maxp
    font.extend_from_slice(&0x00005000u32.to_be_bytes()); // version 0.5
    font.extend_from_slice(&2u16.to_be_bytes()); // glyph count
    if hostile_name {
        // name: one unicode full-name record of odd length 3.
        font.extend_from_slice(&0u16.to_be_bytes()); // format
        font.extend_from_slice(&1u16.to_be_bytes()); // count
        font.extend_from_slice(&18u16.to_be_bytes()); // storage offset
        font.extend_from_slice(&0u16.to_be_bytes()); // platform: unicode
        font.extend_from_slice(&3u16.to_be_bytes()); // encoding
        font.extend_from_slice(&0u16.to_be_bytes()); // language
        font.extend_from_slice(&4u16.to_be_bytes()); // name id: full name
        font.extend_from_slice(&3u16.to_be_bytes()); // length: odd
        font.extend_from_slice(&0u16.to_be_bytes()); // offset
        font.extend_from_slice(b"abc"); // storage
    }
    font
}

fn minimal_font_bytes() -> Vec<u8> {
    build_font(false)
}

#[test]
fn odd_length_name_record_is_neutralized_not_decoded() {
    // fontdue's UTF-16 name decoding reads two bytes at a time and would
    // run past this record; the caches retag the name table before fontdue
    // sees it, so parsing and rendering must simply succeed.
    let mut parsed = ParsedFontCache::new();
    let mut glyphs = GlyphCache::new(1024);
    let blob = FontBlob::new(9, build_font(true));
    let font = get_or_create_fontdue_font(&mut parsed, &blob, 0)
        .expect("a font with a malformed name record must still parse");
    let vector_font = VectorFont::new_from_blob_and_index(blob.clone(), 0, font, 16);
    assert!(vector_font.render_glyph(&mut glyphs, 1).is_some());
}

#[test]
fn neutralizing_retags_exactly_the_name_record() {
    let font = build_font(true);
    let neutralized = fontcache::sfnt::neutralize_name_tables(&font, 0);
    assert_eq!(neutralized.len(), font.len());
    // The "name" record is the fourth; its tag's last byte sits at
    // 12 + 3 * 16 + 3 and is rewritten to 'x'.
    let patched = 12 + 3 * 16 + 3;
    assert_eq!(font[patched], b'e');
    assert_eq!(neutralized[patched], b'x');
    for i in 0..font.len() {
        if i != patched {
            assert_eq!(neutralized[i], font[i]);
        }
    }
}

#[test]
fn neutralizing_leaves_a_nameless_font_unchanged() {
    let font = build_font(false);
    assert_eq!(fontcache::sfnt::neutralize_name_tables(&font, 0), font);
}

#[test]
fn parsed_font_is_created_once_and_shared() {
    let mut cache = ParsedFontCache::new();
    let blob = FontBlob::new(1, minimal_font_bytes());
    let first = get_or_create_fontdue_font(&mut cache, &blob, 0).expect("font must parse");
    let second = get_or_create_fontdue_font(&mut cache, &blob, 0).expect("hit must succeed");
    // Identity, not merely equality: both callers observe the same
    // underlying parsed object, so the parse work happened once.
    assert!(Rc::ptr_eq(&first, &second));
    assert_eq!(cache.len(), 1);
}

#[test]
fn subfont_index_outside_the_binary_fails_independently() {
    let mut cache = ParsedFontCache::new();
    let blob = FontBlob::new(1, minimal_font_bytes());
    // A plain (non-collection) font has only sub-font 0.
    assert!(get_or_create_fontdue_font(&mut cache, &blob, 1).is_none());
    assert!(get_or_create_fontdue_font(&mut cache, &blob, 0).is_some());
    assert_eq!(cache.len(), 1);
}

#[test]
fn render_glyph_rasterizes_caches_and_shares() {
    let mut parsed = ParsedFontCache::new();
    let mut glyphs = GlyphCache::new(1024 * 1024);
    let blob = FontBlob::new(1, minimal_font_bytes());
    let font = get_or_create_fontdue_font(&mut parsed, &blob, 0).unwrap();
    let query = FontQuery { blob: blob.clone(), index: 0 };
    let vector_font = VectorFont::new(query, font, 16);

    let first = vector_font.render_glyph(&mut glyphs, 1).expect("valid glyph id must render");
    // The font has no outlines: the glyph is zero-size with an empty
    // coverage buffer, and must be cached like any other glyph.
    assert_eq!(first.width, 0);
    assert_eq!(first.height, 0);
    assert_eq!(first.alpha_map.len(), 0);
    assert_eq!(glyphs.len(), 1);
    assert_eq!(glyphs.used_weight(), 0);

    let second = vector_font.render_glyph(&mut glyphs, 1).expect("hit must render");
    assert_eq!(*first.alpha_map, *second.alpha_map);
    // The hit shares the cached buffer instead of copying it.
    assert!(Rc::ptr_eq(&first.alpha_map, &second.alpha_map));
    assert_eq!(glyphs.len(), 1);
}

#[test]
fn glyph_id_beyond_the_font_glyph_table_renders_nothing() {
    let mut parsed = ParsedFontCache::new();
    let mut glyphs = GlyphCache::new(1024);
    let blob = FontBlob::new(1, minimal_font_bytes());
    let font = get_or_create_fontdue_font(&mut parsed, &blob, 0).unwrap();
    let vector_font = VectorFont::new_from_blob_and_index(blob.clone(), 0, font, 16);
    // The minimal font declares two glyph slots: index 5 lies outside its
    // glyph table.
    assert!(vector_font.render_glyph(&mut glyphs, 5).is_none());
    assert_eq!(glyphs.len(), 0);
}
