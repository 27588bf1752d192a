use std::rc::Rc;

use fontcache::blob::FontBlob;
use fontcache::parsed_fonts::{get_or_create_fontdue_font, ParsedFontCache};

#[test]
fn unparseable_bytes_yield_no_font_and_no_cache_entry() {
    let mut cache = ParsedFontCache::new();
    let blob = FontBlob::new(1, vec![0xDE, 0xAD, 0xBE, 0xEF]);
    assert!(get_or_create_fontdue_font(&mut cache, &blob, 0).is_none());
    assert_eq!(cache.len(), 0);
    // Parsing is deterministic: the same bytes fail again, and the failed
    // attempt left no partial state behind.
    assert!(get_or_create_fontdue_font(&mut cache, &blob, 0).is_none());
    assert_eq!(cache.len(), 0);
}

#[test]
fn distinct_subfont_indices_are_distinct_keys() {
    let mut cache = ParsedFontCache::new();
    let blob = FontBlob::new(7, vec![0; 16]);
    assert!(get_or_create_fontdue_font(&mut cache, &blob, 0).is_none());
    assert!(get_or_create_fontdue_font(&mut cache, &blob, 1).is_none());
    assert_eq!(cache.len(), 0);
}

#[test]
fn blob_clone_shares_the_byte_buffer() {
    let blob = FontBlob::new(3, vec![1, 2, 3]);
    let other = blob.clone();
    assert_eq!(other.id, 3);
    assert_eq!(other.len(), 3);
    assert!(Rc::ptr_eq(&blob.data, &other.data));
}
