use std::rc::Rc;

use fontcache::fixed::Fixed;
use fontcache::glyph::{GlyphCacheKey, RenderableVectorGlyph};
use fontcache::glyph_cache::GlyphCache;

fn key(pixel_size: i16, glyph_id: u16) -> GlyphCacheKey {
    GlyphCacheKey { blob_id: 1, font_index: 0, pixel_size, glyph_id }
}

fn glyph(y: i16, width: i16, height: i16, bytes: Vec<u8>) -> RenderableVectorGlyph {
    assert_eq!(bytes.len(), width as usize * height as usize);
    RenderableVectorGlyph {
        y: Fixed::from_integer(y),
        width,
        height,
        pixel_stride: width as u16,
        alpha_map: Rc::new(bytes),
    }
}

#[test]
fn put_then_get_returns_identical_artifact() {
    let mut cache = GlyphCache::new(100);
    let g = glyph(-2, 2, 2, vec![10, 20, 30, 40]);
    assert!(cache.put(key(12, 7), g));
    let got = cache.get(key(12, 7)).expect("entry must be resident");
    assert_eq!(*got.alpha_map, vec![10, 20, 30, 40]);
    assert_eq!(got.width, 2);
    assert_eq!(got.height, 2);
    assert_eq!(got.pixel_stride, 2);
    assert_eq!(got.y.truncate(), -2);
    assert_eq!(cache.len(), 1);
    assert_eq!(cache.used_weight(), 4);
}

#[test]
fn repeated_get_returns_bitwise_identical_shared_bytes() {
    let mut cache = GlyphCache::new(64);
    assert!(cache.put(key(14, 9), glyph(0, 4, 1, vec![9, 8, 7, 6])));
    let first = cache.get(key(14, 9)).unwrap();
    let second = cache.get(key(14, 9)).unwrap();
    assert_eq!(*first.alpha_map, *second.alpha_map);
    assert_eq!(first.y.truncate(), second.y.truncate());
    assert_eq!(first.width, second.width);
    assert_eq!(first.height, second.height);
    // A hit shares the buffer rather than copying the bytes.
    assert!(Rc::ptr_eq(&first.alpha_map, &second.alpha_map));
}

#[test]
fn eviction_drops_least_recently_used_first() {
    // Capacity 10; A, B and C weigh 4 each, so inserting C must evict
    // exactly A, the least recently used entry, leaving B and C resident
    // with total weight 8.
    let mut cache = GlyphCache::new(10);
    assert!(cache.put(key(10, 1), glyph(0, 2, 2, vec![1; 4])));
    assert!(cache.put(key(10, 2), glyph(0, 2, 2, vec![2; 4])));
    assert!(cache.put(key(10, 3), glyph(0, 2, 2, vec![3; 4])));
    assert_eq!(cache.len(), 2);
    assert_eq!(cache.used_weight(), 8);
    assert!(cache.get(key(10, 1)).is_none());
    assert_eq!(*cache.get(key(10, 2)).unwrap().alpha_map, vec![2; 4]);
    assert_eq!(*cache.get(key(10, 3)).unwrap().alpha_map, vec![3; 4]);
}

#[test]
fn lookup_counts_as_use_for_eviction_order() {
    // Capacity 8: A and B fill it; touching A makes B the least recently
    // used entry, so inserting C evicts B, not A.
    let mut cache = GlyphCache::new(8);
    assert!(cache.put(key(10, 1), glyph(0, 2, 2, vec![1; 4])));
    assert!(cache.put(key(10, 2), glyph(0, 2, 2, vec![2; 4])));
    assert!(cache.get(key(10, 1)).is_some());
    assert!(cache.put(key(10, 3), glyph(0, 2, 2, vec![3; 4])));
    assert!(cache.get(key(10, 2)).is_none());
    assert_eq!(*cache.get(key(10, 1)).unwrap().alpha_map, vec![1; 4]);
    assert_eq!(*cache.get(key(10, 3)).unwrap().alpha_map, vec![3; 4]);
}

#[test]
fn oversized_entry_is_rejected_and_cache_unchanged() {
    let mut cache = GlyphCache::new(10);
    assert!(cache.put(key(10, 1), glyph(0, 2, 2, vec![1; 4])));
    let oversized = glyph(0, 11, 1, vec![5; 11]);
    assert!(!cache.put(key(10, 2), oversized));
    assert_eq!(cache.len(), 1);
    assert_eq!(cache.used_weight(), 4);
    assert_eq!(*cache.get(key(10, 1)).unwrap().alpha_map, vec![1; 4]);
    assert!(cache.get(key(10, 2)).is_none());
}

#[test]
fn entry_of_exactly_the_whole_capacity_fits() {
    // Only a weight strictly above the capacity is rejected.
    let mut cache = GlyphCache::new(10);
    assert!(cache.put(key(10, 1), glyph(0, 2, 2, vec![1; 4])));
    assert!(cache.put(key(10, 2), glyph(0, 10, 1, vec![5; 10])));
    assert_eq!(cache.len(), 1);
    assert_eq!(cache.used_weight(), 10);
    assert!(cache.get(key(10, 1)).is_none());
    assert_eq!(*cache.get(key(10, 2)).unwrap().alpha_map, vec![5; 10]);
}

#[test]
fn zero_size_glyph_is_cacheable_and_evicts_nothing() {
    // A space glyph has width 0, height 0 and an empty coverage buffer:
    // weight 0.  It must be cached even in a full cache, without evicting
    // any resident entry.
    let mut cache = GlyphCache::new(4);
    assert!(cache.put(key(10, 1), glyph(0, 2, 2, vec![1; 4])));
    assert_eq!(cache.used_weight(), 4);
    assert!(cache.put(key(10, 2), glyph(0, 0, 0, vec![])));
    assert_eq!(cache.len(), 2);
    assert_eq!(cache.used_weight(), 4);
    let space = cache.get(key(10, 2)).unwrap();
    assert_eq!(space.alpha_map.len(), 0);
    assert_eq!(space.width, 0);
    assert_eq!(space.height, 0);
    assert_eq!(*cache.get(key(10, 1)).unwrap().alpha_map, vec![1; 4]);
}

#[test]
fn two_pixel_sizes_of_one_glyph_are_independent_entries() {
    let mut cache = GlyphCache::new(100);
    assert!(cache.put(key(12, 7), glyph(0, 2, 1, vec![1, 2])));
    assert!(cache.put(key(24, 7), glyph(0, 2, 2, vec![3, 4, 5, 6])));
    assert_eq!(cache.len(), 2);
    assert_eq!(*cache.get(key(12, 7)).unwrap().alpha_map, vec![1, 2]);
    assert_eq!(*cache.get(key(24, 7)).unwrap().alpha_map, vec![3, 4, 5, 6]);
}

#[test]
fn total_weight_never_exceeds_capacity() {
    let mut cache = GlyphCache::new(25);
    let mut id: u16 = 1;
    for (side, w) in [(2i16, 4usize), (3, 9), (4, 16), (1, 1), (5, 25), (3, 9), (2, 4), (4, 16)] {
        let accepted = cache.put(key(10, id), glyph(0, side, side, vec![7; w]));
        assert!(accepted);
        assert!(cache.used_weight() <= cache.capacity());
        id += 1;
    }
}
