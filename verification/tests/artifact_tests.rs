use fontcache::fixed::Fixed;
use fontcache::glyph::make_renderable_glyph;

#[test]
fn fixed_point_round_trips_integers_exactly() {
    for i in [-32768i16, -255, -7, -1, 0, 1, 42, 32767] {
        let f = Fixed::from_integer(i);
        assert_eq!(f.truncate(), i);
        assert_eq!(f.bits(), i as i32 * 256);
    }
}

#[test]
fn make_glyph_accepts_rasterizer_output() {
    let g = make_renderable_glyph(-3, 2, 3, vec![1, 2, 3, 4, 5, 6]).unwrap();
    assert_eq!(g.y.truncate(), -3);
    assert_eq!(g.width, 2);
    assert_eq!(g.height, 3);
    assert_eq!(g.pixel_stride, 2);
    assert_eq!(*g.alpha_map, vec![1, 2, 3, 4, 5, 6]);
}

#[test]
fn make_glyph_accepts_zero_size_output() {
    let g = make_renderable_glyph(0, 0, 0, vec![]).unwrap();
    assert_eq!(g.width, 0);
    assert_eq!(g.height, 0);
    assert_eq!(g.alpha_map.len(), 0);
}

#[test]
fn make_glyph_rejects_metrics_outside_the_artifact_types() {
    assert!(make_renderable_glyph(0, 40000, 1, vec![0; 40000]).is_none());
    assert!(make_renderable_glyph(0, 1, 40000, vec![0; 40000]).is_none());
    assert!(make_renderable_glyph(-40000, 1, 1, vec![0]).is_none());
    assert!(make_renderable_glyph(40000, 1, 1, vec![0]).is_none());
}

#[test]
fn make_glyph_rejects_a_buffer_that_is_not_one_byte_per_pixel() {
    assert!(make_renderable_glyph(0, 2, 2, vec![0; 3]).is_none());
}
