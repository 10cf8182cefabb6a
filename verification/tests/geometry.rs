use bevy_egui::geometry::{max_capacity, next_power_of_two, BufferHandle, GeometryBuffer};
use bevy_egui::rect::{PixelRect, ViewportInPixels};

#[test]
fn next_power_of_two_exact_values() {
    let cases: [(usize, usize); 12] = [
        (0, 1),
        (1, 1),
        (2, 2),
        (3, 4),
        (4, 4),
        (5, 8),
        (60, 64),
        (64, 64),
        (65, 128),
        (1000, 1024),
        (1024, 1024),
        (1025, 2048),
    ];
    for (n, expected) in cases {
        assert_eq!(next_power_of_two(n), expected, "for {n}");
        assert_eq!(next_power_of_two(n), n.next_power_of_two(), "for {n}");
    }
}

#[test]
fn next_power_of_two_at_the_limit() {
    let max = max_capacity();
    assert_eq!(max, usize::MAX / 2 + 1);
    assert!(max.is_power_of_two());
    assert_eq!(next_power_of_two(max), max);
    assert_eq!(next_power_of_two(max - 1), max);
    assert_eq!(next_power_of_two(max / 2 + 1), max);
}

#[test]
fn new_buffer_has_no_allocation() {
    let buffer = GeometryBuffer::new();
    assert_eq!(buffer.capacity(), 0);
    assert_eq!(buffer.handle(), None);
}

#[test]
fn zero_requirement_allocates_nothing() {
    let mut buffer = GeometryBuffer::new();
    assert_eq!(buffer.ensure_capacity(0), None);
    assert_eq!(buffer.capacity(), 0);
}

#[test]
fn ensure_capacity_grows_to_next_power_of_two() {
    let mut buffer = GeometryBuffer::new();
    assert_eq!(buffer.ensure_capacity(60), Some(BufferHandle { size: 64 }));
    assert_eq!(buffer.capacity(), 64);
    assert_eq!(buffer.ensure_capacity(65), Some(BufferHandle { size: 128 }));
    assert_eq!(buffer.ensure_capacity(1), Some(BufferHandle { size: 128 }));
    assert_eq!(buffer.capacity(), 128);
}

#[test]
fn ensure_capacity_is_idempotent() {
    let mut buffer = GeometryBuffer::new();
    let first = buffer.ensure_capacity(300);
    assert_eq!(first, Some(BufferHandle { size: 512 }));
    for smaller in [300, 299, 256, 1, 0, 512] {
        assert_eq!(buffer.ensure_capacity(smaller), first);
        assert_eq!(buffer.capacity(), 512);
    }
}

#[test]
fn power_of_two_requirement_is_met_exactly() {
    for shift in 0..20 {
        let required = 1usize << shift;
        let mut buffer = GeometryBuffer::new();
        assert_eq!(buffer.ensure_capacity(required), Some(BufferHandle { size: required }));
        assert_eq!(buffer.capacity(), required);
    }
}

#[test]
fn capacity_never_shrinks() {
    let mut buffer = GeometryBuffer::new();
    let mut last = 0;
    for required in [10, 3, 200, 7, 199, 201, 0, 4096, 5] {
        buffer.ensure_capacity(required);
        assert!(buffer.capacity() >= last);
        assert!(buffer.capacity() >= required);
        last = buffer.capacity();
    }
    assert_eq!(last, 4096);
}

#[test]
fn rect_from_corners_in_any_order() {
    let expected = PixelRect { min_x: 2, min_y: 3, max_x: 10, max_y: 20 };
    assert_eq!(PixelRect::new(2, 3, 10, 20), expected);
    assert_eq!(PixelRect::new(10, 20, 2, 3), expected);
    assert_eq!(PixelRect::new(10, 3, 2, 20), expected);
    assert_eq!(PixelRect::new(2, 20, 10, 3), expected);
}

#[test]
fn target_bounds_start_at_origin() {
    assert_eq!(
        PixelRect::target_bounds(800, 600),
        PixelRect { min_x: 0, min_y: 0, max_x: 800, max_y: 600 }
    );
}

#[test]
fn rect_intersection() {
    let a = PixelRect::new(0, 0, 10, 10);
    let b = PixelRect::new(5, 6, 20, 30);
    assert_eq!(a.intersect(b), PixelRect { min_x: 5, min_y: 6, max_x: 10, max_y: 10 });
    assert_eq!(b.intersect(a), PixelRect { min_x: 5, min_y: 6, max_x: 10, max_y: 10 });
    assert_eq!(a.intersect(a), a);
}

#[test]
fn disjoint_rects_intersect_in_an_empty_rect() {
    let a = PixelRect::new(0, 0, 10, 10);
    for other in [
        PixelRect::new(20, 2, 30, 8),
        PixelRect::new(2, 50, 8, 60),
        PixelRect::new(40, 40, 50, 50),
        PixelRect::new(3, 3, 3, 9),
    ] {
        assert!(a.intersect(other).is_empty(), "{other:?}");
        assert!(other.intersect(a).is_empty(), "{other:?}");
    }
}

#[test]
fn touching_rects_do_not_overlap() {
    let a = PixelRect::new(0, 0, 10, 10);
    let b = PixelRect::new(10, 0, 20, 10);
    assert!(a.intersect(b).is_empty());
}

#[test]
fn rect_emptiness() {
    assert!(!PixelRect::new(0, 0, 1, 1).is_empty());
    assert!(PixelRect::new(0, 0, 0, 1).is_empty());
    assert!(PixelRect::new(0, 0, 1, 0).is_empty());
    assert!(PixelRect::new(4, 4, 4, 4).is_empty());
    assert!(PixelRect { min_x: 5, min_y: 0, max_x: 4, max_y: 9 }.is_empty());
}

#[test]
fn rect_extent() {
    let r = PixelRect::new(3, 4, 10, 24);
    assert_eq!(r.width(), 7);
    assert_eq!(r.height(), 20);
}

#[test]
fn viewport_area() {
    let v = ViewportInPixels { left_px: 0, top_px: 0, from_bottom_px: 0, width_px: 1, height_px: 1 };
    assert!(v.has_area());
    assert!(!ViewportInPixels { width_px: 0, ..v }.has_area());
    assert!(!ViewportInPixels { height_px: 0, ..v }.has_area());
    assert!(!ViewportInPixels { width_px: -3, ..v }.has_area());
    assert!(!ViewportInPixels { height_px: -1, ..v }.has_area());
}
