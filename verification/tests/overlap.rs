use range2d::{Range, Range2D, Range2DImpl, RangeImpl};

#[test]
fn disjoint_ranges_do_not_overlap() {
    let a: Range<u32> = RangeImpl::new(0, 5);
    let b: Range<u32> = RangeImpl::new(6, 10);
    assert!(!a.is_overlap(&b));
    assert!(!b.is_overlap(&a));
}

#[test]
fn touching_boundary_overlaps() {
    let a: Range<u32> = RangeImpl::new(0, 5);
    let b: Range<u32> = RangeImpl::new(5, 10);
    assert!(a.is_overlap(&b));
    assert!(b.is_overlap(&a));
}

#[test]
fn containment_overlaps() {
    let a: Range<u32> = RangeImpl::new(0, 10);
    let b: Range<u32> = RangeImpl::new(3, 4);
    assert!(a.is_overlap(&b));
    assert!(b.is_overlap(&a));
}

#[test]
fn overlap_is_symmetric() {
    let pairs: Vec<(i64, i64, i64, i64)> = vec![
        (0, 5, 6, 10),
        (0, 5, 5, 10),
        (0, 10, 3, 4),
        (-7, -2, -3, 9),
        (3, 1, 0, 2),
        (5, 0, 2, 3),
    ];
    for (al, ah, bl, bh) in pairs {
        let a: Range<i64> = RangeImpl::new(al, ah);
        let b: Range<i64> = RangeImpl::new(bl, bh);
        assert_eq!(a.is_overlap(&b), b.is_overlap(&a));
    }
}

#[test]
fn overlap_is_reflexive_for_ordered_bounds() {
    let a: Range<i32> = RangeImpl::new(-3, 8);
    assert!(a.is_overlap(&a));
    let b: Range<u8> = RangeImpl::new(7, 7);
    assert!(b.is_overlap(&b));
}

#[test]
fn is_contain_tests_the_closed_interval() {
    let a: Range<i32> = RangeImpl::new(-2, 4);
    assert!(a.is_contain(-2));
    assert!(a.is_contain(0));
    assert!(a.is_contain(4));
    assert!(!a.is_contain(-3));
    assert!(!a.is_contain(5));
}

#[test]
fn is_range_lap_agrees_with_is_overlap() {
    let cases: Vec<(u16, u16, u16, u16)> = vec![
        (0, 5, 6, 10),
        (0, 5, 5, 10),
        (0, 10, 3, 4),
        (3, 4, 0, 10),
        (8, 9, 0, 3),
    ];
    for (al, ah, bl, bh) in cases {
        let a: Range<u16> = RangeImpl::new(al, ah);
        let b: Range<u16> = RangeImpl::new(bl, bh);
        assert_eq!(a.is_range_lap(b), a.is_overlap(&b));
    }
}

#[test]
fn rectangles_disjoint_on_one_axis_do_not_overlap() {
    let a: Range2D<i32> = Range2DImpl::new(0, 0, 10, 10);
    let b: Range2D<i32> = Range2DImpl::new(5, 20, 10, 10);
    assert!(!a.is_overlap(&b));
    assert!(!b.is_overlap(&a));
}

#[test]
fn rectangles_overlapping_on_both_axes_overlap() {
    let a: Range2D<i32> = Range2DImpl::new(0, 0, 10, 10);
    let b: Range2D<i32> = Range2DImpl::new(5, 5, 10, 10);
    assert!(a.is_overlap(&b));
    assert!(b.is_overlap(&a));
}

#[test]
fn rectangle_overlap_is_symmetric() {
    let quads: Vec<(i16, i16, i16, i16)> = vec![(0, 0, 10, 10), (5, 20, 10, 10), (5, 5, 10, 10), (-4, -4, 2, 2)];
    for &(ax, ay, aw, ah) in &quads {
        for &(bx, by, bw, bh) in &quads {
            let a: Range2D<i16> = Range2DImpl::new(ax, ay, aw, ah);
            let b: Range2D<i16> = Range2DImpl::new(bx, by, bw, bh);
            assert_eq!(a.is_overlap(&b), b.is_overlap(&a));
        }
    }
}

#[test]
fn rectangle_overlap_is_reflexive_for_ordered_bounds() {
    let a: Range2D<u64> = Range2DImpl::new(1, 2, 3, 4);
    assert!(a.is_overlap(&a));
}
