use canvas_ui::geometry::{Point, Region};

#[test]
fn contains_is_boundary_inclusive() {
    let r = Region::new(-8000, 5000, -4000, 7000);
    // all four corners are inside
    assert!(r.contains(Point { x: -8000, y: 5000 }));
    assert!(r.contains(Point { x: -4000, y: 7000 }));
    assert!(r.contains(Point { x: -8000, y: 7000 }));
    assert!(r.contains(Point { x: -4000, y: 5000 }));
    // interior
    assert!(r.contains(Point { x: -6000, y: 6000 }));
    // just outside each edge
    assert!(!r.contains(Point { x: -8001, y: 6000 }));
    assert!(!r.contains(Point { x: -3999, y: 6000 }));
    assert!(!r.contains(Point { x: -6000, y: 4999 }));
    assert!(!r.contains(Point { x: -6000, y: 7001 }));
}

#[test]
fn contains_matches_the_four_comparisons() {
    let r = Region::new(-2, -1, 3, 4);
    for x in -4..6 {
        for y in -4..6 {
            let expected = -2 <= x && x <= 3 && -1 <= y && y <= 4;
            assert_eq!(r.contains(Point { x, y }), expected);
        }
    }
}

#[test]
fn degenerate_region_contains_only_its_point() {
    let r = Region::new(7, 7, 7, 7);
    assert!(r.contains(Point { x: 7, y: 7 }));
    assert!(!r.contains(Point { x: 7, y: 8 }));
    assert!(!r.contains(Point { x: 6, y: 7 }));
}

#[test]
fn intersects_shared_edge_and_disjoint() {
    let a = Region::new(0, 0, 10, 10);
    let b = Region::new(10, 10, 20, 20);
    let c = Region::new(11, 0, 20, 9);
    assert!(a.intersects(&b));
    assert!(b.intersects(&a));
    assert!(!a.intersects(&c));
    assert!(!c.intersects(&a));
}
