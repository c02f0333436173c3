use chain_reaction::layout::{link_layout, Marker};

#[test]
fn layout_normal_segment() {
    // distance 100, link length 12: floor(100/12) == 8, remainder 1/3,
    // scale == 1/3 / 8 + 1 == 25/24, markers at 1/8 .. 7/8.
    let l = link_layout(100, 12);
    assert!(!l.degenerate);
    assert_eq!(l.count, 8);
    assert_eq!((l.scale_num, l.scale_den), (100, 96)); // == 25/24
    assert_eq!(l.markers.len(), 7);
    for (j, m) in l.markers.iter().enumerate() {
        assert_eq!(*m, Marker { num: j as u64 + 1, den: 8 });
    }
}

#[test]
fn layout_scale_value() {
    // 100/96 as a decimal is about 1.0417.
    let l = link_layout(100, 12);
    let scale = l.scale_num as f64 / l.scale_den as f64;
    assert!((scale - 1.0417).abs() < 0.001);
}

#[test]
fn layout_degenerate_segment() {
    // distance 20, link length 12: floor(20/12) == 1 <= 4, so the count is
    // forced to 6 and every marker takes the fixed shrink scale.
    let l = link_layout(20, 12);
    assert!(l.degenerate);
    assert_eq!(l.count, 6);
    assert_eq!((l.scale_num, l.scale_den), (4, 5));
    assert_eq!(l.markers.len(), 5);
    for (j, m) in l.markers.iter().enumerate() {
        assert_eq!(*m, Marker { num: j as u64 + 1, den: 6 });
    }
}

#[test]
fn layout_degenerate_ignores_exact_distance() {
    // Any distance with a raw count at or below the threshold gives the
    // same forced count and the same fixed scale.
    for dist in [0, 5, 12, 47, 48, 59] {
        let l = link_layout(dist, 12);
        assert!(l.degenerate, "distance {} should be degenerate", dist);
        assert_eq!(l.count, 6);
        assert_eq!((l.scale_num, l.scale_den), (4, 5));
        assert_eq!(l.markers.len(), 5);
    }
}

#[test]
fn layout_threshold_boundary() {
    // raw count 4 (distance 48..59 at link length 12) is degenerate; raw
    // count 5 (distance 60) is not.
    assert!(link_layout(59, 12).degenerate);
    let l = link_layout(60, 12);
    assert!(!l.degenerate);
    assert_eq!(l.count, 5);
    assert_eq!(l.markers.len(), 4);
    // No remainder: the scale is exactly one.
    assert_eq!((l.scale_num, l.scale_den), (60, 60));
}

#[test]
fn layout_deterministic() {
    let a = link_layout(1234, 12);
    let b = link_layout(1234, 12);
    assert_eq!(a.count, b.count);
    assert_eq!(a.degenerate, b.degenerate);
    assert_eq!((a.scale_num, a.scale_den), (b.scale_num, b.scale_den));
    assert_eq!(a.markers, b.markers);
}
