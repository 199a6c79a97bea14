use cube3d::angles::Angles;
use cube3d::geometry::{
    axes_equal_count, cube_edges, cube_vertices, is_cube_edge, select_edges, squared_distance,
    Vec3,
};
use cube3d::render::{black, cyan, project, render_frame, Rgb};
use cube3d::rotation::{rotate_vertex, Trig, SCALE, SCALE2};

#[test]
fn cube_has_eight_corners_at_half_extent() {
    let vs = cube_vertices();
    assert_eq!(vs.len(), 8);
    for v in vs.iter() {
        assert_eq!(v.x.abs(), 50);
        assert_eq!(v.y.abs(), 50);
        assert_eq!(v.z.abs(), 50);
    }
    assert_eq!(vs[0], Vec3 { x: -50, y: -50, z: -50 });
    assert_eq!(vs[7], Vec3 { x: 50, y: 50, z: 50 });
}

#[test]
fn axis_agreement_counts() {
    let a = Vec3 { x: 1, y: 2, z: 3 };
    assert_eq!(axes_equal_count(&a, &Vec3 { x: 4, y: 5, z: 6 }), 0);
    assert_eq!(axes_equal_count(&a, &Vec3 { x: 1, y: 5, z: 6 }), 1);
    assert_eq!(axes_equal_count(&a, &Vec3 { x: 1, y: 2, z: 6 }), 2);
    assert_eq!(axes_equal_count(&a, &a), 3);
    assert!(is_cube_edge(&a, &Vec3 { x: 1, y: 2, z: 6 }));
    assert!(!is_cube_edge(&a, &a));
    assert!(!is_cube_edge(&a, &Vec3 { x: 1, y: 5, z: 6 }));
}

#[test]
fn twelve_edges_with_side_lengths() {
    let vs = cube_vertices();
    let edges = cube_edges();
    assert_eq!(edges.len(), 12);
    for &(i, j) in edges.iter() {
        assert!(i < j && j < 8);
        // a true edge spans exactly one side length
        assert_eq!(squared_distance(&vs[i], &vs[j]), 100 * 100);
    }
    // face diagonal and space diagonal stay unselected
    assert!(!edges.contains(&(0, 3)));
    assert!(!edges.contains(&(0, 7)));
    assert_eq!(squared_distance(&vs[0], &vs[3]), 20000);
    assert_eq!(squared_distance(&vs[0], &vs[7]), 30000);
}

#[test]
fn scan_matches_precomputed_edges() {
    let vs = cube_vertices();
    assert_eq!(select_edges(&vs), cube_edges());
}

#[test]
fn scan_on_other_geometries() {
    let empty: Vec<Vec3> = Vec::new();
    assert_eq!(select_edges(&empty).len(), 0);
    let mut two: Vec<Vec3> = Vec::new();
    two.push(Vec3 { x: 0, y: 0, z: 0 });
    two.push(Vec3 { x: 0, y: 0, z: 7 });
    let edges = select_edges(&two);
    assert_eq!(edges.len(), 1);
    assert_eq!(edges[0], (0, 1));
}

#[test]
fn zero_angles_rotate_to_identity() {
    let t = Trig::identity();
    for v in cube_vertices().iter() {
        let r = rotate_vertex(v, &t, &t);
        assert_eq!(r.x, v.x * SCALE2);
        assert_eq!(r.y, v.y * SCALE2);
        assert_eq!(r.z, v.z * SCALE2);
    }
}

#[test]
fn rotation_formula_exact_values() {
    let v = Vec3 { x: 1, y: 2, z: 3 };
    let tx = Trig { sin: 10, cos: 20 };
    let ty = Trig { sin: 30, cos: 40 };
    let r = rotate_vertex(&v, &tx, &ty);
    assert_eq!(r.x, 2_602_400);
    assert_eq!(r.y, 650_000);
    assert_eq!(r.z, -1_946_800);
}

#[test]
fn rotation_preserves_norm_on_exact_trig() {
    // 39000^2 + 52000^2 is exactly SCALE^2: an exactly orthonormal pair
    let t = Trig { sin: 39_000, cos: 52_000 };
    assert_eq!(
        (t.sin as i128) * (t.sin as i128) + (t.cos as i128) * (t.cos as i128),
        SCALE2 as i128
    );
    let v = Vec3 { x: 3, y: 4, z: 5 };
    let r = rotate_vertex(&v, &t, &t);
    let norm_rotated =
        (r.x as i128) * (r.x as i128) + (r.y as i128) * (r.y as i128) + (r.z as i128) * (r.z
            as i128);
    let norm_original: i128 = (3 * 3 + 4 * 4 + 5 * 5) as i128;
    assert_eq!(norm_rotated, norm_original * (SCALE2 as i128) * (SCALE2 as i128));
}

#[test]
fn projection_truncates_toward_zero() {
    let r = Vec3 { x: -(SCALE2 + 1), y: 2 * SCALE2 - 1, z: 123 };
    let p = project(&r, 640, 480);
    assert_eq!(p.0, -1 + 320);
    assert_eq!(p.1, 1 + 240);
    let origin = Vec3 { x: 0, y: 0, z: 0 };
    assert_eq!(project(&origin, 640, 480), (320, 240));
}

#[test]
fn rendering_twice_gives_identical_segments() {
    let tx = Trig::from_scaled(12_345, 54_321);
    let ty = Trig::from_scaled(-23_456, 43_210);
    let f1 = render_frame(&tx, &ty, 640, 480);
    let f2 = render_frame(&tx, &ty, 640, 480);
    assert_eq!(f1.segments, f2.segments);
    assert_eq!(f1, f2);
}

#[test]
fn frame_at_zero_angles_end_to_end() {
    let t = Trig::identity();
    let f = render_frame(&t, &t, 640, 480);
    assert_eq!(f.background, black());
    assert_eq!(f.segments.len(), 12);
    for s in f.segments.iter() {
        for x in [s.x0, s.x1] {
            assert!((270..=370).contains(&x));
        }
        for y in [s.y0, s.y1] {
            assert!((190..=290).contains(&y));
        }
        assert_eq!(s.color, cyan());
        assert_eq!(s.color, Rgb { r: 0, g: 255, b: 255 });
        assert_eq!(s.thickness, 1);
    }
}

#[test]
fn trig_from_scaled_clamps_out_of_range_values() {
    let t = Trig::from_scaled(70_000, -70_000);
    assert_eq!(t.sin, SCALE);
    assert_eq!(t.cos, -SCALE);
    let u = Trig::from_scaled(-1_234, 5_678);
    assert_eq!(u.sin, -1_234);
    assert_eq!(u.cos, 5_678);
}

#[test]
fn angles_accumulate_linearly() {
    let mut a = Angles::start();
    assert_eq!((a.x_centirad, a.y_centirad), (0, 0));
    a.advance();
    assert_eq!((a.x_centirad, a.y_centirad), (1, 3));
    for _ in 0..99 {
        a.advance();
    }
    assert_eq!(a.x_centirad, 100);
    assert_eq!(a.y_centirad, 300);
}
