use render_harness::geom::{quad_covers, quad_indices, quad_vertices, Vertex};

#[test]
fn quad_vertices_are_the_four_corners() {
    let v = quad_vertices();
    assert_eq!(v.len(), 4);
    assert_eq!(v[0], Vertex { x: -1, y: -1 });
    assert_eq!(v[1], Vertex { x: -1, y: 1 });
    assert_eq!(v[2], Vertex { x: 1, y: -1 });
    assert_eq!(v[3], Vertex { x: 1, y: 1 });
}

#[test]
fn quad_indices_form_two_triangles() {
    assert_eq!(quad_indices(), vec![0, 2, 3, 0, 3, 1]);
}

#[test]
fn quad_covers_the_whole_clip_square() {
    // Sample the square at denominator 4: every grid point is covered.
    let d = 4;
    for px in -d..=d {
        for py in -d..=d {
            assert!(quad_covers(d, px, py));
        }
    }
}

#[test]
fn quad_does_not_spill_outside_the_square() {
    let d = 4;
    assert!(!quad_covers(d, 5, 0));
    assert!(!quad_covers(d, 0, -5));
    assert!(!quad_covers(d, -5, 5));
    assert!(!quad_covers(d, 5, 5));
}

#[test]
fn quad_covers_corners_and_center() {
    assert!(quad_covers(1, 0, 0));
    assert!(quad_covers(1, -1, -1));
    assert!(quad_covers(1, 1, 1));
    assert!(quad_covers(1, -1, 1));
    assert!(quad_covers(1, 1, -1));
}
