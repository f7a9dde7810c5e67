use watch_stl::mesh::{get_appropriate_scale, get_bounds, get_center, unloadable_mesh, BoundingBox,
    Face, LoadError, RawMesh, Vertex};
use watch_stl::normalize::{normalize, NormalizeError, MAX_VERTICES};
use watch_stl::{COORD_LIMIT, UNIT};

fn v(x: i64, y: i64, z: i64) -> Vertex {
    Vertex { x, y, z }
}

/// The worked example: a right triangle of side two model units.
#[test]
fn normalize_example_triangle() {
    let vertices = vec![v(0, 0, 0), v(2 * UNIT, 0, 0), v(0, 2 * UNIT, 0)];
    let faces = vec![Face { a: 0, b: 1, c: 2 }];
    let mesh = RawMesh::new(vertices, faces).unwrap();

    let bounds = get_bounds(&mesh);
    assert_eq!(bounds.lower, v(0, 0, 0));
    assert_eq!(bounds.upper, v(2 * UNIT, 2 * UNIT, 0));

    let center = get_center(&bounds);
    assert_eq!(center, v(UNIT, UNIT, 0));

    // scale = 1 / max extent = 1 / 2.0 = 0.5
    let scale = get_appropriate_scale(&bounds);
    assert_eq!(scale, UNIT / 2);

    let normalized = normalize(&mesh).unwrap();
    assert_eq!(
        normalized.vertices,
        vec![
            v(-UNIT / 2, -UNIT / 2, 0),
            v(UNIT / 2, -UNIT / 2, 0),
            v(-UNIT / 2, UNIT / 2, 0),
        ]
    );
    assert_eq!(normalized.faces, vec![Face { a: 0, b: 1, c: 2 }]);
}

/// An asymmetric mesh still ends up spanning exactly one unit on its
/// widest axis and at most one unit on the others.
#[test]
fn normalize_unit_extent() {
    let vertices = vec![
        v(UNIT, 2 * UNIT, 3 * UNIT),
        v(4 * UNIT, 2 * UNIT + 500_000, 3 * UNIT + 100_000),
        v(2 * UNIT, 9 * UNIT, 3 * UNIT + 50_000),
        v(UNIT + 1, 5 * UNIT, 3 * UNIT + 99_999),
    ];
    let mesh = RawMesh::new(vertices, vec![]).unwrap();
    let normalized = normalize(&mesh).unwrap();

    let mut lo = [i64::MAX; 3];
    let mut hi = [i64::MIN; 3];
    for p in &normalized.vertices {
        for (k, c) in [p.x, p.y, p.z].into_iter().enumerate() {
            lo[k] = lo[k].min(c);
            hi[k] = hi[k].max(c);
        }
    }
    let extents = [hi[0] - lo[0], hi[1] - lo[1], hi[2] - lo[2]];
    assert_eq!(*extents.iter().max().unwrap(), UNIT);
    assert!(extents.iter().all(|e| *e <= UNIT));
}

/// A mesh with zero vertices cannot be normalized.
#[test]
fn normalize_empty_mesh_fails() {
    let mesh = RawMesh::new(Vec::new(), Vec::new()).unwrap();
    assert_eq!(normalize(&mesh).err(), Some(NormalizeError::EmptyMesh));

    let sentinel = unloadable_mesh();
    assert!(sentinel.vertices.is_empty());
    assert!(sentinel.faces.is_empty());
    assert_eq!(normalize(&sentinel).err(), Some(NormalizeError::EmptyMesh));
}

/// All vertices on one point: no scale is defined, so the mesh is refused
/// rather than divided by zero.
#[test]
fn normalize_degenerate_mesh_fails() {
    let vertices = vec![v(5, 5, 5), v(5, 5, 5), v(5, 5, 5)];
    let mesh = RawMesh::new(vertices, vec![Face { a: 0, b: 1, c: 2 }]).unwrap();
    assert_eq!(normalize(&mesh).err(), Some(NormalizeError::DegenerateMesh));
}

/// One vertex alone is also degenerate, not empty.
#[test]
fn normalize_single_vertex_is_degenerate() {
    let mesh = RawMesh::new(vec![v(1, 2, 3)], vec![]).unwrap();
    assert_eq!(normalize(&mesh).err(), Some(NormalizeError::DegenerateMesh));
}

/// More vertices than the display's index width can address are rejected
/// with a dedicated error instead of truncated indices.
#[test]
fn normalize_index_width_exceeded() {
    let mut vertices = Vec::with_capacity(MAX_VERTICES + 1);
    for i in 0..(MAX_VERTICES + 1) {
        vertices.push(v(i as i64, 0, 0));
    }
    let mesh = RawMesh::new(vertices, vec![]).unwrap();
    assert_eq!(
        normalize(&mesh).err(),
        Some(NormalizeError::IndexWidthExceeded)
    );
}

/// The largest indexable mesh still normalizes.
#[test]
fn normalize_index_width_boundary() {
    let mut vertices = Vec::with_capacity(MAX_VERTICES);
    for i in 0..MAX_VERTICES {
        vertices.push(v(i as i64, 0, 0));
    }
    let mesh = RawMesh::new(vertices, vec![]).unwrap();
    assert!(normalize(&mesh).is_ok());
}

/// A face referencing a vertex that does not exist is malformed input.
#[test]
fn raw_mesh_rejects_out_of_range_face() {
    let vertices = vec![v(0, 0, 0), v(UNIT, 0, 0), v(0, UNIT, 0)];
    let faces = vec![Face { a: 0, b: 1, c: 3 }];
    assert_eq!(RawMesh::new(vertices, faces).err(), Some(LoadError::Malformed));
}

/// A coordinate beyond the supported range is malformed input.
#[test]
fn raw_mesh_rejects_out_of_range_coordinate() {
    let vertices = vec![v(0, 0, 0), v(COORD_LIMIT + 1, 0, 0)];
    assert_eq!(
        RawMesh::new(vertices, Vec::new()).err(),
        Some(LoadError::Malformed)
    );
}

/// Bounds over negative coordinates, and the midpoint of an odd-sized box
/// rounding down to the nearest fixed-point step.
#[test]
fn bounds_and_center_rounding() {
    let vertices = vec![v(-3, -UNIT, 7), v(2, UNIT, 7), v(0, 0, 7)];
    let mesh = RawMesh::new(vertices, vec![]).unwrap();
    let bounds = get_bounds(&mesh);
    assert_eq!(bounds.lower, v(-3, -UNIT, 7));
    assert_eq!(bounds.upper, v(2, UNIT, 7));

    let center = get_center(&bounds);
    assert_eq!(center, v(-1, 0, 7));

    let tall = BoundingBox { lower: v(0, 0, 0), upper: v(3, 0, 0) };
    assert_eq!(get_center(&tall), v(1, 0, 0));
}

/// The reciprocal scale for a box whose longest side is four model units.
#[test]
fn appropriate_scale_quarter() {
    let b = BoundingBox { lower: v(0, -2 * UNIT, 0), upper: v(UNIT, 2 * UNIT, 0) };
    assert_eq!(get_appropriate_scale(&b), UNIT / 4);
}
