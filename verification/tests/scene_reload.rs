use watch_stl::mesh::{Face, LoadError, RawMesh, Vertex};
use watch_stl::normalize::{normalize, NormalizeError};
use watch_stl::reload::{apply_load_result, should_reload, ReloadError};
use watch_stl::scene::{Geometry, SceneBinding};
use watch_stl::UNIT;

fn v(x: i64, y: i64, z: i64) -> Vertex {
    Vertex { x, y, z }
}

fn triangle(side: i64) -> RawMesh {
    RawMesh::new(
        vec![v(0, 0, 0), v(side, 0, 0), v(0, side, 0)],
        vec![Face { a: 0, b: 1, c: 2 }],
    )
    .unwrap()
}

/// At startup the scene holds exactly one node: the placeholder.
#[test]
fn scene_starts_with_placeholder() {
    let b = SceneBinding::new();
    assert_eq!(b.nodes, vec![0]);
    assert!(matches!(b.current, Geometry::Placeholder));
}

/// Replacing swaps the one node for one fresh node — at no point does the
/// watched mesh own zero or two nodes.
#[test]
fn replace_swaps_single_node() {
    let mut b = SceneBinding::new();
    let first = normalize(&triangle(2 * UNIT)).unwrap();
    let (removed, added) = b.replace(first);
    assert_eq!((removed, added), (0, 1));
    assert_eq!(b.nodes, vec![1]);

    let second = normalize(&triangle(4 * UNIT)).unwrap();
    let (removed, added) = b.replace(second);
    assert_eq!((removed, added), (1, 2));
    assert_eq!(b.nodes, vec![2]);
    assert!(matches!(b.current, Geometry::Loaded(_)));
}

/// A reload is attempted only on a change signal, and not once reloading
/// has been stopped.
#[test]
fn should_reload_needs_signal_and_no_stop() {
    assert!(should_reload(true, false));
    assert!(!should_reload(false, false));
    assert!(!should_reload(true, true));
    assert!(!should_reload(false, true));
}

/// A successful load swaps the displayed geometry for the normalized mesh.
#[test]
fn reload_replaces_on_success() {
    let mut b = SceneBinding::new();
    let r = apply_load_result(&mut b, Ok(triangle(2 * UNIT)));
    assert_eq!(r, Ok((0, 1)));
    match &b.current {
        Geometry::Loaded(nm) => {
            assert_eq!(nm.vertices[0], v(-UNIT / 2, -UNIT / 2, 0));
        },
        Geometry::Placeholder => panic!("geometry was not replaced"),
    }
}

/// A file of bytes that do not form a mesh: the reload is skipped, the
/// previously displayed geometry stays, and nothing panics.
#[test]
fn malformed_load_keeps_geometry() {
    let mut b = SceneBinding::new();
    apply_load_result(&mut b, Ok(triangle(2 * UNIT))).unwrap();

    let r = apply_load_result(&mut b, Err(LoadError::Malformed));
    assert_eq!(r, Err(ReloadError::Load(LoadError::Malformed)));
    assert_eq!(b.nodes, vec![1]);
    match &b.current {
        Geometry::Loaded(nm) => {
            assert_eq!(nm.vertices[0], v(-UNIT / 2, -UNIT / 2, 0));
        },
        Geometry::Placeholder => panic!("previous geometry was dropped"),
    }
}

/// The empty "unloadable" sentinel skips the reload the same way.
#[test]
fn empty_load_keeps_geometry() {
    let mut b = SceneBinding::new();
    apply_load_result(&mut b, Ok(triangle(2 * UNIT))).unwrap();

    let empty = RawMesh::new(Vec::new(), Vec::new()).unwrap();
    let r = apply_load_result(&mut b, Err(LoadError::Unreadable));
    assert_eq!(r, Err(ReloadError::Load(LoadError::Unreadable)));
    let r = apply_load_result(&mut b, Ok(empty));
    assert_eq!(r, Err(ReloadError::Normalize(NormalizeError::EmptyMesh)));
    assert_eq!(b.nodes, vec![1]);
}

/// A degenerate mesh mid-run is recoverable too.
#[test]
fn degenerate_load_keeps_geometry() {
    let mut b = SceneBinding::new();
    let point = RawMesh::new(vec![v(7, 7, 7), v(7, 7, 7), v(7, 7, 7)], vec![]).unwrap();
    let r = apply_load_result(&mut b, Ok(point));
    assert_eq!(r, Err(ReloadError::Normalize(NormalizeError::DegenerateMesh)));
    assert_eq!(b.nodes, vec![0]);
    assert!(matches!(b.current, Geometry::Placeholder));
}

/// Each skip reason describes itself for the user.
#[test]
fn reload_errors_describe_themselves() {
    assert_eq!(
        ReloadError::Load(LoadError::NotFound).describe(),
        "the mesh file does not exist"
    );
    assert_eq!(
        ReloadError::Normalize(NormalizeError::DegenerateMesh).describe(),
        "all vertices coincide, so the mesh has no size"
    );
}
