//! Raw indexed meshes and their axis-aligned bounds.
//!
//! A mesh is an ordered list of vertices and an ordered list of triangular
//! faces, each face a triple of indices into the vertex list.  Coordinates
//! are fixed-point: `UNIT` subdivisions per model unit.

use vstd::prelude::*;

verus! {

use crate::COORD_LIMIT;
use crate::UNIT;
use crate::math::{seq_min, seq_max, max3, lemma_seq_min_is_min, lemma_seq_max_is_max,
    lemma_seq_min_step, lemma_seq_max_step};

/// A point in fixed-point model coordinates.
#[derive(Clone, Copy, PartialEq, Eq, Structural, Debug)]
pub struct Vertex {
    pub x: i64,
    pub y: i64,
    pub z: i64,
}

/// A triangle, as three indices into a vertex list.
#[derive(Clone, Copy, PartialEq, Eq, Structural, Debug)]
pub struct Face {
    pub a: usize,
    pub b: usize,
    pub c: usize,
}

/// Why a mesh could not be loaded.
#[derive(Clone, Copy, PartialEq, Eq, Structural, Debug)]
pub enum LoadError {
    /// The file does not exist.
    NotFound,
    /// The file exists but could not be read.
    Unreadable,
    /// The bytes read do not form a mesh this pipeline can hold: a face
    /// index out of range, or a coordinate beyond `COORD_LIMIT`.
    Malformed,
}

impl LoadError {
    /// A user-facing description of the failure.
    pub fn describe(&self) -> &'static str {
        match self {
            LoadError::NotFound => "the mesh file does not exist",
            LoadError::Unreadable => "the mesh file could not be read",
            LoadError::Malformed => "the file does not hold a readable mesh",
        }
    }
}

/// Every index of `f` addresses one of `n` vertices.
pub open spec fn face_in_range(f: Face, n: int) -> bool {
    f.a < n && f.b < n && f.c < n
}

/// All three coordinates are within the supported range.
pub open spec fn coord_bounded(v: Vertex) -> bool {
    &&& -COORD_LIMIT <= v.x <= COORD_LIMIT
    &&& -COORD_LIMIT <= v.y <= COORD_LIMIT
    &&& -COORD_LIMIT <= v.z <= COORD_LIMIT
}

/// The x coordinates of a vertex sequence.
pub open spec fn xs(s: Seq<Vertex>) -> Seq<int> {
    s.map_values(|v: Vertex| v.x as int)
}

/// The y coordinates of a vertex sequence.
pub open spec fn ys(s: Seq<Vertex>) -> Seq<int> {
    s.map_values(|v: Vertex| v.y as int)
}

/// The z coordinates of a vertex sequence.
pub open spec fn zs(s: Seq<Vertex>) -> Seq<int> {
    s.map_values(|v: Vertex| v.z as int)
}

/// An unprocessed mesh, as decoded from the watched file.
///
/// The empty mesh (no vertices, no faces) is a valid sentinel standing for
/// "unloadable"; it is well formed but cannot be normalized.
pub struct RawMesh {
    pub vertices: Vec<Vertex>,
    pub faces: Vec<Face>,
}

impl RawMesh {
    /// Structural validity: every face index addresses a vertex and every
    /// coordinate is within the supported range.
    pub open spec fn wf(self) -> bool {
        &&& forall|i: int|
            0 <= i < self.faces@.len() ==> face_in_range(
                #[trigger] self.faces@[i],
                self.vertices@.len() as int,
            )
        &&& forall|i: int| 0 <= i < self.vertices@.len() ==> coord_bounded(#[trigger] self.vertices@[i])
    }

    /// Accepts vertex and face lists as a mesh, or rejects them as
    /// malformed.  A read that races with a writer can yield structurally
    /// invalid data; that is a recoverable condition, so it is reported as
    /// a value rather than treated as fatal.
    pub fn new(vertices: Vec<Vertex>, faces: Vec<Face>) -> (r: Result<RawMesh, LoadError>)
        ensures
            ({
                let ok = (forall|i: int|
                    0 <= i < faces@.len() ==> face_in_range(
                        #[trigger] faces@[i],
                        vertices@.len() as int,
                    )) && (forall|i: int|
                    0 <= i < vertices@.len() ==> coord_bounded(#[trigger] vertices@[i]));
                &&& ok ==> (r matches Ok(m) && m.vertices@ == vertices@ && m.faces@ == faces@
                    && m.wf())
                &&& !ok ==> r == Err::<RawMesh, LoadError>(LoadError::Malformed)
            }),
    {
        let n = vertices.len();
        let mut i: usize = 0;
        while i < faces.len()
            invariant
                forall|k: int| 0 <= k < i ==> face_in_range(#[trigger] faces@[k], n as int),
                n == vertices@.len(),
                i <= faces@.len(),
            decreases faces@.len() - i,
        {
            let f = faces[i];
            if f.a >= n || f.b >= n || f.c >= n {
                return Err(LoadError::Malformed);
            }
            i += 1;
        }
        let mut j: usize = 0;
        while j < vertices.len()
            invariant
                forall|k: int| 0 <= k < j ==> coord_bounded(#[trigger] vertices@[k]),
                j <= vertices@.len(),
            decreases vertices@.len() - j,
        {
            let v = vertices[j];
            if v.x < -COORD_LIMIT || v.x > COORD_LIMIT || v.y < -COORD_LIMIT || v.y > COORD_LIMIT
                || v.z < -COORD_LIMIT || v.z > COORD_LIMIT {
                return Err(LoadError::Malformed);
            }
            j += 1;
        }
        Ok(RawMesh { vertices, faces })
    }
}

/// The sentinel displayed-in-place-of-nothing value: a mesh with no
/// vertices and no faces, standing for a file that could not be loaded.
pub fn unloadable_mesh() -> (m: RawMesh)
    ensures
        m.wf(),
        m.vertices@.len() == 0,
        m.faces@.len() == 0,
{
    RawMesh { vertices: Vec::new(), faces: Vec::new() }
}

/// An axis-aligned bounding box: for every vertex `v` of the mesh it was
/// computed from, `lower <= v <= upper` holds component-wise.
#[derive(Clone, Copy, PartialEq, Eq, Structural, Debug)]
pub struct BoundingBox {
    pub lower: Vertex,
    pub upper: Vertex,
}

impl BoundingBox {
    /// The corners are ordered and within the coordinate range.
    pub open spec fn wf(self) -> bool {
        &&& self.lower.x <= self.upper.x
        &&& self.lower.y <= self.upper.y
        &&& self.lower.z <= self.upper.z
        &&& coord_bounded(self.lower)
        &&& coord_bounded(self.upper)
    }

    /// Size of the box along x.
    pub open spec fn extent_x(self) -> int {
        self.upper.x - self.lower.x
    }

    /// Size of the box along y.
    pub open spec fn extent_y(self) -> int {
        self.upper.y - self.lower.y
    }

    /// Size of the box along z.
    pub open spec fn extent_z(self) -> int {
        self.upper.z - self.lower.z
    }

    /// The largest of the three extents.
    pub open spec fn max_extent(self) -> int {
        max3(self.extent_x(), self.extent_y(), self.extent_z())
    }
}

/// Per-axis minima and maxima over all vertices.  The empty mesh has no
/// meaningful bounds, so at least one vertex is required; callers must
/// special-case zero-vertex input.
pub fn get_bounds(mesh: &RawMesh) -> (b: BoundingBox)
    requires
        mesh.wf(),
        mesh.vertices@.len() >= 1,
    ensures
        b.lower.x == seq_min(xs(mesh.vertices@)),
        b.lower.y == seq_min(ys(mesh.vertices@)),
        b.lower.z == seq_min(zs(mesh.vertices@)),
        b.upper.x == seq_max(xs(mesh.vertices@)),
        b.upper.y == seq_max(ys(mesh.vertices@)),
        b.upper.z == seq_max(zs(mesh.vertices@)),
        b.wf(),
{
    let ghost sx = xs(mesh.vertices@);
    let ghost sy = ys(mesh.vertices@);
    let ghost sz = zs(mesh.vertices@);
    let n = mesh.vertices.len();
    let v0 = mesh.vertices[0];
    let mut lx = v0.x;
    let mut ly = v0.y;
    let mut lz = v0.z;
    let mut ux = v0.x;
    let mut uy = v0.y;
    let mut uz = v0.z;
    assert(sx.take(1) =~= seq![sx[0]]);
    assert(sy.take(1) =~= seq![sy[0]]);
    assert(sz.take(1) =~= seq![sz[0]]);
    let mut i: usize = 1;
    while i < n
        invariant
            1 <= i <= n,
            n == mesh.vertices@.len(),
            sx == xs(mesh.vertices@),
            sy == ys(mesh.vertices@),
            sz == zs(mesh.vertices@),
            lx == seq_min(sx.take(i as int)),
            ly == seq_min(sy.take(i as int)),
            lz == seq_min(sz.take(i as int)),
            ux == seq_max(sx.take(i as int)),
            uy == seq_max(sy.take(i as int)),
            uz == seq_max(sz.take(i as int)),
        decreases n - i,
    {
        let v = mesh.vertices[i];
        proof {
            lemma_seq_min_step(sx, i as int);
            lemma_seq_min_step(sy, i as int);
            lemma_seq_min_step(sz, i as int);
            lemma_seq_max_step(sx, i as int);
            lemma_seq_max_step(sy, i as int);
            lemma_seq_max_step(sz, i as int);
        }
        if v.x < lx {
            lx = v.x;
        }
        if v.y < ly {
            ly = v.y;
        }
        if v.z < lz {
            lz = v.z;
        }
        if v.x > ux {
            ux = v.x;
        }
        if v.y > uy {
            uy = v.y;
        }
        if v.z > uz {
            uz = v.z;
        }
        i += 1;
    }
    proof {
        assert(sx.take(n as int) =~= sx);
        assert(sy.take(n as int) =~= sy);
        assert(sz.take(n as int) =~= sz);
        lemma_seq_min_is_min(sx);
        lemma_seq_min_is_min(sy);
        lemma_seq_min_is_min(sz);
        lemma_seq_max_is_max(sx);
        lemma_seq_max_is_max(sy);
        lemma_seq_max_is_max(sz);
    }
    BoundingBox { lower: Vertex { x: lx, y: ly, z: lz }, upper: Vertex { x: ux, y: uy, z: uz } }
}

/// The midpoint of a bounding box, each coordinate rounded down to the
/// nearest fixed-point step when the corner sum is odd.
pub fn get_center(b: &BoundingBox) -> (c: Vertex)
    requires
        b.wf(),
    ensures
        c.x == (b.lower.x + b.upper.x) / 2,
        c.y == (b.lower.y + b.upper.y) / 2,
        c.z == (b.lower.z + b.upper.z) / 2,
        coord_bounded(c),
{
    Vertex {
        x: b.lower.x + (b.upper.x - b.lower.x) / 2,
        y: b.lower.y + (b.upper.y - b.lower.y) / 2,
        z: b.lower.z + (b.upper.z - b.lower.z) / 2,
    }
}

/// The fixed-point reciprocal of the largest box extent: the uniform
/// factor that scales the box's longest side to one model unit.
pub fn get_appropriate_scale(b: &BoundingBox) -> (s: i64)
    requires
        b.wf(),
        b.max_extent() > 0,
    ensures
        s as int == (UNIT * UNIT) / b.max_extent(),
        0 <= s <= UNIT * UNIT,
{
    let ex = b.upper.x - b.lower.x;
    let ey = b.upper.y - b.lower.y;
    let ez = b.upper.z - b.lower.z;
    let e = crate::math::max3_i64(ex, ey, ez);
    proof {
        vstd::arithmetic::div_mod::lemma_div_pos_is_pos(UNIT * UNIT, e as int);
        vstd::arithmetic::div_mod::lemma_div_nonincreasing(UNIT * UNIT, e as int);
    }
    (UNIT * UNIT) / e
}

} // verus!
