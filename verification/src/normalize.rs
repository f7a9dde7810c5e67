//! Normalizing a raw mesh into presentation-ready geometry.
//!
//! The mesh is recentered and uniformly rescaled so that its largest
//! bounding-box dimension becomes exactly one model unit (`UNIT`
//! fixed-point steps).  Along each axis a vertex coordinate `v` becomes
//!
//! ```text
//! (v - lower) * UNIT / e  -  half
//! ```
//!
//! where `lower` is the axis minimum, `e` the largest of the three box
//! extents, and `half` half the axis's own normalized span; this is the
//! fixed-point form of `(v - center) * scale` with a single rounding.

use vstd::prelude::*;

verus! {

use crate::UNIT;
use crate::COORD_LIMIT;
use crate::math::{seq_min, seq_max, max3, lemma_seq_min_is_min, lemma_seq_max_is_max};
use crate::mesh::{Vertex, Face, RawMesh, BoundingBox, get_bounds, xs, ys, zs, face_in_range};
use vstd::arithmetic::div_mod::{lemma_div_is_ordered, lemma_div_pos_is_pos,
    lemma_div_multiples_vanish, lemma_div_of0};

/// Largest vertex count the renderer's index width can address: face
/// indices are sixteen bits wide on the display side, so a mesh with more
/// vertices than this cannot be indexed and is rejected.
pub const MAX_VERTICES: usize = 65536;

/// Why a mesh could not be normalized.  All of these are recoverable: the
/// caller skips the reload and keeps the previous geometry.
#[derive(Clone, Copy, PartialEq, Eq, Structural, Debug)]
pub enum NormalizeError {
    /// The mesh has no vertices, so it has no meaningful bounds.
    EmptyMesh,
    /// Every vertex is the same point: the bounding box has zero extent on
    /// all axes and no scale is defined.
    DegenerateMesh,
    /// More vertices than the display index width can address.
    IndexWidthExceeded,
}

impl NormalizeError {
    /// A user-facing description of the failure.
    pub fn describe(&self) -> &'static str {
        match self {
            NormalizeError::EmptyMesh => "the mesh has no vertices",
            NormalizeError::DegenerateMesh => "all vertices coincide, so the mesh has no size",
            NormalizeError::IndexWidthExceeded => "the mesh has more vertices than the display can index (65536)",
        }
    }
}

/// A mesh recentered to the origin and rescaled to unit maximum extent,
/// with the topology of the raw mesh it came from.
pub struct NormalizedMesh {
    pub vertices: Vec<Vertex>,
    pub faces: Vec<Face>,
}

impl NormalizedMesh {
    /// Validity: non-empty, indexable by the display's index width, every
    /// face in range, every coordinate within one model unit of the origin.
    pub open spec fn wf(self) -> bool {
        &&& 1 <= self.vertices@.len() <= MAX_VERTICES
        &&& forall|i: int|
            0 <= i < self.faces@.len() ==> face_in_range(
                #[trigger] self.faces@[i],
                self.vertices@.len() as int,
            )
        &&& forall|i: int|
            0 <= i < self.vertices@.len() ==> {
                let v = #[trigger] self.vertices@[i];
                -UNIT <= v.x <= UNIT && -UNIT <= v.y <= UNIT && -UNIT <= v.z <= UNIT
            }
    }
}

/// Size along x of the bounding box of a vertex sequence.
pub open spec fn extent_x(s: Seq<Vertex>) -> int {
    seq_max(xs(s)) - seq_min(xs(s))
}

/// Size along y of the bounding box of a vertex sequence.
pub open spec fn extent_y(s: Seq<Vertex>) -> int {
    seq_max(ys(s)) - seq_min(ys(s))
}

/// Size along z of the bounding box of a vertex sequence.
pub open spec fn extent_z(s: Seq<Vertex>) -> int {
    seq_max(zs(s)) - seq_min(zs(s))
}

/// The largest bounding-box dimension of a vertex sequence.
pub open spec fn max_extent(s: Seq<Vertex>) -> int {
    max3(extent_x(s), extent_y(s), extent_z(s))
}

/// The normalized span along x: the extent scaled by `UNIT / max_extent`.
pub open spec fn span_x(s: Seq<Vertex>) -> int {
    extent_x(s) * (UNIT as int) / max_extent(s)
}

/// The normalized span along y.
pub open spec fn span_y(s: Seq<Vertex>) -> int {
    extent_y(s) * (UNIT as int) / max_extent(s)
}

/// The normalized span along z.
pub open spec fn span_z(s: Seq<Vertex>) -> int {
    extent_z(s) * (UNIT as int) / max_extent(s)
}

/// Normalized x coordinate of vertex `i`.
pub open spec fn norm_x(s: Seq<Vertex>, i: int) -> int {
    (s[i].x - seq_min(xs(s))) * (UNIT as int) / max_extent(s) - span_x(s) / 2
}

/// Normalized y coordinate of vertex `i`.
pub open spec fn norm_y(s: Seq<Vertex>, i: int) -> int {
    (s[i].y - seq_min(ys(s))) * (UNIT as int) / max_extent(s) - span_y(s) / 2
}

/// Normalized z coordinate of vertex `i`.
pub open spec fn norm_z(s: Seq<Vertex>, i: int) -> int {
    (s[i].z - seq_min(zs(s))) * (UNIT as int) / max_extent(s) - span_z(s) / 2
}

/// Recenter and rescale a raw mesh so that its largest bounding-box
/// dimension is exactly one model unit; topology passes through unchanged.
///
/// Exactly one of four outcomes holds, decided in this order: a mesh with
/// no vertices is `EmptyMesh`; one with more vertices than the display can
/// index is `IndexWidthExceeded`; one whose bounding box has zero extent on
/// every axis is `DegenerateMesh`; otherwise the normalized mesh is
/// returned, its vertices given by `norm_x`/`norm_y`/`norm_z`.
pub fn normalize(raw: &RawMesh) -> (r: Result<NormalizedMesh, NormalizeError>)
    requires
        raw.wf(),
    ensures
        raw.vertices@.len() == 0 ==> r == Err::<NormalizedMesh, NormalizeError>(
            NormalizeError::EmptyMesh,
        ),
        raw.vertices@.len() > MAX_VERTICES ==> r == Err::<NormalizedMesh, NormalizeError>(
            NormalizeError::IndexWidthExceeded,
        ),
        1 <= raw.vertices@.len() <= MAX_VERTICES && max_extent(raw.vertices@) == 0 ==> r == Err::<
            NormalizedMesh,
            NormalizeError,
        >(NormalizeError::DegenerateMesh),
        1 <= raw.vertices@.len() <= MAX_VERTICES && max_extent(raw.vertices@) > 0 ==> (r matches Ok(
            nm,
        ) && {
            &&& nm.faces@ == raw.faces@
            &&& nm.vertices@.len() == raw.vertices@.len()
            &&& forall|i: int|
                0 <= i < raw.vertices@.len() ==> {
                    let v = #[trigger] nm.vertices@[i];
                    v.x as int == norm_x(raw.vertices@, i) && v.y as int == norm_y(
                        raw.vertices@,
                        i,
                    ) && v.z as int == norm_z(raw.vertices@, i)
                }
            &&& nm.wf()
        }),
{
    let ghost s = raw.vertices@;
    let n = raw.vertices.len();
    if n == 0 {
        return Err(NormalizeError::EmptyMesh);
    }
    if n > MAX_VERTICES {
        return Err(NormalizeError::IndexWidthExceeded);
    }
    let b = get_bounds(raw);
    let ex = b.upper.x - b.lower.x;
    let ey = b.upper.y - b.lower.y;
    let ez = b.upper.z - b.lower.z;
    let e = crate::math::max3_i64(ex, ey, ez);
    if e == 0 {
        return Err(NormalizeError::DegenerateMesh);
    }
    assert(e as int == max_extent(s));
    proof {
        lemma_div_pos_is_pos(ex as int * UNIT as int, e as int);
        lemma_div_pos_is_pos(ey as int * UNIT as int, e as int);
        lemma_div_pos_is_pos(ez as int * UNIT as int, e as int);
        lemma_div_is_ordered(ex as int * UNIT as int, e as int * UNIT as int, e as int);
        lemma_div_is_ordered(ey as int * UNIT as int, e as int * UNIT as int, e as int);
        lemma_div_is_ordered(ez as int * UNIT as int, e as int * UNIT as int, e as int);
        lemma_div_multiples_vanish(UNIT as int, e as int);
    }
    let half_x = ((ex * UNIT) / e) / 2;
    let half_y = ((ey * UNIT) / e) / 2;
    let half_z = ((ez * UNIT) / e) / 2;
    assert(half_x == span_x(s) / 2 && 0 <= half_x <= UNIT / 2);
    assert(half_y == span_y(s) / 2 && 0 <= half_y <= UNIT / 2);
    assert(half_z == span_z(s) / 2 && 0 <= half_z <= UNIT / 2);
    proof {
        lemma_seq_min_is_min(xs(s));
        lemma_seq_min_is_min(ys(s));
        lemma_seq_min_is_min(zs(s));
        lemma_seq_max_is_max(xs(s));
        lemma_seq_max_is_max(ys(s));
        lemma_seq_max_is_max(zs(s));
    }
    let mut vertices: Vec<Vertex> = Vec::new();
    let mut i: usize = 0;
    while i < n
        invariant
            0 <= i <= n,
            n == s.len(),
            s == raw.vertices@,
            raw.wf(),
            b.lower.x == seq_min(xs(s)) && b.upper.x == seq_max(xs(s)),
            b.lower.y == seq_min(ys(s)) && b.upper.y == seq_max(ys(s)),
            b.lower.z == seq_min(zs(s)) && b.upper.z == seq_max(zs(s)),
            b.wf(),
            e as int == max_extent(s),
            e > 0,
            half_x == span_x(s) / 2 && 0 <= half_x <= UNIT / 2,
            half_y == span_y(s) / 2 && 0 <= half_y <= UNIT / 2,
            half_z == span_z(s) / 2 && 0 <= half_z <= UNIT / 2,
            vertices@.len() == i,
            forall|k: int|
                0 <= k < i ==> {
                    let v = #[trigger] vertices@[k];
                    v.x as int == norm_x(s, k) && v.y as int == norm_y(s, k) && v.z as int
                        == norm_z(s, k)
                },
            forall|k: int|
                0 <= k < i ==> {
                    let v = #[trigger] vertices@[k];
                    -UNIT <= v.x <= UNIT && -UNIT <= v.y <= UNIT && -UNIT <= v.z <= UNIT
                },
        decreases n - i,
    {
        let v = raw.vertices[i];
        proof {
            lemma_seq_min_is_min(xs(s));
            lemma_seq_min_is_min(ys(s));
            lemma_seq_min_is_min(zs(s));
            lemma_seq_max_is_max(xs(s));
            lemma_seq_max_is_max(ys(s));
            lemma_seq_max_is_max(zs(s));
            assert(xs(s)[i as int] == v.x as int);
            assert(ys(s)[i as int] == v.y as int);
            assert(zs(s)[i as int] == v.z as int);
            lemma_div_pos_is_pos((v.x - b.lower.x) as int * UNIT as int, e as int);
            lemma_div_pos_is_pos((v.y - b.lower.y) as int * UNIT as int, e as int);
            lemma_div_pos_is_pos((v.z - b.lower.z) as int * UNIT as int, e as int);
            lemma_div_is_ordered(
                (v.x - b.lower.x) as int * UNIT as int,
                e as int * UNIT as int,
                e as int,
            );
            lemma_div_is_ordered(
                (v.y - b.lower.y) as int * UNIT as int,
                e as int * UNIT as int,
                e as int,
            );
            lemma_div_is_ordered(
                (v.z - b.lower.z) as int * UNIT as int,
                e as int * UNIT as int,
                e as int,
            );
            lemma_div_multiples_vanish(UNIT as int, e as int);
        }
        let nx = ((v.x - b.lower.x) * UNIT) / e - half_x;
        let ny = ((v.y - b.lower.y) * UNIT) / e - half_y;
        let nz = ((v.z - b.lower.z) * UNIT) / e - half_z;
        vertices.push(Vertex { x: nx, y: ny, z: nz });
        i += 1;
    }
    let mut faces: Vec<Face> = Vec::new();
    let mut j: usize = 0;
    while j < raw.faces.len()
        invariant
            0 <= j <= raw.faces@.len(),
            faces@ == raw.faces@.take(j as int),
        decreases raw.faces@.len() - j,
    {
        faces.push(raw.faces[j]);
        proof {
            assert(faces@ =~= raw.faces@.take(j + 1));
        }
        j += 1;
    }
    proof {
        assert(faces@ =~= raw.faces@);
    }
    Ok(NormalizedMesh { vertices, faces })
}

/// The normalized span of each axis, related to its extent: the widest
/// axis (or axes) keeps exactly one model unit, the others at most one.
proof fn lemma_axis_span(u: Seq<int>, w: Seq<int>, e: int, h: int)
    requires
        u.len() >= 1,
        w.len() == u.len(),
        e > 0,
        seq_max(u) - seq_min(u) <= e,
        forall|i: int|
            0 <= i < u.len() ==> #[trigger] w[i] == (u[i] - seq_min(u)) * (UNIT as int) / e - h,
    ensures
        seq_max(w) - seq_min(w) == (seq_max(u) - seq_min(u)) * (UNIT as int) / e,
        seq_max(w) - seq_min(w) <= UNIT as int,
        seq_max(u) - seq_min(u) == e ==> seq_max(w) - seq_min(w) == UNIT as int,
{
    let lo = seq_min(u);
    let hi = seq_max(u);
    let a = hi - lo;
    lemma_seq_min_is_min(u);
    lemma_seq_max_is_max(u);
    assert forall|i: int| 0 <= i < w.len() implies -h <= #[trigger] w[i] <= a * (UNIT as int) / e
        - h by {
        lemma_div_pos_is_pos((u[i] - lo) * (UNIT as int), e);
        lemma_div_is_ordered((u[i] - lo) * (UNIT as int), a * (UNIT as int), e);
    }
    let jmin = choose|j: int| 0 <= j < u.len() && u[j] == lo;
    let jmax = choose|j: int| 0 <= j < u.len() && u[j] == hi;
    lemma_div_of0(e);
    assert(w[jmin] == -h);
    assert(w[jmax] == a * (UNIT as int) / e - h);
    lemma_seq_min_is_min(w);
    lemma_seq_max_is_max(w);
    assert(seq_min(w) == -h);
    assert(seq_max(w) == a * (UNIT as int) / e - h);
    lemma_div_is_ordered(a * (UNIT as int), e * (UNIT as int), e);
    lemma_div_multiples_vanish(UNIT as int, e);
}

/// For every non-empty mesh whose bounding box has positive extent, the
/// normalized vertices span exactly one model unit along the widest axis
/// and at most one model unit along each of the others.
pub proof fn lemma_normalized_unit_extent(s: Seq<Vertex>, t: Seq<Vertex>)
    requires
        s.len() >= 1,
        t.len() == s.len(),
        max_extent(s) > 0,
        forall|i: int|
            0 <= i < s.len() ==> {
                let v = #[trigger] t[i];
                v.x as int == norm_x(s, i) && v.y as int == norm_y(s, i) && v.z as int == norm_z(
                    s,
                    i,
                )
            },
    ensures
        extent_x(t) <= UNIT as int,
        extent_y(t) <= UNIT as int,
        extent_z(t) <= UNIT as int,
        max_extent(t) == UNIT as int,
{
    let e = max_extent(s);
    assert forall|i: int| 0 <= i < s.len() implies #[trigger] xs(t)[i] == (xs(s)[i] - seq_min(
        xs(s),
    )) * (UNIT as int) / e - span_x(s) / 2 by {
        assert(xs(t)[i] == t[i].x as int);
        assert(xs(s)[i] == s[i].x as int);
    }
    assert forall|i: int| 0 <= i < s.len() implies #[trigger] ys(t)[i] == (ys(s)[i] - seq_min(
        ys(s),
    )) * (UNIT as int) / e - span_y(s) / 2 by {
        assert(ys(t)[i] == t[i].y as int);
        assert(ys(s)[i] == s[i].y as int);
    }
    assert forall|i: int| 0 <= i < s.len() implies #[trigger] zs(t)[i] == (zs(s)[i] - seq_min(
        zs(s),
    )) * (UNIT as int) / e - span_z(s) / 2 by {
        assert(zs(t)[i] == t[i].z as int);
        assert(zs(s)[i] == s[i].z as int);
    }
    lemma_axis_span(xs(s), xs(t), e, span_x(s) / 2);
    lemma_axis_span(ys(s), ys(t), e, span_y(s) / 2);
    lemma_axis_span(zs(s), zs(t), e, span_z(s) / 2);
}

} // verus!
