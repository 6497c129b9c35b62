use vstd::prelude::*;

verus! {

/// A position or normal. Each coordinate is the bit pattern of an IEEE-754
/// single-precision number, as stored in a mesh file.
#[derive(Clone, Copy, Debug, PartialEq, Eq, Structural)]
pub struct Vertex {
    pub x: u32,
    pub y: u32,
    pub z: u32,
}

/// Coordinate `axis` (0, 1 or 2 for x, y, z) of `v`.
pub open spec fn coord(v: Vertex, axis: int) -> u32 {
    if axis == 0 {
        v.x
    } else if axis == 1 {
        v.y
    } else {
        v.z
    }
}

/// Rank of a single-precision bit pattern in the order of the numbers: positive
/// patterns ascend with their bits, negative ones descend with theirs, and the
/// two zeros share one rank. (NaN patterns rank below minus infinity or above
/// plus infinity.)
pub open spec fn float_key(bits: u32) -> u32 {
    if bits == 0x8000_0000 {
        0x8000_0000
    } else if bits > 0x8000_0000 {
        (0xffff_ffff - bits) as u32
    } else {
        (bits + 0x8000_0000) as u32
    }
}

/// The rank of `bits` among single-precision numbers.
pub fn order_key(bits: u32) -> (r: u32)
    ensures
        r == float_key(bits),
{
    if bits == 0x8000_0000 {
        0x8000_0000
    } else if bits > 0x8000_0000 {
        0xffff_ffff - bits
    } else {
        bits + 0x8000_0000
    }
}

/// The corners of an axis-aligned box, coordinates as bit patterns.
#[derive(Clone, Copy, Debug, PartialEq, Eq, Structural)]
pub struct BoundingBox {
    pub min: Vertex,
    pub max: Vertex,
}

/// `b` is the bounding box of `vs` along `axis`: its two coordinates are
/// coordinates of vertices, and no vertex lies outside them.
pub open spec fn spans_axis(vs: Seq<Vertex>, b: BoundingBox, axis: int) -> bool {
    &&& forall|i: int|
        0 <= i < vs.len() ==> float_key(coord(b.min, axis)) <= #[trigger] float_key(coord(vs[i], axis))
            <= float_key(coord(b.max, axis))
    &&& exists|i: int| 0 <= i < vs.len() && coord(vs[i], axis) == coord(b.min, axis)
    &&& exists|i: int| 0 <= i < vs.len() && coord(vs[i], axis) == coord(b.max, axis)
}

/// `b` is the bounding box of `vs` on all three axes.
pub open spec fn is_bounds_of(vs: Seq<Vertex>, b: BoundingBox) -> bool {
    &&& spans_axis(vs, b, 0)
    &&& spans_axis(vs, b, 1)
    &&& spans_axis(vs, b, 2)
}

/// How a bounding box is scaled into the canonical cube.
#[derive(Clone, Copy, Debug, PartialEq, Eq, Structural)]
pub enum ScaleRule {
    /// Every extent is zero (a single point): the scale is 1, no division.
    Unit,
    /// Some extent is nonzero: divide by the longest extent, which is positive.
    FitLongest,
}

/// The box is a single point: on each axis its two corners are equal numbers.
pub open spec fn is_point(b: BoundingBox) -> bool {
    &&& float_key(b.min.x) == float_key(b.max.x)
    &&& float_key(b.min.y) == float_key(b.max.y)
    &&& float_key(b.min.z) == float_key(b.max.z)
}

pub open spec fn rule_for(b: BoundingBox) -> ScaleRule {
    if is_point(b) {
        ScaleRule::Unit
    } else {
        ScaleRule::FitLongest
    }
}

impl BoundingBox {
    /// Picks the scaling of this box: scale 1 for a point, else fit the longest
    /// extent.
    pub fn scale_rule(&self) -> (r: ScaleRule)
        ensures
            r == rule_for(*self),
    {
        if order_key(self.min.x) == order_key(self.max.x) && order_key(self.min.y) == order_key(
            self.max.y,
        ) && order_key(self.min.z) == order_key(self.max.z) {
            ScaleRule::Unit
        } else {
            ScaleRule::FitLongest
        }
    }
}

/// Why vertex data cannot make a mesh.
#[derive(Clone, Copy, Debug, PartialEq, Eq, Structural)]
pub enum MeshError {
    /// There are no vertices.
    Empty,
    /// The number of vertices is not a multiple of three.
    PartialTriangle,
    /// The number of normals differs from the number of vertices.
    NormalCountMismatch,
    /// A triangle names a corner that is not in the position list.
    CornerOutOfRange,
}

/// A triangle of an indexed mesh: its facet normal and the indices of its three
/// corners in a shared position list.
#[derive(Clone, Copy, Debug, PartialEq, Eq, Structural)]
pub struct Face {
    pub normal: Vertex,
    pub a: usize,
    pub b: usize,
    pub c: usize,
}

/// Corner `j` (0, 1 or 2) of `f`.
pub open spec fn corner(f: Face, j: int) -> usize {
    if j == 0 {
        f.a
    } else if j == 1 {
        f.b
    } else {
        f.c
    }
}

/// Every corner of every face indexes `positions`.
pub open spec fn corners_in_range(positions: Seq<Vertex>, faces: Seq<Face>) -> bool {
    forall|k: int| 0 <= k < faces.len() ==> {
        &&& #[trigger] faces[k].a < positions.len()
        &&& faces[k].b < positions.len()
        &&& faces[k].c < positions.len()
    }
}

/// The vertices of the triangle soup of an indexed mesh: the three corners of
/// each face in turn.
pub open spec fn soup_vertices(positions: Seq<Vertex>, faces: Seq<Face>) -> Seq<Vertex> {
    Seq::new(3 * faces.len(), |i: int| positions[corner(faces[i / 3], i % 3) as int])
}

/// The normals of the triangle soup: each face's normal, once per corner.
pub open spec fn soup_normals(faces: Seq<Face>) -> Seq<Vertex> {
    Seq::new(3 * faces.len(), |i: int| faces[i / 3].normal)
}

/// A triangle soup: every three consecutive vertices form a triangle, and
/// normal `i` belongs to vertex `i`.
pub struct Mesh {
    vertices: Vec<Vertex>,
    normals: Vec<Vertex>,
}

fn coord_of(v: &Vertex, axis: usize) -> (r: u32)
    requires
        axis < 3,
    ensures
        r == coord(*v, axis as int),
{
    if axis == 0 {
        v.x
    } else if axis == 1 {
        v.y
    } else {
        v.z
    }
}

/// The least and greatest coordinate along `axis`, in the order of the numbers.
fn axis_extremes(vs: &Vec<Vertex>, axis: usize) -> (r: (u32, u32))
    requires
        vs@.len() > 0,
        axis < 3,
    ensures
        forall|i: int|
            0 <= i < vs@.len() ==> float_key(r.0) <= #[trigger] float_key(coord(vs@[i], axis as int))
                <= float_key(r.1),
        exists|i: int| 0 <= i < vs@.len() && coord(vs@[i], axis as int) == r.0,
        exists|i: int| 0 <= i < vs@.len() && coord(vs@[i], axis as int) == r.1,
{
    let mut lo: u32 = coord_of(&vs[0], axis);
    let mut hi: u32 = lo;
    let mut lo_key: u32 = order_key(lo);
    let mut hi_key: u32 = lo_key;
    let ghost mut lo_at: int = 0;
    let ghost mut hi_at: int = 0;
    let mut i: usize = 1;
    while i < vs.len()
        invariant
            1 <= i <= vs@.len(),
            axis < 3,
            lo_key == float_key(lo),
            hi_key == float_key(hi),
            0 <= lo_at < i,
            0 <= hi_at < i,
            coord(vs@[lo_at], axis as int) == lo,
            coord(vs@[hi_at], axis as int) == hi,
            forall|k: int|
                0 <= k < i ==> lo_key <= #[trigger] float_key(coord(vs@[k], axis as int)) <= hi_key,
        decreases vs@.len() - i,
    {
        let c = coord_of(&vs[i], axis);
        let k = order_key(c);
        if k < lo_key {
            lo = c;
            lo_key = k;
            proof {
                lo_at = i as int;
            }
        }
        if k > hi_key {
            hi = c;
            hi_key = k;
            proof {
                hi_at = i as int;
            }
        }
        i = i + 1;
    }
    (lo, hi)
}

impl Mesh {
    pub closed spec fn vertex_seq(&self) -> Seq<Vertex> {
        self.vertices@
    }

    pub closed spec fn normal_seq(&self) -> Seq<Vertex> {
        self.normals@
    }

    /// A mesh has vertices, three per triangle, and as many normals as vertices.
    pub open spec fn wf(&self) -> bool {
        &&& self.vertex_seq().len() > 0
        &&& self.vertex_seq().len() % 3 == 0
        &&& self.normal_seq().len() == self.vertex_seq().len()
    }

    /// Builds a mesh from positions and their normals.
    pub fn new(vertices: Vec<Vertex>, normals: Vec<Vertex>) -> (r: Result<Mesh, MeshError>)
        ensures
            vertices@.len() == 0 ==> r == Err::<Mesh, MeshError>(MeshError::Empty),
            vertices@.len() > 0 && vertices@.len() % 3 != 0 ==> r == Err::<Mesh, MeshError>(
                MeshError::PartialTriangle,
            ),
            vertices@.len() > 0 && vertices@.len() % 3 == 0 && normals@.len() != vertices@.len() ==> r
                == Err::<Mesh, MeshError>(MeshError::NormalCountMismatch),
            vertices@.len() > 0 && vertices@.len() % 3 == 0 && normals@.len() == vertices@.len() ==> {
                &&& r is Ok
                &&& r->Ok_0.wf()
                &&& r->Ok_0.vertex_seq() == vertices@
                &&& r->Ok_0.normal_seq() == normals@
            },
    {
        if vertices.len() == 0 {
            Err(MeshError::Empty)
        } else if vertices.len() % 3 != 0 {
            Err(MeshError::PartialTriangle)
        } else if normals.len() != vertices.len() {
            Err(MeshError::NormalCountMismatch)
        } else {
            Ok(Mesh { vertices, normals })
        }
    }

    /// Unfolds an indexed mesh into a triangle soup, each face's corners
    /// stored in turn with the face's normal beside each.
    pub fn from_indexed(positions: &Vec<Vertex>, faces: &Vec<Face>) -> (r: Result<Mesh, MeshError>)
        ensures
            faces@.len() == 0 ==> r == Err::<Mesh, MeshError>(MeshError::Empty),
            faces@.len() > 0 && !corners_in_range(positions@, faces@) ==> r == Err::<Mesh, MeshError>(
                MeshError::CornerOutOfRange,
            ),
            faces@.len() > 0 && corners_in_range(positions@, faces@) ==> {
                &&& r is Ok
                &&& r->Ok_0.wf()
                &&& r->Ok_0.vertex_seq() == soup_vertices(positions@, faces@)
                &&& r->Ok_0.normal_seq() == soup_normals(faces@)
            },
    {
        if faces.len() == 0 {
            return Err(MeshError::Empty);
        }
        let n = positions.len();
        let mut vertices: Vec<Vertex> = Vec::new();
        let mut normals: Vec<Vertex> = Vec::new();
        let mut k: usize = 0;
        while k < faces.len()
            invariant
                k <= faces@.len(),
                n == positions@.len(),
                corners_in_range(positions@, faces@.subrange(0, k as int)),
                vertices@ =~= soup_vertices(positions@, faces@.subrange(0, k as int)),
                normals@ =~= soup_normals(faces@.subrange(0, k as int)),
            decreases faces@.len() - k,
        {
            let f = faces[k];
            if f.a >= n || f.b >= n || f.c >= n {
                assert(!(#[trigger] faces@[k as int].a < positions@.len() && faces@[k as int].b
                    < positions@.len() && faces@[k as int].c < positions@.len()));
                return Err(MeshError::CornerOutOfRange);
            }
            let ghost done = faces@.subrange(0, k as int);
            let ghost next = faces@.subrange(0, k + 1);
            vertices.push(positions[f.a]);
            vertices.push(positions[f.b]);
            vertices.push(positions[f.c]);
            normals.push(f.normal);
            normals.push(f.normal);
            normals.push(f.normal);
            proof {
                assert(next =~= done.push(f));
                assert forall|i: int| 0 <= i < 3 * next.len() implies #[trigger] vertices@[i]
                    == positions@[corner(next[i / 3], i % 3) as int] && normals@[i] == next[i / 3].normal by {
                    if i < 3 * done.len() {
                        assert(next[i / 3] == done[i / 3]);
                    }
                }
                assert(vertices@ =~= soup_vertices(positions@, next));
                assert(normals@ =~= soup_normals(next));
            }
            k = k + 1;
        }
        assert(faces@.subrange(0, k as int) =~= faces@);
        let r = Mesh { vertices, normals };
        Ok(r)
    }

    pub fn vertices(&self) -> (r: &Vec<Vertex>)
        ensures
            r@ == self.vertex_seq(),
    {
        &self.vertices
    }

    pub fn normals(&self) -> (r: &Vec<Vertex>)
        ensures
            r@ == self.normal_seq(),
    {
        &self.normals
    }

    /// The axis-aligned box around all vertices.
    pub fn bounds(&self) -> (r: BoundingBox)
        requires
            self.wf(),
        ensures
            is_bounds_of(self.vertex_seq(), r),
    {
        let (x0, x1) = axis_extremes(&self.vertices, 0);
        let (y0, y1) = axis_extremes(&self.vertices, 1);
        let (z0, z1) = axis_extremes(&self.vertices, 2);
        BoundingBox { min: Vertex { x: x0, y: y0, z: z0 }, max: Vertex { x: x1, y: y1, z: z1 } }
    }
}

/// All vertices of `vs` have equal coordinates along `axis`, as numbers.
pub open spec fn flat_along(vs: Seq<Vertex>, axis: int) -> bool {
    forall|i: int, j: int|
        0 <= i < vs.len() && 0 <= j < vs.len() ==> float_key(#[trigger] coord(vs[i], axis)) == float_key(
            #[trigger] coord(vs[j], axis),
        )
}

proof fn lemma_axis_point_iff_flat(vs: Seq<Vertex>, b: BoundingBox, axis: int)
    requires
        spans_axis(vs, b, axis),
    ensures
        (float_key(coord(b.min, axis)) == float_key(coord(b.max, axis))) <==> flat_along(vs, axis),
{
    let i0 = choose|i: int| 0 <= i < vs.len() && coord(vs[i], axis) == coord(b.min, axis);
    let j0 = choose|i: int| 0 <= i < vs.len() && coord(vs[i], axis) == coord(b.max, axis);
    if flat_along(vs, axis) {
        assert(float_key(coord(vs[i0], axis)) == float_key(coord(vs[j0], axis)));
    }
    if float_key(coord(b.min, axis)) == float_key(coord(b.max, axis)) {
        assert forall|i: int, j: int|
            0 <= i < vs.len() && 0 <= j < vs.len() implies float_key(#[trigger] coord(vs[i], axis))
            == float_key(#[trigger] coord(vs[j], axis)) by {
            assert(float_key(coord(b.min, axis)) <= float_key(coord(vs[i], axis)) <= float_key(
                coord(b.max, axis),
            ));
            assert(float_key(coord(b.min, axis)) <= float_key(coord(vs[j], axis)) <= float_key(
                coord(b.max, axis),
            ));
        }
    }
}

/// The bounding box of a mesh calls for the unit scale exactly when all its
/// vertices are one point: a mesh that is not a single point always has a
/// positive longest extent to divide by, and a single point is never divided.
pub proof fn lemma_unit_scale_iff_single_point(vs: Seq<Vertex>, b: BoundingBox)
    requires
        is_bounds_of(vs, b),
    ensures
        rule_for(b) == ScaleRule::Unit <==> (flat_along(vs, 0) && flat_along(vs, 1) && flat_along(vs, 2)),
{
    lemma_axis_point_iff_flat(vs, b, 0);
    lemma_axis_point_iff_flat(vs, b, 1);
    lemma_axis_point_iff_flat(vs, b, 2);
}

/// Every vertex of a mesh lies inside its bounding box, on each axis, in the
/// order of the numbers.
pub proof fn lemma_vertices_inside_bounds(vs: Seq<Vertex>, b: BoundingBox, i: int, axis: int)
    requires
        is_bounds_of(vs, b),
        0 <= i < vs.len(),
        0 <= axis < 3,
    ensures
        float_key(coord(b.min, axis)) <= float_key(coord(vs[i], axis)) <= float_key(coord(b.max, axis)),
{
}

} // verus!
