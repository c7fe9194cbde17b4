//! Convex polyhedra given as a triangle mesh: what makes a mesh a valid
//! hull, the check of it, and the test of a point against it.
//!
//! All of it is exact integer geometry on raw coordinates; the coordinates
//! are limited so that every intermediate value fits the machine.
use crate::vec3::Vec3;
use vstd::prelude::*;

verus! {

/// The largest magnitude of a coordinate of a hull: a million world units.
pub const HULL_LIMIT: i64 = 1_000_000_000_000;

/// Why a mesh is no valid hull.
#[derive(Clone, Copy, Debug, PartialEq, Eq, Structural)]
pub enum HullError {
    /// The mesh has no face.
    Empty,
    /// A coordinate lies beyond the limit.
    OutOfRange,
    /// A face names a point that is not there, or one point twice.
    BadIndex,
    /// An edge does not belong to exactly two faces.
    Open,
    /// A face has no area.
    Degenerate,
    /// The points lie on both sides of the plane of a face.
    NotConvex,
}

/// Whether every coordinate of `v` is within the limit.
pub open spec fn within(v: Vec3) -> bool {
    &&& -HULL_LIMIT <= v.x <= HULL_LIMIT
    &&& -HULL_LIMIT <= v.y <= HULL_LIMIT
    &&& -HULL_LIMIT <= v.z <= HULL_LIMIT
}

/// The normal of the triangle `a`, `b`, `c`: the cross product of two of
/// its sides, not normalized.
pub open spec fn normal(a: Vec3, b: Vec3, c: Vec3) -> (int, int, int) {
    (
        (b.y - a.y) * (c.z - a.z) - (b.z - a.z) * (c.y - a.y),
        (b.z - a.z) * (c.x - a.x) - (b.x - a.x) * (c.z - a.z),
        (b.x - a.x) * (c.y - a.y) - (b.y - a.y) * (c.x - a.x),
    )
}

/// Six times the signed volume of the tetrahedron `a`, `b`, `c`, `q`:
/// positive on the side of the triangle that its normal points to, zero in
/// its plane.
pub open spec fn volume(a: Vec3, b: Vec3, c: Vec3, q: Vec3) -> int {
    let n = normal(a, b, c);
    n.0 * (q.x - a.x) + n.1 * (q.y - a.y) + n.2 * (q.z - a.z)
}

/// Whether a face names three different points out of `n`.
pub open spec fn face_ok(n: nat, f: [u32; 3]) -> bool {
    &&& f[0] < n && f[1] < n && f[2] < n
    &&& f[0] != f[1] && f[1] != f[2] && f[0] != f[2]
}

/// Whether the points `u` and `v` are the ends of a side of the face.
pub open spec fn has_edge(f: [u32; 3], u: u32, v: u32) -> bool {
    &&& u != v
    &&& (f[0] == u || f[1] == u || f[2] == u)
    &&& (f[0] == v || f[1] == v || f[2] == v)
}

/// How many of the first `k` faces have the edge from `u` to `v`.
pub open spec fn edge_count(faces: Seq<[u32; 3]>, u: u32, v: u32, k: nat) -> nat
    decreases k,
{
    if k == 0 {
        0
    } else {
        edge_count(faces, u, v, (k - 1) as nat) + if has_edge(faces[k - 1], u, v) {
            1nat
        } else {
            0nat
        }
    }
}

/// The volume that the face `f` spans with the point `q`.
pub open spec fn face_volume(points: Seq<Vec3>, f: [u32; 3], q: Vec3) -> int {
    volume(points[f[0] as int], points[f[1] as int], points[f[2] as int], q)
}

/// Whether the face has no area.
pub open spec fn flat(points: Seq<Vec3>, f: [u32; 3]) -> bool {
    normal(points[f[0] as int], points[f[1] as int], points[f[2] as int]) == (0int, 0int, 0int)
}

/// Whether no point lies above the plane of the face, or none below it.
pub open spec fn one_sided(points: Seq<Vec3>, f: [u32; 3]) -> bool {
    ||| forall|i: int| 0 <= i < points.len() ==> #[trigger] face_volume(points, f, points[i]) >= 0
    ||| forall|i: int| 0 <= i < points.len() ==> #[trigger] face_volume(points, f, points[i]) <= 0
}

pub open spec fn all_within(points: Seq<Vec3>) -> bool {
    forall|i: int| 0 <= i < points.len() ==> within(#[trigger] points[i])
}

pub open spec fn all_indexed(points: Seq<Vec3>, faces: Seq<[u32; 3]>) -> bool {
    forall|f: int| 0 <= f < faces.len() ==> face_ok(points.len(), #[trigger] faces[f])
}

/// Whether each of the three sides of the face `f` belongs to exactly two
/// of the faces.
pub open spec fn sides_shared(faces: Seq<[u32; 3]>, f: [u32; 3]) -> bool {
    &&& edge_count(faces, f[0], f[1], faces.len()) == 2
    &&& edge_count(faces, f[1], f[2], faces.len()) == 2
    &&& edge_count(faces, f[2], f[0], faces.len()) == 2
}

/// Whether every side of every face belongs to exactly two faces.
pub open spec fn closed(faces: Seq<[u32; 3]>) -> bool {
    forall|f: int| 0 <= f < faces.len() ==> sides_shared(faces, #[trigger] faces[f])
}

pub open spec fn none_flat(points: Seq<Vec3>, faces: Seq<[u32; 3]>) -> bool {
    forall|f: int| 0 <= f < faces.len() ==> !flat(points, #[trigger] faces[f])
}

pub open spec fn convex(points: Seq<Vec3>, faces: Seq<[u32; 3]>) -> bool {
    forall|f: int| 0 <= f < faces.len() ==> one_sided(points, #[trigger] faces[f])
}

/// The first reason for which a mesh is no valid hull, if there is one.
pub open spec fn hull_defect(points: Seq<Vec3>, faces: Seq<[u32; 3]>) -> Option<HullError> {
    if faces.len() == 0 {
        Some(HullError::Empty)
    } else if !all_within(points) {
        Some(HullError::OutOfRange)
    } else if !all_indexed(points, faces) {
        Some(HullError::BadIndex)
    } else if !closed(faces) {
        Some(HullError::Open)
    } else if !none_flat(points, faces) {
        Some(HullError::Degenerate)
    } else if !convex(points, faces) {
        Some(HullError::NotConvex)
    } else {
        None
    }
}

/// A valid hull: a closed mesh of triangles with area, all of whose points
/// lie on one side of each face.
pub open spec fn valid_hull(points: Seq<Vec3>, faces: Seq<[u32; 3]>) -> bool {
    hull_defect(points, faces) is None
}

/// Whether `q` lies strictly inside the mesh: within the limit and, for
/// every face, strictly on the side of its plane on which some point of the
/// mesh lies.
pub open spec fn inside(points: Seq<Vec3>, faces: Seq<[u32; 3]>, q: Vec3) -> bool {
    &&& within(q)
    &&& forall|f: int| 0 <= f < faces.len() ==> behind(points, #[trigger] faces[f], q)
}

/// Whether `q` lies strictly on the side of the face on which some point
/// of the mesh lies.
pub open spec fn behind(points: Seq<Vec3>, f: [u32; 3], q: Vec3) -> bool {
    exists|i: int|
        0 <= i < points.len() && same_side(
            #[trigger] face_volume(points, f, points[i]),
            face_volume(points, f, q),
        )
}

/// Whether two volumes are both positive or both negative.
pub open spec fn same_side(a: int, b: int) -> bool {
    (a > 0 && b > 0) || (a < 0 && b < 0)
}

/// A point inside a valid hull is cut off from no point of the hull: no
/// face has the two strictly on opposite sides of its plane.
pub proof fn lemma_inside_is_with_the_points(
    points: Seq<Vec3>,
    faces: Seq<[u32; 3]>,
    q: Vec3,
    f: int,
    i: int,
)
    requires
        valid_hull(points, faces),
        inside(points, faces, q),
        0 <= f < faces.len(),
        0 <= i < points.len(),
    ensures
        face_volume(points, faces[f], q) != 0,
        !same_side(face_volume(points, faces[f], points[i]), -face_volume(points, faces[f], q)),
{
    assert(one_sided(points, faces[f]));
    assert(behind(points, faces[f], q));
    let j = choose|j: int|
        0 <= j < points.len() && same_side(
            #[trigger] face_volume(points, faces[f], points[j]),
            face_volume(points, faces[f], q),
        );
    assert(same_side(face_volume(points, faces[f], points[j]), face_volume(points, faces[f], q)));
}

/// No point of a valid hull lies inside it: the inside is strict.
pub proof fn lemma_points_are_not_inside(points: Seq<Vec3>, faces: Seq<[u32; 3]>, i: int)
    requires
        valid_hull(points, faces),
        0 <= i < points.len(),
        exists|f: int|
            0 <= f < faces.len() && (faces[f][0] == i || faces[f][1] == i || faces[f][2] == i),
    ensures
        !inside(points, faces, points[i]),
{
    let f = choose|f: int|
        0 <= f < faces.len() && (faces[f][0] == i || faces[f][1] == i || faces[f][2] == i);
    let a = points[faces[f][0] as int];
    let b = points[faces[f][1] as int];
    let c = points[faces[f][2] as int];
    lemma_volume_of_corner(a, b, c);
    assert(face_volume(points, faces[f], points[i]) == 0);
    if inside(points, faces, points[i]) {
        assert(behind(points, faces[f], points[i]));
    }
}

/// The volume that a triangle spans with one of its own corners is zero.
proof fn lemma_volume_of_corner(a: Vec3, b: Vec3, c: Vec3)
    ensures
        volume(a, b, c, a) == 0,
        volume(a, b, c, b) == 0,
        volume(a, b, c, c) == 0,
{
    let ux = b.x - a.x;
    let uy = b.y - a.y;
    let uz = b.z - a.z;
    let vx = c.x - a.x;
    let vy = c.y - a.y;
    let vz = c.z - a.z;
    assert((uy * vz - uz * vy) * 0 + (uz * vx - ux * vz) * 0 + (ux * vy - uy * vx) * 0 == 0)
        by (nonlinear_arith);
    assert((uy * vz - uz * vy) * ux + (uz * vx - ux * vz) * uy + (ux * vy - uy * vx) * uz == 0)
        by (nonlinear_arith);
    assert((uy * vz - uz * vy) * vx + (uz * vx - ux * vz) * vy + (ux * vy - uy * vx) * vz == 0)
        by (nonlinear_arith);
}

proof fn lemma_product_bound(x: int, y: int, bx: int, by: int)
    by (nonlinear_arith)
    requires
        -bx <= x <= bx,
        -by <= y <= by,
    ensures
        -(bx * by) <= x * y <= bx * by,
{
}

/// Whether every coordinate of `v` is within the limit.
pub fn is_within(v: &Vec3) -> (r: bool)
    ensures
        r == within(*v),
{
    -HULL_LIMIT <= v.x && v.x <= HULL_LIMIT && -HULL_LIMIT <= v.y && v.y <= HULL_LIMIT
        && -HULL_LIMIT <= v.z && v.z <= HULL_LIMIT
}

/// The normal of a triangle, exactly.
fn normal_wide(a: &Vec3, b: &Vec3, c: &Vec3) -> (n: (i128, i128, i128))
    requires
        within(*a),
        within(*b),
        within(*c),
    ensures
        (n.0 as int, n.1 as int, n.2 as int) == normal(*a, *b, *c),
        -8_000_000_000_000_000_000_000_000 <= n.0 <= 8_000_000_000_000_000_000_000_000,
        -8_000_000_000_000_000_000_000_000 <= n.1 <= 8_000_000_000_000_000_000_000_000,
        -8_000_000_000_000_000_000_000_000 <= n.2 <= 8_000_000_000_000_000_000_000_000,
{
    let ux: i128 = b.x as i128 - a.x as i128;
    let uy: i128 = b.y as i128 - a.y as i128;
    let uz: i128 = b.z as i128 - a.z as i128;
    let vx: i128 = c.x as i128 - a.x as i128;
    let vy: i128 = c.y as i128 - a.y as i128;
    let vz: i128 = c.z as i128 - a.z as i128;
    proof {
        let l = 2_000_000_000_000int;
        lemma_product_bound(uy as int, vz as int, l, l);
        lemma_product_bound(uz as int, vy as int, l, l);
        lemma_product_bound(uz as int, vx as int, l, l);
        lemma_product_bound(ux as int, vz as int, l, l);
        lemma_product_bound(ux as int, vy as int, l, l);
        lemma_product_bound(uy as int, vx as int, l, l);
    }
    (uy * vz - uz * vy, uz * vx - ux * vz, ux * vy - uy * vx)
}

/// The volume that a triangle spans with a point, exactly.
fn volume_wide(a: &Vec3, b: &Vec3, c: &Vec3, q: &Vec3) -> (r: i128)
    requires
        within(*a),
        within(*b),
        within(*c),
        within(*q),
    ensures
        r == volume(*a, *b, *c, *q),
{
    let n = normal_wide(a, b, c);
    let wx: i128 = q.x as i128 - a.x as i128;
    let wy: i128 = q.y as i128 - a.y as i128;
    let wz: i128 = q.z as i128 - a.z as i128;
    proof {
        let l = 2_000_000_000_000int;
        let m = 8_000_000_000_000_000_000_000_000int;
        lemma_product_bound(n.0 as int, wx as int, m, l);
        lemma_product_bound(n.1 as int, wy as int, m, l);
        lemma_product_bound(n.2 as int, wz as int, m, l);
    }
    n.0 * wx + n.1 * wy + n.2 * wz
}

/// Whether a face names three different points out of `n`.
fn is_face_ok(n: usize, f: &[u32; 3]) -> (r: bool)
    ensures
        r == face_ok(n as nat, *f),
{
    (f[0] as usize) < n && (f[1] as usize) < n && (f[2] as usize) < n && f[0] != f[1] && f[1]
        != f[2] && f[0] != f[2]
}

/// Whether the points `u` and `v` are the ends of a side of the face.
fn face_has_edge(f: &[u32; 3], u: u32, v: u32) -> (r: bool)
    ensures
        r == has_edge(*f, u, v),
{
    u != v && (f[0] == u || f[1] == u || f[2] == u) && (f[0] == v || f[1] == v || f[2] == v)
}

/// How many faces have the edge from `u` to `v`.
fn count_edge(faces: &Vec<[u32; 3]>, u: u32, v: u32) -> (r: usize)
    ensures
        r == edge_count(faces@, u, v, faces@.len()),
{
    let mut count: usize = 0;
    let mut g: usize = 0;
    while g < faces.len()
        invariant
            g <= faces.len(),
            count <= g,
            count == edge_count(faces@, u, v, g as nat),
        decreases faces.len() - g,
    {
        if face_has_edge(&faces[g], u, v) {
            count = count + 1;
        }
        g = g + 1;
    }
    count
}

/// Whether every point of the mesh is within the limit.
fn check_within(points: &Vec<Vec3>) -> (r: bool)
    ensures
        r == all_within(points@),
{
    let mut i: usize = 0;
    while i < points.len()
        invariant
            i <= points.len(),
            forall|j: int| 0 <= j < i ==> within(#[trigger] points@[j]),
        decreases points.len() - i,
    {
        if !is_within(&points[i]) {
            return false;
        }
        i = i + 1;
    }
    true
}

/// Whether every face names three different points of the mesh.
fn check_indexed(points: &Vec<Vec3>, faces: &Vec<[u32; 3]>) -> (r: bool)
    ensures
        r == all_indexed(points@, faces@),
{
    let mut f: usize = 0;
    while f < faces.len()
        invariant
            f <= faces.len(),
            forall|g: int| 0 <= g < f ==> face_ok(points@.len(), #[trigger] faces@[g]),
        decreases faces.len() - f,
    {
        if !is_face_ok(points.len(), &faces[f]) {
            return false;
        }
        f = f + 1;
    }
    true
}

/// Whether every side of every face belongs to exactly two faces.
fn check_closed(faces: &Vec<[u32; 3]>) -> (r: bool)
    ensures
        r == closed(faces@),
{
    let mut f: usize = 0;
    while f < faces.len()
        invariant
            f <= faces.len(),
            forall|g: int| 0 <= g < f ==> sides_shared(faces@, #[trigger] faces@[g]),
        decreases faces.len() - f,
    {
        let face = faces[f];
        let c0 = count_edge(faces, face[0], face[1]);
        let c1 = count_edge(faces, face[1], face[2]);
        let c2 = count_edge(faces, face[2], face[0]);
        if c0 != 2 || c1 != 2 || c2 != 2 {
            assert(!sides_shared(faces@, faces@[f as int]));
            return false;
        }
        f = f + 1;
    }
    true
}

/// Whether every face has area.
fn check_none_flat(points: &Vec<Vec3>, faces: &Vec<[u32; 3]>) -> (r: bool)
    requires
        all_within(points@),
        all_indexed(points@, faces@),
    ensures
        r == none_flat(points@, faces@),
{
    let mut f: usize = 0;
    while f < faces.len()
        invariant
            f <= faces.len(),
            all_within(points@),
            all_indexed(points@, faces@),
            forall|g: int| 0 <= g < f ==> !flat(points@, #[trigger] faces@[g]),
        decreases faces.len() - f,
    {
        let face = faces[f];
        assert(face_ok(points@.len(), faces@[f as int]));
        let n = normal_wide(
            &points[face[0] as usize],
            &points[face[1] as usize],
            &points[face[2] as usize],
        );
        if n.0 == 0 && n.1 == 0 && n.2 == 0 {
            return false;
        }
        f = f + 1;
    }
    true
}

/// Whether no point lies above the plane of the face, or none below it.
fn check_one_sided(points: &Vec<Vec3>, face: &[u32; 3]) -> (r: bool)
    requires
        all_within(points@),
        face_ok(points@.len(), *face),
    ensures
        r == one_sided(points@, *face),
{
    let a = &points[face[0] as usize];
    let b = &points[face[1] as usize];
    let c = &points[face[2] as usize];
    let mut above: bool = false;
    let mut below: bool = false;
    let ghost mut hi: int = 0;
    let ghost mut lo: int = 0;
    let mut i: usize = 0;
    while i < points.len()
        invariant
            i <= points.len(),
            all_within(points@),
            face_ok(points@.len(), *face),
            *a == points@[face[0] as int],
            *b == points@[face[1] as int],
            *c == points@[face[2] as int],
            !(above && below),
            above ==> 0 <= hi < i && face_volume(points@, *face, points@[hi]) > 0,
            below ==> 0 <= lo < i && face_volume(points@, *face, points@[lo]) < 0,
            !above ==> forall|j: int|
                0 <= j < i ==> #[trigger] face_volume(points@, *face, points@[j]) <= 0,
            !below ==> forall|j: int|
                0 <= j < i ==> #[trigger] face_volume(points@, *face, points@[j]) >= 0,
        decreases points.len() - i,
    {
        let v = volume_wide(a, b, c, &points[i]);
        if v > 0 {
            if below {
                proof {
                    assert(face_volume(points@, *face, points@[i as int]) > 0);
                    assert(face_volume(points@, *face, points@[lo]) < 0);
                }
                return false;
            }
            above = true;
            proof {
                hi = i as int;
            }
        } else if v < 0 {
            if above {
                proof {
                    assert(face_volume(points@, *face, points@[i as int]) < 0);
                    assert(face_volume(points@, *face, points@[hi]) > 0);
                }
                return false;
            }
            below = true;
            proof {
                lo = i as int;
            }
        }
        i = i + 1;
    }
    true
}

/// Whether the points lie on one side of every face.
fn check_convex(points: &Vec<Vec3>, faces: &Vec<[u32; 3]>) -> (r: bool)
    requires
        all_within(points@),
        all_indexed(points@, faces@),
    ensures
        r == convex(points@, faces@),
{
    let mut f: usize = 0;
    while f < faces.len()
        invariant
            f <= faces.len(),
            all_within(points@),
            all_indexed(points@, faces@),
            forall|g: int| 0 <= g < f ==> one_sided(points@, #[trigger] faces@[g]),
        decreases faces.len() - f,
    {
        assert(face_ok(points@.len(), faces@[f as int]));
        if !check_one_sided(points, &faces[f]) {
            return false;
        }
        f = f + 1;
    }
    true
}

/// Checks a mesh: `Ok` exactly for a valid hull, else the first defect.
pub fn check_hull(points: &Vec<Vec3>, faces: &Vec<[u32; 3]>) -> (r: Result<(), HullError>)
    ensures
        r is Ok <==> valid_hull(points@, faces@),
        r matches Err(e) ==> hull_defect(points@, faces@) == Some(e),
{
    if faces.len() == 0 {
        Err(HullError::Empty)
    } else if !check_within(points) {
        Err(HullError::OutOfRange)
    } else if !check_indexed(points, faces) {
        Err(HullError::BadIndex)
    } else if !check_closed(faces) {
        Err(HullError::Open)
    } else if !check_none_flat(points, faces) {
        Err(HullError::Degenerate)
    } else if !check_convex(points, faces) {
        Err(HullError::NotConvex)
    } else {
        Ok(())
    }
}

/// Whether `q` lies strictly on the side of the face on which some point
/// of the mesh lies.
fn is_behind(points: &Vec<Vec3>, face: &[u32; 3], q: &Vec3) -> (r: bool)
    requires
        all_within(points@),
        face_ok(points@.len(), *face),
        within(*q),
    ensures
        r == behind(points@, *face, *q),
{
    let a = &points[face[0] as usize];
    let b = &points[face[1] as usize];
    let c = &points[face[2] as usize];
    let vq = volume_wide(a, b, c, q);
    let mut i: usize = 0;
    while i < points.len()
        invariant
            i <= points.len(),
            all_within(points@),
            face_ok(points@.len(), *face),
            *a == points@[face[0] as int],
            *b == points@[face[1] as int],
            *c == points@[face[2] as int],
            vq == face_volume(points@, *face, *q),
            forall|j: int|
                0 <= j < i ==> !same_side(
                    #[trigger] face_volume(points@, *face, points@[j]),
                    vq as int,
                ),
        decreases points.len() - i,
    {
        let v = volume_wide(a, b, c, &points[i]);
        if (v > 0 && vq > 0) || (v < 0 && vq < 0) {
            assert(same_side(face_volume(points@, *face, points@[i as int]), vq as int));
            return true;
        }
        i = i + 1;
    }
    false
}

/// Whether `q` lies strictly inside the mesh.
pub fn is_inside(points: &Vec<Vec3>, faces: &Vec<[u32; 3]>, q: &Vec3) -> (r: bool)
    requires
        all_within(points@),
        all_indexed(points@, faces@),
    ensures
        r == inside(points@, faces@, *q),
{
    if !is_within(q) {
        return false;
    }
    let mut f: usize = 0;
    while f < faces.len()
        invariant
            f <= faces.len(),
            all_within(points@),
            all_indexed(points@, faces@),
            within(*q),
            forall|g: int| 0 <= g < f ==> behind(points@, #[trigger] faces@[g], *q),
        decreases faces.len() - f,
    {
        assert(face_ok(points@.len(), faces@[f as int]));
        if !is_behind(points, &faces[f], q) {
            return false;
        }
        f = f + 1;
    }
    true
}

} // verus!
