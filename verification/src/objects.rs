//! The static shapes of a scene: boxes and ramps, each a collider placed at
//! a position.
use crate::fixed::neg_sat;
use crate::hull::{
    all_indexed, check_hull, closed, edge_count, face_ok, hull_defect, inside, is_inside,
    sides_shared, valid_hull, HullError, HULL_LIMIT,
};
use crate::vec3::Vec3;
use vstd::prelude::*;

verus! {

/// An axis-aligned box about its own origin.
#[derive(Clone, Copy, Debug, PartialEq, Eq, Structural)]
pub struct Cuboid {
    pub half_extents: Vec3,
}

/// A valid convex hull about its own origin.
pub struct ConvexPolyhedron {
    points: Vec<Vec3>,
    faces: Vec<[u32; 3]>,
}

/// The geometry of a shape, for the narrow phase.
pub enum Collider<'a> {
    Cuboid(&'a Cuboid),
    ConvexPolyhedron(&'a ConvexPolyhedron),
}

/// What a collider is: a box by its half-extents, or a hull by its points
/// and faces, each about the shape's own origin.
pub enum Geometry {
    Cuboid { half_extents: Vec3 },
    Hull { points: Seq<Vec3>, faces: Seq<[u32; 3]> },
}

impl Geometry {
    /// Whether the geometry, placed at `origin`, holds `point` strictly
    /// inside.
    pub open spec fn contains(self, origin: Vec3, point: Vec3) -> bool {
        let d = offset(origin, point);
        match self {
            Geometry::Cuboid { half_extents } => {
                &&& -half_extents.x < d.0 < half_extents.x
                &&& -half_extents.y < d.1 < half_extents.y
                &&& -half_extents.z < d.2 < half_extents.z
            },
            Geometry::Hull { points, faces } => {
                &&& offset_within(d)
                &&& inside(points, faces, Vec3 { x: d.0 as i64, y: d.1 as i64, z: d.2 as i64 })
            },
        }
    }
}

impl<'a> View for Collider<'a> {
    type V = Geometry;

    open spec fn view(&self) -> Geometry {
        match self {
            Collider::Cuboid(c) => c@,
            Collider::ConvexPolyhedron(h) => h@,
        }
    }
}

impl View for Cuboid {
    type V = Geometry;

    open spec fn view(&self) -> Geometry {
        Geometry::Cuboid { half_extents: self.half_extents }
    }
}

impl View for ConvexPolyhedron {
    type V = Geometry;

    open spec fn view(&self) -> Geometry {
        Geometry::Hull { points: self.spec_points(), faces: self.spec_faces() }
    }
}

/// An angle with its cosine and sine.
#[derive(Clone, Copy, Debug, PartialEq, Eq, Structural)]
pub struct Yaw {
    pub angle: i64,
    pub cos: i64,
    pub sin: i64,
}

/// The offset of `point` from `origin`, exactly.
pub open spec fn offset(origin: Vec3, point: Vec3) -> (int, int, int) {
    (point.x - origin.x, point.y - origin.y, point.z - origin.z)
}

/// Whether an offset is small enough to be a point of a hull's own space.
pub open spec fn offset_within(d: (int, int, int)) -> bool {
    &&& -HULL_LIMIT <= d.0 <= HULL_LIMIT
    &&& -HULL_LIMIT <= d.1 <= HULL_LIMIT
    &&& -HULL_LIMIT <= d.2 <= HULL_LIMIT
}

/// The six corners of a wedge with the given half-extents, before it is
/// turned: the four corners of the bottom, then the two of the top edge,
/// which lies above the far side.
pub open spec fn wedge_points(he: Vec3) -> Seq<Vec3> {
    seq![
        Vec3 { x: neg_sat(he.x), y: neg_sat(he.y), z: neg_sat(he.z) },
        Vec3 { x: he.x, y: neg_sat(he.y), z: neg_sat(he.z) },
        Vec3 { x: he.x, y: neg_sat(he.y), z: he.z },
        Vec3 { x: neg_sat(he.x), y: neg_sat(he.y), z: he.z },
        Vec3 { x: neg_sat(he.x), y: he.y, z: he.z },
        Vec3 { x: he.x, y: he.y, z: he.z },
    ]
}

/// The eight triangles of a wedge: two each for the bottom, the back and
/// the slope, one for each side.
pub open spec fn wedge_faces() -> Seq<[u32; 3]> {
    seq![
        [0u32, 2u32, 1u32],
        [0u32, 3u32, 2u32],
        [3u32, 2u32, 5u32],
        [3u32, 5u32, 4u32],
        [0u32, 5u32, 1u32],
        [0u32, 4u32, 5u32],
        [0u32, 3u32, 4u32],
        [1u32, 2u32, 5u32],
    ]
}

/// The corners of a ramp: those of the wedge, each turned about the
/// vertical axis.
pub open spec fn ramp_points(he: Vec3, yaw: Yaw) -> Seq<Vec3> {
    Seq::new(6, |i: int| wedge_points(he)[i].rotated_y(yaw.cos, yaw.sin))
}

/// The faces of the wedge name its six points and close up: every edge
/// belongs to exactly two of them. So a wedge fails to be a hull only for
/// its coordinates.
pub proof fn lemma_wedge_is_closed(points: Seq<Vec3>)
    requires
        points.len() == 6,
    ensures
        all_indexed(points, wedge_faces()),
        closed(wedge_faces()),
        hull_defect(points, wedge_faces()) is Some ==> {
            ||| hull_defect(points, wedge_faces()) == Some(HullError::OutOfRange)
            ||| hull_defect(points, wedge_faces()) == Some(HullError::Degenerate)
            ||| hull_defect(points, wedge_faces()) == Some(HullError::NotConvex)
        },
{
    let faces = wedge_faces();
    assert(faces.len() == 8);
    assert(faces[0] == [0u32, 2u32, 1u32]);
    assert(faces[1] == [0u32, 3u32, 2u32]);
    assert(faces[2] == [3u32, 2u32, 5u32]);
    assert(faces[3] == [3u32, 5u32, 4u32]);
    assert(faces[4] == [0u32, 5u32, 1u32]);
    assert(faces[5] == [0u32, 4u32, 5u32]);
    assert(faces[6] == [0u32, 3u32, 4u32]);
    assert(faces[7] == [1u32, 2u32, 5u32]);
    reveal_with_fuel(edge_count, 9);
    assert forall|f: int| 0 <= f < faces.len() implies face_ok(points.len(), #[trigger] faces[f])
        && sides_shared(faces, faces[f]) by {
        if f == 0 {
            assert(sides_shared(faces, faces[0]));
        } else if f == 1 {
            assert(sides_shared(faces, faces[1]));
        } else if f == 2 {
            assert(sides_shared(faces, faces[2]));
        } else if f == 3 {
            assert(sides_shared(faces, faces[3]));
        } else if f == 4 {
            assert(sides_shared(faces, faces[4]));
        } else if f == 5 {
            assert(sides_shared(faces, faces[5]));
        } else if f == 6 {
            assert(sides_shared(faces, faces[6]));
        } else {
            assert(sides_shared(faces, faces[7]));
        }
    }
}

impl Cuboid {
    pub fn new(half_extents: Vec3) -> (r: Cuboid)
        ensures
            r.half_extents == half_extents,
    {
        Cuboid { half_extents }
    }

    /// Whether the box, placed at `origin`, holds `point` strictly inside.
    pub fn contains_point(&self, origin: &Vec3, point: &Vec3) -> (r: bool)
        ensures
            r == self@.contains(*origin, *point),
    {
        let dx: i128 = point.x as i128 - origin.x as i128;
        let dy: i128 = point.y as i128 - origin.y as i128;
        let dz: i128 = point.z as i128 - origin.z as i128;
        let hx: i128 = self.half_extents.x as i128;
        let hy: i128 = self.half_extents.y as i128;
        let hz: i128 = self.half_extents.z as i128;
        -hx < dx && dx < hx && -hy < dy && dy < hy && -hz < dz && dz < hz
    }
}

impl ConvexPolyhedron {
    #[verifier::type_invariant]
    closed spec fn inv(self) -> bool {
        valid_hull(self.points@, self.faces@)
    }

    /// The points of the hull.
    pub closed spec fn spec_points(&self) -> Seq<Vec3> {
        self.points@
    }

    /// The faces of the hull, each three indices into the points.
    pub closed spec fn spec_faces(&self) -> Seq<[u32; 3]> {
        self.faces@
    }

    /// Makes a hull of a mesh that is one, and says what is wrong with a
    /// mesh that is none.
    pub fn from_convex_mesh(points: Vec<Vec3>, faces: Vec<[u32; 3]>) -> (r: Result<
        ConvexPolyhedron,
        HullError,
    >)
        ensures
            r is Ok <==> valid_hull(points@, faces@),
            r matches Ok(h) ==> h.spec_points() == points@ && h.spec_faces() == faces@,
            r matches Err(e) ==> hull_defect(points@, faces@) == Some(e),
    {
        match check_hull(&points, &faces) {
            Ok(()) => Ok(ConvexPolyhedron { points, faces }),
            Err(e) => Err(e),
        }
    }

    /// The points of the hull.
    pub fn points(&self) -> (r: &Vec<Vec3>)
        ensures
            r@ == self.spec_points(),
            valid_hull(self.spec_points(), self.spec_faces()),
    {
        proof {
            use_type_invariant(self);
        }
        &self.points
    }

    /// The faces of the hull.
    pub fn faces(&self) -> (r: &Vec<[u32; 3]>)
        ensures
            r@ == self.spec_faces(),
    {
        &self.faces
    }

    /// Whether the hull, placed at `origin`, holds `point` strictly inside.
    pub fn contains_point(&self, origin: &Vec3, point: &Vec3) -> (r: bool)
        ensures
            r == self@.contains(*origin, *point),
    {
        proof {
            use_type_invariant(self);
        }
        let dx: i128 = point.x as i128 - origin.x as i128;
        let dy: i128 = point.y as i128 - origin.y as i128;
        let dz: i128 = point.z as i128 - origin.z as i128;
        let l: i128 = HULL_LIMIT as i128;
        if dx < -l || dx > l || dy < -l || dy > l || dz < -l || dz > l {
            return false;
        }
        let q = Vec3 { x: dx as i64, y: dy as i64, z: dz as i64 };
        is_inside(&self.points, &self.faces, &q)
    }
}

/// What every static shape offers.
pub trait PhysicsObject {
    /// Where the shape stands.
    spec fn spec_position(&self) -> Vec3;

    /// The geometry of the shape about its own origin.
    spec fn spec_geometry(&self) -> Geometry;

    /// Where the shape stands.
    fn get_position(&self) -> (r: Vec3)
        ensures
            r == self.spec_position(),
    ;

    /// The geometry of the shape about its own origin.
    fn get_collider(&self) -> (r: Collider<'_>)
        ensures
            r@ == self.spec_geometry(),
    ;

    /// Whether the shape holds `point` strictly inside.
    fn contains_point(&self, point: &Vec3) -> (r: bool)
        ensures
            r == self.spec_geometry().contains(self.spec_position(), *point),
    ;
}

/// A box at a position.
pub struct CollisionBox {
    position: Vec3,
    collider: Cuboid,
}

impl CollisionBox {
    /// The half-extents of the box.
    pub closed spec fn spec_half_extents(&self) -> Vec3 {
        self.collider.half_extents
    }

    /// A box about `position`. Any half-extents are taken; one that is
    /// zero or less leaves a box that holds no point.
    pub fn new(position: Vec3, half_extents: Vec3) -> (r: CollisionBox)
        ensures
            r.spec_position() == position,
            r.spec_half_extents() == half_extents,
    {
        CollisionBox { position, collider: Cuboid { half_extents } }
    }

    /// The half-extents of the box.
    pub fn half_extents(&self) -> (r: Vec3)
        ensures
            r == self.spec_half_extents(),
    {
        self.collider.half_extents
    }

    /// The box about its own origin.
    pub fn collider(&self) -> (r: &Cuboid)
        ensures
            r@ == self.spec_geometry(),
    {
        &self.collider
    }
}

impl PhysicsObject for CollisionBox {
    closed spec fn spec_position(&self) -> Vec3 {
        self.position
    }

    open spec fn spec_geometry(&self) -> Geometry {
        Geometry::Cuboid { half_extents: self.spec_half_extents() }
    }

    fn get_position(&self) -> (r: Vec3) {
        self.position
    }

    fn get_collider(&self) -> (r: Collider<'_>) {
        Collider::Cuboid(&self.collider)
    }

    fn contains_point(&self, point: &Vec3) -> (r: bool) {
        self.collider.contains_point(&self.position, point)
    }
}

/// A wedge at a position, turned about the vertical axis.
pub struct CollisionRamp {
    position: Vec3,
    yaw: Yaw,
    half_extents: Vec3,
    collider: ConvexPolyhedron,
}

/// The six corners of a wedge, before it is turned.
fn make_wedge_points(he: Vec3) -> (r: [Vec3; 6])
    ensures
        r@ == wedge_points(he),
{
    let nx = neg_sat(he.x);
    let ny = neg_sat(he.y);
    let nz = neg_sat(he.z);
    let r = [
        Vec3 { x: nx, y: ny, z: nz },
        Vec3 { x: he.x, y: ny, z: nz },
        Vec3 { x: he.x, y: ny, z: he.z },
        Vec3 { x: nx, y: ny, z: he.z },
        Vec3 { x: nx, y: he.y, z: he.z },
        Vec3 { x: he.x, y: he.y, z: he.z },
    ];
    assert(r@ =~= wedge_points(he));
    r
}

/// The eight triangles of a wedge.
fn make_wedge_faces() -> (r: Vec<[u32; 3]>)
    ensures
        r@ == wedge_faces(),
{
    let mut r: Vec<[u32; 3]> = Vec::new();
    r.push([0u32, 2u32, 1u32]);
    r.push([0u32, 3u32, 2u32]);
    r.push([3u32, 2u32, 5u32]);
    r.push([3u32, 5u32, 4u32]);
    r.push([0u32, 5u32, 1u32]);
    r.push([0u32, 4u32, 5u32]);
    r.push([0u32, 3u32, 4u32]);
    r.push([1u32, 2u32, 5u32]);
    assert(r@ =~= wedge_faces());
    r
}

impl CollisionRamp {
    #[verifier::type_invariant]
    closed spec fn inv(self) -> bool {
        &&& self.collider.spec_points() == ramp_points(self.half_extents, self.yaw)
        &&& self.collider.spec_faces() == wedge_faces()
    }

    /// The angle by which the wedge is turned, with its cosine and sine.
    pub closed spec fn spec_yaw(&self) -> Yaw {
        self.yaw
    }

    /// The half-extents of the wedge before it is turned.
    pub closed spec fn spec_half_extents(&self) -> Vec3 {
        self.half_extents
    }

    /// A ramp about `position`: the wedge with the given half-extents,
    /// turned by `yaw`. It fails where the turned wedge is no valid hull.
    pub fn new(position: Vec3, yaw: Yaw, half_extents: Vec3) -> (r: Result<
        CollisionRamp,
        HullError,
    >)
        ensures
            r is Ok <==> valid_hull(ramp_points(half_extents, yaw), wedge_faces()),
            r matches Ok(ramp) ==> {
                &&& ramp.spec_position() == position
                &&& ramp.spec_yaw() == yaw
                &&& ramp.spec_half_extents() == half_extents
            },
            r matches Err(e) ==> hull_defect(ramp_points(half_extents, yaw), wedge_faces())
                == Some(e),
            r matches Err(e) ==> e == HullError::OutOfRange || e == HullError::Degenerate || e
                == HullError::NotConvex,
    {
        proof {
            lemma_wedge_is_closed(ramp_points(half_extents, yaw));
        }
        let corners = make_wedge_points(half_extents);
        let mut points: Vec<Vec3> = Vec::new();
        let mut i: usize = 0;
        while i < 6
            invariant
                i <= 6,
                corners@ == wedge_points(half_extents),
                points@.len() == i,
                forall|j: int|
                    0 <= j < i ==> points@[j] == ramp_points(half_extents, yaw)[j],
            decreases 6 - i,
        {
            points.push(corners[i].rotated_y(yaw.cos, yaw.sin));
            i = i + 1;
        }
        assert(points@ =~= ramp_points(half_extents, yaw));
        match ConvexPolyhedron::from_convex_mesh(points, make_wedge_faces()) {
            Ok(collider) => Ok(CollisionRamp { position, yaw, half_extents, collider }),
            Err(e) => Err(e),
        }
    }

    /// The angle by which the wedge is turned, with its cosine and sine.
    pub fn yaw(&self) -> (r: Yaw)
        ensures
            r == self.spec_yaw(),
    {
        self.yaw
    }

    /// The half-extents of the wedge before it is turned.
    pub fn half_extents(&self) -> (r: Vec3)
        ensures
            r == self.spec_half_extents(),
    {
        self.half_extents
    }

    /// The hull about its own origin: its points are the turned corners
    /// of the wedge.
    pub fn collider(&self) -> (r: &ConvexPolyhedron)
        ensures
            r@ == self.spec_geometry(),
    {
        proof {
            use_type_invariant(self);
        }
        &self.collider
    }
}

impl PhysicsObject for CollisionRamp {
    closed spec fn spec_position(&self) -> Vec3 {
        self.position
    }

    open spec fn spec_geometry(&self) -> Geometry {
        Geometry::Hull {
            points: ramp_points(self.spec_half_extents(), self.spec_yaw()),
            faces: wedge_faces(),
        }
    }

    fn get_position(&self) -> (r: Vec3) {
        self.position
    }

    fn get_collider(&self) -> (r: Collider<'_>) {
        proof {
            use_type_invariant(self);
        }
        Collider::ConvexPolyhedron(&self.collider)
    }

    fn contains_point(&self, point: &Vec3) -> (r: bool) {
        proof {
            use_type_invariant(self);
        }
        self.collider.contains_point(&self.position, point)
    }
}

/// A static shape: a box or a ramp.
pub enum Shape {
    Box(CollisionBox),
    Ramp(CollisionRamp),
}

impl PhysicsObject for Shape {
    open spec fn spec_position(&self) -> Vec3 {
        match self {
            Shape::Box(b) => b.spec_position(),
            Shape::Ramp(r) => r.spec_position(),
        }
    }

    open spec fn spec_geometry(&self) -> Geometry {
        match self {
            Shape::Box(b) => b.spec_geometry(),
            Shape::Ramp(r) => r.spec_geometry(),
        }
    }

    fn get_position(&self) -> (r: Vec3) {
        match self {
            Shape::Box(b) => b.get_position(),
            Shape::Ramp(r) => r.get_position(),
        }
    }

    fn get_collider(&self) -> (r: Collider<'_>) {
        match self {
            Shape::Box(b) => b.get_collider(),
            Shape::Ramp(r) => r.get_collider(),
        }
    }

    fn contains_point(&self, point: &Vec3) -> (r: bool) {
        match self {
            Shape::Box(b) => b.contains_point(point),
            Shape::Ramp(r) => r.contains_point(point),
        }
    }
}

} // verus!
