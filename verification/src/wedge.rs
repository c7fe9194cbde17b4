//! The upright wedge: with positive half-extents and no turn, the corners
//! and faces of a ramp are a valid hull.
use crate::fixed::{lemma_mul_fx_unit, lemma_mul_fx_zero, UNIT};
use crate::hull::{
    all_within, convex, face_volume, flat, none_flat, one_sided, valid_hull, HULL_LIMIT,
};
use crate::objects::{lemma_wedge_is_closed, ramp_points, wedge_faces, wedge_points, Yaw};
use crate::vec3::Vec3;
use vstd::prelude::*;

verus! {

/// First component of the normal of a triangle, over plain coordinates.
spec fn nx(ay: int, az: int, by: int, bz: int, cy: int, cz: int) -> int {
    (by - ay) * (cz - az) - (bz - az) * (cy - ay)
}

/// The volume that a triangle spans with a point, over plain coordinates.
spec fn vol(
    ax: int,
    ay: int,
    az: int,
    bx: int,
    by: int,
    bz: int,
    cx: int,
    cy: int,
    cz: int,
    qx: int,
    qy: int,
    qz: int,
) -> int {
    nx(ay, az, by, bz, cy, cz) * (qx - ax) + nx(az, ax, bz, bx, cz, cx) * (qy - ay) + nx(
        ax,
        ay,
        bx,
        by,
        cx,
        cy,
    ) * (qz - az)
}

/// On which side of each face of the wedge a point lies that is a corner
/// of it: above the bottom, before the back, under the slope and between
/// the sides.
proof fn lemma_wedge_sides(x: int, y: int, z: int, qx: int, qy: int, qz: int)
    by (nonlinear_arith)
    requires
        x > 0,
        y > 0,
        z > 0,
        -x <= qx <= x,
        (qy == -y && qz == -z) || (qy == -y && qz == z) || (qy == y && qz == z),
    ensures
        vol(-x, -y, -z, x, -y, z, x, -y, -z, qx, qy, qz) >= 0,
        vol(-x, -y, -z, -x, -y, z, x, -y, z, qx, qy, qz) >= 0,
        vol(-x, -y, z, x, -y, z, x, y, z, qx, qy, qz) <= 0,
        vol(-x, -y, z, x, y, z, -x, y, z, qx, qy, qz) <= 0,
        vol(-x, -y, -z, x, y, z, x, -y, -z, qx, qy, qz) <= 0,
        vol(-x, -y, -z, -x, y, z, x, y, z, qx, qy, qz) <= 0,
        vol(-x, -y, -z, -x, -y, z, -x, y, z, qx, qy, qz) <= 0,
        vol(x, -y, -z, x, -y, z, x, y, z, qx, qy, qz) >= 0,
{
}

/// Every face of the wedge has area.
proof fn lemma_wedge_areas(x: int, y: int, z: int)
    by (nonlinear_arith)
    requires
        x > 0,
        y > 0,
        z > 0,
    ensures
        nx(-z, -x, z, x, -z, x) > 0,
        nx(-z, -x, z, -x, z, x) > 0,
        nx(-x, -y, x, -y, x, y) > 0,
        nx(-x, -y, x, y, -x, y) > 0,
        nx(-z, -x, z, x, -z, x) > 0,
        nx(-z, -x, z, -x, z, x) > 0,
        nx(-y, -z, -y, z, y, z) < 0,
        nx(-y, -z, -y, z, y, z) < 0,
{
}

/// A ramp with positive half-extents within the limit and no turn is a
/// valid hull, so its construction succeeds.
pub proof fn lemma_upright_wedge_is_valid(he: Vec3, angle: i64)
    requires
        0 < he.x <= HULL_LIMIT,
        0 < he.y <= HULL_LIMIT,
        0 < he.z <= HULL_LIMIT,
    ensures
        valid_hull(ramp_points(he, Yaw { angle, cos: UNIT, sin: 0 }), wedge_faces()),
{
    let yaw = Yaw { angle, cos: UNIT, sin: 0 };
    let points = ramp_points(he, yaw);
    let faces = wedge_faces();
    let x = he.x as int;
    let y = he.y as int;
    let z = he.z as int;
    lemma_mul_fx_unit(he.x);
    lemma_mul_fx_unit(he.z);
    lemma_mul_fx_unit((-he.x) as i64);
    lemma_mul_fx_unit((-he.z) as i64);
    lemma_mul_fx_zero(he.x);
    lemma_mul_fx_zero(he.z);
    lemma_mul_fx_zero((-he.x) as i64);
    lemma_mul_fx_zero((-he.z) as i64);
    assert(points =~= wedge_points(he));
    assert(points[0] == Vec3 { x: (-x) as i64, y: (-y) as i64, z: (-z) as i64 });
    assert(points[1] == Vec3 { x: he.x, y: (-y) as i64, z: (-z) as i64 });
    assert(points[2] == Vec3 { x: he.x, y: (-y) as i64, z: he.z });
    assert(points[3] == Vec3 { x: (-x) as i64, y: (-y) as i64, z: he.z });
    assert(points[4] == Vec3 { x: (-x) as i64, y: he.y, z: he.z });
    assert(points[5] == Vec3 { x: he.x, y: he.y, z: he.z });
    assert(all_within(points));
    lemma_wedge_is_closed(points);
    assert(faces[0] == [0u32, 2u32, 1u32]);
    assert(faces[1] == [0u32, 3u32, 2u32]);
    assert(faces[2] == [3u32, 2u32, 5u32]);
    assert(faces[3] == [3u32, 5u32, 4u32]);
    assert(faces[4] == [0u32, 5u32, 1u32]);
    assert(faces[5] == [0u32, 4u32, 5u32]);
    assert(faces[6] == [0u32, 3u32, 4u32]);
    assert(faces[7] == [1u32, 2u32, 5u32]);
    lemma_wedge_areas(x, y, z);
    assert(none_flat(points, faces)) by {
        assert forall|f: int| 0 <= f < faces.len() implies !flat(points, #[trigger] faces[f]) by {
            assert(f == 0 || f == 1 || f == 2 || f == 3 || f == 4 || f == 5 || f == 6 || f == 7);
        }
    }
    assert forall|i: int| 0 <= i < 6 implies {
        &&& #[trigger] face_volume(points, faces[0], points[i]) >= 0
        &&& face_volume(points, faces[1], points[i]) >= 0
        &&& face_volume(points, faces[2], points[i]) <= 0
        &&& face_volume(points, faces[3], points[i]) <= 0
        &&& face_volume(points, faces[4], points[i]) <= 0
        &&& face_volume(points, faces[5], points[i]) <= 0
        &&& face_volume(points, faces[6], points[i]) <= 0
        &&& face_volume(points, faces[7], points[i]) >= 0
    } by {
        let q = points[i];
        assert(i == 0 || i == 1 || i == 2 || i == 3 || i == 4 || i == 5);
        lemma_wedge_sides(x, y, z, q.x as int, q.y as int, q.z as int);
    }
    assert(convex(points, faces)) by {
        assert forall|f: int| 0 <= f < faces.len() implies one_sided(
            points,
            #[trigger] faces[f],
        ) by {
            assert(f == 0 || f == 1 || f == 2 || f == 3 || f == 4 || f == 5 || f == 6 || f == 7);
            if f == 0 || f == 1 || f == 7 {
                assert forall|i: int| 0 <= i < points.len() implies #[trigger] face_volume(
                    points,
                    faces[f],
                    points[i],
                ) >= 0 by {
                    assert(face_volume(points, faces[0], points[i]) >= 0);
                }
            } else {
                assert forall|i: int| 0 <= i < points.len() implies #[trigger] face_volume(
                    points,
                    faces[f],
                    points[i],
                ) <= 0 by {
                    assert(face_volume(points, faces[0], points[i]) >= 0);
                }
            }
        }
    }
}

} // verus!
