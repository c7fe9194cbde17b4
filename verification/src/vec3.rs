//! Three-component vectors over fixed-point scalars.
use crate::fixed::{
    add_sat, is_isqrt, isqrt, lemma_mul_fx_sign, lemma_quot_sign, mul_fx, neg_sat, quot, sat,
    sub_sat, UNIT,
};
use vstd::prelude::*;

verus! {

/// A point or a direction; each component counts millionths.
#[derive(Clone, Copy, Debug, PartialEq, Eq, Structural)]
pub struct Vec3 {
    pub x: i64,
    pub y: i64,
    pub z: i64,
}

/// The integer square root of a non-negative `n`.
pub closed spec fn spec_isqrt(n: int) -> int {
    choose|r: int| is_isqrt(n, r)
}

/// A number has at most one integer square root.
pub proof fn lemma_isqrt_unique(n: int, r1: int, r2: int)
    requires
        is_isqrt(n, r1),
        is_isqrt(n, r2),
    ensures
        r1 == r2,
{
    if r1 < r2 {
        assert((r1 + 1) * (r1 + 1) <= r2 * r2) by (nonlinear_arith)
            requires
                0 <= r1,
                r1 + 1 <= r2,
        ;
    } else if r2 < r1 {
        assert((r2 + 1) * (r2 + 1) <= r1 * r1) by (nonlinear_arith)
            requires
                0 <= r2,
                r2 + 1 <= r1,
        ;
    }
}

/// Whatever satisfies `is_isqrt` is the integer square root.
pub proof fn lemma_isqrt_is(n: int, r: int)
    requires
        is_isqrt(n, r),
    ensures
        spec_isqrt(n) == r,
{
    lemma_isqrt_unique(n, r, spec_isqrt(n));
}

/// Every non-negative number has an integer square root.
pub proof fn lemma_isqrt_exists(n: nat)
    ensures
        is_isqrt(n as int, spec_isqrt(n as int)),
    decreases n,
{
    if n == 0 {
        assert(is_isqrt(0, 0));
    } else {
        lemma_isqrt_exists((n - 1) as nat);
        let r = spec_isqrt(n - 1);
        if (r + 1) * (r + 1) <= n {
            assert(n < (r + 2) * (r + 2)) by (nonlinear_arith)
                requires
                    n - 1 < (r + 1) * (r + 1),
                    0 <= r,
            ;
            assert(is_isqrt(n as int, r + 1));
        } else {
            assert(is_isqrt(n as int, r));
        }
    }
}

impl Vec3 {
    /// The vector with all components zero.
    pub open spec fn zero() -> Vec3 {
        Vec3 { x: 0, y: 0, z: 0 }
    }

    pub open spec fn spec_plus(self, o: Vec3) -> Vec3 {
        Vec3 { x: add_sat(self.x, o.x), y: add_sat(self.y, o.y), z: add_sat(self.z, o.z) }
    }

    pub open spec fn spec_minus(self, o: Vec3) -> Vec3 {
        Vec3 { x: sub_sat(self.x, o.x), y: sub_sat(self.y, o.y), z: sub_sat(self.z, o.z) }
    }

    pub open spec fn spec_negated(self) -> Vec3 {
        Vec3 { x: neg_sat(self.x), y: neg_sat(self.y), z: neg_sat(self.z) }
    }

    pub open spec fn spec_scaled(self, k: i64) -> Vec3 {
        Vec3 { x: mul_fx(self.x, k), y: mul_fx(self.y, k), z: mul_fx(self.z, k) }
    }

    pub open spec fn spec_dot(self, o: Vec3) -> i64 {
        add_sat(add_sat(mul_fx(self.x, o.x), mul_fx(self.y, o.y)), mul_fx(self.z, o.z))
    }

    pub open spec fn spec_cross(self, o: Vec3) -> Vec3 {
        Vec3 {
            x: sub_sat(mul_fx(self.y, o.z), mul_fx(self.z, o.y)),
            y: sub_sat(mul_fx(self.z, o.x), mul_fx(self.x, o.z)),
            z: sub_sat(mul_fx(self.x, o.y), mul_fx(self.y, o.x)),
        }
    }

    pub open spec fn spec_horizontal(self) -> Vec3 {
        Vec3 { x: self.x, y: 0, z: self.z }
    }

    /// The vector turned about the vertical axis by the angle whose cosine
    /// and sine are given.
    pub open spec fn spec_rotated_y(self, cos: i64, sin: i64) -> Vec3 {
        Vec3 {
            x: add_sat(mul_fx(cos, self.x), mul_fx(sin, self.z)),
            y: self.y,
            z: add_sat(mul_fx(neg_sat(sin), self.x), mul_fx(cos, self.z)),
        }
    }

    /// The exact sum of the squares of the raw components.
    pub open spec fn norm_sq(self) -> int {
        self.x * self.x + self.y * self.y + self.z * self.z
    }

    /// The raw length, rounded down.
    pub open spec fn spec_length(self) -> int {
        spec_isqrt(self.norm_sq())
    }

    /// The exact square of the raw distance between two points.
    pub open spec fn dist_sq(self, o: Vec3) -> int {
        (self.x - o.x) * (self.x - o.x) + (self.y - o.y) * (self.y - o.y) + (self.z - o.z) * (
        self.z - o.z)
    }

    /// Whether the distance between two points is more than `eps`.
    pub open spec fn spec_farther_than(self, o: Vec3, eps: i64) -> bool {
        eps < 0 || self.dist_sq(o) > eps * eps
    }

    /// The vector of length one in the same direction: each component is
    /// divided by the length. The zero vector has no direction.
    pub open spec fn spec_normalized(self) -> Option<Vec3> {
        if self == Vec3::zero() {
            None
        } else {
            Some(
                Vec3 {
                    x: sat(quot(self.x * UNIT, self.spec_length())),
                    y: sat(quot(self.y * UNIT, self.spec_length())),
                    z: sat(quot(self.z * UNIT, self.spec_length())),
                },
            )
        }
    }

    pub fn new(x: i64, y: i64, z: i64) -> (r: Vec3)
        ensures
            r == (Vec3 { x, y, z }),
    {
        Vec3 { x, y, z }
    }

    /// The componentwise sum.
    #[verifier::when_used_as_spec(spec_plus)]
    pub fn plus(self, o: Vec3) -> (r: Vec3)
        ensures
            r == self.spec_plus(o),
    {
        Vec3 { x: add_sat(self.x, o.x), y: add_sat(self.y, o.y), z: add_sat(self.z, o.z) }
    }

    /// The componentwise difference.
    #[verifier::when_used_as_spec(spec_minus)]
    pub fn minus(self, o: Vec3) -> (r: Vec3)
        ensures
            r == self.spec_minus(o),
    {
        Vec3 { x: sub_sat(self.x, o.x), y: sub_sat(self.y, o.y), z: sub_sat(self.z, o.z) }
    }

    /// The opposite vector.
    #[verifier::when_used_as_spec(spec_negated)]
    pub fn negated(self) -> (r: Vec3)
        ensures
            r == self.spec_negated(),
    {
        Vec3 { x: neg_sat(self.x), y: neg_sat(self.y), z: neg_sat(self.z) }
    }

    /// Each component times the fixed-point scalar `k`.
    #[verifier::when_used_as_spec(spec_scaled)]
    pub fn scaled(self, k: i64) -> (r: Vec3)
        ensures
            r == self.spec_scaled(k),
    {
        Vec3 { x: mul_fx(self.x, k), y: mul_fx(self.y, k), z: mul_fx(self.z, k) }
    }

    /// The dot product, each product rounded on its own.
    #[verifier::when_used_as_spec(spec_dot)]
    pub fn dot(self, o: Vec3) -> (r: i64)
        ensures
            r == self.spec_dot(o),
    {
        add_sat(add_sat(mul_fx(self.x, o.x), mul_fx(self.y, o.y)), mul_fx(self.z, o.z))
    }

    /// The cross product, each product rounded on its own.
    #[verifier::when_used_as_spec(spec_cross)]
    pub fn cross(self, o: Vec3) -> (r: Vec3)
        ensures
            r == self.spec_cross(o),
    {
        Vec3 {
            x: sub_sat(mul_fx(self.y, o.z), mul_fx(self.z, o.y)),
            y: sub_sat(mul_fx(self.z, o.x), mul_fx(self.x, o.z)),
            z: sub_sat(mul_fx(self.x, o.y), mul_fx(self.y, o.x)),
        }
    }

    /// The projection onto the horizontal plane.
    #[verifier::when_used_as_spec(spec_horizontal)]
    pub fn horizontal(self) -> (r: Vec3)
        ensures
            r == self.spec_horizontal(),
    {
        Vec3 { x: self.x, y: 0, z: self.z }
    }

    /// The vector turned about the vertical axis by the angle whose cosine
    /// and sine are given.
    #[verifier::when_used_as_spec(spec_rotated_y)]
    pub fn rotated_y(self, cos: i64, sin: i64) -> (r: Vec3)
        ensures
            r == self.spec_rotated_y(cos, sin),
    {
        Vec3 {
            x: add_sat(mul_fx(cos, self.x), mul_fx(sin, self.z)),
            y: self.y,
            z: add_sat(mul_fx(neg_sat(sin), self.x), mul_fx(cos, self.z)),
        }
    }

    /// The raw length, rounded down.
    pub fn length(self) -> (r: u64)
        ensures
            r == self.spec_length(),
            is_isqrt(self.norm_sq(), r as int),
            r == 0 <==> self == Vec3::zero(),
            r >= self.x && r >= -self.x,
            r >= self.y && r >= -self.y,
            r >= self.z && r >= -self.z,
    {
        let ax: u128 = abs_wide(self.x);
        let ay: u128 = abs_wide(self.y);
        let az: u128 = abs_wide(self.z);
        proof {
            lemma_square_fits(ax);
            lemma_square_fits(ay);
            lemma_square_fits(az);
            lemma_square_of_abs(self.x, ax);
            lemma_square_of_abs(self.y, ay);
            lemma_square_of_abs(self.z, az);
        }
        let n: u128 = ax * ax + ay * ay + az * az;
        let r = isqrt(n);
        proof {
            lemma_isqrt_is(n as int, r as int);
            lemma_root_dominates(n as int, r as int, ax as int, ay * ay + az * az);
            lemma_root_dominates(n as int, r as int, ay as int, ax * ax + az * az);
            lemma_root_dominates(n as int, r as int, az as int, ax * ax + ay * ay);
            if self == Vec3::zero() {
                assert(ax * ax + ay * ay + az * az == 0) by (nonlinear_arith)
                    requires
                        ax == 0,
                        ay == 0,
                        az == 0,
                ;
                assert(r == 0) by (nonlinear_arith)
                    requires
                        r * r <= 0,
                ;
            }
        }
        r
    }

    /// The vector of length one in the same direction, or `None` for the
    /// zero vector.
    #[verifier::when_used_as_spec(spec_normalized)]
    pub fn normalized(self) -> (r: Option<Vec3>)
        ensures
            r == self.spec_normalized(),
            r is None <==> self == Vec3::zero(),
            r is Some ==> -UNIT <= r->0.x <= UNIT && -UNIT <= r->0.y <= UNIT && -UNIT <= r->0.z
                <= UNIT,
    {
        let len = self.length();
        if len == 0 {
            None
        } else {
            Some(
                Vec3 {
                    x: unit_part(self.x, len),
                    y: unit_part(self.y, len),
                    z: unit_part(self.z, len),
                },
            )
        }
    }

    /// Whether the distance between two points is more than `eps`.
    #[verifier::when_used_as_spec(spec_farther_than)]
    pub fn farther_than(self, o: Vec3, eps: i64) -> (r: bool)
        ensures
            r == self.spec_farther_than(o, eps),
    {
        if eps < 0 {
            return true;
        }
        let e: u128 = eps as u128;
        let dx: u128 = gap(self.x, o.x);
        let dy: u128 = gap(self.y, o.y);
        let dz: u128 = gap(self.z, o.z);
        proof {
            lemma_square_of_gap(self.x, o.x, dx);
            lemma_square_of_gap(self.y, o.y, dy);
            lemma_square_of_gap(self.z, o.z, dz);
            lemma_square_monotone(e as int, dx as int);
            lemma_square_monotone(e as int, dy as int);
            lemma_square_monotone(e as int, dz as int);
            lemma_square_fits(e);
        }
        if dx > e || dy > e || dz > e {
            return true;
        }
        proof {
            lemma_square_fits(dx);
            lemma_square_fits(dy);
            lemma_square_fits(dz);
        }
        dx * dx + dy * dy + dz * dz > e * e
    }
}

/// The length of a vector other than zero is positive.
pub proof fn lemma_length_positive(v: Vec3)
    requires
        v != Vec3::zero(),
    ensures
        v.spec_length() > 0,
{
    assert(v.norm_sq() >= 1) by (nonlinear_arith)
        requires
            v.norm_sq() == v.x * v.x + v.y * v.y + v.z * v.z,
            v.x != 0 || v.y != 0 || v.z != 0,
    ;
    lemma_isqrt_exists(v.norm_sq() as nat);
}

/// Each component of a normalized vector has the sign of the component it
/// came from.
pub proof fn lemma_normalized_sign(v: Vec3)
    requires
        v != Vec3::zero(),
    ensures
        v.normalized() is Some,
        v.x >= 0 ==> v.normalized()->0.x >= 0,
        v.x <= 0 ==> v.normalized()->0.x <= 0,
        v.y >= 0 ==> v.normalized()->0.y >= 0,
        v.y <= 0 ==> v.normalized()->0.y <= 0,
        v.z >= 0 ==> v.normalized()->0.z >= 0,
        v.z <= 0 ==> v.normalized()->0.z <= 0,
{
    lemma_length_positive(v);
    lemma_quot_sign(v.x * UNIT, v.spec_length());
    lemma_quot_sign(v.y * UNIT, v.spec_length());
    lemma_quot_sign(v.z * UNIT, v.spec_length());
}

/// Scaling by a non-negative factor keeps the sign of each component.
pub proof fn lemma_scaled_sign(v: Vec3, k: i64)
    requires
        k >= 0,
    ensures
        v.x >= 0 ==> v.scaled(k).x >= 0,
        v.x <= 0 ==> v.scaled(k).x <= 0,
        v.y >= 0 ==> v.scaled(k).y >= 0,
        v.y <= 0 ==> v.scaled(k).y <= 0,
        v.z >= 0 ==> v.scaled(k).z >= 0,
        v.z <= 0 ==> v.scaled(k).z <= 0,
{
    lemma_mul_fx_sign(v.x, k);
    lemma_mul_fx_sign(v.y, k);
    lemma_mul_fx_sign(v.z, k);
}

/// The magnitude of `a`.
fn abs_wide(a: i64) -> (r: u128)
    ensures
        r == if a >= 0 {
            a as int
        } else {
            -a
        },
        r <= 0x8000_0000_0000_0000,
{
    if a >= 0 {
        a as u128
    } else {
        (-(a as i128)) as u128
    }
}

/// The magnitude of `a - b`.
fn gap(a: i64, b: i64) -> (r: u128)
    ensures
        r == if a >= b {
            a - b
        } else {
            b - a
        },
{
    let d: i128 = a as i128 - b as i128;
    if d >= 0 {
        d as u128
    } else {
        (-d) as u128
    }
}

/// One component of a vector divided by the vector's length.
fn unit_part(c: i64, len: u64) -> (r: i64)
    requires
        len > 0,
        len >= c,
        len >= -c,
    ensures
        r == sat(quot(c * UNIT, len as int)),
        -UNIT <= r <= UNIT,
{
    let unit: i128 = UNIT as i128;
    let n: i128 = c as i128 * unit;
    let l: i128 = len as i128;
    proof {
        lemma_ratio_bounded(if c >= 0 {
            n as int
        } else {
            -n
        }, l as int, UNIT as int);
    }
    if n >= 0 {
        (n / l) as i64
    } else {
        let m: i128 = (-n) / l;
        (-m) as i64
    }
}

proof fn lemma_ratio_bounded(n: int, d: int, k: int)
    by (nonlinear_arith)
    requires
        0 <= n <= d * k,
        0 < d,
        0 <= k,
    ensures
        0 <= n / d <= k,
{
}

proof fn lemma_square_fits(a: u128)
    by (nonlinear_arith)
    requires
        a <= 0x8000_0000_0000_0000,
    ensures
        a * a <= 0x4000_0000_0000_0000_0000_0000_0000_0000,
{
}

proof fn lemma_square_of_abs(a: i64, m: u128)
    by (nonlinear_arith)
    requires
        m == if a >= 0 {
            a as int
        } else {
            -a
        },
    ensures
        m * m == a * a,
{
}

proof fn lemma_square_of_gap(a: i64, b: i64, m: u128)
    by (nonlinear_arith)
    requires
        m == if a >= b {
            a - b
        } else {
            b - a
        },
    ensures
        m * m == (a - b) * (a - b),
{
}

proof fn lemma_square_monotone(a: int, b: int)
    by (nonlinear_arith)
    requires
        0 <= a,
        0 <= b,
    ensures
        a < b ==> a * a < b * b,
        a <= b ==> a * a <= b * b,
        0 <= a * a,
{
}

/// A root of `n` is at least any `a` whose square is at most `n`.
proof fn lemma_root_dominates(n: int, r: int, a: int, rest: int)
    by (nonlinear_arith)
    requires
        is_isqrt(n, r),
        0 <= a,
        0 <= rest,
        n == a * a + rest,
    ensures
        a <= r,
{
}

} // verus!
