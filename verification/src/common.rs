//! Shared data structures and utility functions used across the crate.
//!
//! Continuous quantities are fixed-point integers in thousandths of a
//! physical unit (see [`crate::constants`]); times are millisecond counts.

use vstd::prelude::*;
use vstd::arithmetic::div_mod::*;
use crate::config::ConfigError;
use crate::constants::VEC_LIMIT;

verus! {

/// Restricts `value` to the closed interval `[min, max]`.
pub fn clamp(value: i64, min: i64, max: i64) -> (r: i64)
    requires
        min <= max,
    ensures
        r == clamp_spec(value as int, min as int, max as int),
        min <= r <= max,
{
    if value < min {
        min
    } else if value > max {
        max
    } else {
        value
    }
}

/// Mathematical meaning of [`clamp`].
pub open spec fn clamp_spec(value: int, min: int, max: int) -> int {
    if value < min {
        min
    } else if value > max {
        max
    } else {
        value
    }
}

/// Truncating (round-toward-zero) division, the semantics of Rust's `/` on
/// signed integers, expressed over mathematical integers with a positive
/// divisor.
pub open spec fn tdiv(a: int, b: int) -> int
    recommends
        b > 0,
{
    if a >= 0 {
        a / b
    } else {
        -((-a) / b)
    }
}

/// Truncating division of 128-bit values with a positive divisor.
pub fn div_trunc(a: i128, b: i128) -> (r: i128)
    requires
        b > 0,
        a > i128::MIN,
    ensures
        r == tdiv(a as int, b as int),
{
    if a >= 0 {
        let q: u128 = (a as u128) / (b as u128);
        proof {
            lemma_div_nonincreasing(a as int, b as int);
        }
        q as i128
    } else {
        let m: u128 = (-a) as u128;
        let q: u128 = m / (b as u128);
        proof {
            lemma_div_nonincreasing(m as int, b as int);
        }
        -(q as i128)
    }
}

/// Truncating division shrinks magnitude and keeps sign.
pub proof fn lemma_tdiv_bounds(a: int, b: int)
    requires
        b > 0,
    ensures
        a >= 0 ==> 0 <= tdiv(a, b) <= a,
        a < 0 ==> a <= tdiv(a, b) <= 0,
{
    if a >= 0 {
        lemma_div_nonincreasing(a, b);
        lemma_div_pos_is_pos(a, b);
    } else {
        lemma_div_nonincreasing(-a, b);
        lemma_div_pos_is_pos(-a, b);
    }
}

/// Bounded factors give a bounded product.
pub proof fn lemma_mul_bounds(a: int, b: int, m: int)
    requires
        -m <= a <= m,
        -m <= b <= m,
        m >= 0,
    ensures
        -(m * m) <= a * b <= m * m,
{
    assert(-(m * m) <= a * b <= m * m) by (nonlinear_arith)
        requires
            -m <= a <= m,
            -m <= b <= m,
            m >= 0,
    ;
}

/// Integer square root: the largest `r` with `r * r <= n`.
pub open spec fn isqrt_spec(n: nat) -> nat
    decreases n,
{
    if n == 0 {
        0
    } else {
        let r = isqrt_spec((n - 1) as nat);
        if (r + 1) * (r + 1) <= n {
            r + 1
        } else {
            r
        }
    }
}

/// The defining bounds of [`isqrt_spec`].
pub proof fn lemma_isqrt_bounds(n: nat)
    ensures
        isqrt_spec(n) * isqrt_spec(n) <= n,
        n < (isqrt_spec(n) + 1) * (isqrt_spec(n) + 1),
    decreases n,
{
    if n > 0 {
        lemma_isqrt_bounds((n - 1) as nat);
        let r = isqrt_spec((n - 1) as nat);
        let s = isqrt_spec(n);
        if (r + 1) * (r + 1) <= n {
            assert(s == r + 1);
            assert(n <= (r + 1) * (r + 1)) by {
                assert(n - 1 < (r + 1) * (r + 1));
            }
            assert((r + 1) * (r + 1) < (r + 2) * (r + 2)) by (nonlinear_arith);
            assert(s * s <= n);
            assert(n < (s + 1) * (s + 1));
        } else {
            assert(s == r);
            assert(r * r <= n);
            assert(s * s <= n);
            assert(n < (s + 1) * (s + 1));
        }
    } else {
        assert(isqrt_spec(0) == 0);
        assert(isqrt_spec(n) * isqrt_spec(n) <= n);
        assert(n < (isqrt_spec(n) + 1) * (isqrt_spec(n) + 1)) by (nonlinear_arith)
            requires
                n == 0,
                isqrt_spec(n) == 0,
        ;
    }
}

/// Any `r` satisfying the square-root bounds is `isqrt_spec(n)`.
pub proof fn lemma_isqrt_unique(n: nat, r: nat)
    requires
        r * r <= n,
        n < (r + 1) * (r + 1),
    ensures
        r == isqrt_spec(n),
{
    lemma_isqrt_bounds(n);
    let s = isqrt_spec(n);
    if r < s {
        assert(false) by (nonlinear_arith)
            requires
                r < s,
                s * s <= n,
                n < (r + 1) * (r + 1),
        ;
    }
    if s < r {
        assert(false) by (nonlinear_arith)
            requires
                s < r,
                r * r <= n,
                n < (s + 1) * (s + 1),
        ;
    }
}

/// Integer square root of a 128-bit value, by binary search.
pub fn isqrt(n: u128) -> (r: u128)
    ensures
        r == isqrt_spec(n as nat),
{
    let mut lo: u128 = 0;
    let mut hi: u128 = 0xFFFF_FFFF_FFFF_FFFF;
    if n < hi {
        hi = n;
    }
    proof {
        if n <= 0xFFFF_FFFF_FFFF_FFFF {
            assert(n < (n + 1) * (n + 1)) by (nonlinear_arith);
        } else {
            assert(n < (0xFFFF_FFFF_FFFF_FFFFu128 + 1) * (0xFFFF_FFFF_FFFF_FFFFu128 + 1)) by (
            nonlinear_arith)
                requires
                    n <= u128::MAX,
            ;
        }
    }
    while lo < hi
        invariant
            lo <= hi,
            hi <= 0xFFFF_FFFF_FFFF_FFFF,
            lo * lo <= n,
            n < (hi + 1) * (hi + 1),
        decreases hi - lo,
    {
        let mid: u128 = lo + (hi - lo + 1) / 2;
        proof {
            assert(mid * mid <= 0xFFFF_FFFF_FFFF_FFFFu128 * 0xFFFF_FFFF_FFFF_FFFFu128) by (
            nonlinear_arith)
                requires
                    0 <= mid <= 0xFFFF_FFFF_FFFF_FFFFu128,
            ;
        }
        if mid * mid <= n {
            lo = mid;
        } else {
            hi = mid - 1;
        }
    }
    proof {
        lemma_isqrt_unique(n as nat, lo as nat);
    }
    lo
}

/// Relies on `std::time::SystemTime::now`: the current wall-clock time,
/// converted to whole milliseconds since the Unix epoch.
#[verifier::external_body]
pub fn current_timestamp() -> u64 {
    std::time::SystemTime::now()
        .duration_since(std::time::UNIX_EPOCH)
        .unwrap_or_default()
        .as_millis() as u64
}

/// Relies on `std::time::SystemTime::now`: the current wall-clock time,
/// converted to whole microseconds since the Unix epoch.
#[verifier::external_body]
pub fn current_timestamp_micros() -> u64 {
    std::time::SystemTime::now()
        .duration_since(std::time::UNIX_EPOCH)
        .unwrap_or_default()
        .as_micros() as u64
}


/// Scales one component of a vector of length `m` onto the unit sphere in
/// thousandths.
fn unit_component(c: i64, m: u64) -> (r: i64)
    requires
        m > 0,
        -(m as int) <= c <= m as int,
    ensures
        r == tdiv(c * 1000, m as int),
        -1000 <= r <= 1000,
{
    proof {
        lemma_tdiv_bounds(c * 1000, m as int);
        if c >= 0 {
            lemma_div_is_ordered(c * 1000, (m as int) * 1000, m as int);
            lemma_div_multiples_vanish(1000, m as int);
        } else {
            lemma_div_is_ordered((-c) * 1000, (m as int) * 1000, m as int);
            lemma_div_multiples_vanish(1000, m as int);
        }
    }
    div_trunc((c as i128) * 1000, m as i128) as i64
}

/// A three-dimensional vector with components in thousandths of a unit.
#[derive(Debug, Clone, Copy, PartialEq, Eq, Structural)]
pub struct Vector3 {
    pub x: i64,
    pub y: i64,
    pub z: i64,
}

/// Components within the range accepted by the vector operations.
pub open spec fn vec3_bounded(v: Vector3) -> bool {
    &&& -VEC_LIMIT <= v.x <= VEC_LIMIT
    &&& -VEC_LIMIT <= v.y <= VEC_LIMIT
    &&& -VEC_LIMIT <= v.z <= VEC_LIMIT
}

impl Vector3 {
    /// A vector from its three components.
    pub fn new(x: i64, y: i64, z: i64) -> (r: Self)
        ensures
            r == (Vector3 { x, y, z }),
    {
        Vector3 { x, y, z }
    }

    /// The zero vector.
    pub fn zero() -> (r: Self)
        ensures
            r == (Vector3 { x: 0i64, y: 0i64, z: 0i64 }),
    {
        Vector3 { x: 0, y: 0, z: 0 }
    }

    /// Componentwise sum.
    pub fn add(&self, other: &Self) -> (r: Self)
        requires
            vec3_bounded(*self),
            vec3_bounded(*other),
        ensures
            r.x == self.x + other.x,
            r.y == self.y + other.y,
            r.z == self.z + other.z,
    {
        Vector3 { x: self.x + other.x, y: self.y + other.y, z: self.z + other.z }
    }

    /// Componentwise difference.
    pub fn sub(&self, other: &Self) -> (r: Self)
        requires
            vec3_bounded(*self),
            vec3_bounded(*other),
        ensures
            r.x == self.x - other.x,
            r.y == self.y - other.y,
            r.z == self.z - other.z,
    {
        Vector3 { x: self.x - other.x, y: self.y - other.y, z: self.z - other.z }
    }

    /// Scales every component by `factor`, itself in thousandths.
    pub fn scale(&self, factor: i64) -> (r: Self)
        requires
            vec3_bounded(*self),
            -VEC_LIMIT <= factor <= VEC_LIMIT,
        ensures
            r.x == tdiv(self.x * factor, 1000),
            r.y == tdiv(self.y * factor, 1000),
            r.z == tdiv(self.z * factor, 1000),
    {
        proof {
            lemma_mul_bounds(self.x as int, factor as int, VEC_LIMIT as int);
            lemma_mul_bounds(self.y as int, factor as int, VEC_LIMIT as int);
            lemma_mul_bounds(self.z as int, factor as int, VEC_LIMIT as int);
            lemma_tdiv_bounds(self.x * factor, 1000);
            lemma_tdiv_bounds(self.y * factor, 1000);
            lemma_tdiv_bounds(self.z * factor, 1000);
        }
        Vector3 {
            x: div_trunc((self.x as i128) * (factor as i128), 1000) as i64,
            y: div_trunc((self.y as i128) * (factor as i128), 1000) as i64,
            z: div_trunc((self.z as i128) * (factor as i128), 1000) as i64,
        }
    }

    /// Euclidean length, in thousandths of a unit (rounded down).
    pub fn magnitude(&self) -> (r: u64)
        ensures
            r == isqrt_spec((self.x * self.x + self.y * self.y + self.z * self.z) as nat),
    {
        proof {
            let m: int = 0x8000_0000_0000_0000;
            lemma_mul_bounds(self.x as int, self.x as int, m);
            lemma_mul_bounds(self.y as int, self.y as int, m);
            lemma_mul_bounds(self.z as int, self.z as int, m);
            assert(self.x * self.x >= 0) by (nonlinear_arith);
            assert(self.y * self.y >= 0) by (nonlinear_arith);
            assert(self.z * self.z >= 0) by (nonlinear_arith);
        }
        let xx: u128 = ((self.x as i128) * (self.x as i128)) as u128;
        let yy: u128 = ((self.y as i128) * (self.y as i128)) as u128;
        let zz: u128 = ((self.z as i128) * (self.z as i128)) as u128;
        let s: u128 = xx + yy + zz;
        let r = isqrt(s);
        proof {
            lemma_isqrt_bounds(s as nat);
            let m: int = 0x8000_0000_0000_0000;
            assert(r <= u64::MAX) by (nonlinear_arith)
                requires
                    r * r <= s,
                    0 <= s <= 3 * m * m,
            ;
        }
        r as u64
    }

    /// Dot product, in thousandths of a squared unit.
    pub fn dot(&self, other: &Self) -> (r: i64)
        requires
            vec3_bounded(*self),
            vec3_bounded(*other),
        ensures
            r == tdiv(self.x * other.x + self.y * other.y + self.z * other.z, 1000),
    {
        proof {
            lemma_mul_bounds(self.x as int, other.x as int, VEC_LIMIT as int);
            lemma_mul_bounds(self.y as int, other.y as int, VEC_LIMIT as int);
            lemma_mul_bounds(self.z as int, other.z as int, VEC_LIMIT as int);
            lemma_tdiv_bounds(
                self.x * other.x + self.y * other.y + self.z * other.z,
                1000,
            );
        }
        let s: i128 = (self.x as i128) * (other.x as i128) + (self.y as i128) * (other.y as i128)
            + (self.z as i128) * (other.z as i128);
        div_trunc(s, 1000) as i64
    }


    /// The unit vector in the same direction, in thousandths; the zero
    /// vector stays zero.
    pub fn normalize(&self) -> (r: Self)
        ensures
            ({
                let m = isqrt_spec(
                    (self.x * self.x + self.y * self.y + self.z * self.z) as nat,
                );
                if m == 0 {
                    r == (Vector3 { x: 0i64, y: 0i64, z: 0i64 })
                } else {
                    &&& r.x == tdiv(self.x * 1000, m as int)
                    &&& r.y == tdiv(self.y * 1000, m as int)
                    &&& r.z == tdiv(self.z * 1000, m as int)
                    &&& -1000 <= r.x <= 1000
                    &&& -1000 <= r.y <= 1000
                    &&& -1000 <= r.z <= 1000
                }
            }),
    {
        let m = self.magnitude();
        if m == 0 {
            Vector3::zero()
        } else {
            proof {
                let sum: int = self.x * self.x + self.y * self.y + self.z * self.z;
                assert(self.x * self.x >= 0 && self.y * self.y >= 0 && self.z * self.z >= 0) by (
                nonlinear_arith);
                lemma_isqrt_bounds(sum as nat);
                assert(self.x * self.x <= sum);
                assert(self.y * self.y <= sum);
                assert(self.z * self.z <= sum);
                assert(-(m as int) <= self.x <= m as int) by (nonlinear_arith)
                    requires
                        self.x * self.x <= sum,
                        (m as int) * (m as int) <= sum,
                        sum < (m + 1) * (m + 1),
                        m >= 0,
                ;
                assert(-(m as int) <= self.y <= m as int) by (nonlinear_arith)
                    requires
                        self.y * self.y <= sum,
                        (m as int) * (m as int) <= sum,
                        sum < (m + 1) * (m + 1),
                        m >= 0,
                ;
                assert(-(m as int) <= self.z <= m as int) by (nonlinear_arith)
                    requires
                        self.z * self.z <= sum,
                        (m as int) * (m as int) <= sum,
                        sum < (m + 1) * (m + 1),
                        m >= 0,
                ;
            }
            Vector3 {
                x: unit_component(self.x, m),
                y: unit_component(self.y, m),
                z: unit_component(self.z, m),
            }
        }
    }

    /// Cross product, in thousandths of a squared unit.
    pub fn cross(&self, other: &Self) -> (r: Self)
        requires
            vec3_bounded(*self),
            vec3_bounded(*other),
        ensures
            r.x == tdiv(self.y * other.z - self.z * other.y, 1000),
            r.y == tdiv(self.z * other.x - self.x * other.z, 1000),
            r.z == tdiv(self.x * other.y - self.y * other.x, 1000),
    {
        proof {
            lemma_mul_bounds(self.y as int, other.z as int, VEC_LIMIT as int);
            lemma_mul_bounds(self.z as int, other.y as int, VEC_LIMIT as int);
            lemma_mul_bounds(self.z as int, other.x as int, VEC_LIMIT as int);
            lemma_mul_bounds(self.x as int, other.z as int, VEC_LIMIT as int);
            lemma_mul_bounds(self.x as int, other.y as int, VEC_LIMIT as int);
            lemma_mul_bounds(self.y as int, other.x as int, VEC_LIMIT as int);
            lemma_tdiv_bounds(self.y * other.z - self.z * other.y, 1000);
            lemma_tdiv_bounds(self.z * other.x - self.x * other.z, 1000);
            lemma_tdiv_bounds(self.x * other.y - self.y * other.x, 1000);
        }
        Vector3 {
            x: div_trunc(
                (self.y as i128) * (other.z as i128) - (self.z as i128) * (other.y as i128),
                1000,
            ) as i64,
            y: div_trunc(
                (self.z as i128) * (other.x as i128) - (self.x as i128) * (other.z as i128),
                1000,
            ) as i64,
            z: div_trunc(
                (self.x as i128) * (other.y as i128) - (self.y as i128) * (other.x as i128),
                1000,
            ) as i64,
        }
    }
}

/// A rotation as a quaternion with components in thousandths.
#[derive(Debug, Clone, Copy, PartialEq, Eq, Structural)]
pub struct Quaternion {
    pub w: i64,
    pub x: i64,
    pub y: i64,
    pub z: i64,
}

impl Quaternion {
    /// A quaternion from its four components.
    pub fn new(w: i64, x: i64, y: i64, z: i64) -> (r: Self)
        ensures
            r == (Quaternion { w, x, y, z }),
    {
        Quaternion { w, x, y, z }
    }

    /// The identity rotation.
    pub fn identity() -> (r: Self)
        ensures
            r == (Quaternion { w: 1000i64, x: 0i64, y: 0i64, z: 0i64 }),
    {
        Quaternion { w: 1000, x: 0, y: 0, z: 0 }
    }

    /// The unit quaternion with the same orientation, in thousandths; a
    /// degenerate all-zero quaternion becomes the identity.
    pub fn normalize(&self) -> (r: Self)
        requires
            -crate::constants::MAG_LIMIT <= self.w <= crate::constants::MAG_LIMIT,
            -crate::constants::MAG_LIMIT <= self.x <= crate::constants::MAG_LIMIT,
            -crate::constants::MAG_LIMIT <= self.y <= crate::constants::MAG_LIMIT,
            -crate::constants::MAG_LIMIT <= self.z <= crate::constants::MAG_LIMIT,
        ensures
            ({
                let m = isqrt_spec(
                    (self.w * self.w + self.x * self.x + self.y * self.y + self.z * self.z) as nat,
                );
                if m == 0 {
                    r == (Quaternion { w: 1000i64, x: 0i64, y: 0i64, z: 0i64 })
                } else {
                    &&& r.w == tdiv(self.w * 1000, m as int)
                    &&& r.x == tdiv(self.x * 1000, m as int)
                    &&& r.y == tdiv(self.y * 1000, m as int)
                    &&& r.z == tdiv(self.z * 1000, m as int)
                }
            }),
    {
        proof {
            let mm: int = crate::constants::MAG_LIMIT as int;
            lemma_mul_bounds(self.w as int, self.w as int, mm);
            lemma_mul_bounds(self.x as int, self.x as int, mm);
            lemma_mul_bounds(self.y as int, self.y as int, mm);
            lemma_mul_bounds(self.z as int, self.z as int, mm);
            assert(self.w * self.w >= 0 && self.x * self.x >= 0 && self.y * self.y >= 0 && self.z
                * self.z >= 0) by (nonlinear_arith);
        }
        let ww: u128 = ((self.w as i128) * (self.w as i128)) as u128;
        let xx: u128 = ((self.x as i128) * (self.x as i128)) as u128;
        let yy: u128 = ((self.y as i128) * (self.y as i128)) as u128;
        let zz: u128 = ((self.z as i128) * (self.z as i128)) as u128;
        let s: u128 = ww + xx + yy + zz;
        let root = isqrt(s);
        proof {
            let mm: int = crate::constants::MAG_LIMIT as int;
            lemma_isqrt_bounds(s as nat);
            assert(root <= u64::MAX) by (nonlinear_arith)
                requires
                    root * root <= s,
                    0 <= s <= 4 * mm * mm,
            ;
        }
        let m: u64 = root as u64;
        if m == 0 {
            Quaternion::identity()
        } else {
            proof {
                let sum: int = self.w * self.w + self.x * self.x + self.y * self.y + self.z
                    * self.z;
                assert(self.w * self.w >= 0 && self.x * self.x >= 0 && self.y * self.y >= 0
                    && self.z * self.z >= 0) by (nonlinear_arith);
                lemma_isqrt_bounds(sum as nat);
                assert(self.w * self.w <= sum);
                assert(self.x * self.x <= sum);
                assert(self.y * self.y <= sum);
                assert(self.z * self.z <= sum);
                assert(-(m as int) <= self.w <= m as int) by (nonlinear_arith)
                    requires
                        self.w * self.w <= sum,
                        (m as int) * (m as int) <= sum,
                        sum < (m + 1) * (m + 1),
                        m >= 0,
                ;
                assert(-(m as int) <= self.x <= m as int) by (nonlinear_arith)
                    requires
                        self.x * self.x <= sum,
                        (m as int) * (m as int) <= sum,
                        sum < (m + 1) * (m + 1),
                        m >= 0,
                ;
                assert(-(m as int) <= self.y <= m as int) by (nonlinear_arith)
                    requires
                        self.y * self.y <= sum,
                        (m as int) * (m as int) <= sum,
                        sum < (m + 1) * (m + 1),
                        m >= 0,
                ;
                assert(-(m as int) <= self.z <= m as int) by (nonlinear_arith)
                    requires
                        self.z * self.z <= sum,
                        (m as int) * (m as int) <= sum,
                        sum < (m + 1) * (m + 1),
                        m >= 0,
                ;
            }
            Quaternion {
                w: unit_component(self.w, m),
                x: unit_component(self.x, m),
                y: unit_component(self.y, m),
                z: unit_component(self.z, m),
            }
        }
    }
}

/// A position and an orientation.
#[derive(Debug, Clone, Copy, PartialEq, Eq, Structural)]
pub struct Pose {
    pub position: Vector3,
    pub orientation: Quaternion,
}

impl Pose {
    /// A pose from its parts.
    pub fn new(position: Vector3, orientation: Quaternion) -> (r: Self)
        ensures
            r == (Pose { position, orientation }),
    {
        Pose { position, orientation }
    }

    /// The pose at the origin with no rotation.
    pub fn identity() -> (r: Self)
        ensures
            r.position == (Vector3 { x: 0i64, y: 0i64, z: 0i64 }),
            r.orientation == (Quaternion { w: 1000i64, x: 0i64, y: 0i64, z: 0i64 }),
    {
        Pose { position: Vector3::zero(), orientation: Quaternion::identity() }
    }
}

/// The most recent reading for one joint.  Position is in thousandths of a
/// degree, velocity in thousandths of a degree per second, effort in
/// thousandths of a torque unit.
#[derive(Debug, Clone)]
pub struct JointState {
    pub name: String,
    pub position: i64,
    pub velocity: i64,
    pub effort: i64,
    pub temperature: Option<i64>,
    pub is_moving: bool,
}

impl JointState {
    /// A resting joint with the given name.
    pub fn new(name: String) -> (r: Self)
        ensures
            r.name == name,
            r.position == 0,
            r.velocity == 0,
            r.effort == 0,
            (r.temperature is None),
            !r.is_moving,
    {
        JointState {
            name,
            position: 0,
            velocity: 0,
            effort: 0,
            temperature: None,
            is_moving: false,
        }
    }

    /// An exact copy of this reading.
    pub fn duplicate(&self) -> (r: Self)
        ensures
            r == *self,
    {
        JointState {
            name: self.name.clone(),
            position: self.position,
            velocity: self.velocity,
            effort: self.effort,
            temperature: self.temperature,
            is_moving: self.is_moving,
        }
    }
}

/// An exact copy of a table of joint readings.
pub fn duplicate_joint_states(states: &Vec<JointState>) -> (r: Vec<JointState>)
    ensures
        r@ == states@,
{
    let mut r: Vec<JointState> = Vec::new();
    let mut i: usize = 0;
    while i < states.len()
        invariant
            i <= states.len(),
            r@ == states@.subrange(0, i as int),
        decreases states.len() - i,
    {
        r.push(states[i].duplicate());
        proof {
            assert(r@ =~= states@.subrange(0, i + 1 as int));
        }
        i = i + 1;
    }
    proof {
        assert(states@.subrange(0, states@.len() as int) =~= states@);
    }
    r
}

/// The whole robot's pose and joint table.
#[derive(Debug, Clone)]
pub struct RobotState {
    pub joints: Vec<JointState>,
    pub base_pose: Pose,
    pub is_connected: bool,
    pub battery_level: Option<i64>,
    pub timestamp: u64,
}

impl RobotState {
    /// A disconnected robot with no joints, stamped with the current time.
    pub fn new() -> (r: Self)
        ensures
            r.joints@.len() == 0,
            r.base_pose == (Pose {
                position: Vector3 { x: 0i64, y: 0i64, z: 0i64 },
                orientation: Quaternion { w: 1000i64, x: 0i64, y: 0i64, z: 0i64 },
            }),
            !r.is_connected,
            (r.battery_level is None),
    {
        RobotState {
            joints: Vec::new(),
            base_pose: Pose::identity(),
            is_connected: false,
            battery_level: None,
            timestamp: current_timestamp(),
        }
    }

    /// Restamps the state with the current time.
    pub fn update_timestamp(&mut self) {
        self.timestamp = current_timestamp();
    }
}

/// Pixel layout of an image buffer.
#[derive(Debug, Clone, Copy, PartialEq, Eq, Structural)]
pub enum ImageFormat {
    RGB8,
    BGR8,
    RGBA8,
    BGRA8,
    Gray8,
    Gray16,
}

/// A raw image buffer with its dimensions.
#[derive(Debug, Clone)]
pub struct ImageData {
    pub width: u32,
    pub height: u32,
    pub channels: u32,
    pub data: Vec<u8>,
    pub format: ImageFormat,
    pub timestamp: u64,
}

impl ImageData {
    /// A zero-filled image of the given dimensions.
    pub fn new(width: u32, height: u32, channels: u32, format: ImageFormat) -> (r: Self)
        requires
            width * height <= u32::MAX,
            width * height * channels <= u32::MAX,
        ensures
            r.width == width,
            r.height == height,
            r.channels == channels,
            r.format == format,
            r.data@.len() == width * height * channels,
            forall|i: int| 0 <= i < r.data@.len() ==> r.data@[i] == 0u8,
    {
        let n: u32 = width * height * channels;
        let mut data: Vec<u8> = Vec::new();
        let mut i: u32 = 0;
        while i < n
            invariant
                i <= n,
                data@.len() == i,
                forall|j: int| 0 <= j < data@.len() ==> data@[j] == 0u8,
            decreases n - i,
        {
            data.push(0);
            i = i + 1;
        }
        ImageData { width, height, channels, data, format, timestamp: current_timestamp() }
    }

    /// An image wrapping an existing buffer.
    pub fn from_raw(width: u32, height: u32, channels: u32, data: Vec<u8>, format: ImageFormat)
        -> (r: Self)
        ensures
            r.width == width,
            r.height == height,
            r.channels == channels,
            r.format == format,
            r.data == data,
    {
        ImageData { width, height, channels, data, format, timestamp: current_timestamp() }
    }

    /// Number of bytes in the buffer.
    pub fn size(&self) -> (r: usize)
        ensures
            r == self.data@.len(),
    {
        self.data.len()
    }

    /// Whether the buffer length matches the declared dimensions.
    pub fn is_valid(&self) -> (r: bool)
        ensures
            r == (self.data@.len() == self.width * self.height * self.channels),
    {
        proof {
            assert((self.width as int) * (self.height as int) < 0x1_0000_0000_0000_0000) by (
            nonlinear_arith)
                requires
                    0 <= self.width < 0x1_0000_0000,
                    0 <= self.height < 0x1_0000_0000,
            ;
            assert(0 <= (self.width as int) * (self.height as int)) by (nonlinear_arith)
                requires
                    0 <= self.width,
                    0 <= self.height,
            ;
            assert(((self.width as int) * (self.height as int)) * (self.channels as int)
                < 0x1_0000_0000_0000_0000_0000_0000) by (nonlinear_arith)
                requires
                    0 <= (self.width as int) * (self.height as int) < 0x1_0000_0000_0000_0000,
                    0 <= self.channels < 0x1_0000_0000,
            ;
            assert(0 <= ((self.width as int) * (self.height as int)) * (self.channels as int)) by (
            nonlinear_arith)
                requires
                    0 <= (self.width as int) * (self.height as int),
                    0 <= self.channels,
            ;
        }
        let expected: u128 = (self.width as u128) * (self.height as u128) * (self.channels
            as u128);
        (self.data.len() as u128) == expected
    }
}

/// Rolling processing-time statistics for a periodic task.  Times are in
/// microseconds; `fps` is in thousandths of a frame per second.
#[derive(Debug, Clone, Copy)]
pub struct PerformanceStats {
    pub fps: u64,
    pub avg_processing_time: u64,
    pub max_processing_time: u64,
    pub min_processing_time: u64,
    pub total_frames: u64,
    pub dropped_frames: u64,
    pub cpu_usage: u64,
    pub memory_usage: u64,
    pub timestamp: u64,
}

impl PerformanceStats {
    /// Fresh statistics with no frames recorded.
    pub fn new() -> (r: Self)
        ensures
            r.fps == 0,
            r.avg_processing_time == 0,
            r.max_processing_time == 0,
            r.min_processing_time == u64::MAX,
            r.total_frames == 0,
            r.dropped_frames == 0,
            r.cpu_usage == 0,
            r.memory_usage == 0,
    {
        PerformanceStats {
            fps: 0,
            avg_processing_time: 0,
            max_processing_time: 0,
            min_processing_time: u64::MAX,
            total_frames: 0,
            dropped_frames: 0,
            cpu_usage: 0,
            memory_usage: 0,
            timestamp: current_timestamp(),
        }
    }

    /// Folds one frame's processing time (microseconds) into the statistics:
    /// the frame counter saturates at its maximum, the average is an
    /// exponential moving average with weight one tenth, and `fps` is the
    /// reciprocal of the average.
    pub fn update_frame_stats(&mut self, processing_time: u64)
        ensures
            final(self).total_frames == if old(self).total_frames < u64::MAX {
                old(self).total_frames + 1
            } else {
                u64::MAX as int
            },
            final(self).max_processing_time == if processing_time > old(
                self,
            ).max_processing_time {
                processing_time
            } else {
                old(self).max_processing_time
            },
            final(self).min_processing_time == if processing_time < old(
                self,
            ).min_processing_time {
                processing_time
            } else {
                old(self).min_processing_time
            },
            final(self).avg_processing_time == (old(self).avg_processing_time * 9
                + processing_time) / 10,
            final(self).fps == if final(self).avg_processing_time > 0 {
                1_000_000_000int / final(self).avg_processing_time as int
            } else {
                old(self).fps as int
            },
            final(self).dropped_frames == old(self).dropped_frames,
            final(self).cpu_usage == old(self).cpu_usage,
            final(self).memory_usage == old(self).memory_usage,
    {
        if self.total_frames < u64::MAX {
            self.total_frames = self.total_frames + 1;
        }
        if processing_time > self.max_processing_time {
            self.max_processing_time = processing_time;
        }
        if processing_time < self.min_processing_time {
            self.min_processing_time = processing_time;
        }
        let avg: u128 = ((self.avg_processing_time as u128) * 9 + (processing_time as u128)) / 10;
        proof {
            lemma_div_is_ordered(
                avg * 10 as int,
                10 * (u64::MAX as int),
                10,
            );
        }
        assert(avg <= u64::MAX) by {
            assert((((self.avg_processing_time as u128) * 9 + (processing_time as u128)) as int)
                / 10 <= ((10 * (u64::MAX as int)) as int) / 10) by {
                lemma_div_is_ordered(
                    ((self.avg_processing_time as u128) * 9 + (processing_time as u128)) as int,
                    10 * (u64::MAX as int),
                    10,
                );
            }
            assert((10 * (u64::MAX as int)) / 10 == u64::MAX as int) by (nonlinear_arith);
        }
        self.avg_processing_time = avg as u64;
        if self.avg_processing_time > 0 {
            self.fps = 1_000_000_000u64 / self.avg_processing_time;
        }
        self.timestamp = current_timestamp();
    }

    /// Records one dropped frame, saturating at the counter's maximum.
    pub fn increment_dropped_frames(&mut self)
        ensures
            final(self).dropped_frames == if old(self).dropped_frames < u64::MAX {
                old(self).dropped_frames + 1
            } else {
                u64::MAX as int
            },
            final(self).total_frames == old(self).total_frames,
            final(self).fps == old(self).fps,
            final(self).avg_processing_time == old(self).avg_processing_time,
            final(self).max_processing_time == old(self).max_processing_time,
            final(self).min_processing_time == old(self).min_processing_time,
    {
        if self.dropped_frames < u64::MAX {
            self.dropped_frames = self.dropped_frames + 1;
        }
        self.timestamp = current_timestamp();
    }
}

/// Validation of a configuration value: `Ok(())` exactly when every field
/// satisfies its documented constraints.
pub trait ConfigValidation {
    fn validate(&self) -> Result<(), ConfigError>;
}

/// Access to a component's replaceable state value.
pub trait StateManager {
    type State;

    fn get_state(&self) -> Self::State;

    fn set_state(&mut self, state: Self::State);
}

/// Start/stop lifecycle shared by the long-running components.
pub trait LifecycleManager {
    fn start(&mut self) -> Result<(), crate::ReachyMiniError>;

    fn stop(&mut self) -> Result<(), crate::ReachyMiniError>;

    fn is_running(&self) -> bool;
}

} // verus!
