//! Basic math types on the integer coordinate grid, and the saturating
//! arithmetic that every layout computation uses.

use vstd::prelude::*;

verus! {

/// The value `v` clipped into the `i64` range.  All coordinate arithmetic
/// in this library saturates at the ends of that range.
pub open spec fn sat64(v: int) -> int {
    if v > i64::MAX as int {
        i64::MAX as int
    } else if v < i64::MIN as int {
        i64::MIN as int
    } else {
        v
    }
}

/// Halving that rounds toward zero, as the alignment offset computation
/// uses it.
pub open spec fn half_toward_zero(v: int) -> int {
    if v >= 0 {
        v / 2
    } else {
        -((-v) / 2)
    }
}

/// `v` scaled by `f` thousandths, rounding toward zero, clipped into the
/// `i64` range.
pub open spec fn scale_permille(v: int, f: int) -> int {
    if v >= 0 {
        sat64((v * f) / 1000)
    } else {
        sat64(-(((-v) * f) / 1000))
    }
}

/// Saturating addition on coordinates.
pub fn sat_add(a: i64, b: i64) -> (r: i64)
    ensures
        r as int == sat64(a + b),
{
    let s: i128 = a as i128 + b as i128;
    if s > i64::MAX as i128 {
        i64::MAX
    } else if s < i64::MIN as i128 {
        i64::MIN
    } else {
        s as i64
    }
}

/// Saturating subtraction on coordinates.
pub fn sat_sub(a: i64, b: i64) -> (r: i64)
    ensures
        r as int == sat64(a - b),
{
    let s: i128 = a as i128 - b as i128;
    if s > i64::MAX as i128 {
        i64::MAX
    } else if s < i64::MIN as i128 {
        i64::MIN
    } else {
        s as i64
    }
}

/// Halves a coordinate, rounding toward zero.
pub fn half(v: i64) -> (r: i64)
    ensures
        r as int == half_toward_zero(v as int),
{
    if v >= 0 {
        let q: u64 = (v as u64) / 2;
        q as i64
    } else {
        let m: i128 = -(v as i128);
        let q: i128 = (m as u128 / 2) as i128;
        proof {
            assert(q == (-(v as int)) / 2);
        }
        (-q) as i64
    }
}

/// Scales a coordinate by `f` thousandths, rounding toward zero and
/// saturating at the ends of the `i64` range.
pub fn scale_by_permille(v: i64, f: u32) -> (r: i64)
    ensures
        r as int == scale_permille(v as int, f as int),
{
    if v >= 0 {
        let a: u128 = v as u128;
        let b: u128 = f as u128;
        proof {
            assert((a as int) * (b as int) <= 0x8000_0000_0000_0000 * 0xFFFF_FFFF)
                by (nonlinear_arith)
                requires
                    0 <= a as int <= 0x8000_0000_0000_0000,
                    0 <= b as int <= 0xFFFF_FFFF,
            ;
        }
        let p: u128 = a * b;
        let q: u128 = p / 1000;
        if q > i64::MAX as u128 {
            i64::MAX
        } else {
            q as i64
        }
    } else {
        let m: u128 = (-(v as i128)) as u128;
        let b: u128 = f as u128;
        proof {
            assert((m as int) * (b as int) <= 0x8000_0000_0000_0000 * 0xFFFF_FFFF)
                by (nonlinear_arith)
                requires
                    0 <= m as int <= 0x8000_0000_0000_0000,
                    0 <= b as int <= 0xFFFF_FFFF,
            ;
        }
        let p: u128 = m * b;
        let q: u128 = p / 1000;
        if q >= 0x8000_0000_0000_0000u128 {
            i64::MIN
        } else {
            -(q as i64)
        }
    }
}

/// The product of two coordinates divided by 32, rounding toward zero,
/// clipped into the `i64` range.  Glyph metrics are stored for a 32-unit
/// em, so this scales an advance to a font size.
pub open spec fn mul_div32(a: int, b: int) -> int {
    if a * b >= 0 {
        sat64((a * b) / 32)
    } else {
        sat64(-((-(a * b)) / 32))
    }
}

/// Scales a 32-unit-em glyph metric to a font size, rounding toward zero
/// and saturating at the ends of the `i64` range.
pub fn scale_em32(a: i64, b: i64) -> (r: i64)
    ensures
        r as int == mul_div32(a as int, b as int),
{
    proof {
        assert(-0x8000_0000_0000_0000 * 0x8000_0000_0000_0000 <= (a as int) * (b as int)
            <= 0x8000_0000_0000_0000 * 0x8000_0000_0000_0000) by (nonlinear_arith)
            requires
                -0x8000_0000_0000_0000 <= a as int <= 0x8000_0000_0000_0000,
                -0x8000_0000_0000_0000 <= b as int <= 0x8000_0000_0000_0000,
        ;
    }
    let p: i128 = (a as i128) * (b as i128);
    if p >= 0 {
        let q: u128 = (p as u128) / 32;
        if q > i64::MAX as u128 {
            i64::MAX
        } else {
            q as i64
        }
    } else {
        let m: u128 = (-p) as u128;
        let q: u128 = m / 32;
        if q >= 0x8000_0000_0000_0000u128 {
            i64::MIN
        } else {
            -(q as i64)
        }
    }
}

/// A point or an extent on the coordinate grid.
#[derive(Clone, Copy, Debug, PartialEq, Eq, Structural)]
pub struct Vec2 {
    pub x: i64,
    pub y: i64,
}

impl Vec2 {
    pub fn new(x: i64, y: i64) -> (r: Self)
        ensures
            r.x == x,
            r.y == y,
    {
        Self { x, y }
    }

    pub fn zero() -> (r: Self)
        ensures
            r.x == 0,
            r.y == 0,
    {
        Self { x: 0, y: 0 }
    }

    pub fn one() -> (r: Self)
        ensures
            r.x == 1,
            r.y == 1,
    {
        Self { x: 1, y: 1 }
    }
}

/// A three-component vector on the coordinate grid.
#[derive(Clone, Copy, Debug, PartialEq, Eq, Structural)]
pub struct Vec3 {
    pub x: i64,
    pub y: i64,
    pub z: i64,
}

impl Vec3 {
    pub fn new(x: i64, y: i64, z: i64) -> (r: Self)
        ensures
            r.x == x && r.y == y && r.z == z,
    {
        Self { x, y, z }
    }

    pub fn zero() -> (r: Self)
        ensures
            r.x == 0 && r.y == 0 && r.z == 0,
    {
        Self { x: 0, y: 0, z: 0 }
    }

    pub fn one() -> (r: Self)
        ensures
            r.x == 1 && r.y == 1 && r.z == 1,
    {
        Self { x: 1, y: 1, z: 1 }
    }
}

/// A four-component vector on the coordinate grid.
#[derive(Clone, Copy, Debug, PartialEq, Eq, Structural)]
pub struct Vec4 {
    pub x: i64,
    pub y: i64,
    pub z: i64,
    pub w: i64,
}

impl Vec4 {
    pub fn new(x: i64, y: i64, z: i64, w: i64) -> (r: Self)
        ensures
            r.x == x && r.y == y && r.z == z && r.w == w,
    {
        Self { x, y, z, w }
    }

    pub fn zero() -> (r: Self)
        ensures
            r.x == 0 && r.y == 0 && r.z == 0 && r.w == 0,
    {
        Self { x: 0, y: 0, z: 0, w: 0 }
    }

    pub fn one() -> (r: Self)
        ensures
            r.x == 1 && r.y == 1 && r.z == 1 && r.w == 1,
    {
        Self { x: 1, y: 1, z: 1, w: 1 }
    }
}

/// A 4-by-4 transform matrix over the coordinate grid, in row-major order.
#[derive(Clone, Debug, PartialEq, Eq)]
pub struct Mat4 {
    pub m: Vec<i64>,
}

impl Mat4 {
    /// True of a well-formed matrix: sixteen entries.
    pub open spec fn wf(self) -> bool {
        self.m@.len() == 16
    }

    /// True of the identity matrix: ones on the diagonal, zeroes elsewhere.
    pub open spec fn is_identity(self) -> bool {
        &&& self.wf()
        &&& forall|i: int, j: int|
            0 <= i < 4 && 0 <= j < 4 ==> #[trigger] self.m@[i * 4 + j] == if i == j {
                1int
            } else {
                0int
            }
    }

    pub fn new(m: Vec<i64>) -> (r: Self)
        requires
            m@.len() == 16,
        ensures
            r.m == m,
            r.wf(),
    {
        Self { m }
    }

    pub fn identity() -> (r: Self)
        ensures
            r.is_identity(),
    {
        let mut m: Vec<i64> = Vec::new();
        let mut i: usize = 0;
        while i < 4
            invariant
                i <= 4,
                m@.len() == i * 4,
                forall|a: int, b: int|
                    0 <= a && 0 <= b < 4 && a * 4 + b < m@.len() ==> #[trigger] m@[a * 4 + b] == if a == b {
                        1int
                    } else {
                        0int
                    },
            decreases 4 - i,
        {
            let mut j: usize = 0;
            while j < 4
                invariant
                    i < 4,
                    j <= 4,
                    m@.len() == i * 4 + j,
                    forall|a: int, b: int|
                        0 <= a && 0 <= b < 4 && a * 4 + b < m@.len() ==> #[trigger] m@[a * 4 + b] == if a == b {
                            1int
                        } else {
                            0int
                        },
                decreases 4 - j,
            {
                if i == j {
                    m.push(1);
                } else {
                    m.push(0);
                }
                proof {
                    assert forall|a: int, b: int|
                        0 <= a && 0 <= b < 4 && a * 4 + b < m@.len() implies #[trigger] m@[a * 4 + b] == (if a
                        == b {
                        1int
                    } else {
                        0int
                    }) by {
                        if a * 4 + b < m@.len() - 1 {
                        } else {
                            assert(a * 4 + b == i * 4 + j);
                            assert(a == i && b == j) by (nonlinear_arith)
                                requires
                                    a * 4 + b == i * 4 + j,
                                    0 <= a,
                                    0 <= b < 4,
                                    0 <= i < 4,
                                    0 <= j < 4,
                            ;
                        }
                    }
                }
                j += 1;
            }
            i += 1;
        }
        Self { m }
    }
}

} // verus!
