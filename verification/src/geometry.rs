//! Integer geometry of the compositor space: points, offsets, sizes and
//! rectangles, with 32-bit wrapping arithmetic stated over mathematical
//! integers.

use vstd::prelude::*;

verus! {

/// Number of distinct values of a 32-bit integer.
pub open spec fn range32() -> int {
    0x1_0000_0000
}

/// The `i32` that is congruent to `v` modulo 2^32.
pub open spec fn wrap_i32(v: int) -> i32 {
    let m = v % range32();
    if m > i32::MAX {
        (m - range32()) as i32
    } else {
        m as i32
    }
}

/// The `u32` that is congruent to `v` modulo 2^32.
pub open spec fn wrap_u32(v: int) -> u32 {
    (v % range32()) as u32
}

/// Half of `v`, rounded toward zero.
pub open spec fn half(v: int) -> int {
    if v >= 0 {
        v / 2
    } else {
        -((-v) / 2)
    }
}

/// Wrapping is the identity on values that already fit.
pub proof fn lemma_wrap_in_range(v: int)
    ensures
        i32::MIN <= v <= i32::MAX ==> wrap_i32(v) == v,
        0 <= v <= u32::MAX ==> wrap_u32(v) == v,
{
    if v < 0 && v >= i32::MIN {
        assert((v + range32()) % range32() == v % range32()) by (nonlinear_arith);
    }
}

/// Wrapping an already wrapped term changes nothing: sums may be wrapped
/// once at the end.
pub proof fn lemma_wrap_absorb(a: int, b: int)
    ensures
        wrap_i32(wrap_i32(a) + b) == wrap_i32(a + b),
        wrap_i32(wrap_u32(a) + b) == wrap_i32(a + b),
        wrap_u32(wrap_u32(a) + b) == wrap_u32(a + b),
        wrap_u32(wrap_i32(a) + b) == wrap_u32(a + b),
{
    let r = range32();
    assert(((a % r) + b) % r == (a + b) % r) by (nonlinear_arith)
        requires
            r == 0x1_0000_0000,
    ;
    assert(((a % r) - r + b) % r == (a + b) % r) by (nonlinear_arith)
        requires
            r == 0x1_0000_0000,
    ;
}

/// Reduces a 64-bit value to the `i32` congruent to it modulo 2^32.
pub fn to_i32(v: i64) -> (r: i32)
    ensures
        r == wrap_i32(v as int),
{
    let m: u64 = residue(v);
    if m > 0x7fff_ffff {
        let d: i64 = m as i64 - 0x1_0000_0000;
        d as i32
    } else {
        m as i32
    }
}

/// Reduces a 64-bit value to the `u32` congruent to it modulo 2^32.
pub fn to_u32(v: i64) -> (r: u32)
    ensures
        r == wrap_u32(v as int),
{
    residue(v) as u32
}

/// The residue of `v` modulo 2^32, between 0 and 2^32 - 1.
fn residue(v: i64) -> (m: u64)
    ensures
        m == (v as int) % range32(),
{
    if v >= 0 {
        (v as u64) % 0x1_0000_0000
    } else {
        let n: u64 = ((-(v + 1)) as u64) % 0x1_0000_0000;
        assert((v as int) % 0x1_0000_0000 == 0x1_0000_0000 - 1 - ((-(v + 1)) % 0x1_0000_0000))
            by (nonlinear_arith)
            requires
                v < 0,
        ;
        0x1_0000_0000 - 1 - n
    }
}

/// A point, in pixels.
#[derive(Clone, Copy, Debug, PartialEq, Eq, Structural)]
pub struct Position2D {
    pub x: i32,
    pub y: i32,
}

/// A displacement between two points.
#[derive(Clone, Copy, Debug, PartialEq, Eq, Structural)]
pub struct Offset2D {
    pub x: i32,
    pub y: i32,
}

/// A width and a height, in pixels.
#[derive(Clone, Copy, Debug, PartialEq, Eq, Structural)]
pub struct Size2D {
    pub width: u32,
    pub height: u32,
}

/// An axis-aligned rectangle: its top-left corner and its size.
#[derive(Clone, Copy, Debug, PartialEq, Eq, Structural)]
pub struct Rectangle {
    pub position: Position2D,
    pub size: Size2D,
}

impl Position2D {
    /// The point displaced by `offset`, each coordinate wrapping.
    pub open spec fn spec_plus(self, offset: Offset2D) -> Position2D {
        Position2D {
            x: wrap_i32(self.x + offset.x),
            y: wrap_i32(self.y + offset.y),
        }
    }

    /// The point displaced by the opposite of `offset`, each coordinate wrapping.
    pub open spec fn spec_minus(self, offset: Offset2D) -> Position2D {
        Position2D {
            x: wrap_i32(self.x - offset.x),
            y: wrap_i32(self.y - offset.y),
        }
    }

    /// The displacement that leads from `origin` to this point, wrapping.
    pub open spec fn spec_offset_from(self, origin: Position2D) -> Offset2D {
        Offset2D {
            x: wrap_i32(self.x - origin.x),
            y: wrap_i32(self.y - origin.y),
        }
    }

    pub fn plus(self, offset: Offset2D) -> (r: Position2D)
        ensures
            r == self.spec_plus(offset),
    {
        Position2D {
            x: to_i32(self.x as i64 + offset.x as i64),
            y: to_i32(self.y as i64 + offset.y as i64),
        }
    }

    pub fn minus(self, offset: Offset2D) -> (r: Position2D)
        ensures
            r == self.spec_minus(offset),
    {
        Position2D {
            x: to_i32(self.x as i64 - offset.x as i64),
            y: to_i32(self.y as i64 - offset.y as i64),
        }
    }

    pub fn offset_from(self, origin: Position2D) -> (r: Offset2D)
        ensures
            r == self.spec_offset_from(origin),
    {
        Offset2D {
            x: to_i32(self.x as i64 - origin.x as i64),
            y: to_i32(self.y as i64 - origin.y as i64),
        }
    }
}

impl Rectangle {
    /// Whether `p` lies inside the rectangle; the right and bottom borders
    /// are outside.
    pub open spec fn spec_contains(self, p: Position2D) -> bool {
        &&& self.position.x <= p.x < self.position.x + self.size.width
        &&& self.position.y <= p.y < self.position.y + self.size.height
    }

    /// Whether `p` lies inside the rectangle grown by `grace` pixels on
    /// every side.
    pub open spec fn spec_contains_within(self, grace: u32, p: Position2D) -> bool {
        &&& self.position.x - grace <= p.x < self.position.x + self.size.width + grace
        &&& self.position.y - grace <= p.y < self.position.y + self.size.height + grace
    }

    /// The x coordinate just right of the rectangle, wrapping.
    pub open spec fn spec_x_offset(self) -> i32 {
        wrap_i32(self.position.x + self.size.width)
    }

    pub fn contains(&self, p: &Position2D) -> (r: bool)
        ensures
            r == self.spec_contains(*p),
    {
        let x: i64 = p.x as i64;
        let y: i64 = p.y as i64;
        let left: i64 = self.position.x as i64;
        let top: i64 = self.position.y as i64;
        left <= x && x < left + self.size.width as i64 && top <= y && y < top
            + self.size.height as i64
    }

    pub fn contains_within(&self, grace: u32, p: &Position2D) -> (r: bool)
        ensures
            r == self.spec_contains_within(grace, *p),
    {
        let x: i64 = p.x as i64;
        let y: i64 = p.y as i64;
        let left: i64 = self.position.x as i64 - grace as i64;
        let top: i64 = self.position.y as i64 - grace as i64;
        let right: i64 = self.position.x as i64 + self.size.width as i64 + grace as i64;
        let bottom: i64 = self.position.y as i64 + self.size.height as i64 + grace as i64;
        left <= x && x < right && top <= y && y < bottom
    }

    pub fn x_offset(&self) -> (r: i32)
        ensures
            r == self.spec_x_offset(),
    {
        to_i32(self.position.x as i64 + self.size.width as i64)
    }
}

} // verus!
