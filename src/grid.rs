//! The toroidal coordinate domain: positions, bounds and wrap-around.

use vstd::prelude::*;

verus! {

/// A cell position on the integer plane.
#[derive(Clone, Copy, PartialEq, Eq, Structural, Debug, Hash)]
pub struct Position {
    pub x: i32,
    pub y: i32,
}

impl Position {
    pub fn new(x: i32, y: i32) -> (r: Position)
        ensures
            r.x == x,
            r.y == y,
    {
        Position { x, y }
    }

    /// The key under which the cell at this position is stored.
    pub open spec fn key(self) -> (i32, i32) {
        (self.x, self.y)
    }
}

/// The integer that `v` wraps to in the half-open range `[lo, hi)`.
pub open spec fn wrap_coord(lo: int, hi: int, v: int) -> int {
    lo + (v - lo) % (hi - lo)
}

/// An axis-aligned half-open rectangle `[min, max)` on each axis.
#[derive(Clone, Copy, PartialEq, Eq, Structural, Debug)]
pub struct GridBounds {
    pub min: Position,
    pub max: Position,
}

impl GridBounds {
    /// The bounds of a grid `width` by `height`, centered at the origin.
    pub fn new(width: u32, height: u32) -> (r: GridBounds)
        requires
            width > 0,
            height > 0,
        ensures
            r.max.x == width / 2,
            r.max.y == height / 2,
            r.min.x == -r.max.x,
            r.min.y == -r.max.y,
            r.centered(),
    {
        let half_width = (width / 2) as i32;
        let half_height = (height / 2) as i32;
        GridBounds {
            min: Position { x: -half_width, y: -half_height },
            max: Position { x: half_width, y: half_height },
        }
    }

    /// Symmetric around the origin, as bounds made from a width and height are.
    pub open spec fn centered(self) -> bool {
        &&& 0 <= self.max.x
        &&& 0 <= self.max.y
        &&& self.min.x == -self.max.x
        &&& self.min.y == -self.max.y
    }

    /// At least one position lies within the bounds.
    pub open spec fn nonempty(self) -> bool {
        self.min.x < self.max.x && self.min.y < self.max.y
    }

    pub open spec fn contains(self, p: (i32, i32)) -> bool {
        &&& self.min.x <= p.0 < self.max.x
        &&& self.min.y <= p.1 < self.max.y
    }

    /// Where the point `(x, y)` of the plane lands on the torus.
    pub open spec fn wrap_spec(self, x: int, y: int) -> (i32, i32) {
        (
            wrap_coord(self.min.x as int, self.max.x as int, x) as i32,
            wrap_coord(self.min.y as int, self.max.y as int, y) as i32,
        )
    }

    /// Maps any position onto the torus: each coordinate is moved by a whole
    /// number of grid periods into `[min, max)`.
    pub fn wrap(&self, p: Position) -> (r: Position)
        requires
            self.nonempty(),
        ensures
            r.key() == self.wrap_spec(p.x as int, p.y as int),
            self.contains(r.key()),
    {
        let x = wrap_i32(self.min.x, self.max.x, p.x);
        let y = wrap_i32(self.min.y, self.max.y, p.y);
        Position { x, y }
    }
}

fn wrap_i32(lo: i32, hi: i32, v: i32) -> (r: i32)
    requires
        lo < hi,
    ensures
        r as int == wrap_coord(lo as int, hi as int, v as int),
        lo <= r < hi,
{
    let width = hi as i64 - lo as i64;
    let offset = v as i64 - lo as i64;
    let m = offset.checked_rem_euclid(width).unwrap();
    (lo as i64 + m) as i32
}

/// Wrapping leaves a position inside the bounds where it is; one period
/// outside, it reflects the excess across the opposite edge: `max - |x - min|`
/// below the bounds, `min + |x - max|` at or above them, on each axis.
pub proof fn wrap_fixes_inside_and_reflects_one_period(b: GridBounds, x: int, y: int)
    requires
        b.nonempty(),
        i32::MIN <= x <= i32::MAX,
        i32::MIN <= y <= i32::MAX,
    ensures
        b.contains((x as i32, y as i32)) ==> b.wrap_spec(x, y) == (x as i32, y as i32),
        b.min.x - (b.max.x - b.min.x) <= x < b.min.x ==> b.wrap_spec(x, y).0 == b.max.x - (b.min.x
            - x),
        b.max.x <= x < b.max.x + (b.max.x - b.min.x) ==> b.wrap_spec(x, y).0 == b.min.x + (x
            - b.max.x),
        b.min.y - (b.max.y - b.min.y) <= y < b.min.y ==> b.wrap_spec(x, y).1 == b.max.y - (b.min.y
            - y),
        b.max.y <= y < b.max.y + (b.max.y - b.min.y) ==> b.wrap_spec(x, y).1 == b.min.y + (y
            - b.max.y),
{
    wrap_coord_cases(b.min.x as int, b.max.x as int, x);
    wrap_coord_cases(b.min.y as int, b.max.y as int, y);
}

proof fn wrap_coord_cases(lo: int, hi: int, v: int)
    requires
        lo < hi,
    ensures
        lo <= v < hi ==> wrap_coord(lo, hi, v) == v,
        lo - (hi - lo) <= v < lo ==> wrap_coord(lo, hi, v) == v + (hi - lo),
        hi <= v < hi + (hi - lo) ==> wrap_coord(lo, hi, v) == v - (hi - lo),
{
    let w = hi - lo;
    if lo <= v < hi {
        vstd::arithmetic::div_mod::lemma_small_mod((v - lo) as nat, w as nat);
    }
    if lo - w <= v < lo {
        vstd::arithmetic::div_mod::lemma_mod_add_multiples_vanish(v - lo, w);
        vstd::arithmetic::div_mod::lemma_small_mod((v - lo + w) as nat, w as nat);
    }
    if hi <= v < hi + w {
        vstd::arithmetic::div_mod::lemma_mod_sub_multiples_vanish(v - lo, w);
        vstd::arithmetic::div_mod::lemma_small_mod((v - lo - w) as nat, w as nat);
    }
}

} // verus!
