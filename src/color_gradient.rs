//! A color gradient: sampling points along `[0, 1]`, sorted by position, with
//! linear interpolation between neighbours.
//!
//! Fractions and color channels are fixed-point numbers: `UNIT` stands for 1.

use vstd::prelude::*;

verus! {

/// The fixed-point value of 1, for fractions and color channels alike.
pub const UNIT: u32 = 1_000_000;

/// A color with red, green, blue and alpha channels, each in units of
/// `1 / UNIT`.
#[derive(Clone, Copy, PartialEq, Eq, Structural, Debug)]
pub struct Rgba {
    pub r: u32,
    pub g: u32,
    pub b: u32,
    pub a: u32,
}

/// The channel value at `num / den` of the way from `from` to `to`, rounded
/// toward `from`.
pub open spec fn lerp_channel(from: int, to: int, num: int, den: int) -> int {
    if to >= from {
        from + (to - from) * num / den
    } else {
        from - (from - to) * num / den
    }
}

/// The color at `num / den` of the way from `from` to `to`, channel by
/// channel, alpha included.
pub open spec fn lerp_spec(from: Rgba, to: Rgba, num: int, den: int) -> Rgba {
    Rgba {
        r: lerp_channel(from.r as int, to.r as int, num, den) as u32,
        g: lerp_channel(from.g as int, to.g as int, num, den) as u32,
        b: lerp_channel(from.b as int, to.b as int, num, den) as u32,
        a: lerp_channel(from.a as int, to.a as int, num, den) as u32,
    }
}

/// `d * num / den` stays within `d` and the product within 64 bits.
proof fn lerp_step_bounds(d: int, num: int, den: int)
    requires
        0 <= d <= u32::MAX,
        0 <= num < den <= u32::MAX,
    ensures
        d * num <= u64::MAX,
        0 <= d * num / den <= d,
{
    vstd::arithmetic::mul::lemma_mul_upper_bound(d, u32::MAX as int, num, u32::MAX as int);
    vstd::arithmetic::mul::lemma_mul_inequality(num, den, d);
    vstd::arithmetic::mul::lemma_mul_is_commutative(num, d);
    vstd::arithmetic::mul::lemma_mul_is_commutative(den, d);
    vstd::arithmetic::mul::lemma_mul_nonnegative(d, num);
    vstd::arithmetic::div_mod::lemma_div_is_ordered(d * num, d * den, den);
    vstd::arithmetic::div_mod::lemma_div_multiples_vanish(d, den);
    vstd::arithmetic::div_mod::lemma_div_pos_is_pos(d * num, den);
}

/// The opaque color with 8-bit channels `r`, `g`, `b`.
pub open spec fn rgb_u8_spec(r: int, g: int, b: int) -> Rgba {
    Rgba {
        r: (r * UNIT / 255) as u32,
        g: (g * UNIT / 255) as u32,
        b: (b * UNIT / 255) as u32,
        a: UNIT,
    }
}

fn lerp_channel_exec(from: u32, to: u32, num: u32, den: u32) -> (r: u32)
    requires
        num < den,
    ensures
        r == lerp_channel(from as int, to as int, num as int, den as int),
{
    if to >= from {
        let d = (to - from) as u64;
        proof {
            lerp_step_bounds(d as int, num as int, den as int);
        }
        from + (d * (num as u64) / (den as u64)) as u32
    } else {
        let d = (from - to) as u64;
        proof {
            lerp_step_bounds(d as int, num as int, den as int);
        }
        from - (d * (num as u64) / (den as u64)) as u32
    }
}

impl Rgba {
    pub fn new(r: u32, g: u32, b: u32, a: u32) -> (c: Rgba)
        ensures
            c == (Rgba { r, g, b, a }),
    {
        Rgba { r, g, b, a }
    }

    /// An opaque color from 8-bit channels, each scaled from `[0, 255]` to
    /// `[0, UNIT]` and rounded down.
    pub fn rgb_u8(r: u8, g: u8, b: u8) -> (c: Rgba)
        ensures
            c == rgb_u8_spec(r as int, g as int, b as int),
    {
        Rgba {
            r: (r as u32) * UNIT / 255,
            g: (g as u32) * UNIT / 255,
            b: (b as u32) * UNIT / 255,
            a: UNIT,
        }
    }

    /// The color `num / den` of the way from `self` to `to`.
    pub fn lerp(self, to: Rgba, num: u32, den: u32) -> (c: Rgba)
        requires
            num < den,
        ensures
            c == lerp_spec(self, to, num as int, den as int),
    {
        Rgba {
            r: lerp_channel_exec(self.r, to.r, num, den),
            g: lerp_channel_exec(self.g, to.g, num, den),
            b: lerp_channel_exec(self.b, to.b, num, den),
            a: lerp_channel_exec(self.a, to.a, num, den),
        }
    }
}

/// `v` brought into `[0, UNIT]`.
pub open spec fn clamp_fraction(v: int) -> int {
    if v < 0 {
        0
    } else if v > UNIT {
        UNIT as int
    } else {
        v
    }
}

/// A sampling point: a color at a fraction of the gradient.
#[derive(Clone, Copy, PartialEq, Eq, Structural, Debug)]
pub struct ColorPoint {
    pub point: u32,
    pub value: Rgba,
}

impl ColorPoint {
    /// A sampling point at `point`, brought into `[0, UNIT]`.
    pub fn new(point: i64, value: Rgba) -> (r: ColorPoint)
        ensures
            r.point == clamp_fraction(point as int),
            r.value == value,
    {
        let point = if point < 0 {
            0
        } else if point > UNIT as i64 {
            UNIT
        } else {
            point as u32
        };
        ColorPoint { point, value }
    }
}

/// The points of `s` are in ascending order.
pub open spec fn sorted(s: Seq<ColorPoint>) -> bool {
    forall|i: int, j: int| 0 <= i < j < s.len() ==> s[i].point <= s[j].point
}

/// The index of the first point of `s` that is not below `q`, or the length
/// of `s` if there is none.
pub open spec fn first_not_below(s: Seq<ColorPoint>, q: int) -> int
    decreases s.len(),
{
    if s.len() == 0 {
        0
    } else if s[0].point >= q {
        0
    } else {
        1 + first_not_below(s.drop_first(), q)
    }
}

/// The index of the first point of `s` that lies above `q`, or the length of
/// `s` if there is none.
pub open spec fn first_above(s: Seq<ColorPoint>, q: int) -> int
    decreases s.len(),
{
    if s.len() == 0 {
        0
    } else if s[0].point > q {
        0
    } else {
        1 + first_above(s.drop_first(), q)
    }
}

/// The color of the gradient `s` at `query`: the query is brought into
/// `[0, UNIT]`; a point there gives its color; before the first point or after
/// the last the nearest end's color holds; between two points their colors
/// are interpolated.
pub open spec fn sample_spec(s: Seq<ColorPoint>, query: int) -> Rgba {
    let q = clamp_fraction(query);
    let i = first_not_below(s, q);
    if i < s.len() && s[i].point == q {
        s[i].value
    } else if i == 0 {
        s[0].value
    } else if i >= s.len() {
        s[s.len() - 1].value
    } else {
        lerp_spec(
            s[i - 1].value,
            s[i].value,
            q - s[i - 1].point,
            s[i].point - s[i - 1].point,
        )
    }
}

proof fn first_not_below_at(s: Seq<ColorPoint>, q: int, i: int)
    requires
        0 <= i <= s.len(),
        forall|j: int| 0 <= j < i ==> s[j].point < q,
        forall|j: int| i <= j < s.len() ==> s[j].point >= q,
    ensures
        first_not_below(s, q) == i,
    decreases s.len(),
{
    if s.len() > 0 && i > 0 {
        first_not_below_at(s.drop_first(), q, i - 1);
    }
}

/// A point at or after every point of `s` goes at its end.
pub(crate) proof fn first_above_last(s: Seq<ColorPoint>, q: int)
    requires
        forall|j: int| 0 <= j < s.len() ==> s[j].point <= q,
    ensures
        first_above(s, q) == s.len(),
{
    first_above_at(s, q, s.len() as int);
}

proof fn first_above_at(s: Seq<ColorPoint>, q: int, i: int)
    requires
        0 <= i <= s.len(),
        forall|j: int| 0 <= j < i ==> s[j].point <= q,
        forall|j: int| i <= j < s.len() ==> s[j].point > q,
    ensures
        first_above(s, q) == i,
    decreases s.len(),
{
    if s.len() > 0 && i > 0 {
        first_above_at(s.drop_first(), q, i - 1);
    }
}

/// A gradient of sampling points, kept sorted by position.
pub struct ColorGradient {
    points: Vec<ColorPoint>,
}

impl View for ColorGradient {
    type V = Seq<ColorPoint>;

    closed spec fn view(&self) -> Seq<ColorPoint> {
        self.points@
    }
}

impl ColorGradient {
    /// The sampling points are in ascending order.
    pub open spec fn wf(&self) -> bool {
        sorted(self@)
    }

    /// A gradient without sampling points.
    pub fn new() -> (r: ColorGradient)
        ensures
            r.wf(),
            r@ == Seq::<ColorPoint>::empty(),
    {
        ColorGradient { points: Vec::new() }
    }

    /// Adds a sampling point after those at or before its position.
    pub fn insert(&mut self, point: ColorPoint)
        requires
            old(self).wf(),
        ensures
            final(self).wf(),
            final(self)@ == old(self)@.insert(first_above(old(self)@, point.point as int), point),
    {
        let ghost s = self@;
        let mut lo: usize = 0;
        let mut hi: usize = self.points.len();
        while lo < hi
            invariant
                s == self.points@,
                sorted(s),
                0 <= lo <= hi <= s.len(),
                forall|j: int| 0 <= j < lo ==> s[j].point <= point.point,
                forall|j: int| hi <= j < s.len() ==> s[j].point > point.point,
            decreases hi - lo,
        {
            let mid = lo + (hi - lo) / 2;
            if self.points[mid].point <= point.point {
                lo = mid + 1;
            } else {
                hi = mid;
            }
        }
        proof {
            first_above_at(s, point.point as int, lo as int);
            let t = s.insert(lo as int, point);
            assert forall|i: int, j: int| 0 <= i < j < t.len() implies t[i].point <= t[j].point by {
                if j < lo {
                } else if j == lo {
                    assert(t[i] == s[i]);
                } else if i < lo {
                    assert(t[j] == s[j - 1]);
                } else if i == lo {
                    assert(t[j] == s[j - 1]);
                } else {
                    assert(t[i] == s[i - 1] && t[j] == s[j - 1]);
                }
            }
        }
        self.points.insert(lo, point);
    }

    /// Samples the gradient at `query`; see `sample_spec`.
    pub fn sample(&self, query: i64) -> (r: Rgba)
        requires
            self.wf(),
            self@.len() >= 2,
        ensures
            r == sample_spec(self@, query as int),
    {
        let ghost s = self@;
        let q: u32 = if query < 0 {
            0
        } else if query > UNIT as i64 {
            UNIT
        } else {
            query as u32
        };
        let n = self.points.len();
        let mut lo: usize = 0;
        let mut hi: usize = n;
        while lo < hi
            invariant
                s == self.points@,
                n == s.len(),
                sorted(s),
                0 <= lo <= hi <= s.len(),
                forall|j: int| 0 <= j < lo ==> s[j].point < q,
                forall|j: int| hi <= j < s.len() ==> s[j].point >= q,
            decreases hi - lo,
        {
            let mid = lo + (hi - lo) / 2;
            if self.points[mid].point < q {
                lo = mid + 1;
            } else {
                hi = mid;
            }
        }
        proof {
            first_not_below_at(s, q as int, lo as int);
        }
        let i = lo;
        if i < n && self.points[i].point == q {
            // A sampling point sits exactly at the query.
            self.points[i].value
        } else if i == 0 {
            // Before the first sampling point.
            self.points[0].value
        } else if i >= n {
            // After the last sampling point.
            self.points[n - 1].value
        } else {
            // Between two sampling points.
            let left = self.points[i - 1];
            let right = self.points[i];
            left.value.lerp(right.value, q - left.point, right.point - left.point)
        }
    }

    /// The number of sampling points.
    pub fn len(&self) -> (r: usize)
        ensures
            r == self@.len(),
    {
        self.points.len()
    }
}

impl Default for ColorGradient {
    /// Opaque black at 0 to opaque white at 1.
    fn default() -> (r: ColorGradient)
        ensures
            r.wf(),
            r@ == seq![
                ColorPoint { point: 0, value: Rgba { r: 0, g: 0, b: 0, a: UNIT } },
                ColorPoint { point: UNIT, value: Rgba { r: UNIT, g: UNIT, b: UNIT, a: UNIT } },
            ],
    {
        let points = vec![
            ColorPoint::new(0, Rgba::new(0, 0, 0, UNIT)),
            ColorPoint::new(UNIT as i64, Rgba::new(UNIT, UNIT, UNIT, UNIT)),
        ];
        ColorGradient { points }
    }
}

} // verus!
