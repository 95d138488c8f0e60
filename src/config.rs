//! The colors that cells are drawn in: a fixed gradient over a cell's age, and
//! one color for dead cells.

use vstd::prelude::*;

use crate::color_gradient::{
    first_above_last, rgb_u8_spec, sample_spec, ColorGradient, ColorPoint, Rgba, UNIT,
};
use crate::game::Cell;

verus! {

/// The sampling points of the age gradient: violet, red, orange, yellow, green
/// and cyan, evenly spaced.
pub open spec fn age_points() -> Seq<ColorPoint> {
    seq![
        ColorPoint { point: 0, value: rgb_u8_spec(143, 0, 255) },
        ColorPoint { point: 200_000, value: rgb_u8_spec(178, 34, 34) },
        ColorPoint { point: 400_000, value: rgb_u8_spec(255, 121, 0) },
        ColorPoint { point: 600_000, value: rgb_u8_spec(255, 211, 0) },
        ColorPoint { point: 800_000, value: rgb_u8_spec(50, 205, 50) },
        ColorPoint { point: 1_000_000, value: rgb_u8_spec(0, 183, 235) },
    ]
}

/// The gradient that colors a cell by its age.
pub fn age_gradient() -> (r: ColorGradient)
    ensures
        r.wf(),
        r@ == age_points(),
{
    let mut gradient = ColorGradient::new();
    proof {
        first_above_last(gradient@, 0);
    }
    gradient.insert(ColorPoint::new(0, Rgba::rgb_u8(143, 0, 255)));  // violet (electric)
    proof {
        first_above_last(gradient@, 200_000);
    }
    gradient.insert(ColorPoint::new(200_000, Rgba::rgb_u8(178, 34, 34)));  // red (fire brick)
    proof {
        first_above_last(gradient@, 400_000);
    }
    gradient.insert(ColorPoint::new(400_000, Rgba::rgb_u8(255, 121, 0)));  // orange (safety)
    proof {
        first_above_last(gradient@, 600_000);
    }
    gradient.insert(ColorPoint::new(600_000, Rgba::rgb_u8(255, 211, 0)));  // yellow (ncs)
    proof {
        first_above_last(gradient@, 800_000);
    }
    gradient.insert(ColorPoint::new(800_000, Rgba::rgb_u8(50, 205, 50)));  // green (lime)
    proof {
        first_above_last(gradient@, 1_000_000);
    }
    gradient.insert(ColorPoint::new(1_000_000, Rgba::rgb_u8(0, 183, 235)));  // cyan (sub. primary)
    assert(gradient@ =~= age_points());
    gradient
}

/// The color of a dead cell: mid gray.
pub fn dead_color() -> (r: Rgba)
    ensures
        r == rgb_u8_spec(128, 128, 128),
{
    Rgba::rgb_u8(128, 128, 128)
}

/// The age gradient's color at the fraction `q`, in units of `1 / UNIT`.
pub fn get_age_color(q: i64) -> (r: Rgba)
    ensures
        r == sample_spec(age_points(), q as int),
{
    let gradient = age_gradient();
    gradient.sample(q)
}

/// `age / normalizer` in units of `1 / UNIT`, rounded down.
pub open spec fn age_fraction(age: int, normalizer: int) -> int {
    age * UNIT / normalizer
}

/// The color of a cell of age `age`, where `normalizer` is the age that
/// reaches the end of the gradient.
pub fn age_color(age: u64, normalizer: u64) -> (r: Rgba)
    requires
        normalizer > 0,
    ensures
        r == sample_spec(age_points(), age_fraction(age as int, normalizer as int)),
{
    let f = (age as u128) * (UNIT as u128) / (normalizer as u128);
    let q: i64 = if f > UNIT as u128 {
        UNIT as i64
    } else {
        f as i64
    };
    get_age_color(q)
}

/// The color that the cell at a position is drawn in: by its age if one is
/// alive there, the dead color if none is.
pub fn cell_color(cell: Option<Cell>, normalizer: u64) -> (r: Rgba)
    requires
        normalizer > 0,
    ensures
        r == match cell {
            Some(c) => sample_spec(age_points(), age_fraction(c.age as int, normalizer as int)),
            None => rgb_u8_spec(128, 128, 128),
        },
{
    match cell {
        Some(c) => age_color(c.age, normalizer),
        None => dead_color(),
    }
}

} // verus!
