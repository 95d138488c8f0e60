use conway_life::color_gradient::{ColorGradient, ColorPoint, Rgba, UNIT};
use conway_life::config::{age_color, cell_color, dead_color, get_age_color};
use conway_life::game::Cell;

/// A fraction written as a float, in the gradient's fixed-point units.
fn fraction(v: f32) -> i64 {
    (v as f64 * UNIT as f64).round() as i64
}

/// A color written with float channels in `[0, 1]`, in fixed-point units,
/// rounded down.
fn srgba(r: f32, g: f32, b: f32, a: f32) -> Rgba {
    let c = |v: f32| (v as f64 * UNIT as f64).floor() as u32;
    Rgba::new(c(r), c(g), c(b), c(a))
}

#[test]
fn test_default_gradient() {
    let gradient = ColorGradient::default();

    assert_eq!(gradient.sample(fraction(0.0)), srgba(0.0, 0.0, 0.0, 1.0));
    assert_eq!(gradient.sample(fraction(0.5)), srgba(0.5, 0.5, 0.5, 1.0));
    assert_eq!(gradient.sample(fraction(1.0)), srgba(1.0, 1.0, 1.0, 1.0));
}

#[test]
fn test_custom_gradient() {
    let mut gradient = ColorGradient::new();

    gradient.insert(ColorPoint::new(fraction(0.20), srgba(0.0, 0.0, 0.0, 1.0)));
    gradient.insert(ColorPoint::new(fraction(0.75), srgba(1.0, 1.0, 1.0, 1.0)));

    assert_eq!(gradient.sample(fraction(-0.1)), srgba(0.0, 0.0, 0.0, 1.0));
    assert_eq!(gradient.sample(fraction(0.0)), srgba(0.0, 0.0, 0.0, 1.0));
    assert_eq!(gradient.sample(fraction(0.2)), srgba(0.0, 0.0, 0.0, 1.0));
    assert_eq!(
        gradient.sample(fraction(0.35)),
        srgba(0.272_727_25, 0.272_727_25, 0.272_727_25, 1.0)
    );
    assert_eq!(
        gradient.sample(fraction(0.5)),
        srgba(0.545_454_56, 0.545_454_56, 0.545_454_56, 1.0)
    );
    assert_eq!(
        gradient.sample(fraction(0.65)),
        srgba(0.818_181_75, 0.818_181_75, 0.818_181_75, 1.0)
    );
    assert_eq!(gradient.sample(fraction(0.75)), srgba(1.0, 1.0, 1.0, 1.0));
    assert_eq!(gradient.sample(fraction(1.0)), srgba(1.0, 1.0, 1.0, 1.0));
    assert_eq!(gradient.sample(fraction(1.1)), srgba(1.0, 1.0, 1.0, 1.0));
}

#[test]
fn gradient_interpolation_in_fixed_point() {
    let black = Rgba::new(0, 0, 0, UNIT);
    let white = Rgba::new(UNIT, UNIT, UNIT, UNIT);
    let mut gradient = ColorGradient::new();
    gradient.insert(ColorPoint::new(200_000, black));
    gradient.insert(ColorPoint::new(750_000, white));

    assert_eq!(gradient.sample(-100_000), black);
    assert_eq!(gradient.sample(0), black);
    assert_eq!(gradient.sample(200_000), black);
    assert_eq!(gradient.sample(350_000), Rgba::new(272_727, 272_727, 272_727, UNIT));
    assert_eq!(gradient.sample(500_000), Rgba::new(545_454, 545_454, 545_454, UNIT));
    assert_eq!(gradient.sample(750_000), white);
    assert_eq!(gradient.sample(1_000_000), white);
    assert_eq!(gradient.sample(1_100_000), white);
}

#[test]
fn interpolation_toward_a_darker_color_rounds_toward_the_start() {
    let mut gradient = ColorGradient::new();
    gradient.insert(ColorPoint::new(0, Rgba::new(300, 10, 0, 7)));
    gradient.insert(ColorPoint::new(UNIT as i64, Rgba::new(0, 10, 3, 7)));
    assert_eq!(gradient.sample(500_000), Rgba::new(150, 10, 1, 7));
    assert_eq!(gradient.sample(333_333), Rgba::new(201, 10, 0, 7));
}

#[test]
fn insert_keeps_points_sorted() {
    let mut gradient = ColorGradient::new();
    gradient.insert(ColorPoint::new(800_000, Rgba::new(8, 8, 8, 8)));
    gradient.insert(ColorPoint::new(100_000, Rgba::new(1, 1, 1, 1)));
    gradient.insert(ColorPoint::new(400_000, Rgba::new(4, 4, 4, 4)));
    assert_eq!(gradient.len(), 3);
    assert_eq!(gradient.sample(100_000), Rgba::new(1, 1, 1, 1));
    assert_eq!(gradient.sample(400_000), Rgba::new(4, 4, 4, 4));
    assert_eq!(gradient.sample(800_000), Rgba::new(8, 8, 8, 8));
    assert_eq!(gradient.sample(0), Rgba::new(1, 1, 1, 1));
    assert_eq!(gradient.sample(900_000), Rgba::new(8, 8, 8, 8));
}

#[test]
fn duplicate_points_are_kept() {
    let mut gradient = ColorGradient::new();
    gradient.insert(ColorPoint::new(500_000, Rgba::new(1, 1, 1, 1)));
    gradient.insert(ColorPoint::new(500_000, Rgba::new(2, 2, 2, 2)));
    assert_eq!(gradient.len(), 2);
    // The earliest of the equal points answers an exact query.
    assert_eq!(gradient.sample(500_000), Rgba::new(1, 1, 1, 1));
}

#[test]
fn color_point_is_clamped() {
    let p = ColorPoint::new(-5, Rgba::new(0, 0, 0, 0));
    assert_eq!(p.point, 0);
    let q = ColorPoint::new(2_000_000, Rgba::new(0, 0, 0, 0));
    assert_eq!(q.point, UNIT);
}

#[test]
fn rgb_u8_scales_channels() {
    assert_eq!(Rgba::rgb_u8(255, 0, 128), Rgba::new(UNIT, 0, 501_960, UNIT));
}

#[test]
fn age_gradient_stops() {
    assert_eq!(get_age_color(0), Rgba::rgb_u8(143, 0, 255));
    assert_eq!(get_age_color(200_000), Rgba::rgb_u8(178, 34, 34));
    assert_eq!(get_age_color(1_000_000), Rgba::rgb_u8(0, 183, 235));
    assert_eq!(get_age_color(2_000_000), Rgba::rgb_u8(0, 183, 235));
    // Halfway between violet (143, 0, 255) and red (178, 34, 34).
    let violet = Rgba::rgb_u8(143, 0, 255);
    let red = Rgba::rgb_u8(178, 34, 34);
    let mid = get_age_color(100_000);
    assert_eq!(mid.r, violet.r + (red.r - violet.r) / 2);
    assert_eq!(mid.g, violet.g + (red.g - violet.g) / 2);
    assert_eq!(mid.b, violet.b - (violet.b - red.b) / 2);
}

#[test]
fn age_color_divides_by_normalizer() {
    assert_eq!(age_color(1, 10), get_age_color(100_000));
    assert_eq!(age_color(5, 10), get_age_color(500_000));
    assert_eq!(age_color(50, 10), get_age_color(1_000_000));
    assert_eq!(age_color(u64::MAX, 1), get_age_color(1_000_000));
}

#[test]
fn cell_color_dead_and_alive() {
    assert_eq!(cell_color(None, 10), dead_color());
    assert_eq!(dead_color(), Rgba::rgb_u8(128, 128, 128));
    let c = Cell { alive: true, age: 3 };
    assert_eq!(cell_color(Some(c), 10), get_age_color(300_000));
}
