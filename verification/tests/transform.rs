//! The shared coordinate transform: aspect invariance and the
//! letterboxed square normalization of the composite pass.

use viz_core::transform::{
    div_floor, min_dim, square_from_pixel, tex_from_square, to_pattern, PatternPoint,
};

/// Cosine of pi over six, micro-units, floored.
const COS_30_MU: i64 = 866_025;
/// Sine of pi over six, micro-units.
const SIN_30_MU: i64 = 500_000;
/// A scale factor of one, micro-units.
const ONE_MU: i64 = 1_000_000;

fn project(u_mu: i64, v_mu: i64, w: u32, h: u32) -> PatternPoint {
    let t = tex_from_square(u_mu, v_mu, w, h);
    to_pattern(t, w, h, COS_30_MU, SIN_30_MU, ONE_MU)
}

#[test]
fn aspect_invariant_top_mapping() {
    // Canonical square points, in micro-units; a wide and a tall surface.
    let samples = [
        (500_000_i64, 500_000_i64),
        (600_000, 500_000),
        (500_000, 600_000),
        (200_000, 800_000),
        (800_000, 200_000),
    ];
    for &(u, v) in samples.iter() {
        let wide = project(u, v, 1920, 1080);
        let tall = project(u, v, 1080, 1920);
        assert_eq!(wide, tall, "u={} v={}", u, v);
    }
}

#[test]
fn projection_rotates_the_recentered_point() {
    // (0.6, 0.5) recenters to (0.2, 0.0); under a pi-over-six rotation the
    // exact fixed-point image is (0.173205, 0.1).
    let p = project(600_000, 500_000, 1920, 1080);
    assert_eq!(p.x_mu, 173_205);
    assert_eq!(p.y_mu, 100_000);

    // (0.5, 0.6) recenters to (0.0, 0.2) and lands at (-0.1, 0.173205).
    let p = project(500_000, 600_000, 1080, 1920);
    assert_eq!(p.x_mu, -100_000);
    assert_eq!(p.y_mu, 173_205);

    // The center is a fixed point of every rotation.
    let p = project(500_000, 500_000, 3840, 2160);
    assert_eq!(p, PatternPoint { x_mu: 0, y_mu: 0 });
}

#[test]
fn projection_matches_on_extreme_aspect_ratios() {
    let p1 = project(200_000, 800_000, 16_384, 128);
    let p2 = project(200_000, 800_000, 128, 16_384);
    let p3 = project(200_000, 800_000, 1000, 1000);
    assert_eq!(p1, p2);
    assert_eq!(p1, p3);
}

#[test]
fn letterbox_bars_render_nothing() {
    // On a 1920x1080 surface the inscribed square spans pixels 420..=1500.
    assert!(square_from_pixel(419, 540, 1920, 1080).is_none());
    assert!(square_from_pixel(1501, 540, 1920, 1080).is_none());
    assert!(square_from_pixel(0, 0, 1920, 1080).is_none());
    assert!(square_from_pixel(420, 540, 1920, 1080).is_some());
    assert!(square_from_pixel(1500, 1080, 1920, 1080).is_some());
}

#[test]
fn square_normalization_centers_and_spans() {
    let c = square_from_pixel(960, 540, 1920, 1080).unwrap();
    assert_eq!(c.u_mu, 500_000);
    assert_eq!(c.v_mu, 500_000);

    let left = square_from_pixel(420, 0, 1920, 1080).unwrap();
    assert_eq!(left.u_mu, 0);
    assert_eq!(left.v_mu, 0);

    let right = square_from_pixel(1500, 1080, 1920, 1080).unwrap();
    assert_eq!(right.u_mu, 1_000_000);
    assert_eq!(right.v_mu, 1_000_000);

    // A square surface needs no letterboxing at all.
    let p = square_from_pixel(250, 750, 1000, 1000).unwrap();
    assert_eq!(p.u_mu, 250_000);
    assert_eq!(p.v_mu, 750_000);
}

#[test]
fn floor_division_rounds_toward_negative_infinity() {
    assert_eq!(div_floor(7, 2), 3);
    assert_eq!(div_floor(-7, 2), -4);
    assert_eq!(div_floor(-8, 2), -4);
    assert_eq!(div_floor(0, 5), 0);
    assert_eq!(div_floor(-1, 1_000_000), -1);
}

#[test]
fn shorter_side_picks_the_minimum() {
    assert_eq!(min_dim(1920, 1080), 1080);
    assert_eq!(min_dim(1080, 1920), 1080);
    assert_eq!(min_dim(1000, 1000), 1000);
}
