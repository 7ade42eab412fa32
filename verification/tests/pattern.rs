//! Pattern parameter defaults and randomization bounds.

use viz_core::pattern::{ParamDraws, PatternParams, PI_MRAD, TAU_MRAD};

/// A small deterministic generator standing in for the host's uniform
/// random source.
struct Lcg(u64);

impl Lcg {
    fn next(&mut self) -> u32 {
        self.0 = self.0.wrapping_mul(6364136223846793005).wrapping_add(1442695040888963407);
        (self.0 >> 32) as u32
    }

    fn draws(&mut self) -> ParamDraws {
        ParamDraws {
            theta0: self.next(),
            theta_speed: self.next(),
            density: self.next(),
            thickness: self.next(),
            drift_x: self.next(),
            drift_y: self.next(),
            color_speed: self.next(),
            mode: self.next(),
            dot_theta0: self.next(),
            dot_theta_speed: self.next(),
            dot_drift_x: self.next(),
            dot_drift_y: self.next(),
            dot_density: self.next(),
            dot_rmin: self.next(),
            dot_rmax: self.next(),
        }
    }
}

#[test]
fn default_is_a_gentle_stripe_fill() {
    let p = PatternParams::default();
    assert!(!p.mode_polka);
    assert_eq!(p.theta0_mrad, 0);
    assert_eq!(p.theta_speed_mrad, 100);
    assert_eq!(p.density_milli, 16_000);
    assert_eq!(p.thickness_milli, 500);
    assert_eq!(p.drift_x_milli, 50);
    assert_eq!(p.drift_y_milli, 30);
    assert_eq!(p.color_speed_milli, 100);
    assert_eq!(p.dot_theta0_mrad, 0);
    assert_eq!(p.dot_theta_speed_mrad, 80);
    assert_eq!(p.dot_drift_x_milli, 30);
    assert_eq!(p.dot_drift_y_milli, -20);
    assert_eq!(p.dot_density_milli, 10_000);
    assert_eq!(p.dot_rmin_milli, 50);
    assert_eq!(p.dot_rmax_milli, 180);
}

#[test]
fn every_randomized_field_stays_in_its_documented_range() {
    let mut g = Lcg(0x5eed);
    for _ in 0..2_000 {
        let p = PatternParams::randomize(&g.draws());
        assert!((0..=PI_MRAD).contains(&p.theta0_mrad));
        assert!((50..=350).contains(&p.theta_speed_mrad));
        assert!((6_000..=30_000).contains(&p.density_milli));
        assert!((150..=850).contains(&p.thickness_milli));
        assert!((-150..=150).contains(&p.drift_x_milli));
        assert!((-150..=150).contains(&p.drift_y_milli));
        assert!((50..=450).contains(&p.color_speed_milli));
        assert!((0..=TAU_MRAD).contains(&p.dot_theta0_mrad));
        assert!((20..=220).contains(&p.dot_theta_speed_mrad));
        assert!((-200..=200).contains(&p.dot_drift_x_milli));
        assert!((-200..=200).contains(&p.dot_drift_y_milli));
        assert!((6_000..=26_000).contains(&p.dot_density_milli));
        assert!((30..=150).contains(&p.dot_rmin_milli));
        assert!(p.dot_rmax_milli >= p.dot_rmin_milli + 30);
        assert!(p.dot_rmax_milli <= p.dot_rmin_milli + 230);
    }
}

#[test]
fn zero_draws_land_on_every_lower_bound() {
    let d = ParamDraws {
        theta0: 0,
        theta_speed: 0,
        density: 0,
        thickness: 0,
        drift_x: 0,
        drift_y: 0,
        color_speed: 0,
        mode: 0,
        dot_theta0: 0,
        dot_theta_speed: 0,
        dot_drift_x: 0,
        dot_drift_y: 0,
        dot_density: 0,
        dot_rmin: 0,
        dot_rmax: 0,
    };
    let p = PatternParams::randomize(&d);
    assert_eq!(p.theta0_mrad, 0);
    assert_eq!(p.theta_speed_mrad, 50);
    assert_eq!(p.density_milli, 6_000);
    assert_eq!(p.thickness_milli, 150);
    assert_eq!(p.drift_x_milli, -150);
    assert_eq!(p.drift_y_milli, -150);
    assert_eq!(p.color_speed_milli, 50);
    assert!(!p.mode_polka);
    assert_eq!(p.dot_theta0_mrad, 0);
    assert_eq!(p.dot_theta_speed_mrad, 20);
    assert_eq!(p.dot_drift_x_milli, -200);
    assert_eq!(p.dot_drift_y_milli, -200);
    assert_eq!(p.dot_density_milli, 6_000);
    assert_eq!(p.dot_rmin_milli, 30);
    assert_eq!(p.dot_rmax_milli, 60);
}

#[test]
fn the_fill_mode_follows_the_parity_of_its_draw() {
    let mut d = ParamDraws {
        theta0: 5,
        theta_speed: 5,
        density: 5,
        thickness: 5,
        drift_x: 5,
        drift_y: 5,
        color_speed: 5,
        mode: 1,
        dot_theta0: 5,
        dot_theta_speed: 5,
        dot_drift_x: 5,
        dot_drift_y: 5,
        dot_density: 5,
        dot_rmin: 5,
        dot_rmax: 5,
    };
    assert!(PatternParams::randomize(&d).mode_polka);
    d.mode = 2;
    assert!(!PatternParams::randomize(&d).mode_polka);
}

#[test]
fn draws_wrap_around_their_interval() {
    let d = ParamDraws {
        theta0: PI_MRAD as u32 + 1,
        theta_speed: 301,
        density: 24_001,
        thickness: 701,
        drift_x: 301,
        drift_y: 302,
        color_speed: 401,
        mode: 3,
        dot_theta0: TAU_MRAD as u32 + 1,
        dot_theta_speed: 201,
        dot_drift_x: 401,
        dot_drift_y: 402,
        dot_density: 20_001,
        dot_rmin: 121,
        dot_rmax: 201,
    };
    let p = PatternParams::randomize(&d);
    assert_eq!(p.theta0_mrad, 0, "one past the top of [0, pi] wraps to 0");
    assert_eq!(p.theta_speed_mrad, 50);
    assert_eq!(p.density_milli, 6_000, "one past the span of [6, 30] wraps to 6");
    assert_eq!(p.dot_theta0_mrad, 0);
}
