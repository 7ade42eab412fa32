//! Pattern parameters: the randomized configuration that controls the
//! stripe or polka-dot fill of the composite pass for one segment.
//!
//! All fractional fields are integer counts of thousandths (angles in
//! milliradians, speeds in milli-units per second), so every documented
//! range is an exact closed integer interval. The record is replaced as a
//! whole at each segment transition, from uniform random draws handed in
//! by the host; it is never touched between transitions.

use vstd::prelude::*;

verus! {

/// Pi in milliradians, rounded down.
pub const PI_MRAD: i32 = 3141;

/// Two pi in milliradians, rounded down.
pub const TAU_MRAD: i32 = 6283;

/// The fill pattern configuration for one segment. Fields mirror the
/// composite shader's uniforms, scaled by one thousand.
#[derive(Clone, Copy, PartialEq, Eq, Structural, Debug)]
pub struct PatternParams {
    /// Stripe rotation angle at segment start, milliradians.
    pub theta0_mrad: i32,
    /// Stripe rotation speed, milliradians per second.
    pub theta_speed_mrad: i32,
    /// Stripe count per unit, thousandths.
    pub density_milli: i32,
    /// Stripe thickness as a fraction of one band, thousandths.
    pub thickness_milli: i32,
    /// Stripe drift velocity, x component, milli-units per second.
    pub drift_x_milli: i32,
    /// Stripe drift velocity, y component, milli-units per second.
    pub drift_y_milli: i32,
    /// Hue cycling speed, cycles per second, thousandths.
    pub color_speed_milli: i32,
    /// Fill-mode selector: false draws stripes, true draws polka dots.
    pub mode_polka: bool,
    /// Dot-grid rotation angle at segment start, milliradians.
    pub dot_theta0_mrad: i32,
    /// Dot-grid rotation speed, milliradians per second.
    pub dot_theta_speed_mrad: i32,
    /// Dot-grid drift velocity, x component, milli-units per second.
    pub dot_drift_x_milli: i32,
    /// Dot-grid drift velocity, y component, milli-units per second.
    pub dot_drift_y_milli: i32,
    /// Average dots per unit, thousandths.
    pub dot_density_milli: i32,
    /// Smallest dot radius, milli-units.
    pub dot_rmin_milli: i32,
    /// Largest dot radius, milli-units.
    pub dot_rmax_milli: i32,
}

impl Default for PatternParams {
    /// The configuration in force before the first transition: a gentle
    /// stripe fill.
    fn default() -> (p: Self)
        ensures
            p == PatternParams::spec_default(),
    {
        PatternParams {
            theta0_mrad: 0,
            theta_speed_mrad: 100,
            density_milli: 16_000,
            thickness_milli: 500,
            drift_x_milli: 50,
            drift_y_milli: 30,
            color_speed_milli: 100,
            mode_polka: false,
            dot_theta0_mrad: 0,
            dot_theta_speed_mrad: 80,
            dot_drift_x_milli: 30,
            dot_drift_y_milli: -20,
            dot_density_milli: 10_000,
            dot_rmin_milli: 50,
            dot_rmax_milli: 180,
        }
    }
}

/// One uniform draw per randomized field. Each draw is an arbitrary
/// 32-bit value from the host's uniform random source; the mapping into
/// each documented range is verified here.
#[derive(Clone, Copy, PartialEq, Eq, Structural, Debug)]
pub struct ParamDraws {
    pub theta0: u32,
    pub theta_speed: u32,
    pub density: u32,
    pub thickness: u32,
    pub drift_x: u32,
    pub drift_y: u32,
    pub color_speed: u32,
    pub mode: u32,
    pub dot_theta0: u32,
    pub dot_theta_speed: u32,
    pub dot_drift_x: u32,
    pub dot_drift_y: u32,
    pub dot_density: u32,
    pub dot_rmin: u32,
    pub dot_rmax: u32,
}

/// A draw mapped uniformly into the closed interval `[lo, hi]`.
pub open spec fn spec_in_range(draw: u32, lo: int, hi: int) -> int {
    lo + (draw as int) % (hi - lo + 1)
}

/// Maps a uniform draw into the closed interval `[lo, hi]`.
pub fn draw_in_range(draw: u32, lo: i32, hi: i32) -> (r: i32)
    requires
        lo <= hi,
    ensures
        r == spec_in_range(draw, lo as int, hi as int),
        lo <= r <= hi,
{
    let span = (hi as i64 - lo as i64 + 1) as u64;
    (lo as i64 + (draw as u64 % span) as i64) as i32
}

impl PatternParams {
    /// The configuration in force before the first transition.
    pub open spec fn spec_default() -> PatternParams {
        PatternParams {
            theta0_mrad: 0,
            theta_speed_mrad: 100,
            density_milli: 16_000,
            thickness_milli: 500,
            drift_x_milli: 50,
            drift_y_milli: 30,
            color_speed_milli: 100,
            mode_polka: false,
            dot_theta0_mrad: 0,
            dot_theta_speed_mrad: 80,
            dot_drift_x_milli: 30,
            dot_drift_y_milli: (-20) as i32,
            dot_density_milli: 10_000,
            dot_rmin_milli: 50,
            dot_rmax_milli: 180,
        }
    }

    /// The parameter record drawn from one set of uniform draws: each
    /// field lands in its documented closed range, and the fill mode is
    /// an even split between stripes and polka dots.
    pub open spec fn spec_randomize(d: ParamDraws) -> PatternParams {
        PatternParams {
            theta0_mrad: spec_in_range(d.theta0, 0, PI_MRAD as int) as i32,
            theta_speed_mrad: spec_in_range(d.theta_speed, 50, 350) as i32,
            density_milli: spec_in_range(d.density, 6_000, 30_000) as i32,
            thickness_milli: spec_in_range(d.thickness, 150, 850) as i32,
            drift_x_milli: spec_in_range(d.drift_x, (-150) as int, 150) as i32,
            drift_y_milli: spec_in_range(d.drift_y, (-150) as int, 150) as i32,
            color_speed_milli: spec_in_range(d.color_speed, 50, 450) as i32,
            mode_polka: d.mode % 2 == 1,
            dot_theta0_mrad: spec_in_range(d.dot_theta0, 0, TAU_MRAD as int) as i32,
            dot_theta_speed_mrad: spec_in_range(d.dot_theta_speed, 20, 220) as i32,
            dot_drift_x_milli: spec_in_range(d.dot_drift_x, (-200) as int, 200) as i32,
            dot_drift_y_milli: spec_in_range(d.dot_drift_y, (-200) as int, 200) as i32,
            dot_density_milli: spec_in_range(d.dot_density, 6_000, 26_000) as i32,
            dot_rmin_milli: spec_in_range(d.dot_rmin, 30, 150) as i32,
            dot_rmax_milli: (spec_in_range(d.dot_rmin, 30, 150)
                + spec_in_range(d.dot_rmax, 30, 230)) as i32,
        }
    }

    /// Every field sits in its documented closed range; the largest dot
    /// radius exceeds the smallest by its own bounded margin.
    pub open spec fn in_bounds(self) -> bool {
        &&& 0 <= self.theta0_mrad <= PI_MRAD
        &&& 50 <= self.theta_speed_mrad <= 350
        &&& 6_000 <= self.density_milli <= 30_000
        &&& 150 <= self.thickness_milli <= 850
        &&& -150 <= self.drift_x_milli <= 150
        &&& -150 <= self.drift_y_milli <= 150
        &&& 50 <= self.color_speed_milli <= 450
        &&& 0 <= self.dot_theta0_mrad <= TAU_MRAD
        &&& 20 <= self.dot_theta_speed_mrad <= 220
        &&& -200 <= self.dot_drift_x_milli <= 200
        &&& -200 <= self.dot_drift_y_milli <= 200
        &&& 6_000 <= self.dot_density_milli <= 26_000
        &&& 30 <= self.dot_rmin_milli <= 150
        &&& self.dot_rmin_milli + 30 <= self.dot_rmax_milli <= self.dot_rmin_milli + 230
    }

    /// Draws a whole new parameter record for the next segment.
    pub fn randomize(d: &ParamDraws) -> (p: PatternParams)
        ensures
            p == PatternParams::spec_randomize(*d),
            p.in_bounds(),
    {
        let rmin = draw_in_range(d.dot_rmin, 30, 150);
        let rmax = rmin + draw_in_range(d.dot_rmax, 30, 230);
        PatternParams {
            theta0_mrad: draw_in_range(d.theta0, 0, PI_MRAD),
            theta_speed_mrad: draw_in_range(d.theta_speed, 50, 350),
            density_milli: draw_in_range(d.density, 6_000, 30_000),
            thickness_milli: draw_in_range(d.thickness, 150, 850),
            drift_x_milli: draw_in_range(d.drift_x, -150, 150),
            drift_y_milli: draw_in_range(d.drift_y, -150, 150),
            color_speed_milli: draw_in_range(d.color_speed, 50, 450),
            mode_polka: d.mode % 2 == 1,
            dot_theta0_mrad: draw_in_range(d.dot_theta0, 0, TAU_MRAD),
            dot_theta_speed_mrad: draw_in_range(d.dot_theta_speed, 20, 220),
            dot_drift_x_milli: draw_in_range(d.dot_drift_x, -200, 200),
            dot_drift_y_milli: draw_in_range(d.dot_drift_y, -200, 200),
            dot_density_milli: draw_in_range(d.dot_density, 6_000, 26_000),
            dot_rmin_milli: rmin,
            dot_rmax_milli: rmax,
        }
    }

    /// Randomization bounds: whatever the uniform source hands in, every
    /// re-randomized field falls within its documented closed interval.
    pub proof fn lemma_randomize_in_bounds(d: ParamDraws)
        ensures
            PatternParams::spec_randomize(d).in_bounds(),
    {
    }
}

} // verus!
