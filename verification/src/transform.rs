//! The shared coordinate transform: device pixels are normalized into a
//! square-aspect space centered on the surface, then scaled and rotated
//! by the active variant's animation parameters, so shape proportions
//! never depend on the window's aspect ratio.
//!
//! Coordinates are integer counts of micro-units (millionths of the
//! canonical square's side). A texture-space coordinate is kept as an
//! exact fraction over the surface's shorter side, so the round trip
//! from the canonical square through any surface and back into pattern
//! space is exact — aspect invariance holds to the last micro-unit, not
//! merely within a tolerance.

use vstd::prelude::*;
use vstd::arithmetic::div_mod::{
    lemma_div_is_ordered,
    lemma_div_multiples_vanish,
    lemma_fundamental_div_mod,
    lemma_fundamental_div_mod_converse,
};

verus! {

/// Micro-units in one unit of the canonical square space.
pub const UNIT: i64 = 1_000_000;

/// Half of one unit, in micro-units: the square's center coordinate.
pub const HALF_UNIT: i64 = 500_000;

/// Largest supported surface extent, in physical pixels.
pub const MAX_RES: u32 = 16_384;

/// Floor division with a positive divisor, agreeing with mathematical
/// (Euclidean) division also for negative dividends.
pub fn div_floor(a: i64, b: i64) -> (q: i64)
    requires
        0 < b <= 0x4000_0000_0000_0000,
        -0x4000_0000_0000_0000 <= a <= 0x4000_0000_0000_0000,
    ensures
        q == a as int / b as int,
{
    if a >= 0 {
        ((a as u64) / (b as u64)) as i64
    } else {
        let na = (-a) as u64;
        let bu = b as u64;
        let q0 = (na + (bu - 1)) / bu;
        proof {
            let aa = a as int;
            let bb = b as int;
            let nn = -aa;
            lemma_fundamental_div_mod(nn, bb);
            let q1 = nn / bb;
            let r1 = nn % bb;
            if r1 == 0 {
                assert(aa == -q1 * bb + 0) by (nonlinear_arith)
                    requires
                        nn == bb * q1 + r1,
                        r1 == 0,
                        aa == -nn,
                ;
                lemma_fundamental_div_mod_converse(aa, bb, -q1, 0);
                assert(nn + bb - 1 == q1 * bb + (bb - 1)) by (nonlinear_arith)
                    requires
                        nn == bb * q1 + r1,
                        r1 == 0,
                ;
                lemma_fundamental_div_mod_converse(nn + bb - 1, bb, q1, bb - 1);
            } else {
                assert(aa == (-q1 - 1) * bb + (bb - r1)) by (nonlinear_arith)
                    requires
                        nn == bb * q1 + r1,
                        aa == -nn,
                ;
                lemma_fundamental_div_mod_converse(aa, bb, -q1 - 1, bb - r1);
                assert(nn + bb - 1 == (q1 + 1) * bb + (r1 - 1)) by (nonlinear_arith)
                    requires
                        nn == bb * q1 + r1,
                ;
                lemma_fundamental_div_mod_converse(nn + bb - 1, bb, q1 + 1, r1 - 1);
            }
        }
        -((q0 as i64))
    }
}

/// A quotient is bounded by the matching bound on its dividend: if
/// `-c * b <= a <= c * b` with `b` positive, then `-c <= a / b <= c`.
proof fn lemma_div_bound(a: int, b: int, c: int)
    requires
        0 < b,
        0 <= c,
        -c * b <= a <= c * b,
    ensures
        -c <= a / b <= c,
{
    lemma_div_is_ordered(a, c * b, b);
    lemma_div_is_ordered(-c * b, a, b);
    assert(c * b == b * c) by (nonlinear_arith);
    assert(-c * b == b * -c) by (nonlinear_arith);
    lemma_div_multiples_vanish(c, b);
    lemma_div_multiples_vanish(-c, b);
}

/// The surface's shorter side.
pub open spec fn spec_min_dim(w: u32, h: u32) -> int {
    if w <= h {
        w as int
    } else {
        h as int
    }
}

/// Returns the surface's shorter side, in physical pixels.
pub fn min_dim(w: u32, h: u32) -> (m: u32)
    ensures
        m == spec_min_dim(w, h),
{
    if w <= h {
        w
    } else {
        h
    }
}

/// Largest supported scale factor, in micro-units (a scale of sixteen).
pub const MAX_SCALE: i64 = 16_000_000;

/// A texture-space coordinate held as an exact fraction: the value in
/// micro-units is `num / den`, where `den` is the shorter side of the
/// surface the coordinate belongs to.
#[derive(Clone, Copy, PartialEq, Eq, Structural, Debug)]
pub struct TexCoord {
    /// Horizontal coordinate, micro-units times `den`.
    pub num_x: i64,
    /// Vertical coordinate, micro-units times `den`.
    pub num_y: i64,
    /// Common denominator: the surface's shorter side, pixels.
    pub den: u32,
}

/// A point in a variant's pattern space, micro-units.
#[derive(Clone, Copy, PartialEq, Eq, Structural, Debug)]
pub struct PatternPoint {
    /// Horizontal coordinate, micro-units.
    pub x_mu: i64,
    /// Vertical coordinate, micro-units.
    pub y_mu: i64,
}

/// The texture-space fraction of a canonical square point on a surface:
/// the square coordinate recentered and stretched by the inverse aspect
/// correction, kept over the shorter side so nothing is rounded.
pub open spec fn spec_tex_x(u_mu: i64, w: u32, h: u32) -> int {
    (u_mu - HALF_UNIT) * w + HALF_UNIT * spec_min_dim(w, h)
}

/// The vertical half of [`spec_tex_x`].
pub open spec fn spec_tex_y(v_mu: i64, w: u32, h: u32) -> int {
    (v_mu - HALF_UNIT) * h + HALF_UNIT * spec_min_dim(w, h)
}

/// Surface sides and canonical coordinates under which the transform's
/// fixed-point arithmetic is exact and free of overflow.
pub open spec fn square_point_ok(u_mu: i64, v_mu: i64) -> bool {
    0 <= u_mu <= UNIT && 0 <= v_mu <= UNIT
}

/// The surface is at least one pixel and at most [`MAX_RES`] on a side.
pub open spec fn surface_ok(w: u32, h: u32) -> bool {
    1 <= w <= MAX_RES && 1 <= h <= MAX_RES
}

/// Rotation coefficients (a cosine and sine in micro-units) and a scale
/// in range for the transform.
pub open spec fn rotation_ok(cos_mu: i64, sin_mu: i64, scale_mu: i64) -> bool {
    -UNIT <= cos_mu <= UNIT && -UNIT <= sin_mu <= UNIT && 0 <= scale_mu <= MAX_SCALE
}

/// Places a canonical square point onto a surface: the exact
/// texture-space fraction which the variant programs map back into
/// pattern space.
pub fn tex_from_square(u_mu: i64, v_mu: i64, w: u32, h: u32) -> (t: TexCoord)
    requires
        square_point_ok(u_mu, v_mu),
        surface_ok(w, h),
    ensures
        t.num_x == spec_tex_x(u_mu, w, h),
        t.num_y == spec_tex_y(v_mu, w, h),
        t.den == spec_min_dim(w, h),
{
    let m = min_dim(w, h);
    proof {
        assert((u_mu - HALF_UNIT) * w <= HALF_UNIT * MAX_RES && (u_mu - HALF_UNIT) * w
            >= -HALF_UNIT * MAX_RES) by (nonlinear_arith)
            requires
                -HALF_UNIT <= u_mu - HALF_UNIT <= HALF_UNIT,
                0 < w <= MAX_RES,
        ;
        assert((v_mu - HALF_UNIT) * h <= HALF_UNIT * MAX_RES && (v_mu - HALF_UNIT) * h
            >= -HALF_UNIT * MAX_RES) by (nonlinear_arith)
            requires
                -HALF_UNIT <= v_mu - HALF_UNIT <= HALF_UNIT,
                0 < h <= MAX_RES,
        ;
        assert(0 <= HALF_UNIT * m <= HALF_UNIT * MAX_RES) by (nonlinear_arith)
            requires
                0 <= m <= MAX_RES,
        ;
    }
    TexCoord {
        num_x: (u_mu - HALF_UNIT) * (w as i64) + HALF_UNIT * (m as i64),
        num_y: (v_mu - HALF_UNIT) * (h as i64) + HALF_UNIT * (m as i64),
        den: m,
    }
}

/// The pre-rotation pattern abscissa of a texture coordinate on a
/// surface: the coordinate mapped to `[-1, 1]`, aspect-corrected by
/// `min(w, h) / w`, in micro-units, floored.
pub open spec fn spec_pre_x(t: TexCoord, w: u32, h: u32) -> int {
    ((2 * t.num_x - UNIT * t.den) * spec_min_dim(w, h)) / (t.den * w)
}

/// The vertical half of [`spec_pre_x`], aspect-corrected by
/// `min(w, h) / h`.
pub open spec fn spec_pre_y(t: TexCoord, w: u32, h: u32) -> int {
    ((2 * t.num_y - UNIT * t.den) * spec_min_dim(w, h)) / (t.den * h)
}

/// Scaling and rotation applied to a pre-rotation point, micro-units.
pub open spec fn spec_rotate_x(px: int, py: int, cos_mu: i64, sin_mu: i64, scale_mu: i64)
    -> int {
    let sx = (px * scale_mu) / (UNIT as int);
    let sy = (py * scale_mu) / (UNIT as int);
    (cos_mu * sx - sin_mu * sy) / (UNIT as int)
}

/// The ordinate half of [`spec_rotate_x`].
pub open spec fn spec_rotate_y(px: int, py: int, cos_mu: i64, sin_mu: i64, scale_mu: i64)
    -> int {
    let sx = (px * scale_mu) / (UNIT as int);
    let sy = (py * scale_mu) / (UNIT as int);
    (sin_mu * sx + cos_mu * sy) / (UNIT as int)
}

/// The full variant transform of a texture coordinate on a surface.
pub open spec fn spec_pattern_x(
    t: TexCoord,
    w: u32,
    h: u32,
    cos_mu: i64,
    sin_mu: i64,
    scale_mu: i64,
) -> int {
    spec_rotate_x(spec_pre_x(t, w, h), spec_pre_y(t, w, h), cos_mu, sin_mu, scale_mu)
}

/// The ordinate half of [`spec_pattern_x`].
pub open spec fn spec_pattern_y(
    t: TexCoord,
    w: u32,
    h: u32,
    cos_mu: i64,
    sin_mu: i64,
    scale_mu: i64,
) -> int {
    spec_rotate_y(spec_pre_x(t, w, h), spec_pre_y(t, w, h), cos_mu, sin_mu, scale_mu)
}

/// Where a canonical square point lands in pattern space, free of any
/// surface: recentered to `[-1, 1]`, scaled, and rotated.
pub open spec fn spec_canonical_x(
    u_mu: i64,
    v_mu: i64,
    cos_mu: i64,
    sin_mu: i64,
    scale_mu: i64,
) -> int {
    spec_rotate_x(2 * (u_mu - HALF_UNIT), 2 * (v_mu - HALF_UNIT), cos_mu, sin_mu, scale_mu)
}

/// The ordinate half of [`spec_canonical_x`].
pub open spec fn spec_canonical_y(
    u_mu: i64,
    v_mu: i64,
    cos_mu: i64,
    sin_mu: i64,
    scale_mu: i64,
) -> int {
    spec_rotate_y(2 * (u_mu - HALF_UNIT), 2 * (v_mu - HALF_UNIT), cos_mu, sin_mu, scale_mu)
}

/// A texture coordinate the transform accepts for a surface: its
/// denominator is that surface's shorter side and its numerators stay
/// within one surface extent of the center.
pub open spec fn tex_ok(t: TexCoord, w: u32, h: u32) -> bool {
    &&& t.den == spec_min_dim(w, h)
    &&& -(UNIT as int) * w <= t.num_x <= (UNIT as int) * w
    &&& -(UNIT as int) * h <= t.num_y <= (UNIT as int) * h
}

/// Maps a texture coordinate into the active variant's pattern space:
/// recentered to `[-1, 1]`, aspect-corrected by the shorter side so the
/// geometry is square, then scaled and rotated.
pub fn to_pattern(
    t: TexCoord,
    w: u32,
    h: u32,
    cos_mu: i64,
    sin_mu: i64,
    scale_mu: i64,
) -> (p: PatternPoint)
    requires
        surface_ok(w, h),
        tex_ok(t, w, h),
        rotation_ok(cos_mu, sin_mu, scale_mu),
    ensures
        p.x_mu == spec_pattern_x(t, w, h, cos_mu, sin_mu, scale_mu),
        p.y_mu == spec_pattern_y(t, w, h, cos_mu, sin_mu, scale_mu),
{
    let m = min_dim(w, h);
    let ghost ww = w as int;
    let ghost hh = h as int;
    let ghost dd = t.den as int;
    let ghost mm = m as int;
    proof {
        assert(UNIT * ww <= UNIT * (MAX_RES as int) && UNIT * hh <= UNIT * (MAX_RES as int)
            && 0 <= UNIT * dd <= UNIT * ww && UNIT * dd <= UNIT * hh) by (nonlinear_arith)
            requires
                1 <= ww <= MAX_RES as int,
                1 <= hh <= MAX_RES as int,
                0 <= dd <= ww,
                dd <= hh,
        ;
    }
    let nx = 2 * t.num_x - UNIT * (t.den as i64);
    let ny = 2 * t.num_y - UNIT * (t.den as i64);
    let ghost nnx = nx as int;
    let ghost nny = ny as int;
    proof {
        assert(-3 * UNIT * ww <= nnx <= 3 * UNIT * ww && -3 * UNIT * hh <= nny <= 3 * UNIT
            * hh) by (nonlinear_arith)
            requires
                nnx == 2 * t.num_x - UNIT * dd,
                nny == 2 * t.num_y - UNIT * dd,
                -(UNIT as int) * ww <= t.num_x <= (UNIT as int) * ww,
                -(UNIT as int) * hh <= t.num_y <= (UNIT as int) * hh,
                0 <= dd <= ww,
                dd <= hh,
                1 <= ww,
                1 <= hh,
        ;
        assert(-0x4000_0000_0000_0000 <= nnx * mm <= 0x4000_0000_0000_0000
            && -0x4000_0000_0000_0000 <= nny * mm <= 0x4000_0000_0000_0000 && 0 < dd * ww
            <= 0x4000_0000_0000_0000 && 0 < dd * hh <= 0x4000_0000_0000_0000 && nnx * mm <= 3
            * UNIT * (dd * ww) && nnx * mm >= -(3 * UNIT) * (dd * ww) && nny * mm <= 3 * UNIT
            * (dd * hh) && nny * mm >= -(3 * UNIT) * (dd * hh)) by (nonlinear_arith)
            requires
                -3 * UNIT * ww <= nnx <= 3 * UNIT * ww,
                -3 * UNIT * hh <= nny <= 3 * UNIT * hh,
                mm == dd,
                1 <= dd <= MAX_RES as int,
                1 <= ww <= MAX_RES as int,
                1 <= hh <= MAX_RES as int,
        ;
    }
    let pre_x = div_floor(nx * (m as i64), (t.den as i64) * (w as i64));
    let pre_y = div_floor(ny * (m as i64), (t.den as i64) * (h as i64));
    proof {
        lemma_div_bound(nnx * mm, dd * ww, 3 * UNIT);
        lemma_div_bound(nny * mm, dd * hh, 3 * UNIT);
    }
    rotate_scaled(pre_x, pre_y, cos_mu, sin_mu, scale_mu)
}

/// Applies the scale and rotation tail of the transform to a
/// pre-rotation point, in micro-units.
pub fn rotate_scaled(px: i64, py: i64, cos_mu: i64, sin_mu: i64, scale_mu: i64) -> (p:
    PatternPoint)
    requires
        -3 * UNIT <= px <= 3 * UNIT,
        -3 * UNIT <= py <= 3 * UNIT,
        rotation_ok(cos_mu, sin_mu, scale_mu),
    ensures
        p.x_mu == spec_rotate_x(px as int, py as int, cos_mu, sin_mu, scale_mu),
        p.y_mu == spec_rotate_y(px as int, py as int, cos_mu, sin_mu, scale_mu),
{
    proof {
        assert(px * scale_mu <= 3 * UNIT * MAX_SCALE && px * scale_mu >= -3 * UNIT * MAX_SCALE
            && py * scale_mu <= 3 * UNIT * MAX_SCALE && py * scale_mu >= -3 * UNIT * MAX_SCALE)
            by (nonlinear_arith)
            requires
                -3 * UNIT <= px <= 3 * UNIT,
                -3 * UNIT <= py <= 3 * UNIT,
                0 <= scale_mu <= MAX_SCALE,
        ;
        lemma_div_bound(px * scale_mu, UNIT as int, 48_000_000);
        lemma_div_bound(py * scale_mu, UNIT as int, 48_000_000);
    }
    let sx = div_floor(px * scale_mu, UNIT);
    let sy = div_floor(py * scale_mu, UNIT);
    proof {
        assert(cos_mu * sx <= UNIT * 48_000_000 && cos_mu * sx >= -UNIT * 48_000_000 && sin_mu
            * sy <= UNIT * 48_000_000 && sin_mu * sy >= -UNIT * 48_000_000 && sin_mu * sx
            <= UNIT * 48_000_000 && sin_mu * sx >= -UNIT * 48_000_000 && cos_mu * sy <= UNIT
            * 48_000_000 && cos_mu * sy >= -UNIT * 48_000_000) by (nonlinear_arith)
            requires
                -UNIT <= cos_mu <= UNIT,
                -UNIT <= sin_mu <= UNIT,
                -48_000_000 <= sx <= 48_000_000,
                -48_000_000 <= sy <= 48_000_000,
        ;
    }
    let x = div_floor(cos_mu * sx - sin_mu * sy, UNIT);
    let y = div_floor(sin_mu * sx + cos_mu * sy, UNIT);
    PatternPoint { x_mu: x, y_mu: y }
}

/// A point in the centered canonical square, micro-units in `[0, UNIT]`.
#[derive(Clone, Copy, PartialEq, Eq, Structural, Debug)]
pub struct SquareUv {
    /// Horizontal coordinate, micro-units.
    pub u_mu: i64,
    /// Vertical coordinate, micro-units.
    pub v_mu: i64,
}

/// Whether a device pixel lies inside the inscribed centered square of
/// the surface; everything outside it is letterboxed opaque black.
pub open spec fn spec_in_inscribed(px: u32, py: u32, w: u32, h: u32) -> bool {
    let m = spec_min_dim(w, h);
    &&& w - m <= 2 * px <= w + m
    &&& h - m <= 2 * py <= h + m
}

/// The horizontal square coordinate of a pixel inside the inscribed
/// square, micro-units, floored.
pub open spec fn spec_square_u(px: u32, w: u32, h: u32) -> int {
    let m = spec_min_dim(w, h);
    ((2 * px - (w - m)) * UNIT) / (2 * m)
}

/// The vertical half of [`spec_square_u`].
pub open spec fn spec_square_v(py: u32, w: u32, h: u32) -> int {
    let m = spec_min_dim(w, h);
    ((2 * py - (h - m)) * UNIT) / (2 * m)
}

/// Normalizes a device pixel into the centered canonical square of the
/// composite pass. Pixels on the letterbox bars — outside the inscribed
/// square — yield nothing and render as opaque black.
pub fn square_from_pixel(px: u32, py: u32, w: u32, h: u32) -> (r: Option<SquareUv>)
    requires
        surface_ok(w, h),
    ensures
        r is Some <==> spec_in_inscribed(px, py, w, h),
        r matches Some(s) ==> {
            &&& s.u_mu == spec_square_u(px, w, h)
            &&& s.v_mu == spec_square_v(py, w, h)
            &&& 0 <= s.u_mu <= UNIT
            &&& 0 <= s.v_mu <= UNIT
        },
{
    let m = min_dim(w, h);
    let tpx = 2 * (px as i64);
    let tpy = 2 * (py as i64);
    let lo_x = (w - m) as i64;
    let lo_y = (h - m) as i64;
    if tpx < lo_x || tpx > lo_x + 2 * (m as i64) || tpy < lo_y || tpy > lo_y + 2 * (m as i64) {
        return None;
    }
    proof {
        assert(0 <= (tpx - lo_x) * UNIT <= UNIT * (2 * (m as int)) && 0 <= (tpy - lo_y)
            * UNIT <= UNIT * (2 * (m as int)) && (tpx - lo_x) * UNIT
            <= 0x4000_0000_0000_0000 && (tpy - lo_y) * UNIT <= 0x4000_0000_0000_0000)
            by (nonlinear_arith)
            requires
                0 <= tpx - lo_x <= 2 * (m as int),
                0 <= tpy - lo_y <= 2 * (m as int),
                1 <= m as int <= MAX_RES as int,
        ;
        lemma_div_bound((tpx - lo_x) * UNIT, 2 * (m as int), UNIT as int);
        lemma_div_bound((tpy - lo_y) * UNIT, 2 * (m as int), UNIT as int);
    }
    let u = div_floor((tpx - lo_x) * UNIT, 2 * (m as i64));
    let v = div_floor((tpy - lo_y) * UNIT, 2 * (m as i64));
    Some(SquareUv { u_mu: u, v_mu: v })
}

/// Aspect invariance, one surface at a time: a canonical square point
/// placed on any surface and run through the variant transform lands
/// exactly where the surface-free canonical transform puts it.
pub proof fn lemma_projection_is_canonical(
    u_mu: i64,
    v_mu: i64,
    w: u32,
    h: u32,
    cos_mu: i64,
    sin_mu: i64,
    scale_mu: i64,
)
    requires
        square_point_ok(u_mu, v_mu),
        surface_ok(w, h),
        rotation_ok(cos_mu, sin_mu, scale_mu),
    ensures
        spec_pattern_x(
            TexCoord {
                num_x: spec_tex_x(u_mu, w, h) as i64,
                num_y: spec_tex_y(v_mu, w, h) as i64,
                den: spec_min_dim(w, h) as u32,
            },
            w,
            h,
            cos_mu,
            sin_mu,
            scale_mu,
        ) == spec_canonical_x(u_mu, v_mu, cos_mu, sin_mu, scale_mu),
        spec_pattern_y(
            TexCoord {
                num_x: spec_tex_x(u_mu, w, h) as i64,
                num_y: spec_tex_y(v_mu, w, h) as i64,
                den: spec_min_dim(w, h) as u32,
            },
            w,
            h,
            cos_mu,
            sin_mu,
            scale_mu,
        ) == spec_canonical_y(u_mu, v_mu, cos_mu, sin_mu, scale_mu),
{
    let m = spec_min_dim(w, h);
    let t = TexCoord {
        num_x: spec_tex_x(u_mu, w, h) as i64,
        num_y: spec_tex_y(v_mu, w, h) as i64,
        den: m as u32,
    };
    assert(spec_tex_x(u_mu, w, h) as i64 == spec_tex_x(u_mu, w, h) && spec_tex_y(v_mu, w, h)
        as i64 == spec_tex_y(v_mu, w, h)) by (nonlinear_arith)
        requires
            0 <= u_mu <= UNIT,
            0 <= v_mu <= UNIT,
            1 <= w <= MAX_RES,
            1 <= h <= MAX_RES,
            spec_tex_x(u_mu, w, h) == (u_mu - HALF_UNIT) * w + HALF_UNIT * spec_min_dim(w, h),
            spec_tex_y(v_mu, w, h) == (v_mu - HALF_UNIT) * h + HALF_UNIT * spec_min_dim(w, h),
            spec_min_dim(w, h) <= w && spec_min_dim(w, h) <= h,
    ;
    let px = 2 * (u_mu - HALF_UNIT) as int;
    let py = 2 * (v_mu - HALF_UNIT) as int;
    assert((2 * t.num_x - UNIT * t.den) * m == (t.den * w) * px) by (nonlinear_arith)
        requires
            t.num_x == (u_mu - HALF_UNIT) * w + HALF_UNIT * m,
            t.den == m,
            px == 2 * (u_mu - HALF_UNIT),
            UNIT == 2 * HALF_UNIT,
    ;
    assert((2 * t.num_y - UNIT * t.den) * m == (t.den * h) * py) by (nonlinear_arith)
        requires
            t.num_y == (v_mu - HALF_UNIT) * h + HALF_UNIT * m,
            t.den == m,
            py == 2 * (v_mu - HALF_UNIT),
            UNIT == 2 * HALF_UNIT,
    ;
    assert(t.den * w > 0 && t.den * h > 0) by (nonlinear_arith)
        requires
            t.den == m,
            1 <= m,
            1 <= w,
            1 <= h,
    ;
    lemma_div_multiples_vanish(px, t.den as int * w as int);
    lemma_div_multiples_vanish(py, t.den as int * h as int);
    assert(spec_pre_x(t, w, h) == px);
    assert(spec_pre_y(t, w, h) == py);
}

/// Aspect invariance: for any two surface sizes, a canonical square
/// point projects to the same pattern-space point on both — the visual
/// geometry does not depend on the window's aspect ratio.
pub proof fn lemma_aspect_invariance(
    u_mu: i64,
    v_mu: i64,
    w1: u32,
    h1: u32,
    w2: u32,
    h2: u32,
    cos_mu: i64,
    sin_mu: i64,
    scale_mu: i64,
)
    requires
        square_point_ok(u_mu, v_mu),
        surface_ok(w1, h1),
        surface_ok(w2, h2),
        rotation_ok(cos_mu, sin_mu, scale_mu),
    ensures
        spec_pattern_x(
            TexCoord {
                num_x: spec_tex_x(u_mu, w1, h1) as i64,
                num_y: spec_tex_y(v_mu, w1, h1) as i64,
                den: spec_min_dim(w1, h1) as u32,
            },
            w1,
            h1,
            cos_mu,
            sin_mu,
            scale_mu,
        ) == spec_pattern_x(
            TexCoord {
                num_x: spec_tex_x(u_mu, w2, h2) as i64,
                num_y: spec_tex_y(v_mu, w2, h2) as i64,
                den: spec_min_dim(w2, h2) as u32,
            },
            w2,
            h2,
            cos_mu,
            sin_mu,
            scale_mu,
        ),
        spec_pattern_y(
            TexCoord {
                num_x: spec_tex_x(u_mu, w1, h1) as i64,
                num_y: spec_tex_y(v_mu, w1, h1) as i64,
                den: spec_min_dim(w1, h1) as u32,
            },
            w1,
            h1,
            cos_mu,
            sin_mu,
            scale_mu,
        ) == spec_pattern_y(
            TexCoord {
                num_x: spec_tex_x(u_mu, w2, h2) as i64,
                num_y: spec_tex_y(v_mu, w2, h2) as i64,
                den: spec_min_dim(w2, h2) as u32,
            },
            w2,
            h2,
            cos_mu,
            sin_mu,
            scale_mu,
        ),
{
    lemma_projection_is_canonical(u_mu, v_mu, w1, h1, cos_mu, sin_mu, scale_mu);
    lemma_projection_is_canonical(u_mu, v_mu, w2, h2, cos_mu, sin_mu, scale_mu);
}

} // verus!
