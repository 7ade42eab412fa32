//! Surface sizing: physical pixel dimensions derived from the logical
//! window size and the device pixel density, and the reconciliation that
//! runs both at startup and on every resize notification.
//!
//! Fractional quantities (logical pixels, density) are held as integer
//! counts of thousandths, so the rounding rule is exact integer
//! arithmetic: `physical = round(logical * density)`.

use vstd::prelude::*;

verus! {

/// Physical pixel count for a logical extent (in milli-pixels) at a pixel
/// density (in milli-units): `round(logical * density)`, rounding halves up.
pub open spec fn spec_phys_px(logical_milli: u64, density_milli: u64) -> int {
    (logical_milli * density_milli + 500_000) / 1_000_000
}

/// Rounds `logical * density` to whole physical pixels.
pub fn phys_px(logical_milli: u64, density_milli: u64) -> (r: u32)
    requires
        logical_milli * density_milli + 500_000 <= u64::MAX,
        spec_phys_px(logical_milli, density_milli) <= u32::MAX,
    ensures
        r == spec_phys_px(logical_milli, density_milli),
{
    ((logical_milli * density_milli + 500_000) / 1_000_000) as u32
}

/// The drawing surface: the logical size and density last read from the
/// host, and the physical size currently applied to the surface.
#[derive(Clone, Copy, PartialEq, Eq, Structural, Debug)]
pub struct SurfaceState {
    /// Logical width, in milli-pixels, as last reported by the host.
    pub logical_w_milli: u64,
    /// Logical height, in milli-pixels, as last reported by the host.
    pub logical_h_milli: u64,
    /// Device pixel density, in milli-units, as last reported by the host.
    pub density_milli: u64,
    /// Physical width applied to the surface, in whole pixels.
    pub phys_w: u32,
    /// Physical height applied to the surface, in whole pixels.
    pub phys_h: u32,
}

/// Bounds under which the physical size can be recomputed without
/// overflow: the milli-pixel products fit in 64 bits and the rounded
/// results fit in 32 bits.
pub open spec fn size_inputs_ok(lw: u64, lh: u64, d: u64) -> bool {
    &&& lw * d + 500_000 <= u64::MAX
    &&& lh * d + 500_000 <= u64::MAX
    &&& spec_phys_px(lw, d) <= u32::MAX
    &&& spec_phys_px(lh, d) <= u32::MAX
}

impl SurfaceState {
    /// The surface invariant: the applied physical size is exactly the
    /// rounding of the last-read logical size times density.
    pub open spec fn wf(self) -> bool {
        &&& self.phys_w == spec_phys_px(self.logical_w_milli, self.density_milli)
        &&& self.phys_h == spec_phys_px(self.logical_h_milli, self.density_milli)
    }

    /// Creates the surface state from the first size reading.
    pub fn new(lw_milli: u64, lh_milli: u64, density_milli: u64) -> (s: Self)
        requires
            size_inputs_ok(lw_milli, lh_milli, density_milli),
        ensures
            s.wf(),
            s.logical_w_milli == lw_milli,
            s.logical_h_milli == lh_milli,
            s.density_milli == density_milli,
    {
        let w = phys_px(lw_milli, density_milli);
        let h = phys_px(lh_milli, density_milli);
        SurfaceState {
            logical_w_milli: lw_milli,
            logical_h_milli: lh_milli,
            density_milli,
            phys_w: w,
            phys_h: h,
        }
    }

    /// The state after reconciling with a fresh size reading, and whether
    /// the physical size had to change.
    pub open spec fn spec_adjust(self, lw: u64, lh: u64, d: u64) -> (SurfaceState, bool) {
        let w = spec_phys_px(lw, d);
        let h = spec_phys_px(lh, d);
        let changed = w != self.phys_w || h != self.phys_h;
        (
            SurfaceState {
                logical_w_milli: lw,
                logical_h_milli: lh,
                density_milli: d,
                phys_w: w as u32,
                phys_h: h as u32,
            },
            changed,
        )
    }

    /// Reconciles the surface with a fresh reading of the logical window
    /// size and density. Returns true exactly when the physical size
    /// changed, in which case the caller must apply the new size to the
    /// surface backing store and the viewport; a false return is a no-op.
    pub fn adjust_size(&mut self, lw_milli: u64, lh_milli: u64, density_milli: u64) -> (changed:
        bool)
        requires
            size_inputs_ok(lw_milli, lh_milli, density_milli),
        ensures
            *final(self) == old(self).spec_adjust(lw_milli, lh_milli, density_milli).0,
            changed == old(self).spec_adjust(lw_milli, lh_milli, density_milli).1,
            final(self).wf(),
            changed == !(final(self).phys_w == old(self).phys_w && final(self).phys_h == old(
                self,
            ).phys_h),
    {
        let w = phys_px(lw_milli, density_milli);
        let h = phys_px(lh_milli, density_milli);
        let changed = w != self.phys_w || h != self.phys_h;
        self.logical_w_milli = lw_milli;
        self.logical_h_milli = lh_milli;
        self.density_milli = density_milli;
        self.phys_w = w;
        self.phys_h = h;
        changed
    }

    /// Resize reconciliation is idempotent: once the surface has been
    /// adjusted to a reading, adjusting it again to the same reading
    /// leaves the state unchanged and reports that no work was done.
    pub proof fn lemma_adjust_idempotent(self, lw: u64, lh: u64, d: u64)
        requires
            size_inputs_ok(lw, lh, d),
        ensures
            self.spec_adjust(lw, lh, d).0.spec_adjust(lw, lh, d).0 == self.spec_adjust(
                lw,
                lh,
                d,
            ).0,
            !self.spec_adjust(lw, lh, d).0.spec_adjust(lw, lh, d).1,
    {
    }
}

} // verus!
