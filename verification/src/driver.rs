//! The per-frame driver: one application state shared by the frame
//! callback and the input handler, and the fixed pass order of a frame —
//! mask pass, then scene pass, then composite pass — driven against the
//! scheduler's transition check.
//!
//! The host performs the GPU work and the event plumbing; each frame it
//! hands in the clock reading and a set of uniform random draws and gets
//! back the complete frame plan: which visualizer renders, at what local
//! time and rotation, what label to announce if a transition happened,
//! and the composite inputs, with both sampled textures guaranteed to be
//! this frame's own.

use vstd::prelude::*;
use crate::pattern::{ParamDraws, PatternParams};
use crate::post::{CompositeInputs, PostTargets};
use crate::sched::{KeyInput, KeyOutcome, Scheduler, SegmentState};
use crate::surface::{size_inputs_ok, SurfaceState};
use crate::viz::{kind_at, spec_kind_at, spec_label, VizKind};

verus! {

/// Everything one frame needs from the library: the frame's identity,
/// the active visualizer and its animation inputs, the transition
/// outcome, and the cleared composite pass.
pub struct FramePlan {
    /// This frame's sequence number.
    pub frame: u64,
    /// Whether this frame consumed the sentinel or rotated segments.
    pub transitioned: bool,
    /// The overlay label to announce, on a transition only.
    pub label: Option<String>,
    /// The active registry index.
    pub index: usize,
    /// The active visualizer variant.
    pub kind: VizKind,
    /// Milliseconds elapsed within the active segment.
    pub local_ms: u64,
    /// The rotation uniform for the variant's programs, milliradians.
    pub rot_mrad: u64,
    /// The pattern parameters the composite pass reads this frame.
    pub params: PatternParams,
    /// Size and allocation generation of the freshly written targets.
    pub composite: CompositeInputs,
}

/// The application state: the surface, the scheduler with its pattern
/// parameters, the offscreen targets, and the frame counter. One owned
/// record, handed by reference to the frame callback and the input
/// handler, which run on one logical thread.
pub struct AppState {
    /// The drawing surface's sizes.
    pub surface: SurfaceState,
    /// The segment rotation and the pattern parameters it owns.
    pub sched: Scheduler,
    /// The two offscreen targets and their pass protocol.
    pub targets: PostTargets,
    /// Sequence number of the next frame to run.
    pub next_frame: u64,
}

impl AppState {
    /// The whole-application invariant: each component is well formed
    /// and the offscreen targets always match the current physical
    /// surface size.
    pub open spec fn wf(self) -> bool {
        &&& self.surface.wf()
        &&& self.sched.wf()
        &&& self.targets.wf()
        &&& self.targets.w == self.surface.phys_w
        &&& self.targets.h == self.surface.phys_h
    }

    /// Builds the startup state from the first size reading: surface
    /// sized, targets allocated to match, scheduler at the sentinel.
    pub fn new(lw_milli: u64, lh_milli: u64, density_milli: u64) -> (s: Self)
        requires
            size_inputs_ok(lw_milli, lh_milli, density_milli),
        ensures
            s.wf(),
            s.surface.logical_w_milli == lw_milli,
            s.surface.logical_h_milli == lh_milli,
            s.surface.density_milli == density_milli,
            s.sched.state == SegmentState::Uninitialized,
            s.sched.params == PatternParams::spec_default(),
            s.next_frame == 0,
            s.targets.generation == 0,
            s.targets.mask is None && s.targets.scene is None,
    {
        let surface = SurfaceState::new(lw_milli, lh_milli, density_milli);
        let targets = PostTargets::new(surface.phys_w, surface.phys_h);
        AppState { surface, sched: Scheduler::new(), targets, next_frame: 0 }
    }

    /// Runs the decisions of one frame, in the fixed pass order: the
    /// scheduler's transition check, then the mask pass, the scene pass
    /// and the composite pass recorded against the targets. The host
    /// executes each pass's GPU work in this order; the returned plan
    /// carries everything those calls need.
    pub fn run_frame(&mut self, now_ms: u64, draws: &ParamDraws) -> (plan: FramePlan)
        requires
            old(self).wf(),
            old(self).sched.state.clock_valid(now_ms),
            old(self).next_frame < u64::MAX,
        ensures
            final(self).wf(),
            final(self).surface == old(self).surface,
            final(self).targets.generation == old(self).targets.generation,
            final(self).next_frame == old(self).next_frame + 1,
            final(self).sched.state == old(self).sched.state.spec_tick(now_ms),
            plan.transitioned == old(self).sched.state.spec_fires(now_ms),
            plan.transitioned ==> final(self).sched.params == PatternParams::spec_randomize(
                *draws,
            ),
            !plan.transitioned ==> final(self).sched.params == old(self).sched.params,
            plan.params == final(self).sched.params,
            plan.frame == old(self).next_frame,
            plan.index == final(self).sched.state.index_of(),
            plan.kind == spec_kind_at(plan.index as int),
            plan.local_ms == now_ms - final(self).sched.state.start_of(),
            plan.rot_mrad == plan.kind.spec_rot_mrad(plan.local_ms),
            plan.transitioned ==> (plan.label matches Some(l) && l@ == spec_label(
                plan.index as int,
            )),
            !plan.transitioned ==> plan.label is None,
            plan.composite == (CompositeInputs {
                w: old(self).targets.w,
                h: old(self).targets.h,
                generation: old(self).targets.generation,
            }),
            final(self).targets.mask matches Some(st) && st.frame == plan.frame && st.w
                == final(self).targets.w && st.h == final(self).targets.h,
            final(self).targets.scene matches Some(st) && st.frame == plan.frame && st.w
                == final(self).targets.w && st.h == final(self).targets.h,
    {
        let frame = self.next_frame;
        self.next_frame = self.next_frame + 1;
        let tick = self.sched.tick(now_ms, draws);
        let kind = kind_at(tick.index);
        let rot_mrad = kind.rot_mrad(tick.local_ms);
        self.targets.record_mask(frame);
        self.targets.record_scene(frame);
        let composite = self.targets.composite(frame);
        FramePlan {
            frame,
            transitioned: tick.transitioned,
            label: tick.label,
            index: tick.index,
            kind,
            local_ms: tick.local_ms,
            rot_mrad,
            params: self.sched.params,
            composite,
        }
    }

    /// The state after reconciling a size reading — surface first, then
    /// both offscreen targets together — and whether the backing stores
    /// had to be reallocated.
    pub open spec fn spec_handle_resize(self, lw: u64, lh: u64, d: u64) -> (AppState, bool) {
        let s2 = self.surface.spec_adjust(lw, lh, d).0;
        let tr = self.targets.spec_resize(s2.phys_w, s2.phys_h);
        (
            AppState {
                surface: s2,
                sched: self.sched,
                targets: tr.0,
                next_frame: self.next_frame,
            },
            tr.1,
        )
    }

    /// Reconciles a resize notification: the surface first, then both
    /// offscreen targets together, atomically before the next frame's
    /// passes. Returns true exactly when the backing stores changed and
    /// the host must reallocate canvas and GPU storage.
    pub fn handle_resize(&mut self, lw_milli: u64, lh_milli: u64, density_milli: u64) -> (
        realloc: bool)
        requires
            old(self).wf(),
            size_inputs_ok(lw_milli, lh_milli, density_milli),
            old(self).targets.generation < u64::MAX,
        ensures
            final(self).wf(),
            *final(self) == old(self).spec_handle_resize(
                lw_milli,
                lh_milli,
                density_milli,
            ).0,
            realloc == old(self).spec_handle_resize(lw_milli, lh_milli, density_milli).1,
            final(self).surface == old(self).surface.spec_adjust(
                lw_milli,
                lh_milli,
                density_milli,
            ).0,
            final(self).targets == old(self).targets.spec_resize(
                final(self).surface.phys_w,
                final(self).surface.phys_h,
            ).0,
            realloc == old(self).surface.spec_adjust(lw_milli, lh_milli, density_milli).1,
            final(self).sched == old(self).sched,
            final(self).next_frame == old(self).next_frame,
            realloc == !(final(self).surface.phys_w == old(self).surface.phys_w
                && final(self).surface.phys_h == old(self).surface.phys_h),
            !realloc ==> final(self).targets == old(self).targets,
    {
        let _ = self.surface.adjust_size(lw_milli, lh_milli, density_milli);
        self.targets.resize(self.surface.phys_w, self.surface.phys_h)
    }

    /// Resize idempotence, end to end: reconciling the same size reading
    /// twice reallocates the surface and the offscreen backing stores at
    /// most once — the second reconciliation is a no-op.
    pub proof fn lemma_handle_resize_idempotent(self, lw: u64, lh: u64, d: u64)
        requires
            size_inputs_ok(lw, lh, d),
        ensures
            self.spec_handle_resize(lw, lh, d).0.spec_handle_resize(lw, lh, d).0
                == self.spec_handle_resize(lw, lh, d).0,
            !self.spec_handle_resize(lw, lh, d).0.spec_handle_resize(lw, lh, d).1,
    {
        self.surface.lemma_adjust_idempotent(lw, lh, d);
    }

    /// Routes a key press to the scheduler: only the advance gesture
    /// outside a text entry changes anything.
    pub fn handle_key(&mut self, k: &KeyInput, now_ms: u64, draws: &ParamDraws) -> (r:
        KeyOutcome)
        requires
            old(self).wf(),
        ensures
            final(self).wf(),
            r.suppress_default == k.is_advance(),
            final(self).surface == old(self).surface,
            final(self).targets == old(self).targets,
            final(self).next_frame == old(self).next_frame,
            !(k.is_advance() && !k.in_text_entry()) ==> {
                &&& *final(self) == *old(self)
                &&& r.label is None
            },
            (k.is_advance() && !k.in_text_entry()) ==> {
                &&& final(self).sched.state == old(self).sched.state.spec_advance(now_ms)
                &&& final(self).sched.params == PatternParams::spec_randomize(*draws)
                &&& (r.label matches Some(l) && l@ == spec_label(
                    final(self).sched.state.index_of(),
                ))
            },
    {
        self.sched.handle_key(k, now_ms, draws)
    }
}

} // verus!