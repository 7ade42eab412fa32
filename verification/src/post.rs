//! The compositor's offscreen state: two GPU color targets (scene and
//! mask) that always share one size, and the per-frame pass protocol that
//! guarantees the composite pass only ever samples textures written by
//! the same frame at the current size.
//!
//! The GPU storage itself lives with the host; this record tracks its
//! size, an allocation generation that advances on every reallocation,
//! and a stamp for each target saying which frame last wrote it and
//! under which allocation. Reallocating invalidates both stamps, so
//! content from before a resize can never reach a composite pass.

use vstd::prelude::*;

verus! {

/// What a target last received: the frame that wrote it and the
/// allocation (generation and size) it was written under.
#[derive(Clone, Copy, PartialEq, Eq, Structural, Debug)]
pub struct PassStamp {
    /// The frame whose render call wrote the target.
    pub frame: u64,
    /// The allocation generation the write happened under.
    pub generation: u64,
    /// Target width at the time of the write, physical pixels.
    pub w: u32,
    /// Target height at the time of the write, physical pixels.
    pub h: u32,
}

/// What the composite pass is given: the current target size and
/// allocation generation, with both sampled textures guaranteed fresh.
#[derive(Clone, Copy, PartialEq, Eq, Structural, Debug)]
pub struct CompositeInputs {
    /// Width of both sampled textures, physical pixels.
    pub w: u32,
    /// Height of both sampled textures, physical pixels.
    pub h: u32,
    /// The allocation generation both sampled textures were written
    /// under.
    pub generation: u64,
}

/// The two offscreen targets and their pass protocol.
#[derive(Clone, Copy, PartialEq, Eq, Structural, Debug)]
pub struct PostTargets {
    /// Current backing-store width of both targets, physical pixels.
    pub w: u32,
    /// Current backing-store height of both targets, physical pixels.
    pub h: u32,
    /// Advances by one on every reallocation of the backing stores.
    pub generation: u64,
    /// The last write into the mask target, if still valid.
    pub mask: Option<PassStamp>,
    /// The last write into the scene target, if still valid.
    pub scene: Option<PassStamp>,
}

impl PostTargets {
    /// A stamp is current: written under the present allocation, hence
    /// at the present size.
    pub open spec fn stamp_current(self, st: PassStamp) -> bool {
        st.generation == self.generation && st.w == self.w && st.h == self.h
    }

    /// Both targets only ever hold content written under the present
    /// allocation: reallocation discards the stamps with the storage.
    pub open spec fn wf(self) -> bool {
        &&& (self.mask matches Some(st) ==> self.stamp_current(st))
        &&& (self.scene matches Some(st) ==> self.stamp_current(st))
    }

    /// Fresh targets at the initial surface size, nothing written yet.
    pub fn new(w: u32, h: u32) -> (t: Self)
        ensures
            t.wf(),
            t.w == w,
            t.h == h,
            t.generation == 0,
            t.mask is None,
            t.scene is None,
    {
        PostTargets { w, h, generation: 0, mask: None, scene: None }
    }

    /// The state after a resize request, and whether the backing stores
    /// had to be reallocated.
    pub open spec fn spec_resize(self, w: u32, h: u32) -> (PostTargets, bool) {
        if w == self.w && h == self.h {
            (self, false)
        } else {
            (
                PostTargets {
                    w,
                    h,
                    generation: (self.generation + 1) as u64,
                    mask: None,
                    scene: None,
                },
                true,
            )
        }
    }

    /// Reallocates both backing stores together if the requested size
    /// differs from the current one; otherwise does nothing. Returns
    /// true exactly when the caller must reallocate the GPU storage.
    pub fn resize(&mut self, w: u32, h: u32) -> (realloc: bool)
        requires
            old(self).wf(),
            old(self).generation < u64::MAX,
        ensures
            final(self).wf(),
            *final(self) == old(self).spec_resize(w, h).0,
            realloc == old(self).spec_resize(w, h).1,
            final(self).w == w && final(self).h == h,
            realloc == !(w == old(self).w && h == old(self).h),
    {
        if w == self.w && h == self.h {
            return false;
        }
        self.w = w;
        self.h = h;
        self.generation = self.generation + 1;
        self.mask = None;
        self.scene = None;
        true
    }

    /// Resize reconciliation is idempotent: a second request for the
    /// same size reallocates nothing and leaves the state unchanged.
    pub proof fn lemma_resize_idempotent(self, w: u32, h: u32)
        requires
            self.generation < u64::MAX,
        ensures
            self.spec_resize(w, h).0.spec_resize(w, h).0 == self.spec_resize(w, h).0,
            !self.spec_resize(w, h).0.spec_resize(w, h).1,
    {
    }

    /// Records the mask pass of a frame: the bound mask target now holds
    /// that frame's coverage image, written under the present
    /// allocation.
    pub fn record_mask(&mut self, frame: u64) -> (stamp: PassStamp)
        requires
            old(self).wf(),
        ensures
            final(self).wf(),
            stamp == (PassStamp {
                frame,
                generation: old(self).generation,
                w: old(self).w,
                h: old(self).h,
            }),
            *final(self) == (PostTargets { mask: Some(stamp), ..*old(self) }),
    {
        let stamp = PassStamp { frame, generation: self.generation, w: self.w, h: self.h };
        self.mask = Some(stamp);
        stamp
    }

    /// Records the scene pass of a frame. The mask pass of the same
    /// frame must already have run: within a frame the mask pass always
    /// precedes the scene pass.
    pub fn record_scene(&mut self, frame: u64) -> (stamp: PassStamp)
        requires
            old(self).wf(),
            old(self).mask matches Some(st) && st.frame == frame,
        ensures
            final(self).wf(),
            stamp == (PassStamp {
                frame,
                generation: old(self).generation,
                w: old(self).w,
                h: old(self).h,
            }),
            *final(self) == (PostTargets { scene: Some(stamp), ..*old(self) }),
    {
        let stamp = PassStamp { frame, generation: self.generation, w: self.w, h: self.h };
        self.scene = Some(stamp);
        stamp
    }

    /// Clears the composite pass of a frame to run: both passes of that
    /// same frame have written their targets under the present
    /// allocation, so the composite samples exactly this frame's images
    /// at the current size — never a stale previous frame's content.
    pub fn composite(&self, frame: u64) -> (inputs: CompositeInputs)
        requires
            self.wf(),
            self.mask matches Some(st) && st.frame == frame,
            self.scene matches Some(st) && st.frame == frame,
        ensures
            inputs == (CompositeInputs { w: self.w, h: self.h, generation: self.generation }),
            self.mask matches Some(st) && st == (PassStamp {
                frame,
                generation: inputs.generation,
                w: inputs.w,
                h: inputs.h,
            }),
            self.scene matches Some(st) && st == (PassStamp {
                frame,
                generation: inputs.generation,
                w: inputs.w,
                h: inputs.h,
            }),
    {
        CompositeInputs { w: self.w, h: self.h, generation: self.generation }
    }

    /// Pass freshness: in every reachable state, whatever the targets
    /// hold was written under the current allocation at the current
    /// size; a resize that changed the dimensions can never leave stale
    /// content behind for a later composite pass to sample.
    pub proof fn lemma_no_stale_content(self)
        requires
            self.wf(),
        ensures
            self.mask matches Some(st) ==> (st.generation == self.generation && st.w == self.w
                && st.h == self.h),
            self.scene matches Some(st) ==> (st.generation == self.generation && st.w == self.w
                && st.h == self.h),
    {
    }
}

} // verus!
