//! The segment scheduler: which visualizer is active, when the current
//! segment began, and the two ways a segment ends — its fixed time budget
//! running out, or the manual advance key.
//!
//! The machine has two states: a distinguished uninitialized sentinel,
//! consumed on the first frame, and an active state carrying the registry
//! index and the segment start timestamp. Every transition replaces the
//! whole pattern parameter record from fresh uniform draws and announces
//! a new overlay label; between transitions nothing is touched.

use vstd::prelude::*;
use vstd::string::*;
use crate::pattern::{ParamDraws, PatternParams};
use crate::viz::{spec_label, label_at, VIZ_COUNT};

verus! {

/// A segment's fixed time budget: twenty seconds of wall-clock time.
pub const SEGMENT_DURATION_MS: u64 = 20_000;

/// The scheduler's position in the rotation.
#[derive(Clone, Copy, PartialEq, Eq, Structural, Debug)]
pub enum SegmentState {
    /// The sentinel in force from startup until the first frame.
    Uninitialized,
    /// A running segment: the active registry index and the timestamp at
    /// which the segment began.
    Active { index: usize, start_ms: u64 },
}

impl SegmentState {
    /// The active registry index; zero while uninitialized.
    pub open spec fn index_of(self) -> int {
        match self {
            SegmentState::Uninitialized => 0,
            SegmentState::Active { index, .. } => index as int,
        }
    }

    /// The segment start timestamp; zero while uninitialized.
    pub open spec fn start_of(self) -> int {
        match self {
            SegmentState::Uninitialized => 0,
            SegmentState::Active { start_ms, .. } => start_ms as int,
        }
    }

    /// The clock reading does not precede the running segment's start.
    pub open spec fn clock_valid(self, now_ms: u64) -> bool {
        match self {
            SegmentState::Uninitialized => true,
            SegmentState::Active { start_ms, .. } => start_ms <= now_ms,
        }
    }

    /// Whether a frame evaluated at this clock reading transitions: the
    /// first frame always does, and a running segment does once its time
    /// budget has elapsed.
    pub open spec fn spec_fires(self, now_ms: u64) -> bool {
        match self {
            SegmentState::Uninitialized => true,
            SegmentState::Active { start_ms, .. } => now_ms - start_ms
                >= SEGMENT_DURATION_MS,
        }
    }

    /// The state after a frame evaluation: the first frame activates
    /// index zero, an expired segment hands over to the next index in
    /// rotation, and a running segment is untouched.
    pub open spec fn spec_tick(self, now_ms: u64) -> SegmentState {
        match self {
            SegmentState::Uninitialized => SegmentState::Active {
                index: 0,
                start_ms: now_ms,
            },
            SegmentState::Active { index, start_ms } => if now_ms - start_ms
                >= SEGMENT_DURATION_MS {
                SegmentState::Active {
                    index: ((index + 1) % (VIZ_COUNT as int)) as usize,
                    start_ms: now_ms,
                }
            } else {
                self
            },
        }
    }

    /// The state after a manual advance: the next index in rotation (or
    /// index zero from the sentinel), with a fresh segment start,
    /// regardless of elapsed time.
    pub open spec fn spec_advance(self, now_ms: u64) -> SegmentState {
        match self {
            SegmentState::Uninitialized => SegmentState::Active {
                index: 0,
                start_ms: now_ms,
            },
            SegmentState::Active { index, .. } => SegmentState::Active {
                index: ((index + 1) % (VIZ_COUNT as int)) as usize,
                start_ms: now_ms,
            },
        }
    }
}

/// A key press as the host reports it: the key value and code of the
/// event, and what the event targeted, so that typing into a text entry
/// is never treated as an advance gesture.
pub struct KeyInput {
    /// The event's key value; the advance gesture is the space character.
    pub key: String,
    /// The event's key code; "Space" is equivalent to the space key.
    pub code: String,
    /// Tag name of the event's target element, uppercase.
    pub target_tag: String,
    /// Whether the target element is marked content-editable.
    pub target_editable: bool,
}

impl KeyInput {
    /// Whether this press is the designated advance gesture.
    pub open spec fn is_advance(self) -> bool {
        self.key@ == " "@ || self.code@ == "Space"@
    }

    /// Whether the press targeted a text-input-like element, which
    /// suppresses the advance so it does not conflict with typing.
    pub open spec fn in_text_entry(self) -> bool {
        self.target_tag@ == "INPUT"@ || self.target_tag@ == "TEXTAREA"@
            || self.target_editable
    }
}

/// Whether a string equals a literal, by contents.
fn str_matches(a: &String, lit: &str) -> (r: bool)
    ensures
        r == (a@ == lit@),
{
    let b = String::from_str(lit);
    *a == b
}

/// What a frame evaluation decided: whether a transition happened (and
/// then the new overlay label), the active registry index, and the local
/// time within the segment to feed the active visualizer.
pub struct TickOutcome {
    /// True exactly when this evaluation consumed the sentinel or
    /// rotated to the next segment.
    pub transitioned: bool,
    /// The active registry index after the evaluation.
    pub index: usize,
    /// Milliseconds elapsed within the active segment.
    pub local_ms: u64,
    /// The overlay label to announce, on a transition only.
    pub label: Option<String>,
}

/// What a key press decided: whether the host must suppress the default
/// action of the key, and the overlay label if the press advanced the
/// rotation.
pub struct KeyOutcome {
    /// True exactly for the advance key, whatever its target.
    pub suppress_default: bool,
    /// The overlay label to announce, if the press advanced.
    pub label: Option<String>,
}

/// The scheduler: the rotation position together with the pattern
/// parameter record it owns and replaces at every transition.
pub struct Scheduler {
    /// The rotation position.
    pub state: SegmentState,
    /// The parameters the composite pass reads every frame.
    pub params: PatternParams,
}

impl Scheduler {
    /// A running scheduler always holds a registry index in range.
    pub open spec fn wf(self) -> bool {
        match self.state {
            SegmentState::Uninitialized => true,
            SegmentState::Active { index, .. } => index < VIZ_COUNT,
        }
    }

    /// Starts in the uninitialized sentinel with default parameters.
    pub fn new() -> (s: Self)
        ensures
            s.wf(),
            s.state == SegmentState::Uninitialized,
            s.params == PatternParams::spec_default(),
    {
        Scheduler { state: SegmentState::Uninitialized, params: PatternParams::default() }
    }

    /// Drives the per-frame transition check. Consumes the sentinel on
    /// the first frame and rotates once a segment's budget has elapsed;
    /// every transition re-randomizes the parameters and announces a new
    /// label, and a frame inside a running segment changes nothing.
    pub fn tick(&mut self, now_ms: u64, draws: &ParamDraws) -> (r: TickOutcome)
        requires
            old(self).wf(),
            old(self).state.clock_valid(now_ms),
        ensures
            final(self).wf(),
            final(self).state == old(self).state.spec_tick(now_ms),
            r.transitioned == old(self).state.spec_fires(now_ms),
            r.transitioned ==> final(self).params == PatternParams::spec_randomize(*draws),
            !r.transitioned ==> final(self).params == old(self).params,
            r.index == final(self).state.index_of(),
            r.local_ms == now_ms - final(self).state.start_of(),
            r.transitioned ==> (r.label matches Some(l) && l@ == spec_label(
                final(self).state.index_of(),
            )),
            !r.transitioned ==> r.label is None,
    {
        match self.state {
            SegmentState::Uninitialized => {
                self.state = SegmentState::Active { index: 0, start_ms: now_ms };
                self.params = PatternParams::randomize(draws);
                let label = label_at(0);
                TickOutcome {
                    transitioned: true,
                    index: 0,
                    local_ms: 0,
                    label: Some(label),
                }
            },
            SegmentState::Active { index, start_ms } => {
                if now_ms - start_ms >= SEGMENT_DURATION_MS {
                    let next = (index + 1) % VIZ_COUNT;
                    self.state = SegmentState::Active { index: next, start_ms: now_ms };
                    self.params = PatternParams::randomize(draws);
                    let label = label_at(next);
                    TickOutcome {
                        transitioned: true,
                        index: next,
                        local_ms: 0,
                        label: Some(label),
                    }
                } else {
                    TickOutcome {
                        transitioned: false,
                        index,
                        local_ms: now_ms - start_ms,
                        label: None,
                    }
                }
            },
        }
    }

    /// Advances the rotation by one, regardless of elapsed time, with the
    /// same side effects as a timed transition.
    pub fn manual_advance(&mut self, now_ms: u64, draws: &ParamDraws) -> (label: String)
        requires
            old(self).wf(),
        ensures
            final(self).wf(),
            final(self).state == old(self).state.spec_advance(now_ms),
            final(self).params == PatternParams::spec_randomize(*draws),
            label@ == spec_label(final(self).state.index_of()),
    {
        let next = match self.state {
            SegmentState::Uninitialized => 0,
            SegmentState::Active { index, .. } => (index + 1) % VIZ_COUNT,
        };
        self.state = SegmentState::Active { index: next, start_ms: now_ms };
        self.params = PatternParams::randomize(draws);
        label_at(next)
    }

    /// Routes a key press. Only the designated advance gesture acts, and
    /// only outside text-input-like targets; any other key leaves the
    /// scheduler — rotation position and parameters alike — untouched.
    pub fn handle_key(&mut self, k: &KeyInput, now_ms: u64, draws: &ParamDraws) -> (r:
        KeyOutcome)
        requires
            old(self).wf(),
        ensures
            final(self).wf(),
            r.suppress_default == k.is_advance(),
            !(k.is_advance() && !k.in_text_entry()) ==> {
                &&& *final(self) == *old(self)
                &&& r.label is None
            },
            (k.is_advance() && !k.in_text_entry()) ==> {
                &&& final(self).state == old(self).state.spec_advance(now_ms)
                &&& final(self).params == PatternParams::spec_randomize(*draws)
                &&& (r.label matches Some(l) && l@ == spec_label(
                    final(self).state.index_of(),
                ))
            },
    {
        let advance = str_matches(&k.key, " ") || str_matches(&k.code, "Space");
        if !advance {
            return KeyOutcome { suppress_default: false, label: None };
        }
        let in_text = str_matches(&k.target_tag, "INPUT") || str_matches(
            &k.target_tag,
            "TEXTAREA",
        ) || k.target_editable;
        if in_text {
            return KeyOutcome { suppress_default: true, label: None };
        }
        let label = self.manual_advance(now_ms, draws);
        KeyOutcome { suppress_default: true, label: Some(label) }
    }
}

/// The rotation position reached by starting uninitialized, evaluating
/// the first frame at `t0`, and then evaluating one frame at each exact
/// segment boundary thereafter, with no manual input.
pub open spec fn spec_boundary_state(t0: u64, n: nat) -> SegmentState
    decreases n,
{
    if n == 0 {
        SegmentState::Uninitialized.spec_tick(t0)
    } else {
        spec_boundary_state(t0, (n - 1) as nat).spec_tick(
            (t0 + n * SEGMENT_DURATION_MS) as u64,
        )
    }
}

/// A segment that has run for exactly its time budget hands over to the
/// next index in rotation, and to no other.
pub proof fn lemma_tick_after_duration(index: usize, start_ms: u64, now_ms: u64)
    requires
        index < VIZ_COUNT,
        now_ms - start_ms == SEGMENT_DURATION_MS,
    ensures
        (SegmentState::Active { index, start_ms }).spec_tick(now_ms) == (SegmentState::Active {
            index: ((index + 1) % (VIZ_COUNT as int)) as usize,
            start_ms: now_ms,
        }),
{
}

/// Segment rotation periodicity: from the uninitialized sentinel, after
/// `n` whole segment budgets of elapsed wall-clock time with no manual
/// input, the active index is exactly `n` modulo the registry size, and
/// the running segment began at the last boundary.
pub proof fn lemma_segment_rotation_periodicity(t0: u64, n: nat)
    requires
        t0 + n * SEGMENT_DURATION_MS <= u64::MAX,
    ensures
        spec_boundary_state(t0, n) == (SegmentState::Active {
            index: (n % (VIZ_COUNT as nat)) as usize,
            start_ms: (t0 + n * SEGMENT_DURATION_MS) as u64,
        }),
    decreases n,
{
    if n == 0 {
    } else {
        let m = (n - 1) as nat;
        assert(m * SEGMENT_DURATION_MS + SEGMENT_DURATION_MS == n * SEGMENT_DURATION_MS)
            by (nonlinear_arith)
            requires
                n >= 1,
                m == n - 1,
        ;
        lemma_segment_rotation_periodicity(t0, m);
        vstd::arithmetic::div_mod::lemma_add_mod_noop(
            m as int,
            1,
            VIZ_COUNT as int,
        );
    }
}

} // verus!
