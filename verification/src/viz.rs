//! The visualizer set: five animated shape generators, selected by index.
//!
//! Each variant's shape lives in its two shader programs, which the host
//! compiles once at startup; what varies per frame on the Rust side is
//! which variant is active and the scalar animation inputs handed to its
//! programs. Those decisions are here: the fixed registry order, the
//! display name, the per-variant rotation rule, and the overlay label
//! shown whenever the active visualizer changes.

use vstd::prelude::*;
use vstd::string::*;

verus! {

/// How many visualizers the registry holds.
pub const VIZ_COUNT: usize = 5;

/// The five visualizer variants, in registry order.
#[derive(Clone, Copy, PartialEq, Eq, Structural, Debug)]
pub enum VizKind {
    /// A disc whose brightness pulses with time.
    PulseCircle,
    /// A box rotating at one revolution per two pi seconds.
    RotatingSquare,
    /// A five-pointed star that blinks and slowly rotates.
    StarLines,
    /// Eighteen angular bands whose phase drifts with time.
    RadiatingSpokes,
    /// Two crossed boxes whose thickness oscillates.
    ExpandingCrossLines,
}

/// The variant at a registry index.
pub open spec fn spec_kind_at(index: int) -> VizKind {
    if index == 0 {
        VizKind::PulseCircle
    } else if index == 1 {
        VizKind::RotatingSquare
    } else if index == 2 {
        VizKind::StarLines
    } else if index == 3 {
        VizKind::RadiatingSpokes
    } else {
        VizKind::ExpandingCrossLines
    }
}

/// Looks up the variant at a registry index.
pub fn kind_at(index: usize) -> (k: VizKind)
    requires
        index < VIZ_COUNT,
    ensures
        k == spec_kind_at(index as int),
{
    if index == 0 {
        VizKind::PulseCircle
    } else if index == 1 {
        VizKind::RotatingSquare
    } else if index == 2 {
        VizKind::StarLines
    } else if index == 3 {
        VizKind::RadiatingSpokes
    } else {
        VizKind::ExpandingCrossLines
    }
}

/// The display name of a variant.
pub open spec fn spec_name(k: VizKind) -> Seq<char> {
    match k {
        VizKind::PulseCircle => "Pulsing Circle"@,
        VizKind::RotatingSquare => "Rotating Square"@,
        VizKind::StarLines => "Twinkling Star"@,
        VizKind::RadiatingSpokes => "Radiating Spokes"@,
        VizKind::ExpandingCrossLines => "Pulsing Plus"@,
    }
}

impl VizKind {
    /// The display name, constant for the variant's lifetime.
    pub fn name(&self) -> (s: &'static str)
        ensures
            s@ == spec_name(*self),
    {
        match self {
            VizKind::PulseCircle => "Pulsing Circle",
            VizKind::RotatingSquare => "Rotating Square",
            VizKind::StarLines => "Twinkling Star",
            VizKind::RadiatingSpokes => "Radiating Spokes",
            VizKind::ExpandingCrossLines => "Pulsing Plus",
        }
    }

    /// The rotation uniform for this variant's mask and color programs at
    /// a local time, in milliradians: the rotating square turns with the
    /// clock, the star at half speed, and the rest do not rotate.
    pub open spec fn spec_rot_mrad(self, local_ms: u64) -> int {
        match self {
            VizKind::RotatingSquare => local_ms as int,
            VizKind::StarLines => local_ms as int / 2,
            _ => 0,
        }
    }

    /// Computes the rotation uniform for a local time. A local time of
    /// one second is one thousand milliradians of turn for the rotating
    /// square.
    pub fn rot_mrad(&self, local_ms: u64) -> (r: u64)
        ensures
            r == self.spec_rot_mrad(local_ms),
    {
        match self {
            VizKind::RotatingSquare => local_ms,
            VizKind::StarLines => local_ms / 2,
            _ => 0,
        }
    }
}

/// The one-based position of a registry index as a single digit.
pub open spec fn spec_position_digit(index: int) -> Seq<char> {
    if index == 0 {
        "1"@
    } else if index == 1 {
        "2"@
    } else if index == 2 {
        "3"@
    } else if index == 3 {
        "4"@
    } else {
        "5"@
    }
}

/// The overlay label announced when the visualizer at an index becomes
/// active: its one-based position, the registry size, and its name.
pub open spec fn spec_label(index: int) -> Seq<char> {
    spec_position_digit(index) + "/5 "@ + spec_name(spec_kind_at(index))
}

/// Builds the overlay label for the visualizer at an index.
pub fn label_at(index: usize) -> (s: String)
    requires
        index < VIZ_COUNT,
    ensures
        s@ == spec_label(index as int),
{
    let mut s = String::from_str(
        if index == 0 {
            "1"
        } else if index == 1 {
            "2"
        } else if index == 2 {
            "3"
        } else if index == 3 {
            "4"
        } else {
            "5"
        },
    );
    s.append("/5 ");
    s.append(kind_at(index).name());
    s
}

} // verus!
