use vstd::prelude::*;

verus! {

/// Number of saturation variants the console's nonlinear stage offers.
pub const SATURATION_VARIANTS: usize = 8;

/// The closed set of saturation laws the console's nonlinear stage can apply.
/// The variant only selects a formula; the formulas themselves are
/// floating-point arithmetic and live with the signal path.
#[derive(Clone, Copy, PartialEq, Eq, Structural, Debug)]
pub enum SaturationType {
    Tape,
    Tube,
    Transistor,
    LDR,
    Cubic,
    Quintic,
    SoftClip,
    Bypass,
}

impl SaturationType {
    /// The ordinal under which a host delivers this variant as a normalized
    /// enum parameter. Distinct variants have distinct ordinals.
    pub open spec fn ordinal(self) -> int {
        match self {
            SaturationType::Tape => 0,
            SaturationType::Tube => 1,
            SaturationType::Transistor => 2,
            SaturationType::LDR => 3,
            SaturationType::Cubic => 4,
            SaturationType::Quintic => 5,
            SaturationType::SoftClip => 6,
            SaturationType::Bypass => 7,
        }
    }

    /// Ordinal of this variant, for handing a variant back to the host.
    pub fn to_index(self) -> (i: usize)
        ensures
            i == self.ordinal(),
            i < SATURATION_VARIANTS,
    {
        match self {
            SaturationType::Tape => 0,
            SaturationType::Tube => 1,
            SaturationType::Transistor => 2,
            SaturationType::LDR => 3,
            SaturationType::Cubic => 4,
            SaturationType::Quintic => 5,
            SaturationType::SoftClip => 6,
            SaturationType::Bypass => 7,
        }
    }

    /// The variant a host ordinal selects: the inverse of `to_index`.
    pub fn from_index(i: usize) -> (t: SaturationType)
        requires
            i < SATURATION_VARIANTS,
        ensures
            t.ordinal() == i,
    {
        if i == 0 {
            SaturationType::Tape
        } else if i == 1 {
            SaturationType::Tube
        } else if i == 2 {
            SaturationType::Transistor
        } else if i == 3 {
            SaturationType::LDR
        } else if i == 4 {
            SaturationType::Cubic
        } else if i == 5 {
            SaturationType::Quintic
        } else if i == 6 {
            SaturationType::SoftClip
        } else {
            SaturationType::Bypass
        }
    }
}

} // verus!
