use vstd::prelude::*;

verus! {

/// Canonical size substituted for a configure event that reports a zero
/// dimension. A zero-area GPU presentation target is either undefined or an
/// allocation error in the graphics stack, so the coordinator never creates
/// one.
pub const FALLBACK_WIDTH: u32 = 256;

/// See [`FALLBACK_WIDTH`].
pub const FALLBACK_HEIGHT: u32 = 256;

/// Width and height of a drawable target, in pixels.
#[derive(Clone, Copy, PartialEq, Eq, Structural, Debug)]
pub struct Size {
    pub width: u32,
    pub height: u32,
}

impl Size {
    /// A size the GPU stack can actually back: both dimensions non-zero.
    pub open spec fn is_drawable(self) -> bool {
        self.width > 0 && self.height > 0
    }

    /// The canonical substitute for a zero-area report.
    pub open spec fn fallback() -> Size {
        Size { width: FALLBACK_WIDTH, height: FALLBACK_HEIGHT }
    }

    pub fn new(width: u32, height: u32) -> (s: Size)
        ensures
            s == (Size { width, height }),
    {
        Size { width, height }
    }
}

/// The working size a configure event's reported size stands for: the
/// report itself when drawable, the canonical fallback otherwise.
pub open spec fn effective_spec(reported: Size) -> Size {
    if reported.is_drawable() {
        reported
    } else {
        Size::fallback()
    }
}

/// The working size derived from a configure event's reported size.
///
/// A compositor may report one or both dimensions as zero, meaning "you
/// choose". That report is not taken literally: the coordinator substitutes
/// the canonical fallback size instead, so the working size is always
/// drawable.
pub fn effective_size(reported: Size) -> (s: Size)
    ensures
        s == effective_spec(reported),
        s.is_drawable(),
        reported.is_drawable() ==> s == reported,
        !reported.is_drawable() ==> s == Size::fallback(),
{
    if reported.width == 0 || reported.height == 0 {
        Size { width: FALLBACK_WIDTH, height: FALLBACK_HEIGHT }
    } else {
        reported
    }
}

} // verus!
