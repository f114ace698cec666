//! The camera's share of the view: the aspect ratio of the viewport it looks through.

use vstd::prelude::*;
use crate::ratio::Ratio;

verus! {

/// Camera state that follows the viewport: the aspect ratio `width / height`,
/// kept exactly as the two pixel counts it was last computed from.
#[derive(Clone, Copy, Debug, PartialEq, Eq)]
pub struct Camera {
    aspect_ratio: Ratio,
}

impl Camera {
    #[verifier::type_invariant]
    spec fn inv(self) -> bool {
        self.aspect_ratio.den > 0
    }

    /// The aspect ratio the camera currently holds.
    pub closed spec fn aspect(self) -> Ratio {
        self.aspect_ratio
    }

    /// The aspect ratio is a quotient: its denominator is not zero.
    pub open spec fn wf(self) -> bool {
        self.aspect().wf()
    }

    /// What `set_viewport_size` leaves behind: the new ratio when the height is
    /// positive, the old one otherwise.
    pub open spec fn aspect_after_resize(self, width: u32, height: u32) -> Ratio {
        if height > 0 {
            Ratio { num: width, den: height }
        } else {
            self.aspect()
        }
    }

    /// A camera looking through a square viewport.
    pub fn new() -> (camera: Camera)
        ensures
            camera.aspect() == Ratio::spec_one(),
            camera.wf(),
    {
        Camera { aspect_ratio: Ratio { num: 1, den: 1 } }
    }

    /// The aspect ratio `width / height` of the viewport.
    pub fn aspect_ratio(&self) -> (ratio: Ratio)
        ensures
            ratio == self.aspect(),
            ratio.wf(),
    {
        proof {
            use_type_invariant(self);
        }
        self.aspect_ratio
    }

    /// Follows a viewport of `width` by `height` pixels. A viewport without
    /// height has no aspect ratio and leaves the camera as it was.
    pub fn set_viewport_size(&mut self, width: u32, height: u32)
        ensures
            final(self).aspect() == old(self).aspect_after_resize(width, height),
            final(self).wf(),
    {
        proof {
            use_type_invariant(&*self);
        }
        if height > 0 {
            self.aspect_ratio = Ratio { num: width, den: height };
        }
    }
}

} // verus!
