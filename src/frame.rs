use vstd::prelude::*;

verus! {

/// A source image handed to the renderer, with the pixel window to sample from it.
///
/// All values are in source-buffer pixels. The window is meant to satisfy
/// `crop_left <= crop_right <= buffer_width` and
/// `crop_top <= crop_bottom <= buffer_height`; the renderer passes any window
/// through unchanged (see [`BufferWithMetadata::has_valid_window`]).
#[derive(Clone, Copy, Debug, PartialEq, Eq, Structural)]
pub struct BufferWithMetadata {
    pub buffer_width: u32,
    pub buffer_height: u32,
    pub crop_left: u32,
    pub crop_top: u32,
    pub crop_right: u32,
    pub crop_bottom: u32,
}

/// An exact fraction `num / den` of two pixel counts.
#[derive(Clone, Copy, Debug, PartialEq, Eq, Structural)]
pub struct Ratio {
    pub num: u32,
    pub den: u32,
}

/// The normalized crop rectangle `(u1, v1, u2, v2)` in texture coordinates.
#[derive(Clone, Copy, Debug, PartialEq, Eq, Structural)]
pub struct CropRect {
    pub u1: Ratio,
    pub v1: Ratio,
    pub u2: Ratio,
    pub v2: Ratio,
}

impl Ratio {
    /// The fraction has the rational value `n / d` (`d > 0`).
    pub open spec fn has_value(self, n: int, d: int) -> bool {
        self.den > 0 && self.num * d == n * self.den
    }
}

impl BufferWithMetadata {
    pub open spec fn valid_window(self) -> bool {
        &&& 0 < self.buffer_width
        &&& 0 < self.buffer_height
        &&& self.crop_left <= self.crop_right <= self.buffer_width
        &&& self.crop_top <= self.crop_bottom <= self.buffer_height
    }

    /// The crop window of `self` in texture coordinates: each horizontal edge
    /// divided by the width, each vertical edge by the height.
    pub open spec fn spec_crop_rect(self) -> CropRect {
        CropRect {
            u1: Ratio { num: self.crop_left, den: self.buffer_width },
            v1: Ratio { num: self.crop_top, den: self.buffer_height },
            u2: Ratio { num: self.crop_right, den: self.buffer_width },
            v2: Ratio { num: self.crop_bottom, den: self.buffer_height },
        }
    }

    /// Whether the buffer is non-empty and its crop window lies inside it, in order.
    pub fn has_valid_window(&self) -> (r: bool)
        ensures
            r == self.valid_window(),
    {
        0 < self.buffer_width && 0 < self.buffer_height && self.crop_left <= self.crop_right
            && self.crop_right <= self.buffer_width && self.crop_top <= self.crop_bottom
            && self.crop_bottom <= self.buffer_height
    }

    /// The normalized crop rectangle shared by both eyes.
    pub fn crop_rect(&self) -> (r: CropRect)
        ensures
            r == self.spec_crop_rect(),
    {
        CropRect {
            u1: Ratio { num: self.crop_left, den: self.buffer_width },
            v1: Ratio { num: self.crop_top, den: self.buffer_height },
            u2: Ratio { num: self.crop_right, den: self.buffer_width },
            v2: Ratio { num: self.crop_bottom, den: self.buffer_height },
        }
    }
}

/// A crop window that covers the whole of a non-empty buffer normalizes to
/// exactly `(0, 0, 1, 1)`.
pub proof fn lemma_full_window_is_unit_rect(b: BufferWithMetadata)
    requires
        0 < b.buffer_width,
        0 < b.buffer_height,
        b.crop_left == 0,
        b.crop_top == 0,
        b.crop_right == b.buffer_width,
        b.crop_bottom == b.buffer_height,
    ensures
        b.spec_crop_rect().u1.has_value(0, 1),
        b.spec_crop_rect().v1.has_value(0, 1),
        b.spec_crop_rect().u2.has_value(1, 1),
        b.spec_crop_rect().v2.has_value(1, 1),
{
}

} // verus!
