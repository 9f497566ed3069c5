//! Decoded images: the model keeps what the drawing logic reads of an image
//! — its pixel size — while decoding itself stays with the platform's codec.

use vstd::prelude::*;
use crate::geometry::PhysicalSize;

verus! {

/// How an image is resampled when drawn at another size.
#[derive(Clone, Copy, PartialEq, Eq, Structural, Debug)]
pub enum Interpolation {
    NearestNeighbor,
    Linear,
    Cubic,
    MultiSampleLinear,
    Anisotropic,
    HighQualityCubic,
}

impl Interpolation {
    /// The platform's interpolation-mode code for this mode.
    pub fn to_raw(self) -> (r: u32)
        ensures
            self is NearestNeighbor ==> r == 0,
            self is Linear ==> r == 1,
            self is Cubic ==> r == 2,
            self is MultiSampleLinear ==> r == 3,
            self is Anisotropic ==> r == 4,
            self is HighQualityCubic ==> r == 5,
    {
        match self {
            Interpolation::NearestNeighbor => 0,
            Interpolation::Linear => 1,
            Interpolation::Cubic => 2,
            Interpolation::MultiSampleLinear => 3,
            Interpolation::Anisotropic => 4,
            Interpolation::HighQualityCubic => 5,
        }
    }
}

/// An immutable decoded bitmap image; the model holds its pixel size.
#[derive(Clone, Copy, PartialEq, Eq, Structural, Debug)]
pub struct Image {
    pub size: PhysicalSize,
}

impl Image {
    /// Wraps a decoded image of the given pixel size.
    pub fn new(size: PhysicalSize) -> (im: Image)
        ensures
            im.size == size,
    {
        Image { size }
    }

    /// The image's pixel size.
    pub fn size(&self) -> (s: PhysicalSize)
        ensures
            s == self.size,
    {
        self.size
    }
}

} // verus!
