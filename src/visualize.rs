use vstd::prelude::*;

verus! {

/// How an image fills the area it is given.
#[derive(Debug, Clone, Copy, PartialEq, Eq, Hash, Structural)]
pub enum ImageFit {
    /// Covers the whole area, cropping the image.
    Cover,
    /// Fits into the area, keeping the whole image.
    Contain,
    /// Stretches to the area, changing the aspect ratio.
    Stretch,
}

/// A vector graphics format.
#[derive(Debug, Clone, Copy, PartialEq, Eq, Hash, Structural)]
pub enum VectorFormat {
    Svg,
    Pdf,
}

/// How an image is scaled when shown.
#[derive(Debug, Clone, Copy, PartialEq, Eq, Hash, Structural)]
pub enum ImageScaling {
    /// With interpolation.
    Smooth,
    /// Without interpolation, keeping pixels sharp.
    Pixelated,
}

/// How the ends of a stroke are drawn.
#[derive(Debug, Clone, Copy, PartialEq, Eq, Hash, Structural)]
pub enum LineCap {
    Butt,
    Round,
    Square,
}

impl LineCap {
    /// The name of the cap in markup.
    pub fn name(self) -> (r: &'static str)
        ensures
            r@ == match self {
                LineCap::Butt => "butt"@,
                LineCap::Round => "round"@,
                LineCap::Square => "square"@,
            },
    {
        match self {
            LineCap::Butt => "butt",
            LineCap::Round => "round",
            LineCap::Square => "square",
        }
    }
}

/// How the corners of a stroke are drawn.
#[derive(Debug, Clone, Copy, PartialEq, Eq, Hash, Structural)]
pub enum LineJoin {
    Miter,
    Round,
    Bevel,
}

impl LineJoin {
    /// The name of the join in markup.
    pub fn name(self) -> (r: &'static str)
        ensures
            r@ == match self {
                LineJoin::Miter => "miter"@,
                LineJoin::Round => "round"@,
                LineJoin::Bevel => "bevel"@,
            },
    {
        match self {
            LineJoin::Miter => "miter",
            LineJoin::Round => "round",
            LineJoin::Bevel => "bevel",
        }
    }
}

} // verus!
