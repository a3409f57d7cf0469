use vstd::prelude::*;

use crate::content::Content;
use crate::value::Func;

verus! {

/// Content set in several columns.
#[derive(Debug, Clone, PartialEq, Eq, Hash)]
pub struct ColumnsElem {
    /// The number of columns, at least one.
    pub count: usize,
    /// The gap between columns, in layout units.
    pub gutter: i64,
    pub body: Content,
}

/// A forced break to the next column.
#[derive(Debug, Clone, Copy, PartialEq, Eq, Hash, Structural, Default)]
pub struct ColbreakElem {
    /// Whether the break is dropped where it would leave a column empty.
    pub weak: bool,
}

/// Content that takes up space without being shown.
#[derive(Debug, Clone, PartialEq, Eq, Hash)]
pub struct HideElem {
    pub body: Content,
}

/// Content produced by a user function from the size of its container.
#[derive(Debug, Clone, Copy, PartialEq, Eq, Hash, Structural)]
pub struct LayoutElem {
    pub func: Func,
}

/// Content with space around it, in layout units per side.
#[derive(Debug, Clone, PartialEq, Eq, Hash)]
pub struct PadElem {
    pub left: i64,
    pub top: i64,
    pub right: i64,
    pub bottom: i64,
    pub body: Content,
}

/// Content repeated to fill the available space.
#[derive(Debug, Clone, PartialEq, Eq, Hash)]
pub struct RepeatElem {
    pub body: Content,
    /// The gap between repetitions, in layout units.
    pub gap: i64,
    /// Whether the repetitions are spread to fill the space exactly.
    pub justify: bool,
}

/// An HTML frame: content laid out as an inline image.
#[derive(Debug, Clone, PartialEq, Eq, Hash)]
pub struct FrameElem {
    pub body: Content,
}

} // verus!
