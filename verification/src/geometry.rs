//! Plain geometry values: points, sizes, rectangles, and the set of
//! rectangle edges anchored during an interactive resize.

use vstd::prelude::*;

verus! {

/// A pointer position or a rectangle origin, in signed screen coordinates.
#[derive(Clone, Copy, PartialEq, Eq, Structural, Debug)]
pub struct Point {
    pub x: i32,
    pub y: i32,
}

/// A rectangle extent or an output resolution.
#[derive(Clone, Copy, PartialEq, Eq, Structural, Debug)]
pub struct Size {
    pub w: u32,
    pub h: u32,
}

/// A view's geometry: where it sits and how large it is.
#[derive(Clone, Copy, PartialEq, Eq, Structural, Debug)]
pub struct Geometry {
    pub origin: Point,
    pub size: Size,
}

/// Which horizontal edge of a rectangle a resize has grabbed.
#[derive(Clone, Copy, PartialEq, Eq, Structural, Debug)]
pub enum HorizontalEdge {
    Left,
    Right,
}

/// Which vertical edge of a rectangle a resize has grabbed.
#[derive(Clone, Copy, PartialEq, Eq, Structural, Debug)]
pub enum VerticalEdge {
    Top,
    Bottom,
}

/// The set of grabbed edges of an interactive resize.
///
/// At most one horizontal and at most one vertical edge can be grabbed, so
/// the two axes are kept apart and the illegal combinations (Left together
/// with Right, Top together with Bottom) cannot be written down at all. The
/// empty set denotes a move rather than a resize.
#[derive(Clone, Copy, PartialEq, Eq, Debug)]
pub struct Edges {
    pub horizontal: Option<HorizontalEdge>,
    pub vertical: Option<VerticalEdge>,
}

impl Edges {
    /// True when no edge is grabbed: the grab is a move, not a resize.
    pub open spec fn spec_is_empty(self) -> bool {
        self.horizontal is None && self.vertical is None
    }

    /// The empty edge set, as a specification value.
    pub open spec fn spec_none() -> Edges {
        Edges { horizontal: None, vertical: None }
    }

    /// The empty edge set.
    pub fn none() -> (e: Edges)
        ensures
            e == Edges::spec_none(),
            e.spec_is_empty(),
    {
        Edges { horizontal: None, vertical: None }
    }

    /// True when no edge is grabbed.
    pub fn is_empty(&self) -> (r: bool)
        ensures
            r == self.spec_is_empty(),
    {
        self.horizontal.is_none() && self.vertical.is_none()
    }
}

} // verus!
