//! Values of style attributes that carry no measure.

use vstd::prelude::*;

verus! {

/// How the border of a node is drawn.
#[derive(Clone, Copy, Debug, PartialEq, Eq, Hash, Structural)]
pub enum BorderStyle {
    /// No border is drawn.
    NoBorder,
    /// A solid line.
    Solid,
}

impl Default for BorderStyle {
    fn default() -> (style: BorderStyle)
        ensures
            style == BorderStyle::NoBorder,
    {
        BorderStyle::NoBorder
    }
}

/// Where the border lies with respect to the edge of the node.
#[derive(Clone, Copy, Debug, PartialEq, Eq, Hash, Structural)]
pub enum BorderAlignment {
    Inner,
    Outer,
    Center,
}

impl Default for BorderAlignment {
    fn default() -> (alignment: BorderAlignment)
        ensures
            alignment == BorderAlignment::Inner,
    {
        BorderAlignment::Inner
    }
}

/// The text of a corner radius could not be read.
#[derive(Clone, Copy, Debug, PartialEq, Eq, Hash, Structural)]
pub struct ParseRadiusError;

} // verus!
