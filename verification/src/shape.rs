//! What a frame asks the host to draw.

use vstd::prelude::*;
use crate::sequence::Tween;
use crate::units::FULL_SHADE;

verus! {

/// Point of the allotted rectangle that a frame's coordinates start from.
#[derive(Clone, Copy, Debug, PartialEq, Eq, Structural)]
pub enum Anchor {
    /// The middle of the rectangle.
    Center,
    /// The middle of the rectangle's left edge.
    LeftCenter,
    /// The corner with the least coordinates.
    Min,
}

/// An offset from the anchor, in parts; `x` grows to the right, `y` downwards.
#[derive(Clone, Copy, Debug, PartialEq, Eq, Structural)]
pub struct Point {
    pub x: i64,
    pub y: i64,
}

/// One filled shape. Lengths are in parts, shades in fifths of the
/// foreground colour.
#[derive(Clone, Copy, Debug, PartialEq, Eq, Structural)]
pub enum Shape {
    /// A disc round `center`.
    Circle { center: Point, radius: Tween, shade: u8 },
    /// A rectangle with rounded corners. `at` is its middle where `centered`
    /// holds, else its corner with the least coordinates.
    Rect { at: Point, centered: bool, width: u64, height: Tween, rounding: u64, shade: u8 },
}

impl Shape {
    /// The tweens are well formed and the shade is at most the full colour.
    pub open spec fn wf(self) -> bool {
        match self {
            Shape::Circle { radius, shade, .. } => radius.wf() && shade <= FULL_SHADE,
            Shape::Rect { height, shade, .. } => height.wf() && shade <= FULL_SHADE,
        }
    }

    /// Every extent of the shape is greater than zero at both ends of its
    /// tween, and so at every blend of the two.
    pub open spec fn has_area(self) -> bool {
        match self {
            Shape::Circle { radius, .. } => radius.from > 0 && radius.to > 0,
            Shape::Rect { width, height, .. } => width > 0 && height.from > 0 && height.to > 0,
        }
    }

    /// Brightness of the shape, in fifths of the foreground colour.
    pub open spec fn spec_shade(&self) -> u8 {
        match *self {
            Shape::Circle { shade, .. } => shade,
            Shape::Rect { shade, .. } => shade,
        }
    }

    /// Brightness of the shape, in fifths of the foreground colour.
    #[verifier::when_used_as_spec(spec_shade)]
    pub fn shade(&self) -> (fifths: u8)
        ensures
            fifths == self.spec_shade(),
    {
        match self {
            Shape::Circle { shade, .. } => *shade,
            Shape::Rect { shade, .. } => *shade,
        }
    }
}

/// One frame of the animation.
#[derive(Clone, Debug, PartialEq, Eq)]
pub struct Frame {
    /// Where the coordinates of the shapes start.
    pub anchor: Anchor,
    /// Width of the rectangle to ask the host for, in parts.
    pub width: u64,
    /// Height of the rectangle to ask the host for, in parts.
    pub height: u64,
    /// The shapes, in the order in which they are drawn.
    pub shapes: Vec<Shape>,
    /// The host should draw another frame at once, without waiting for input.
    pub repaint: bool,
}

/// A frame as a mathematical value.
pub struct FrameView {
    pub anchor: Anchor,
    pub width: u64,
    pub height: u64,
    pub shapes: Seq<Shape>,
    pub repaint: bool,
}

impl View for Frame {
    type V = FrameView;

    open spec fn view(&self) -> FrameView {
        FrameView {
            anchor: self.anchor,
            width: self.width,
            height: self.height,
            shapes: self.shapes@,
            repaint: self.repaint,
        }
    }
}

impl FrameView {
    /// There is something to draw, and every shape is well formed.
    pub open spec fn wf(self) -> bool {
        self.shapes.len() > 0 && forall|i: int|
            0 <= i < self.shapes.len() ==> (#[trigger] self.shapes[i]).wf()
    }

    /// Every shape has an area.
    pub open spec fn has_area(self) -> bool {
        forall|i: int| 0 <= i < self.shapes.len() ==> (#[trigger] self.shapes[i]).has_area()
    }
}

} // verus!
