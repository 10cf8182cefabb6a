//! Rectangles and viewports in physical pixels.
//!
//! Clip rectangles reach this crate already scaled to physical pixels and
//! rounded; everything here is integer geometry. The rectangle operations
//! themselves are those of `bevy_math::URect`, called through small trusted
//! functions whose contracts restate what that crate's source computes.

use bevy_math::{URect, UVec2};
use vstd::prelude::*;

verus! {

/// An axis-aligned rectangle in physical pixels, given by two corners.
///
/// The type itself allows `min` to lie beyond `max`; [`PixelRect::is_ordered`]
/// says when it does not.
#[derive(Clone, Copy, Debug, PartialEq, Eq, Hash, Structural)]
pub struct PixelRect {
    /// Left edge.
    pub min_x: u32,
    /// Top edge.
    pub min_y: u32,
    /// Right edge (exclusive).
    pub max_x: u32,
    /// Bottom edge (exclusive).
    pub max_y: u32,
}

/// The smaller of two pixel coordinates.
pub open spec fn spec_min(a: u32, b: u32) -> u32 {
    if a <= b {
        a
    } else {
        b
    }
}

/// The larger of two pixel coordinates.
pub open spec fn spec_max(a: u32, b: u32) -> u32 {
    if a >= b {
        a
    } else {
        b
    }
}

/// `bevy_math::URect::new`: the rectangle spanned by two opposite corners.
/// The contract restates its source: each corner coordinate is the
/// component-wise minimum, respectively maximum, of the two points.
#[verifier::external_body]
fn urect_from_corners(x0: u32, y0: u32, x1: u32, y1: u32) -> (r: PixelRect)
    ensures
        r == PixelRect::spec_from_corners(x0, y0, x1, y1),
{
    let r = URect::new(x0, y0, x1, y1);
    PixelRect { min_x: r.min.x, min_y: r.min.y, max_x: r.max.x, max_y: r.max.y }
}

/// `bevy_math::URect::intersect`. As that crate documents, the result is the
/// largest rectangle inside both where they overlap: the component-wise
/// maximum of the two `min` corners and minimum of the two `max` corners.
/// Where they do not overlap the result is empty, and its corners are left
/// open.
#[verifier::external_body]
fn urect_intersect(a: PixelRect, b: PixelRect) -> (r: PixelRect)
    ensures
        a.visible_in(b) ==> r == a.spec_intersect(b),
        !a.visible_in(b) ==> r.spec_is_empty(),
{
    let lhs = URect { min: UVec2::new(a.min_x, a.min_y), max: UVec2::new(a.max_x, a.max_y) };
    let rhs = URect { min: UVec2::new(b.min_x, b.min_y), max: UVec2::new(b.max_x, b.max_y) };
    let r = lhs.intersect(rhs);
    PixelRect { min_x: r.min.x, min_y: r.min.y, max_x: r.max.x, max_y: r.max.y }
}

/// `bevy_math::URect::is_empty`. The contract restates its source: true when
/// `min` is at or beyond `max` on either axis.
#[verifier::external_body]
fn urect_is_empty(a: PixelRect) -> (r: bool)
    ensures
        r == a.spec_is_empty(),
{
    URect { min: UVec2::new(a.min_x, a.min_y), max: UVec2::new(a.max_x, a.max_y) }.is_empty()
}

/// `bevy_math::URect::width`, which subtracts `min.x` from `max.x` and so
/// must not be given a rectangle whose `min.x` lies beyond `max.x`.
#[verifier::external_body]
fn urect_width(a: PixelRect) -> (r: u32)
    requires
        a.min_x <= a.max_x,
    ensures
        r == a.max_x - a.min_x,
{
    URect { min: UVec2::new(a.min_x, a.min_y), max: UVec2::new(a.max_x, a.max_y) }.width()
}

/// `bevy_math::URect::height`, which subtracts `min.y` from `max.y` and so
/// must not be given a rectangle whose `min.y` lies beyond `max.y`.
#[verifier::external_body]
fn urect_height(a: PixelRect) -> (r: u32)
    requires
        a.min_y <= a.max_y,
    ensures
        r == a.max_y - a.min_y,
{
    URect { min: UVec2::new(a.min_x, a.min_y), max: UVec2::new(a.max_x, a.max_y) }.height()
}

impl PixelRect {
    /// The rectangle spanned by two opposite corners, in either order.
    pub open spec fn spec_from_corners(x0: u32, y0: u32, x1: u32, y1: u32) -> PixelRect {
        PixelRect {
            min_x: spec_min(x0, x1),
            min_y: spec_min(y0, y1),
            max_x: spec_max(x0, x1),
            max_y: spec_max(y0, y1),
        }
    }

    /// The bounds of a render target of the given size: from the origin to
    /// `(width, height)`.
    pub open spec fn spec_target_bounds(width: u32, height: u32) -> PixelRect {
        PixelRect { min_x: 0, min_y: 0, max_x: width, max_y: height }
    }

    /// `min` does not lie beyond `max` on either axis.
    pub open spec fn is_ordered(self) -> bool {
        self.min_x <= self.max_x && self.min_y <= self.max_y
    }

    /// The rectangle covers no pixel.
    pub open spec fn spec_is_empty(self) -> bool {
        self.min_x >= self.max_x || self.min_y >= self.max_y
    }

    /// The common part of two rectangles that overlap. Where they do not
    /// overlap on an axis, the value has zero extent on that axis; what
    /// [`PixelRect::intersect`] gives then is only known to be empty.
    pub open spec fn spec_intersect(self, other: PixelRect) -> PixelRect {
        let max_x = spec_min(self.max_x, other.max_x);
        let max_y = spec_min(self.max_y, other.max_y);
        PixelRect {
            min_x: spec_min(spec_max(self.min_x, other.min_x), max_x),
            min_y: spec_min(spec_max(self.min_y, other.min_y), max_y),
            max_x,
            max_y,
        }
    }

    /// Some pixel of `self` lies inside `bounds`.
    pub open spec fn visible_in(self, bounds: PixelRect) -> bool {
        !self.spec_intersect(bounds).spec_is_empty()
    }

    /// Builds the rectangle spanned by two opposite corners, in either order.
    pub fn new(x0: u32, y0: u32, x1: u32, y1: u32) -> (r: PixelRect)
        ensures
            r == Self::spec_from_corners(x0, y0, x1, y1),
            r.is_ordered(),
    {
        urect_from_corners(x0, y0, x1, y1)
    }

    /// The bounds of a render target of the given size.
    pub fn target_bounds(width: u32, height: u32) -> (r: PixelRect)
        ensures
            r == Self::spec_target_bounds(width, height),
    {
        urect_from_corners(0, 0, width, height)
    }

    /// Whether the rectangle covers no pixel.
    pub fn is_empty(&self) -> (r: bool)
        ensures
            r == self.spec_is_empty(),
    {
        urect_is_empty(*self)
    }

    /// The common part of two rectangles. Where they overlap it is fixed and
    /// ordered; where they do not, it is some empty rectangle.
    pub fn intersect(&self, other: PixelRect) -> (r: PixelRect)
        ensures
            self.visible_in(other) ==> r == self.spec_intersect(other) && r.is_ordered(),
            !self.visible_in(other) ==> r.spec_is_empty(),
            r.spec_is_empty() == !self.visible_in(other),
    {
        urect_intersect(*self, other)
    }

    /// Horizontal extent.
    pub fn width(&self) -> (r: u32)
        requires
            self.is_ordered(),
        ensures
            r == self.max_x - self.min_x,
    {
        urect_width(*self)
    }

    /// Vertical extent.
    pub fn height(&self) -> (r: u32)
        requires
            self.is_ordered(),
        ensures
            r == self.max_y - self.min_y,
    {
        urect_height(*self)
    }
}

/// A rectangle is visible in a target exactly when the two overlap by at
/// least one pixel on both axes.
pub proof fn lemma_visible_in_target(a: PixelRect, width: u32, height: u32)
    ensures
        a.visible_in(PixelRect::spec_target_bounds(width, height)) <==> (a.min_x < a.max_x
            && a.min_x < width && a.min_y < a.max_y && a.min_y < height),
{
}

/// A viewport in physical pixels, as handed to a paint callback: position of
/// the top-left corner, distance of the lower edge from the bottom of the
/// target, and extent. Coordinates are signed because they are computed by
/// rounding and clamping scaled logical coordinates.
#[derive(Clone, Copy, Debug, PartialEq, Eq, Hash, Structural)]
pub struct ViewportInPixels {
    /// Left edge.
    pub left_px: i32,
    /// Top edge.
    pub top_px: i32,
    /// Distance of the lower edge from the bottom of the target.
    pub from_bottom_px: i32,
    /// Horizontal extent.
    pub width_px: i32,
    /// Vertical extent.
    pub height_px: i32,
}

impl ViewportInPixels {
    /// The viewport covers at least one pixel.
    pub open spec fn spec_has_area(self) -> bool {
        self.width_px > 0 && self.height_px > 0
    }

    /// Whether the viewport covers at least one pixel. Graphics backends
    /// reject viewports without area, so callers test this before setting one.
    pub fn has_area(&self) -> (r: bool)
        ensures
            r == self.spec_has_area(),
    {
        self.width_px > 0 && self.height_px > 0
    }
}

} // verus!
