//! Axis algebra: the layout axis ("alpha") and the cross axis ("beta") of points, sizes and
//! rectangles.

use vstd::prelude::*;

verus! {

/// Selects which geometric component is the layout axis ("alpha") and which is the cross axis
/// ("beta").
///
/// For `Horizontal`, alpha is x / width and beta is y / height; for `Vertical` the two swap.
#[derive(Debug, Clone, Copy, PartialEq, Eq, Structural)]
pub enum Axis {
    Horizontal,
    Vertical,
}

/// A point in a plane, with one coordinate per axis.
#[derive(Debug, Clone, Copy, PartialEq, Eq)]
pub struct Point2<T> {
    pub x: T,
    pub y: T,
}

/// The extent of a rectangle.
#[derive(Debug, Clone, Copy, PartialEq, Eq)]
pub struct RectSize<T> {
    pub width: T,
    pub height: T,
}

/// An axis-aligned rectangle: an origin (the minimum corner) plus a size.
#[derive(Debug, Clone, Copy, PartialEq, Eq)]
pub struct Bounds<T> {
    pub origin: Point2<T>,
    pub size: RectSize<T>,
}

/// The component of `(x, y)` that lies on the layout axis.
pub open spec fn on_alpha<T>(axis: Axis, x: T, y: T) -> T {
    match axis {
        Axis::Horizontal => x,
        Axis::Vertical => y,
    }
}

/// The component of `(x, y)` that lies on the cross axis.
pub open spec fn on_beta<T>(axis: Axis, x: T, y: T) -> T {
    match axis {
        Axis::Horizontal => y,
        Axis::Vertical => x,
    }
}

impl<T: Copy> Point2<T> {
    pub fn new(x: T, y: T) -> (r: Self)
        ensures
            r.x == x,
            r.y == y,
    {
        Point2 { x, y }
    }

    /// Builds the point whose layout-axis coordinate is `alpha` and cross-axis coordinate is
    /// `beta`.
    pub fn new_on_axis(axis: Axis, alpha: T, beta: T) -> (r: Self)
        ensures
            on_alpha(axis, r.x, r.y) == alpha,
            on_beta(axis, r.x, r.y) == beta,
    {
        match axis {
            Axis::Horizontal => Point2 { x: alpha, y: beta },
            Axis::Vertical => Point2 { x: beta, y: alpha },
        }
    }

    pub fn alpha(self, axis: Axis) -> (r: T)
        ensures
            r == on_alpha(axis, self.x, self.y),
    {
        match axis {
            Axis::Horizontal => self.x,
            Axis::Vertical => self.y,
        }
    }

    pub fn beta(self, axis: Axis) -> (r: T)
        ensures
            r == on_beta(axis, self.x, self.y),
    {
        match axis {
            Axis::Horizontal => self.y,
            Axis::Vertical => self.x,
        }
    }

    /// Replaces the layout-axis coordinate, keeping the cross-axis one.
    pub fn set_alpha(&mut self, axis: Axis, alpha: T)
        ensures
            on_alpha(axis, final(self).x, final(self).y) == alpha,
            on_beta(axis, final(self).x, final(self).y) == on_beta(axis, old(self).x, old(self).y),
    {
        match axis {
            Axis::Horizontal => self.x = alpha,
            Axis::Vertical => self.y = alpha,
        }
    }

    /// Replaces the cross-axis coordinate, keeping the layout-axis one.
    pub fn set_beta(&mut self, axis: Axis, beta: T)
        ensures
            on_beta(axis, final(self).x, final(self).y) == beta,
            on_alpha(axis, final(self).x, final(self).y) == on_alpha(
                axis,
                old(self).x,
                old(self).y,
            ),
    {
        match axis {
            Axis::Horizontal => self.y = beta,
            Axis::Vertical => self.x = beta,
        }
    }
}

impl<T: Copy> RectSize<T> {
    pub fn new(width: T, height: T) -> (r: Self)
        ensures
            r.width == width,
            r.height == height,
    {
        RectSize { width, height }
    }

    /// Builds the size whose length along the layout axis is `length_alpha` and along the
    /// cross axis is `length_beta`.
    pub fn new_on_axis(axis: Axis, length_alpha: T, length_beta: T) -> (r: Self)
        ensures
            on_alpha(axis, r.width, r.height) == length_alpha,
            on_beta(axis, r.width, r.height) == length_beta,
    {
        match axis {
            Axis::Horizontal => RectSize { width: length_alpha, height: length_beta },
            Axis::Vertical => RectSize { width: length_beta, height: length_alpha },
        }
    }

    pub fn length_alpha(self, axis: Axis) -> (r: T)
        ensures
            r == on_alpha(axis, self.width, self.height),
    {
        match axis {
            Axis::Horizontal => self.width,
            Axis::Vertical => self.height,
        }
    }

    pub fn length_beta(self, axis: Axis) -> (r: T)
        ensures
            r == on_beta(axis, self.width, self.height),
    {
        match axis {
            Axis::Horizontal => self.height,
            Axis::Vertical => self.width,
        }
    }
}

impl<T: Copy> Bounds<T> {
    pub fn new(origin: Point2<T>, size: RectSize<T>) -> (r: Self)
        ensures
            r.origin == origin,
            r.size == size,
    {
        Bounds { origin, size }
    }

    pub fn from_scalars(x_min: T, y_min: T, width: T, height: T) -> (r: Self)
        ensures
            r.origin.x == x_min,
            r.origin.y == y_min,
            r.size.width == width,
            r.size.height == height,
    {
        Bounds { origin: Point2 { x: x_min, y: y_min }, size: RectSize { width, height } }
    }

    pub fn x_min(self) -> (r: T)
        ensures
            r == self.origin.x,
    {
        self.origin.x
    }

    pub fn y_min(self) -> (r: T)
        ensures
            r == self.origin.y,
    {
        self.origin.y
    }

    pub fn width(self) -> (r: T)
        ensures
            r == self.size.width,
    {
        self.size.width
    }

    pub fn height(self) -> (r: T)
        ensures
            r == self.size.height,
    {
        self.size.height
    }

    pub fn with_origin(self, origin: Point2<T>) -> (r: Self)
        ensures
            r.origin == origin,
            r.size == self.size,
    {
        Bounds { origin, size: self.size }
    }

    pub fn with_size(self, size: RectSize<T>) -> (r: Self)
        ensures
            r.origin == self.origin,
            r.size == size,
    {
        Bounds { origin: self.origin, size }
    }
}

} // verus!
