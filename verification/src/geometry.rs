//! Integer points, sizes and rectangles in surface coordinates, and the
//! merging of a client's input region into one bounding rectangle.

use vstd::prelude::*;

verus! {

/// A location, in whole units.
#[derive(Clone, Copy, Debug, PartialEq, Eq, Structural)]
pub struct Point {
    pub x: i32,
    pub y: i32,
}

/// A width and a height, in whole units.
#[derive(Clone, Copy, Debug, PartialEq, Eq, Structural)]
pub struct Size {
    pub w: i32,
    pub h: i32,
}

/// A rectangle given by its top-left corner and its dimensions.
#[derive(Clone, Copy, Debug, PartialEq, Eq, Structural)]
pub struct Rectangle {
    pub loc: Point,
    pub size: Size,
}

/// Whether a rectangle of a region adds to it or is cut out of it.
#[derive(Clone, Copy, Debug, PartialEq, Eq, Structural)]
pub enum RectangleKind {
    Add,
    Subtract,
}

/// `v` brought into the range of `i32`.
pub open spec fn saturate(v: int) -> int {
    if v < i32::MIN as int {
        i32::MIN as int
    } else if v > i32::MAX as int {
        i32::MAX as int
    } else {
        v
    }
}

/// The smaller of two numbers.
pub open spec fn min_of(a: int, b: int) -> int {
    if a <= b {
        a
    } else {
        b
    }
}

/// The larger of two numbers.
pub open spec fn max_of(a: int, b: int) -> int {
    if a >= b {
        a
    } else {
        b
    }
}

fn saturate_i64(v: i64) -> (r: i32)
    ensures
        r as int == saturate(v as int),
{
    if v < i32::MIN as i64 {
        i32::MIN
    } else if v > i32::MAX as i64 {
        i32::MAX
    } else {
        v as i32
    }
}

fn min_i32(a: i32, b: i32) -> (r: i32)
    ensures
        r as int == min_of(a as int, b as int),
{
    if a <= b {
        a
    } else {
        b
    }
}

fn max_i32(a: i32, b: i32) -> (r: i32)
    ensures
        r as int == max_of(a as int, b as int),
{
    if a >= b {
        a
    } else {
        b
    }
}

impl Rectangle {
    /// The rectangle at the origin with no extent.
    pub open spec fn spec_zero() -> Rectangle {
        Rectangle { loc: Point { x: 0, y: 0 }, size: Size { w: 0, h: 0 } }
    }

    /// The rectangle at the origin with no extent.
    pub fn zero() -> (r: Rectangle)
        ensures
            r == Self::spec_zero(),
    {
        Rectangle { loc: Point { x: 0, y: 0 }, size: Size { w: 0, h: 0 } }
    }

    /// The rectangle at the origin with the given dimensions.
    pub fn from_size(size: Size) -> (r: Rectangle)
        ensures
            r == (Rectangle { loc: Point { x: 0, y: 0 }, size }),
    {
        Rectangle { loc: Point { x: 0, y: 0 }, size }
    }

    /// A rectangle has a proper extent when neither dimension is negative
    /// and its far corner still lies in the coordinate range.
    pub open spec fn well_formed(self) -> bool {
        &&& self.size.w >= 0
        &&& self.size.h >= 0
        &&& self.loc.x + self.size.w <= i32::MAX
        &&& self.loc.y + self.size.h <= i32::MAX
    }

    /// The horizontal coordinate of the near corner.
    pub open spec fn left(self) -> int {
        self.loc.x as int
    }

    /// The vertical coordinate of the near corner.
    pub open spec fn top(self) -> int {
        self.loc.y as int
    }

    /// The horizontal coordinate of the far corner, saturating.
    pub open spec fn right(self) -> int {
        saturate(self.loc.x + self.size.w)
    }

    /// The vertical coordinate of the far corner, saturating.
    pub open spec fn bottom(self) -> int {
        saturate(self.loc.y + self.size.h)
    }

    /// Whether `inner` lies inside `self`.
    pub open spec fn encloses(self, inner: Rectangle) -> bool {
        &&& self.left() <= inner.left()
        &&& self.top() <= inner.top()
        &&& inner.right() <= self.right()
        &&& inner.bottom() <= self.bottom()
    }

    /// The bounding box of the corners of both rectangles. Coordinates
    /// saturate at the ends of the `i32` range.
    pub open spec fn spec_merge(self, other: Rectangle) -> Rectangle {
        let l = min_of(min_of(self.left(), self.right()), min_of(other.left(), other.right()));
        let r = max_of(max_of(self.left(), self.right()), max_of(other.left(), other.right()));
        let t = min_of(min_of(self.top(), self.bottom()), min_of(other.top(), other.bottom()));
        let b = max_of(max_of(self.top(), self.bottom()), max_of(other.top(), other.bottom()));
        Rectangle {
            loc: Point { x: l as i32, y: t as i32 },
            size: Size { w: saturate(r - l) as i32, h: saturate(b - t) as i32 },
        }
    }

    /// Merges two rectangles into the smallest rectangle that contains both.
    pub fn merge(self, other: Rectangle) -> (merged: Rectangle)
        ensures
            merged == self.spec_merge(other),
    {
        let self_right: i32 = saturate_i64(self.loc.x as i64 + self.size.w as i64);
        let self_bottom: i32 = saturate_i64(self.loc.y as i64 + self.size.h as i64);
        let other_right: i32 = saturate_i64(other.loc.x as i64 + other.size.w as i64);
        let other_bottom: i32 = saturate_i64(other.loc.y as i64 + other.size.h as i64);
        let l: i32 = min_i32(min_i32(self.loc.x, self_right), min_i32(other.loc.x, other_right));
        let r: i32 = max_i32(max_i32(self.loc.x, self_right), max_i32(other.loc.x, other_right));
        let t: i32 = min_i32(min_i32(self.loc.y, self_bottom), min_i32(other.loc.y, other_bottom));
        let b: i32 = max_i32(max_i32(self.loc.y, self_bottom), max_i32(other.loc.y, other_bottom));
        let w: i32 = saturate_i64(r as i64 - l as i64);
        let h: i32 = saturate_i64(b as i64 - t as i64);
        Rectangle { loc: Point { x: l, y: t }, size: Size { w, h } }
    }
}

/// Whether the box around both rectangles is no wider and no taller than
/// the largest `i32`, so that its dimensions need no saturation.
pub open spec fn span_fits(a: Rectangle, b: Rectangle) -> bool {
    &&& max_of(a.right(), b.right()) - min_of(a.left(), b.left()) <= i32::MAX
    &&& max_of(a.bottom(), b.bottom()) - min_of(a.top(), b.top()) <= i32::MAX
}

/// The merged rectangle of two rectangles with a proper extent contains both,
/// and every rectangle with a proper extent that contains both contains it.
pub proof fn lemma_merge_is_bounding_box(a: Rectangle, b: Rectangle, c: Rectangle)
    requires
        a.well_formed(),
        b.well_formed(),
        span_fits(a, b),
    ensures
        a.spec_merge(b).well_formed(),
        a.spec_merge(b).encloses(a),
        a.spec_merge(b).encloses(b),
        a.spec_merge(b).left() == min_of(a.left(), b.left()),
        a.spec_merge(b).right() == max_of(a.right(), b.right()),
        a.spec_merge(b).top() == min_of(a.top(), b.top()),
        a.spec_merge(b).bottom() == max_of(a.bottom(), b.bottom()),
        c.well_formed() && c.encloses(a) && c.encloses(b) ==> c.encloses(a.spec_merge(b)),
{
}

/// Merging does not depend on the order of its operands.
pub proof fn lemma_merge_commutes(a: Rectangle, b: Rectangle)
    ensures
        a.spec_merge(b) == b.spec_merge(a),
{
}

/// The single rectangle that stands for a region: the merge, in order, of
/// all its additive rectangles; `None` when it has none. Subtractive
/// rectangles are passed over.
pub open spec fn merged_additions(rects: Seq<(RectangleKind, Rectangle)>) -> Option<Rectangle>
    decreases rects.len(),
{
    if rects.len() == 0 {
        None
    } else {
        let before = merged_additions(rects.drop_last());
        let (kind, rect) = rects.last();
        match kind {
            RectangleKind::Subtract => before,
            RectangleKind::Add => match before {
                Some(acc) => Some(acc.spec_merge(rect)),
                None => Some(rect),
            },
        }
    }
}

/// The input region that is reported for a surface: the merged additive
/// rectangles of the region the client set, or, where it set none, the whole
/// buffer from the origin. Without additive rectangles, or without a buffer,
/// the region is empty.
pub open spec fn spec_input_region(
    region: Option<Seq<(RectangleKind, Rectangle)>>,
    buffer_size: Option<Size>,
) -> Rectangle {
    match region {
        Some(rects) => match merged_additions(rects) {
            Some(r) => r,
            None => Rectangle::spec_zero(),
        },
        None => match buffer_size {
            Some(size) => Rectangle { loc: Point { x: 0, y: 0 }, size },
            None => Rectangle::spec_zero(),
        },
    }
}

/// Merges the additive rectangles of a region into one bounding rectangle.
pub fn merge_region(rects: &Vec<(RectangleKind, Rectangle)>) -> (merged: Option<Rectangle>)
    ensures
        merged == merged_additions(rects@),
{
    let mut acc: Option<Rectangle> = None;
    let mut i: usize = 0;
    while i < rects.len()
        invariant
            i <= rects.len(),
            acc == merged_additions(rects@.take(i as int)),
        decreases rects.len() - i,
    {
        let kind: RectangleKind = rects[i].0;
        let rect: Rectangle = rects[i].1;
        proof {
            assert(rects@.take(i + 1).drop_last() =~= rects@.take(i as int));
            assert(rects@.take(i + 1).last() == rects@[i as int]);
        }
        match kind {
            RectangleKind::Add => {
                acc = match acc {
                    Some(a) => Some(a.merge(rect)),
                    None => Some(rect),
                };
            },
            RectangleKind::Subtract => {},
        }
        i = i + 1;
    }
    proof {
        assert(rects@.take(rects.len() as int) =~= rects@);
    }
    acc
}

/// Computes the input region that is reported for a surface.
pub fn input_region(
    region: &Option<Vec<(RectangleKind, Rectangle)>>,
    buffer_size: Option<Size>,
) -> (r: Rectangle)
    ensures
        r == spec_input_region(
            match *region {
                Some(v) => Some(v@),
                None => None,
            },
            buffer_size,
        ),
{
    match region {
        Some(rects) => match merge_region(rects) {
            Some(r) => r,
            None => Rectangle::zero(),
        },
        None => match buffer_size {
            Some(size) => Rectangle::from_size(size),
            None => Rectangle::zero(),
        },
    }
}

} // verus!
