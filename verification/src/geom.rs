//! Types for working with 2-dimensional "artwork space": points, sizes, rectangles, and finite
//! inclusive ranges that can be walked from either end.

use crate::unit::ArtworkSpaceUnit;
use vstd::prelude::*;
use vstd::std_specs::convert::FromSpecImpl;

verus! {

/// The sequence `start, start + 1, ..., end` (empty when `end < start`).
pub open spec fn inclusive_seq(start: int, end: int) -> Seq<int> {
    Seq::new(if end < start { 0nat } else { (end - start + 1) as nat }, |i: int| start + i)
}

/// A finite, inclusive range of `usize` values that can be consumed from the front and from the back.
///
/// This serves as an alternative to `RangeInclusive` whose state is fully visible to proofs.
pub struct FiniteRange {
    /// The start value (inclusive).
    start: usize,
    /// The end value (inclusive).
    end: usize,
    /// Flag that signals that iteration is exhausted.
    exhausted: bool,
}

impl View for FiniteRange {
    type V = Seq<int>;

    /// The values that the range still yields, in ascending order.
    closed spec fn view(&self) -> Seq<int> {
        if self.exhausted {
            Seq::empty()
        } else {
            inclusive_seq(self.start as int, self.end as int)
        }
    }
}

impl FiniteRange {
    #[verifier::type_invariant]
    closed spec fn well_formed(self) -> bool {
        &&& self.start <= self.end
        &&& self.exhausted ==> self.start == self.end
    }

    /// Creates a new instance yielding `start, ..., end`.
    ///
    /// The start must not lie after the end.
    pub fn new(start: usize, end: usize) -> (r: FiniteRange)
        requires
            start <= end,
        ensures
            r@ == inclusive_seq(start as int, end as int),
    {
        FiniteRange { start, end, exhausted: false }
    }

    /// Yields the smallest remaining value.
    pub fn next(&mut self) -> (r: Option<usize>)
        ensures
            old(self)@.len() == 0 ==> r is None && final(self)@ == old(self)@,
            old(self)@.len() > 0 ==> (r matches Some(v) && v as int == old(self)@[0] && final(self)@
                == old(self)@.drop_first()),
    {
        proof {
            use_type_invariant(&*self);
        }
        if self.start == self.end {
            if self.exhausted {
                None
            } else {
                self.exhausted = true;
                Some(self.start)
            }
        } else {
            let out = self.start;
            self.start = self.start + 1;
            proof {
                assert(self@ =~= old(self)@.drop_first());
            }
            Some(out)
        }
    }

    /// Yields the largest remaining value.
    pub fn next_back(&mut self) -> (r: Option<usize>)
        ensures
            old(self)@.len() == 0 ==> r is None && final(self)@ == old(self)@,
            old(self)@.len() > 0 ==> (r matches Some(v) && v as int == old(self)@.last() && final(self)@
                == old(self)@.drop_last()),
    {
        proof {
            use_type_invariant(&*self);
        }
        if self.end == self.start {
            if self.exhausted {
                None
            } else {
                self.exhausted = true;
                Some(self.end)
            }
        } else {
            let out = self.end;
            self.end = self.end - 1;
            proof {
                assert(self@ =~= old(self)@.drop_last());
            }
            Some(out)
        }
    }
}

/// A point in 2D artwork space.
#[derive(Copy, Clone, Debug, PartialEq, Eq, Hash)]
pub struct Point {
    /// The X-coordinate.
    pub x: ArtworkSpaceUnit,
    /// The Y-coordinate.
    pub y: ArtworkSpaceUnit,
}

impl Point {
    /// Creates a new instance.
    pub fn new(x: u32, y: u32) -> (r: Point)
        ensures
            r.x.0 == x,
            r.y.0 == y,
    {
        Point { x: ArtworkSpaceUnit(x), y: ArtworkSpaceUnit(y) }
    }
}

impl From<(u32, u32)> for Point {
    fn from(coords: (u32, u32)) -> (r: Point) {
        Point::new(coords.0, coords.1)
    }
}

impl FromSpecImpl<(u32, u32)> for Point {
    open spec fn obeys_from_spec() -> bool {
        true
    }

    open spec fn from_spec(coords: (u32, u32)) -> Point {
        point(coords.0, coords.1)
    }
}

/// The point with the given raw coordinates.
pub open spec fn point(x: u32, y: u32) -> Point {
    Point { x: ArtworkSpaceUnit(x), y: ArtworkSpaceUnit(y) }
}

/// A size (or dimension) in 2D artwork space.
#[derive(Copy, Clone, Debug, PartialEq, Eq, Hash)]
pub struct Size {
    /// The width.
    pub width: ArtworkSpaceUnit,
    /// The height.
    pub height: ArtworkSpaceUnit,
}

impl Size {
    /// Creates a new instance.
    pub fn new(width: u32, height: u32) -> (r: Size)
        ensures
            r.width.0 == width,
            r.height.0 == height,
    {
        Size { width: ArtworkSpaceUnit(width), height: ArtworkSpaceUnit(height) }
    }

    /// Creates a new instance of a square.
    pub fn new_square(side: u32) -> (r: Size)
        ensures
            r.width.0 == side,
            r.height.0 == side,
    {
        Size::new(side, side)
    }

    /// The rectangle of this size with its origin at `(0, 0)`.
    ///
    /// The width and the height must not be zero.
    pub fn as_rect(&self) -> (r: Rect)
        requires
            self.width.0 >= 1,
            self.height.0 >= 1,
        ensures
            r == rect(0, 0, (self.width.0 - 1) as u32, (self.height.0 - 1) as u32),
    {
        Rect::new_from_size(Point::new(0, 0), *self)
    }
}

/// A rectangle in 2D artwork space, given by its corners (both inclusive).
#[derive(Copy, Clone, Debug, PartialEq, Eq, Hash)]
pub struct Rect {
    /// The start position (inclusive).
    pub min: Point,
    /// The end position (inclusive).
    pub max: Point,
}

/// The rectangle with the given raw corner coordinates.
pub open spec fn rect(min_x: u32, min_y: u32, max_x: u32, max_y: u32) -> Rect {
    Rect { min: point(min_x, min_y), max: point(max_x, max_y) }
}

impl Rect {
    /// The rectangle's corners are ordered on both axes.
    pub open spec fn is_proper(self) -> bool {
        self.min.x.0 <= self.max.x.0 && self.min.y.0 <= self.max.y.0
    }

    /// The rectangle contains the point `(x, y)`.
    pub open spec fn contains(self, x: int, y: int) -> bool {
        self.min.x.0 <= x <= self.max.x.0 && self.min.y.0 <= y <= self.max.y.0
    }

    /// The number of columns covered (`max.x - min.x + 1`).
    pub open spec fn spec_width(self) -> int {
        self.max.x.0 - self.min.x.0 + 1
    }

    /// The number of rows covered (`max.y - min.y + 1`).
    pub open spec fn spec_height(self) -> int {
        self.max.y.0 - self.min.y.0 + 1
    }

    /// Creates a new instance.
    ///
    /// The corners must be ordered on at least one axis.
    pub fn new(min: Point, max: Point) -> (r: Rect)
        requires
            min.x.0 <= max.x.0 || min.y.0 <= max.y.0,
        ensures
            r.min == min,
            r.max == max,
    {
        Rect { min, max }
    }

    /// Creates a new instance from an origin and a size: the last covered point is
    /// `origin + size - 1` on both axes.
    pub fn new_from_size(origin: Point, size: Size) -> (r: Rect)
        requires
            origin.x.0 + size.width.0 <= u32::MAX,
            origin.y.0 + size.height.0 <= u32::MAX,
            origin.x.0 + size.width.0 >= 1,
            origin.y.0 + size.height.0 >= 1,
            size.width.0 >= 1 || size.height.0 >= 1,
        ensures
            r.min == origin,
            r.max.x.0 == origin.x.0 + size.width.0 - 1,
            r.max.y.0 == origin.y.0 + size.height.0 - 1,
    {
        let max = Point::new(origin.x.0 + size.width.0 - 1, origin.y.0 + size.height.0 - 1);
        Rect::new(origin, max)
    }

    /// The smallest X-coordinate.
    pub fn min_x(&self) -> (r: ArtworkSpaceUnit)
        ensures
            r == self.min.x,
    {
        self.min.x
    }

    /// The smallest Y-coordinate.
    pub fn min_y(&self) -> (r: ArtworkSpaceUnit)
        ensures
            r == self.min.y,
    {
        self.min.y
    }

    /// The largest X-coordinate.
    pub fn max_x(&self) -> (r: ArtworkSpaceUnit)
        ensures
            r == self.max.x,
    {
        self.max.x
    }

    /// The largest Y-coordinate.
    pub fn max_y(&self) -> (r: ArtworkSpaceUnit)
        ensures
            r == self.max.y,
    {
        self.max.y
    }

    /// The inclusive range of X-coordinates.
    pub fn range_x(&self) -> (r: core::ops::RangeInclusive<u32>)
        ensures
            r@.start == self.min.x.0,
            r@.end == self.max.x.0,
            !r@.exhausted,
    {
        core::ops::RangeInclusive::new(self.min.x.0, self.max.x.0)
    }

    /// The inclusive range of Y-coordinates.
    pub fn range_y(&self) -> (r: core::ops::RangeInclusive<u32>)
        ensures
            r@.start == self.min.y.0,
            r@.end == self.max.y.0,
            !r@.exhausted,
    {
        core::ops::RangeInclusive::new(self.min.y.0, self.max.y.0)
    }

    /// The width: `max.x - min.x + 1`.
    pub fn width(&self) -> (r: ArtworkSpaceUnit)
        requires
            self.min.x.0 <= self.max.x.0,
            self.max.x.0 - self.min.x.0 + 1 <= u32::MAX,
        ensures
            r.0 == self.spec_width(),
    {
        ArtworkSpaceUnit(self.max.x.0 - self.min.x.0 + 1)
    }

    /// The height: `max.y - min.y + 1`.
    pub fn height(&self) -> (r: ArtworkSpaceUnit)
        requires
            self.min.y.0 <= self.max.y.0,
            self.max.y.0 - self.min.y.0 + 1 <= u32::MAX,
        ensures
            r.0 == self.spec_height(),
    {
        ArtworkSpaceUnit(self.max.y.0 - self.min.y.0 + 1)
    }

    /// The size: width and height.
    pub fn size(&self) -> (r: Size)
        requires
            self.min.x.0 <= self.max.x.0,
            self.max.x.0 - self.min.x.0 + 1 <= u32::MAX,
            self.min.y.0 <= self.max.y.0,
            self.max.y.0 - self.min.y.0 + 1 <= u32::MAX,
        ensures
            r.width.0 == self.spec_width(),
            r.height.0 == self.spec_height(),
    {
        Size { width: self.width(), height: self.height() }
    }

    /// The intersection of this rectangle with the axes through `p`, as a value.
    ///
    /// An axis cuts the rectangle when it lies in `[min, max)` on its axis; the axis itself is
    /// part of the top/left piece.
    pub open spec fn spec_intersect_point(self, p: Point) -> RectIntersection {
        let (xs, xe, ys, ye) = (self.min.x.0, self.max.x.0, self.min.y.0, self.max.y.0);
        let (x, y) = (p.x.0, p.y.0);
        let cut_x = xs <= x && x < xe;
        let cut_y = ys <= y && y < ye;
        if cut_x && cut_y {
            RectIntersection::Both {
                top_left: rect(xs, ys, x, y),
                top_right: rect((x + 1) as u32, ys, xe, y),
                bottom_left: rect(xs, (y + 1) as u32, x, ye),
                bottom_right: rect((x + 1) as u32, (y + 1) as u32, xe, ye),
            }
        } else if cut_x {
            RectIntersection::Vertical {
                left: rect(xs, ys, x, ye),
                right: rect((x + 1) as u32, ys, xe, ye),
            }
        } else if cut_y {
            RectIntersection::Horizontal {
                top: rect(xs, ys, xe, y),
                bottom: rect(xs, (y + 1) as u32, xe, ye),
            }
        } else {
            RectIntersection::Uncut
        }
    }

    /// Creates an intersection of this rectangle with the axes defined by the provided point.
    ///
    /// The axes themselves become part of the top-left pieces.
    pub fn intersect_point(&self, point: Point) -> (r: RectIntersection)
        ensures
            r == self.spec_intersect_point(point),
    {
        let x = point.x.0;
        let y = point.y.0;
        let x_start = self.min.x.0;
        let x_end = self.max.x.0;
        let y_start = self.min.y.0;
        let y_end = self.max.y.0;

        if x_start <= x && x < x_end {
            let remaining_x = x + 1;
            if y_start <= y && y < y_end {
                let remaining_y = y + 1;
                RectIntersection::Both {
                    top_left: Rect::new(Point::new(x_start, y_start), Point::new(x, y)),
                    top_right: Rect::new(Point::new(remaining_x, y_start), Point::new(x_end, y)),
                    bottom_left: Rect::new(Point::new(x_start, remaining_y), Point::new(x, y_end)),
                    bottom_right: Rect::new(
                        Point::new(remaining_x, remaining_y),
                        Point::new(x_end, y_end),
                    ),
                }
            } else {
                RectIntersection::Vertical {
                    left: Rect::new(Point::new(x_start, y_start), Point::new(x, y_end)),
                    right: Rect::new(Point::new(remaining_x, y_start), Point::new(x_end, y_end)),
                }
            }
        } else if y_start <= y && y < y_end {
            let remaining_y = y + 1;
            RectIntersection::Horizontal {
                top: Rect::new(Point::new(x_start, y_start), Point::new(x_end, y)),
                bottom: Rect::new(Point::new(x_start, remaining_y), Point::new(x_end, y_end)),
            }
        } else {
            RectIntersection::Uncut
        }
    }
}

/// The values that a range whose values are `values` still yields after `k` calls of
/// [`FiniteRange::next`]: each call on a non-empty range drops its first value, and a call on an
/// empty range leaves it empty.
pub open spec fn left_after_nexts(values: Seq<int>, k: nat) -> Seq<int>
    decreases k,
{
    if k == 0 {
        values
    } else {
        let before = left_after_nexts(values, (k - 1) as nat);
        if before.len() == 0 {
            before
        } else {
            before.drop_first()
        }
    }
}

/// What the call of [`FiniteRange::next`] numbered `k` (counting from zero) returns on a range
/// whose values are `values`: the first remaining value, or `None` once none remains.
pub open spec fn nth_next(values: Seq<int>, k: nat) -> Option<int> {
    let left = left_after_nexts(values, k);
    if left.len() == 0 {
        None
    } else {
        Some(left[0])
    }
}

/// `k` calls of `next` drop the first `k` values, or all of them.
proof fn lemma_left_after_nexts(values: Seq<int>, k: nat)
    ensures
        left_after_nexts(values, k) == if k <= values.len() {
            values.skip(k as int)
        } else {
            Seq::<int>::empty()
        },
    decreases k,
{
    if k > 0 {
        lemma_left_after_nexts(values, (k - 1) as nat);
        if k <= values.len() {
            assert(values.skip(k - 1).drop_first() =~= values.skip(k as int));
        } else if k - 1 == values.len() {
            assert(values.skip(k - 1) =~= Seq::<int>::empty());
        }
    }
}

/// Calling `next` on the range `start ..= end` yields `start, start + 1, ..., end` in turn, each
/// value once, and `None` on every later call.
pub proof fn lemma_range_yields_each_value_once(start: int, end: int, k: nat)
    requires
        start <= end,
    ensures
        nth_next(inclusive_seq(start, end), k) == if k <= end - start {
            Some(start + k)
        } else {
            None::<int>
        },
{
    lemma_left_after_nexts(inclusive_seq(start, end), k);
}

/// A rectangle made from an origin and a size has that origin as its first corner and that size:
/// its width and height give the size back.
pub proof fn lemma_rect_from_size_round_trip(origin: Point, size: Size)
    requires
        size.width.0 >= 1,
        size.height.0 >= 1,
        origin.x.0 + size.width.0 <= u32::MAX,
        origin.y.0 + size.height.0 <= u32::MAX,
    ensures
        ({
            let r = rect(
                origin.x.0,
                origin.y.0,
                (origin.x.0 + size.width.0 - 1) as u32,
                (origin.y.0 + size.height.0 - 1) as u32,
            );
            &&& r.is_proper()
            &&& r.min == origin
            &&& r.spec_width() == size.width.0
            &&& r.spec_height() == size.height.0
        }),
{
}

/// The result of cutting a [`Rect`] along the axes through a point.
#[derive(Copy, Clone, Debug, PartialEq, Eq)]
pub enum RectIntersection {
    /// Neither axis cuts the rectangle.
    Uncut,
    /// Only the vertical axis cuts the rectangle.
    Vertical { left: Rect, right: Rect },
    /// Only the horizontal axis cuts the rectangle.
    Horizontal { top: Rect, bottom: Rect },
    /// Both axes cut the rectangle.
    Both { top_left: Rect, top_right: Rect, bottom_left: Rect, bottom_right: Rect },
}

impl RectIntersection {
    /// The pieces, in the order top-left, top-right, bottom-left, bottom-right (as far as present).
    pub open spec fn spec_parts(self) -> Seq<Rect> {
        match self {
            RectIntersection::Uncut => seq![],
            RectIntersection::Vertical { left, right } => seq![left, right],
            RectIntersection::Horizontal { top, bottom } => seq![top, bottom],
            RectIntersection::Both { top_left, top_right, bottom_left, bottom_right } => seq![
                top_left,
                top_right,
                bottom_left,
                bottom_right,
            ],
        }
    }

    /// The pieces of the intersection: top-left, top-right, bottom-left, bottom-right, as far
    /// as present.
    pub fn parts(&self) -> (r: Vec<Rect>)
        ensures
            r@ == self.spec_parts(),
    {
        let mut out: Vec<Rect> = Vec::new();
        match self {
            RectIntersection::Uncut => {},
            RectIntersection::Vertical { left, right } => {
                out.push(*left);
                out.push(*right);
            },
            RectIntersection::Horizontal { top, bottom } => {
                out.push(*top);
                out.push(*bottom);
            },
            RectIntersection::Both { top_left, top_right, bottom_left, bottom_right } => {
                out.push(*top_left);
                out.push(*top_right);
                out.push(*bottom_left);
                out.push(*bottom_right);
            },
        }
        proof {
            assert(out@ =~= self.spec_parts());
        }
        out
    }
}

/// Cutting a proper rectangle at a point partitions it: the pieces are proper, every point of the
/// rectangle lies in exactly one piece and no piece reaches outside the rectangle. There are no
/// pieces exactly when neither axis through the point lies in `[min, max)` of its axis.
pub proof fn lemma_intersect_point_partitions(r: Rect, p: Point)
    requires
        r.is_proper(),
    ensures
        ({
            let parts = r.spec_intersect_point(p).spec_parts();
            &&& (parts.len() == 0) <==> !(r.min.x.0 <= p.x.0 < r.max.x.0) && !(r.min.y.0 <= p.y.0
                < r.max.y.0)
            &&& forall|i: int| 0 <= i < parts.len() ==> (#[trigger] parts[i]).is_proper()
            &&& parts.len() > 0 ==> forall|x: int, y: int|
                r.contains(x, y) <==> exists|i: int|
                    0 <= i < parts.len() && (#[trigger] parts[i]).contains(x, y)
            &&& forall|i: int, j: int, x: int, y: int|
                0 <= i < j < parts.len() && #[trigger] parts[i].contains(x, y)
                    ==> !#[trigger] parts[j].contains(x, y)
        }),
{
    let parts = r.spec_intersect_point(p).spec_parts();
    if parts.len() > 0 {
        assert forall|x: int, y: int| r.contains(x, y) implies exists|i: int|
            0 <= i < parts.len() && (#[trigger] parts[i]).contains(x, y) by {
            if parts[0].contains(x, y) {
            } else if parts[1].contains(x, y) {
            } else if parts.len() > 2 && parts[2].contains(x, y) {
            } else {
                assert(parts[parts.len() - 1].contains(x, y));
            }
        }
    }
}

} // verus!
