//! Working with 2-dimensional surfaces: row-major pixel buffers, the order in which their pixels
//! are visited (with flipping and wrap-around at the surface edges), and rows of a view.

use crate::geom::{inclusive_seq, FiniteRange, Point, Rect, Size};
use crate::unit::ArtworkSpaceUnit;
use vstd::arithmetic::div_mod::{lemma_fundamental_div_mod, lemma_fundamental_div_mod_converse};
use vstd::prelude::*;
use vstd::string::StringExecFns;

verus! {

/// The values `min, ..., max` in ascending order.
pub open spec fn ascending_values(min: int, max: int) -> Seq<int> {
    inclusive_seq(min, max)
}

/// The values `max, ..., min` in descending order.
pub open spec fn descending_values(min: int, max: int) -> Seq<int> {
    inclusive_seq(min, max).reverse()
}

/// Every value of `s` taken modulo `limit`.
pub open spec fn wrapped_values(s: Seq<int>, limit: int) -> Seq<int> {
    s.map_values(|v: int| v % limit)
}

/// The message for a minimum that is not below the maximum (`None` when `min < max`).
pub open spec fn min_max_message(min: int, max: int) -> Option<Seq<char>> {
    if min == max {
        Some("Min and max are equal."@)
    } else if min > max {
        Some("Min is greater than max."@)
    } else {
        None
    }
}

/// Checks that `min` lies strictly below `max`.
pub fn check_min_max(min: usize, max: usize) -> (r: Result<(), String>)
    ensures
        min_max_message(min as int, max as int) is None ==> r is Ok,
        min_max_message(min as int, max as int) matches Some(m) ==> (r matches Err(e) && e@ == m),
{
    if min == max {
        Err("Min and max are equal.".to_owned())
    } else if min > max {
        Err("Min is greater than max.".to_owned())
    } else {
        Ok(())
    }
}

/// Checks that `max` lies below the (exclusive) `limit`.
pub fn check_limit(max: usize, limit: usize) -> (r: Result<(), String>)
    ensures
        max < limit ==> r is Ok,
        max >= limit ==> (r matches Err(e) && e@ == "Max is out of bounds."@),
{
    if max >= limit {
        Err("Max is out of bounds.".to_owned())
    } else {
        Ok(())
    }
}

/// An inclusive range walked either upwards or downwards.
pub struct DirectedRange {
    range: FiniteRange,
    descending: bool,
}

impl View for DirectedRange {
    type V = Seq<int>;

    closed spec fn view(&self) -> Seq<int> {
        if self.descending {
            self.range@.reverse()
        } else {
            self.range@
        }
    }
}

impl DirectedRange {
    /// Walks `min, ..., max` upwards.
    pub fn ascending(min: usize, max: usize) -> (r: DirectedRange)
        requires
            min <= max,
        ensures
            r@ == ascending_values(min as int, max as int),
    {
        DirectedRange { range: FiniteRange::new(min, max), descending: false }
    }

    /// Walks `max, ..., min` downwards.
    pub fn descending(min: usize, max: usize) -> (r: DirectedRange)
        requires
            min <= max,
        ensures
            r@ == descending_values(min as int, max as int),
    {
        DirectedRange { range: FiniteRange::new(min, max), descending: true }
    }

    /// Yields the next value.
    pub fn next(&mut self) -> (r: Option<usize>)
        ensures
            old(self)@.len() == 0 ==> r is None && final(self)@ == old(self)@,
            old(self)@.len() > 0 ==> (r matches Some(v) && v as int == old(self)@[0] 
                && final(self)@ == old(self)@.drop_first()),
    {
        if self.descending {
            let ghost before = self.range@;
            let r = self.range.next_back();
            proof {
                if before.len() > 0 {
                    assert(before.drop_last().reverse() =~= before.reverse().drop_first());
                }
            }
            r
        } else {
            self.range.next()
        }
    }
}

/// Reduces every value of an inner range modulo a limit (wrap-around at an axis boundary).
pub struct Modularizer {
    iter: DirectedRange,
    limit: usize,
}

impl View for Modularizer {
    type V = Seq<int>;

    closed spec fn view(&self) -> Seq<int> {
        wrapped_values(self.iter@, self.limit as int)
    }
}

impl Modularizer {
    /// The limit that values are reduced by.
    pub closed spec fn spec_limit(&self) -> int {
        self.limit as int
    }

    /// Creates a new instance.
    pub fn new(iter: DirectedRange, limit: usize) -> (r: Modularizer)
        ensures
            r@ == wrapped_values(iter@, limit as int),
            r.spec_limit() == limit,
    {
        Modularizer { iter, limit }
    }

    /// Yields the next value of the inner range, modulo the limit.
    ///
    /// The limit must not be zero.
    pub fn next(&mut self) -> (r: Option<usize>)
        requires
            old(self).spec_limit() > 0 || old(self)@.len() == 0,
        ensures
            final(self).spec_limit() == old(self).spec_limit(),
            old(self)@.len() == 0 ==> r is None && final(self)@ == old(self)@,
            old(self)@.len() > 0 ==> (r matches Some(v) && v as int == old(self)@[0] 
                && final(self)@ == old(self)@.drop_first()),
    {
        let ghost before = self.iter@;
        match self.iter.next() {
            Some(v) => {
                proof {
                    assert(wrapped_values(before.drop_first(), self.limit as int) =~= wrapped_values(
                        before,
                        self.limit as int,
                    ).drop_first());
                }
                Some(v % self.limit)
            },
            None => None,
        }
    }
}

/// An iterator over the index offsets of one surface axis.
pub enum AxisIter {
    /// Offsets without wrap-around.
    Plain(DirectedRange),
    /// Offsets with wrap-around at the axis limit.
    Wrapped(Modularizer),
}

impl View for AxisIter {
    type V = Seq<int>;

    closed spec fn view(&self) -> Seq<int> {
        match self {
            AxisIter::Plain(r) => r@,
            AxisIter::Wrapped(m) => m@,
        }
    }
}

impl AxisIter {
    /// The iterator can produce its values (a wrapping iterator has a non-zero limit).
    pub closed spec fn can_yield(&self) -> bool {
        match self {
            AxisIter::Plain(_) => true,
            AxisIter::Wrapped(m) => m.spec_limit() > 0,
        }
    }

    /// Yields the next offset.
    pub fn next(&mut self) -> (r: Option<usize>)
        requires
            old(self).can_yield(),
        ensures
            final(self).can_yield(),
            old(self)@.len() == 0 ==> r is None && final(self)@ == old(self)@,
            old(self)@.len() > 0 ==> (r matches Some(v) && v as int == old(self)@[0] 
                && final(self)@ == old(self)@.drop_first()),
    {
        match self {
            AxisIter::Plain(r) => r.next(),
            AxisIter::Wrapped(m) => m.next(),
        }
    }
}

/// A factory for the iterators over the index offsets of a surface axis (X or Y).
pub trait SurfaceAxisIterFactory {
    /// The factory creates an iterator for these bounds.
    spec fn spec_accepts(min: int, max: int, limit: int) -> bool;

    /// The offsets that a created iterator yields.
    spec fn spec_values(min: int, max: int, limit: int) -> Seq<int>;

    /// The description of the error for bounds that the factory refuses.
    spec fn spec_error(min: int, max: int, limit: int) -> Seq<char>;

    /// Creates a new iterator.
    ///
    /// # Parameters
    /// * `min`: The minimal value (inclusive).
    /// * `max`: The maximal value (inclusive).
    /// * `limit`: The natural limit for indices on this axis (exclusive).
    fn new_iter(min: usize, max: usize, limit: usize) -> (r: Result<AxisIter, String>)
        ensures
            r is Ok <==> Self::spec_accepts(min as int, max as int, limit as int),
            r matches Ok(it) ==> it@ == Self::spec_values(min as int, max as int, limit as int) && (
            limit > 0 ==> it.can_yield()),
            r matches Err(e) ==> e@ == Self::spec_error(min as int, max as int, limit as int),
    ;
}

/// Ascending iteration without a bounds check.
pub struct AscendingUnchecked;

impl SurfaceAxisIterFactory for AscendingUnchecked {
    open spec fn spec_accepts(min: int, max: int, limit: int) -> bool {
        min < max
    }

    open spec fn spec_values(min: int, max: int, limit: int) -> Seq<int> {
        ascending_values(min, max)
    }

    open spec fn spec_error(min: int, max: int, limit: int) -> Seq<char> {
        min_max_message(min, max)->0
    }

    fn new_iter(min: usize, max: usize, limit: usize) -> (r: Result<AxisIter, String>) {
        check_min_max(min, max)?;
        Ok(AxisIter::Plain(DirectedRange::ascending(min, max)))
    }
}

/// Descending iteration without a bounds check.
pub struct DescendingUnchecked;

impl SurfaceAxisIterFactory for DescendingUnchecked {
    open spec fn spec_accepts(min: int, max: int, limit: int) -> bool {
        min < max
    }

    open spec fn spec_values(min: int, max: int, limit: int) -> Seq<int> {
        descending_values(min, max)
    }

    open spec fn spec_error(min: int, max: int, limit: int) -> Seq<char> {
        min_max_message(min, max)->0
    }

    fn new_iter(min: usize, max: usize, limit: usize) -> (r: Result<AxisIter, String>) {
        check_min_max(min, max)?;
        check_min_max(min, max)?;
        Ok(AxisIter::Plain(DirectedRange::descending(min, max)))
    }
}

/// Ascending iteration; the maximum must lie below the limit.
pub struct Ascending;

impl SurfaceAxisIterFactory for Ascending {
    open spec fn spec_accepts(min: int, max: int, limit: int) -> bool {
        max < limit && min < max
    }

    open spec fn spec_values(min: int, max: int, limit: int) -> Seq<int> {
        ascending_values(min, max)
    }

    open spec fn spec_error(min: int, max: int, limit: int) -> Seq<char> {
        if max >= limit {
            "Max is out of bounds."@
        } else {
            min_max_message(min, max)->0
        }
    }

    fn new_iter(min: usize, max: usize, limit: usize) -> (r: Result<AxisIter, String>) {
        check_limit(max, limit)?;
        AscendingUnchecked::new_iter(min, max, limit)
    }
}

/// Descending iteration; the maximum must lie below the limit.
pub struct Descending;

impl SurfaceAxisIterFactory for Descending {
    open spec fn spec_accepts(min: int, max: int, limit: int) -> bool {
        max < limit && min < max
    }

    open spec fn spec_values(min: int, max: int, limit: int) -> Seq<int> {
        descending_values(min, max)
    }

    open spec fn spec_error(min: int, max: int, limit: int) -> Seq<char> {
        if max >= limit {
            "Max is out of bounds."@
        } else {
            min_max_message(min, max)->0
        }
    }

    fn new_iter(min: usize, max: usize, limit: usize) -> (r: Result<AxisIter, String>) {
        check_limit(max, limit)?;
        DescendingUnchecked::new_iter(min, max, limit)
    }
}

/// Ascending iteration that wraps around at the limit.
pub struct AscendingWrap;

impl SurfaceAxisIterFactory for AscendingWrap {
    open spec fn spec_accepts(min: int, max: int, limit: int) -> bool {
        min < max
    }

    open spec fn spec_values(min: int, max: int, limit: int) -> Seq<int> {
        wrapped_values(ascending_values(min, max), limit)
    }

    open spec fn spec_error(min: int, max: int, limit: int) -> Seq<char> {
        min_max_message(min, max)->0
    }

    fn new_iter(min: usize, max: usize, limit: usize) -> (r: Result<AxisIter, String>) {
        check_min_max(min, max)?;
        Ok(AxisIter::Wrapped(Modularizer::new(DirectedRange::ascending(min, max), limit)))
    }
}

/// Descending iteration that wraps around at the limit.
pub struct DescendingWrap;

impl SurfaceAxisIterFactory for DescendingWrap {
    open spec fn spec_accepts(min: int, max: int, limit: int) -> bool {
        min < max
    }

    open spec fn spec_values(min: int, max: int, limit: int) -> Seq<int> {
        wrapped_values(descending_values(min, max), limit)
    }

    open spec fn spec_error(min: int, max: int, limit: int) -> Seq<char> {
        min_max_message(min, max)->0
    }

    fn new_iter(min: usize, max: usize, limit: usize) -> (r: Result<AxisIter, String>) {
        check_min_max(min, max)?;
        check_min_max(min, max)?;
        Ok(AxisIter::Wrapped(Modularizer::new(DirectedRange::descending(min, max), limit)))
    }
}

/// The kinds of axis iteration: direction, and whether offsets wrap around at the axis limit.
#[derive(Copy, Clone, Debug, PartialEq, Eq)]
pub enum AxisKind {
    /// See [`Ascending`].
    Ascending,
    /// See [`Descending`].
    Descending,
    /// See [`AscendingWrap`].
    AscendingWrap,
    /// See [`DescendingWrap`].
    DescendingWrap,
}

/// The factory of the given kind accepts the bounds.
pub open spec fn kind_accepts(kind: AxisKind, min: int, max: int, limit: int) -> bool {
    match kind {
        AxisKind::Ascending => Ascending::spec_accepts(min, max, limit),
        AxisKind::Descending => Descending::spec_accepts(min, max, limit),
        AxisKind::AscendingWrap => AscendingWrap::spec_accepts(min, max, limit),
        AxisKind::DescendingWrap => DescendingWrap::spec_accepts(min, max, limit),
    }
}

/// The offsets that an iterator of the given kind yields.
pub open spec fn kind_values(kind: AxisKind, min: int, max: int, limit: int) -> Seq<int> {
    match kind {
        AxisKind::Ascending => Ascending::spec_values(min, max, limit),
        AxisKind::Descending => Descending::spec_values(min, max, limit),
        AxisKind::AscendingWrap => AscendingWrap::spec_values(min, max, limit),
        AxisKind::DescendingWrap => DescendingWrap::spec_values(min, max, limit),
    }
}

/// The error that the factory of the given kind reports.
pub open spec fn kind_error(kind: AxisKind, min: int, max: int, limit: int) -> Seq<char> {
    match kind {
        AxisKind::Ascending => Ascending::spec_error(min, max, limit),
        AxisKind::Descending => Descending::spec_error(min, max, limit),
        AxisKind::AscendingWrap => AscendingWrap::spec_error(min, max, limit),
        AxisKind::DescendingWrap => DescendingWrap::spec_error(min, max, limit),
    }
}

/// Creates an axis iterator with the factory of the given kind.
pub fn new_axis_iter(kind: AxisKind, min: usize, max: usize, limit: usize) -> (r: Result<
    AxisIter,
    String,
>)
    ensures
        r is Ok <==> kind_accepts(kind, min as int, max as int, limit as int),
        r matches Ok(it) ==> it@ == kind_values(kind, min as int, max as int, limit as int) && (
        limit > 0 ==> it.can_yield()),
        r matches Err(e) ==> e@ == kind_error(kind, min as int, max as int, limit as int),
{
    match kind {
        AxisKind::Ascending => Ascending::new_iter(min, max, limit),
        AxisKind::Descending => Descending::new_iter(min, max, limit),
        AxisKind::AscendingWrap => AscendingWrap::new_iter(min, max, limit),
        AxisKind::DescendingWrap => DescendingWrap::new_iter(min, max, limit),
    }
}

/// The axis iterators visit the bounds in the order their kinds name: the ascending kinds give
/// `min, min + 1, ..., max`, the descending kinds give `max, max - 1, ..., min`, each value taken
/// modulo the limit by the wrapping kinds; a descending kind visits the values of the matching
/// ascending kind in reverse.
pub proof fn lemma_axis_kind_orders(min: int, max: int, limit: int)
    requires
        0 <= min <= max,
        limit > 0,
    ensures
        AscendingUnchecked::spec_values(min, max, limit).len() == max - min + 1,
        DescendingUnchecked::spec_values(min, max, limit).len() == max - min + 1,
        forall|kind: AxisKind| #[trigger] kind_values(kind, min, max, limit).len() == max - min + 1,
        forall|i: int|
            0 <= i <= max - min ==> {
                &&& #[trigger] AscendingUnchecked::spec_values(min, max, limit)[i] == min + i
                &&& DescendingUnchecked::spec_values(min, max, limit)[i] == max - i
                &&& kind_values(AxisKind::Ascending, min, max, limit)[i] == min + i
                &&& kind_values(AxisKind::Descending, min, max, limit)[i] == max - i
                &&& kind_values(AxisKind::AscendingWrap, min, max, limit)[i] == (min + i) % limit
                &&& kind_values(AxisKind::DescendingWrap, min, max, limit)[i] == (max - i) % limit
            },
        forall|kind: AxisKind|
            #![trigger kind_values(kind, min, max, limit)]
            kind == AxisKind::Descending || kind == AxisKind::DescendingWrap ==> kind_values(
                kind,
                min,
                max,
                limit,
            ) == kind_values(
                if kind == AxisKind::Descending {
                    AxisKind::Ascending
                } else {
                    AxisKind::AscendingWrap
                },
                min,
                max,
                limit,
            ).reverse(),
{
    let asc = ascending_values(min, max);
    let desc = descending_values(min, max);
    assert(wrapped_values(desc, limit) =~= wrapped_values(asc, limit).reverse());
    assert forall|kind: AxisKind| #[trigger] kind_values(kind, min, max, limit).len() == max - min
        + 1 by {
        match kind {
            AxisKind::Ascending => {},
            AxisKind::Descending => {},
            AxisKind::AscendingWrap => {},
            AxisKind::DescendingWrap => {},
        }
    }
}

/// The row-major offsets `y * width + x`, for every `y` of `ys` in turn and, within each row, for
/// every `x` of `xs`.
pub open spec fn grid(ys: Seq<int>, xs: Seq<int>, width: int) -> Seq<int>
    decreases ys.len(),
{
    if ys.len() == 0 {
        Seq::empty()
    } else {
        xs.map_values(|x: int| ys[0] * width + x) + grid(ys.drop_first(), xs, width)
    }
}

/// All values of `s` lie in `[0, limit)`.
pub open spec fn all_below(s: Seq<int>, limit: int) -> bool {
    forall|i: int| 0 <= i < s.len() ==> 0 <= #[trigger] s[i] < limit
}

/// The text of the error for an axis whose iterator cannot be created.
pub open spec fn axis_error_text(
    axis: Seq<char>,
    min: int,
    max: int,
    limit: int,
    cause: Seq<char>,
) -> Seq<char> {
    "Could not create iterator for "@ + axis + "-axis (min: "@ + crate::text::decimal(min as nat)
        + ", max: "@ + crate::text::decimal(max as nat) + ", limit: "@ + crate::text::decimal(
        limit as nat,
    ) + "): "@ + cause
}

/// Builds the text of the error for an axis whose iterator cannot be created.
fn axis_error(axis: &str, min: usize, max: usize, limit: usize, cause: String) -> (r: String)
    ensures
        r@ == axis_error_text(axis@, min as int, max as int, limit as int, cause@),
{
    let mut out = "Could not create iterator for ".to_owned();
    out.append(axis);
    out.append("-axis (min: ");
    crate::text::push_decimal(&mut out, min as u64);
    out.append(", max: ");
    crate::text::push_decimal(&mut out, max as u64);
    out.append(", limit: ");
    crate::text::push_decimal(&mut out, limit as u64);
    out.append("): ");
    out.append(cause.as_str());
    out
}

/// `y * width + width - 1` bounds every offset of row `y` when `y < height` and the surface area
/// fits in `usize`.
proof fn lemma_row_fits(y: int, width: int, height: int)
    requires
        0 <= y < height,
        0 < width,
        width * height <= usize::MAX,
    ensures
        y * width + width - 1 <= usize::MAX,
        y * width + width <= width * height,
        0 <= y * width,
{
    assert(y * width + width <= height * width) by (nonlinear_arith)
        requires
            0 <= y < height,
            0 < width,
    ;
}

/// An iterator over the data indices of a rectangular selection in a surface, row by row.
pub struct SurfaceIter {
    width: usize,
    x_kind: AxisKind,
    x_min: usize,
    x_max: usize,
    x_iter: AxisIter,
    y_iter: AxisIter,
    row_offset: usize,
}

impl View for SurfaceIter {
    type V = Seq<int>;

    /// The indices still to be yielded.
    closed spec fn view(&self) -> Seq<int> {
        self.x_iter@.map_values(|x: int| self.row_offset + x) + grid(
            self.y_iter@,
            self.spec_xs(),
            self.width as int,
        )
    }
}

impl SurfaceIter {
    /// The X-offsets of every row.
    closed spec fn spec_xs(&self) -> Seq<int> {
        kind_values(self.x_kind, self.x_min as int, self.x_max as int, self.width as int)
    }

    /// The number of rows that have not been started yet.
    pub closed spec fn spec_rows_left(&self) -> nat {
        self.y_iter@.len()
    }

    /// The iterator's internal state is consistent.
    pub closed spec fn well_formed(&self) -> bool {
        &&& self.width > 0
        &&& kind_accepts(self.x_kind, self.x_min as int, self.x_max as int, self.width as int)
        &&& self.spec_xs().len() > 0
        &&& all_below(self.spec_xs(), self.width as int)
        &&& all_below(self.x_iter@, self.width as int)
        &&& self.x_iter.can_yield()
        &&& self.y_iter.can_yield()
        &&& self.row_offset + self.width - 1 <= usize::MAX
        &&& forall|i: int|
            0 <= i < self.y_iter@.len() ==> 0 <= #[trigger] self.y_iter@[i] && self.y_iter@[i]
                * self.width + self.width - 1 <= usize::MAX
    }

    /// Creates an iterator over the selection `rect_view` of a surface of size `size_surf`.
    ///
    /// Iteration order on each axis follows `x_kind` and `y_kind`. Surfaces without pixels, and
    /// surfaces whose area does not fit in `usize`, are excluded.
    pub fn new(
        size_surf: Size,
        rect_view: Rect,
        x_kind: AxisKind,
        y_kind: AxisKind,
    ) -> (r: Result<SurfaceIter, String>)
        requires
            size_surf.width.0 > 0,
            size_surf.height.0 > 0,
            size_surf.width.0 * size_surf.height.0 <= usize::MAX,
            kind_accepts(
                x_kind,
                rect_view.min.x.0 as int,
                rect_view.max.x.0 as int,
                size_surf.width.0 as int,
            ) ==> all_below(
                kind_values(
                    x_kind,
                    rect_view.min.x.0 as int,
                    rect_view.max.x.0 as int,
                    size_surf.width.0 as int,
                ),
                size_surf.width.0 as int,
            ),
            kind_accepts(
                y_kind,
                rect_view.min.y.0 as int,
                rect_view.max.y.0 as int,
                size_surf.height.0 as int,
            ) ==> all_below(
                kind_values(
                    y_kind,
                    rect_view.min.y.0 as int,
                    rect_view.max.y.0 as int,
                    size_surf.height.0 as int,
                ),
                size_surf.height.0 as int,
            ),
        ensures
            ({
                let (w, h) = (size_surf.width.0 as int, size_surf.height.0 as int);
                let (x0, x1) = (rect_view.min.x.0 as int, rect_view.max.x.0 as int);
                let (y0, y1) = (rect_view.min.y.0 as int, rect_view.max.y.0 as int);
                &&& r is Ok <==> kind_accepts(x_kind, x0, x1, w) && kind_accepts(y_kind, y0, y1, h)
                &&& r matches Ok(it) ==> it.well_formed() && it@ == grid(
                    kind_values(y_kind, y0, y1, h),
                    kind_values(x_kind, x0, x1, w),
                    w,
                )
                &&& r matches Err(e) ==> e@ == if !kind_accepts(x_kind, x0, x1, w) {
                    axis_error_text("X"@, x0, x1, w, kind_error(x_kind, x0, x1, w))
                } else {
                    axis_error_text("Y"@, y0, y1, h, kind_error(y_kind, y0, y1, h))
                }
            }),
    {
        let width = size_surf.width.into_usize();
        let height = size_surf.height.into_usize();
        let x_min = rect_view.min_x().into_usize();
        let x_max = rect_view.max_x().into_usize();
        let x_iter = match new_axis_iter(x_kind, x_min, x_max, width) {
            Ok(it) => it,
            Err(msg) => {
                return Err(axis_error("X", x_min, x_max, width, msg));
            },
        };
        let y_min = rect_view.min_y().into_usize();
        let y_max = rect_view.max_y().into_usize();
        let mut y_iter = match new_axis_iter(y_kind, y_min, y_max, height) {
            Ok(it) => it,
            Err(msg) => {
                return Err(axis_error("Y", y_min, y_max, height, msg));
            },
        };
        let ghost ys = y_iter@;
        let first_y = match y_iter.next() {
            Some(y) => y,
            None => {
                return Err("Expected at least one item in Y-iterator.".to_owned());
            },
        };
        proof {
            lemma_row_fits(first_y as int, width as int, height as int);
            assert forall|i: int| 0 <= i < y_iter@.len() implies 0 <= #[trigger] y_iter@[i]
                && y_iter@[i] * width + width - 1 <= usize::MAX by {
                assert(y_iter@[i] == ys[i + 1]);
                lemma_row_fits(y_iter@[i], width as int, height as int);
            }
        }
        let row_offset = first_y * width;
        let it = SurfaceIter { width, x_kind, x_min, x_max, x_iter, y_iter, row_offset };
        proof {
            assert(it@ =~= grid(ys, it.spec_xs(), width as int));
        }
        Ok(it)
    }

    /// Yields the next index.
    pub fn next(&mut self) -> (r: Option<usize>)
        requires
            old(self).well_formed(),
        ensures
            final(self).well_formed(),
            old(self)@.len() == 0 ==> r is None && final(self)@ == old(self)@,
            old(self)@.len() > 0 ==> (r matches Some(v) && v as int == old(self)@[0]
                && final(self)@ == old(self)@.drop_first()),
        decreases old(self).spec_rows_left(),
    {
        let ghost xs = self.spec_xs();
        let ghost before = self@;
        match self.x_iter.next() {
            Some(x) => {
                proof {
                    assert(self@ =~= before.drop_first());
                }
                Some(self.row_offset + x)
            },
            None => {
                let ghost ys = self.y_iter@;
                match self.y_iter.next() {
                    None => {
                        proof {
                            assert(self@ =~= before);
                        }
                        None
                    },
                    Some(y) => {
                        self.row_offset = y * self.width;
                        self.x_iter = new_axis_iter(
                            self.x_kind,
                            self.x_min,
                            self.x_max,
                            self.width,
                        ).unwrap();
                        proof {
                            assert(self@ =~= before);
                        }
                        self.next()
                    },
                }
            },
        }
    }
}

/// The offsets visited on one axis of a selection `[min, max]`: descending when `flip`, else
/// ascending, each reduced modulo the axis limit (so a selection crossing the surface edge wraps
/// around to the opposite edge).
pub open spec fn axis_offsets(min: int, max: int, flip: bool, limit: int) -> Seq<int> {
    wrapped_values(
        if flip {
            descending_values(min, max)
        } else {
            ascending_values(min, max)
        },
        limit,
    )
}

/// Reducing values that already lie below the limit changes nothing.
proof fn lemma_wrap_identity(s: Seq<int>, limit: int)
    requires
        all_below(s, limit),
    ensures
        wrapped_values(s, limit) == s,
{
    assert forall|i: int| 0 <= i < s.len() implies #[trigger] wrapped_values(s, limit)[i]
        == s[i] by {
        let v = s[i];
        assert(v % limit == v) by (nonlinear_arith)
            requires
                0 <= v < limit,
        ;
    }
    assert(wrapped_values(s, limit) =~= s);
}

/// The range `[min, max]` lies below `limit`, in either direction.
proof fn lemma_range_below(min: int, max: int, limit: int)
    requires
        0 <= min,
        max < limit,
    ensures
        all_below(ascending_values(min, max), limit),
        all_below(descending_values(min, max), limit),
{
}

/// The grid has one entry per pair of a row and a column.
pub proof fn lemma_grid_len(ys: Seq<int>, xs: Seq<int>, width: int)
    ensures
        grid(ys, xs, width).len() == ys.len() * xs.len(),
    decreases ys.len(),
{
    if ys.len() > 0 {
        lemma_grid_len(ys.drop_first(), xs, width);
        assert(ys.len() * xs.len() == xs.len() + (ys.len() - 1) * xs.len()) by (nonlinear_arith);
    }
}

/// The grid entry at position `k` lies in row `k / xs.len()` and column `k % xs.len()`.
pub proof fn lemma_grid_index(ys: Seq<int>, xs: Seq<int>, width: int, k: int)
    requires
        xs.len() > 0,
        0 <= k < ys.len() * xs.len(),
    ensures
        grid(ys, xs, width).len() == ys.len() * xs.len(),
        grid(ys, xs, width)[k] == ys[k / xs.len() as int] * width + xs[k % xs.len() as int],
    decreases ys.len(),
{
    lemma_grid_len(ys, xs, width);
    let n = xs.len() as int;
    let head = xs.map_values(|x: int| ys[0] * width + x);
    let tail = grid(ys.drop_first(), xs, width);
    assert(grid(ys, xs, width) == head + tail);
    if k < n {
        assert(k / n == 0 && k % n == k) by (nonlinear_arith)
            requires
                0 <= k < n,
        ;
        assert(grid(ys, xs, width)[k] == head[k]);
    } else {
        assert(grid(ys, xs, width)[k] == tail[k - n]);
        assert(ys.len() * n == n + (ys.len() - 1) * n) by (nonlinear_arith);
        lemma_grid_len(ys.drop_first(), xs, width);
        lemma_grid_index(ys.drop_first(), xs, width, k - n);
        assert((k - n) / n == k / n - 1 && (k - n) % n == k % n) by (nonlinear_arith)
            requires
                n <= k,
                0 < n,
        ;
        let m = ys.len() as int;
        assert(1 <= k / n < m) by (nonlinear_arith)
            requires
                n <= k < m * n,
                0 < n,
        ;
        assert(ys.drop_first()[(k - n) / n] == ys[k / n]);
    }
}

/// Offsets `0..n` of a whole axis, ascending or (flipped) descending.
proof fn lemma_axis_full(n: int, flip: bool)
    requires
        n > 0,
    ensures
        axis_offsets(0, n - 1, flip, n).len() == n,
        forall|i: int|
            0 <= i < n ==> #[trigger] axis_offsets(0, n - 1, flip, n)[i] == if flip {
                n - 1 - i
            } else {
                i
            },
{
    lemma_range_below(0, n - 1, n);
    if flip {
        lemma_wrap_identity(descending_values(0, n - 1), n);
    } else {
        lemma_wrap_identity(ascending_values(0, n - 1), n);
    }
}

/// Visiting a whole surface, flipped on either axis or not, visits every pixel exactly once: the
/// visited indices are the indices `0 .. width * height`, each of them once.
pub proof fn lemma_whole_surface_visited_once(width: int, height: int, hflip: bool, vflip: bool)
    requires
        width > 0,
        height > 0,
    ensures
        ({
            let visited = grid(
                axis_offsets(0, height - 1, vflip, height),
                axis_offsets(0, width - 1, hflip, width),
                width,
            );
            &&& visited.len() == width * height
            &&& forall|k: int| 0 <= k < visited.len() ==> 0 <= #[trigger] visited[k] < width * height
            &&& forall|j: int, k: int|
                0 <= j < k < visited.len() ==> #[trigger] visited[j] != #[trigger] visited[k]
            &&& forall|i: int| 0 <= i < width * height ==> #[trigger] visited.contains(i)
        }),
{
    let ys = axis_offsets(0, height - 1, vflip, height);
    let xs = axis_offsets(0, width - 1, hflip, width);
    let visited = grid(ys, xs, width);
    lemma_axis_full(height, vflip);
    lemma_axis_full(width, hflip);
    lemma_grid_len(ys, xs, width);
    assert(height * width == width * height) by (nonlinear_arith);
    // Each position `k` visits row `ys[k / width]` and column `xs[k % width]`.
    assert forall|k: int| 0 <= k < visited.len() implies {
        &&& 0 <= k / width < height
        &&& 0 <= k % width < width
        &&& #[trigger] visited[k] == ys[k / width] * width + xs[k % width]
        &&& 0 <= visited[k] < width * height
        &&& visited[k] / width == ys[k / width]
        &&& visited[k] % width == xs[k % width]
    } by {
        lemma_grid_index(ys, xs, width, k);
        lemma_fundamental_div_mod(k, width);
        assert(0 <= k / width < height) by (nonlinear_arith)
            requires
                0 <= k < height * width,
                width > 0,
                k == width * (k / width) + k % width,
                0 <= k % width < width,
        ;
        let (r, c) = (ys[k / width], xs[k % width]);
        assert(0 <= r * width + c < width * height) by (nonlinear_arith)
            requires
                0 <= r < height,
                0 <= c < width,
        ;
        lemma_fundamental_div_mod_converse(r * width + c, width, r, c);
    }
    assert forall|j: int, k: int|
        0 <= j < k < visited.len() implies #[trigger] visited[j] != #[trigger] visited[k] by {
        if visited[j] == visited[k] {
            lemma_fundamental_div_mod(j, width);
            lemma_fundamental_div_mod(k, width);
            assert(j / width == k / width);
            assert(j % width == k % width);
        }
    }
    assert forall|i: int| 0 <= i < width * height implies #[trigger] visited.contains(i) by {
        lemma_fundamental_div_mod(i, width);
        let (r0, c0) = (i / width, i % width);
        assert(0 <= r0 < height) by (nonlinear_arith)
            requires
                0 <= i < width * height,
                width > 0,
                i == width * r0 + c0,
                0 <= c0 < width,
        ;
        let r = if vflip {
            height - 1 - r0
        } else {
            r0
        };
        let c = if hflip {
            width - 1 - c0
        } else {
            c0
        };
        let k = r * width + c;
        assert(0 <= k < width * height) by (nonlinear_arith)
            requires
                0 <= r < height,
                0 <= c < width,
                k == r * width + c,
        ;
        lemma_fundamental_div_mod_converse(k, width, r, c);
        assert(visited[k] == ys[r] * width + xs[c]);
        assert(r0 * width == width * r0) by (nonlinear_arith);
        assert(visited[k] == i);
    }
}

/// The offsets visited on one axis of the selection `[min, max]`, as [`axis_offsets`] lists them.
fn axis_offset_list(min: u32, max: u32, flip: bool, limit: u32) -> (r: Vec<usize>)
    requires
        min <= max,
        limit > 0,
    ensures
        r@.len() == max - min + 1,
        r@.len() == axis_offsets(min as int, max as int, flip, limit as int).len(),
        forall|i: int|
            0 <= i < r@.len() ==> #[trigger] r@[i] as int == axis_offsets(
                min as int,
                max as int,
                flip,
                limit as int,
            )[i] && r@[i] < limit,
{
    let ghost offsets = axis_offsets(min as int, max as int, flip, limit as int);
    let count: u64 = (max - min) as u64 + 1;
    let mut out: Vec<usize> = Vec::new();
    let mut i: u64 = 0;
    while i < count
        invariant
            count == max - min + 1,
            offsets == axis_offsets(min as int, max as int, flip, limit as int),
            offsets.len() == count,
            limit > 0,
            i <= count,
            out@.len() == i,
            forall|j: int|
                0 <= j < i ==> #[trigger] out@[j] as int == offsets[j] && out@[j] < limit,
        decreases count - i,
    {
        let v: u64 = if flip {
            max as u64 - i
        } else {
            min as u64 + i
        };
        let o: u64 = v % (limit as u64);
        proof {
            let plain = if flip {
                descending_values(min as int, max as int)
            } else {
                ascending_values(min as int, max as int)
            };
            assert(plain[i as int] == v);
            assert(offsets[i as int] == o);
        }
        out.push(o as usize);
        i = i + 1;
    }
    out
}

/// The message for a selection of the first surface that lies entirely beyond one of its bounds.
pub open spec fn first_selection_outside_message() -> Seq<char> {
    "The selection lies entirely outside the first surface."@
}

/// The message for a selection of the second surface that lies entirely beyond one of its bounds.
pub open spec fn second_selection_outside_message() -> Seq<char> {
    "The selection lies entirely outside the second surface."@
}

/// Pairs up the data indices of a selection in one surface with those of an equally sized
/// selection in another surface, in visiting order.
///
/// # Parameters
/// * `a_surf_size`: The size of the first surface.
/// * `a_select_rect`: The selection rectangle in the first surface.
/// * `b_surf_size`: The size of the second surface.
/// * `b_select_origin`: The origin of the selection rectangle in the second surface.
/// * `hflip`: Visit the columns of the first selection from right to left.
/// * `vflip`: Visit the rows of the first selection from bottom to top.
///
/// A selection that crosses the edge of its surface wraps around to the opposite edge. The
/// result lists `(a_index, b_index)` for every pixel of the selection, whatever its size; it is
/// an error only for a selection that lies entirely beyond a bound of its surface.
pub fn surface_iterate_2(
    a_surf_size: Size,
    a_select_rect: Rect,
    b_surf_size: Size,
    b_select_origin: Point,
    hflip: bool,
    vflip: bool,
) -> (r: Result<Vec<(usize, usize)>, String>)
    requires
        a_surf_size.width.0 > 0,
        a_surf_size.height.0 > 0,
        a_surf_size.width.0 * a_surf_size.height.0 <= usize::MAX,
        b_surf_size.width.0 > 0,
        b_surf_size.height.0 > 0,
        b_surf_size.width.0 * b_surf_size.height.0 <= usize::MAX,
        a_select_rect.is_proper(),
        a_select_rect.spec_width() <= u32::MAX,
        a_select_rect.spec_height() <= u32::MAX,
        a_select_rect.spec_width() * a_select_rect.spec_height() <= usize::MAX,
        b_select_origin.x.0 + a_select_rect.spec_width() <= u32::MAX,
        b_select_origin.y.0 + a_select_rect.spec_height() <= u32::MAX,
    ensures
        ({
            let (aw, ah) = (a_surf_size.width.0 as int, a_surf_size.height.0 as int);
            let (bw, bh) = (b_surf_size.width.0 as int, b_surf_size.height.0 as int);
            let a = a_select_rect;
            let (cols, rows) = (a.spec_width(), a.spec_height());
            let (bx, by) = (b_select_origin.x.0 as int, b_select_origin.y.0 as int);
            let src = grid(
                axis_offsets(a.min.y.0 as int, a.max.y.0 as int, vflip, ah),
                axis_offsets(a.min.x.0 as int, a.max.x.0 as int, hflip, aw),
                aw,
            );
            let dest = grid(
                axis_offsets(by, by + rows - 1, false, bh),
                axis_offsets(bx, bx + cols - 1, false, bw),
                bw,
            );
            let a_outside = a.min.x.0 >= aw || a.min.y.0 >= ah;
            let b_outside = bx >= bw || by >= bh;
            &&& r is Ok <==> !a_outside && !b_outside
            &&& r matches Ok(pairs) ==> {
                &&& pairs@.len() == cols * rows
                &&& src.len() == cols * rows
                &&& dest.len() == cols * rows
                &&& forall|k: int|
                    0 <= k < pairs@.len() ==> (#[trigger] pairs@[k]).0 == src[k] && pairs@[k].1
                        == dest[k] && pairs@[k].0 < aw * ah && pairs@[k].1 < bw * bh
            }
            &&& r matches Err(e) ==> e@ == if a_outside {
                first_selection_outside_message()
            } else {
                second_selection_outside_message()
            }
        }),
{
    let (aw, ah) = (a_surf_size.width.0, a_surf_size.height.0);
    let (bw, bh) = (b_surf_size.width.0, b_surf_size.height.0);
    let (ax0, ax1) = (a_select_rect.min_x().0, a_select_rect.max_x().0);
    let (ay0, ay1) = (a_select_rect.min_y().0, a_select_rect.max_y().0);
    let (bx, by) = (b_select_origin.x.0, b_select_origin.y.0);
    if ax0 >= aw || ay0 >= ah {
        return Err("The selection lies entirely outside the first surface.".to_owned());
    }
    if bx >= bw || by >= bh {
        return Err("The selection lies entirely outside the second surface.".to_owned());
    }
    let cols: u32 = ax1 - ax0 + 1;
    let rows: u32 = ay1 - ay0 + 1;
    let src_xs = axis_offset_list(ax0, ax1, hflip, aw);
    let src_ys = axis_offset_list(ay0, ay1, vflip, ah);
    let dest_xs = axis_offset_list(bx, bx + cols - 1, false, bw);
    let dest_ys = axis_offset_list(by, by + rows - 1, false, bh);

    let ghost sxs = axis_offsets(ax0 as int, ax1 as int, hflip, aw as int);
    let ghost sys = axis_offsets(ay0 as int, ay1 as int, vflip, ah as int);
    let ghost dxs = axis_offsets(bx as int, bx + cols - 1, false, bw as int);
    let ghost dys = axis_offsets(by as int, by + rows - 1, false, bh as int);
    let ghost src = grid(sys, sxs, aw as int);
    let ghost dest = grid(dys, dxs, bw as int);
    proof {
        lemma_grid_len(sys, sxs, aw as int);
        lemma_grid_len(dys, dxs, bw as int);
        assert(rows * cols == cols * rows) by (nonlinear_arith);
    }

    let c = cols as usize;
    let n: usize = c * (rows as usize);
    let (aw_u, bw_u) = (aw as usize, bw as usize);
    let mut pairs: Vec<(usize, usize)> = Vec::new();
    let mut k: usize = 0;
    while k < n
        invariant
            n == cols * rows,
            c == cols,
            c > 0,
            aw_u == aw,
            bw_u == bw,
            aw * ah <= usize::MAX,
            bw * bh <= usize::MAX,
            src_xs@.len() == cols && src_ys@.len() == rows,
            dest_xs@.len() == cols && dest_ys@.len() == rows,
            sxs.len() == cols && sys.len() == rows && dxs.len() == cols && dys.len() == rows,
            forall|i: int|
                0 <= i < cols ==> #[trigger] src_xs@[i] as int == sxs[i] && src_xs@[i] < aw,
            forall|i: int|
                0 <= i < rows ==> #[trigger] src_ys@[i] as int == sys[i] && src_ys@[i] < ah,
            forall|i: int|
                0 <= i < cols ==> #[trigger] dest_xs@[i] as int == dxs[i] && dest_xs@[i] < bw,
            forall|i: int|
                0 <= i < rows ==> #[trigger] dest_ys@[i] as int == dys[i] && dest_ys@[i] < bh,
            src == grid(sys, sxs, aw as int),
            dest == grid(dys, dxs, bw as int),
            k <= n,
            pairs@.len() == k,
            forall|j: int|
                0 <= j < k ==> (#[trigger] pairs@[j]).0 == src[j] && pairs@[j].1 == dest[j]
                    && pairs@[j].0 < aw * ah && pairs@[j].1 < bw * bh,
        decreases n - k,
    {
        let row = k / c;
        let col = k % c;
        proof {
            assert(row < rows) by (nonlinear_arith)
                requires
                    row == k / c,
                    k < cols * rows,
                    c == cols,
                    c > 0,
            ;
            lemma_grid_index(sys, sxs, aw as int, k as int);
            lemma_grid_index(dys, dxs, bw as int, k as int);
        }
        let (sy, sx) = (src_ys[row], src_xs[col]);
        let (dy, dx) = (dest_ys[row], dest_xs[col]);
        proof {
            assert(sy * aw + sx < aw * ah) by (nonlinear_arith)
                requires
                    sy < ah,
                    sx < aw,
            ;
            assert(dy * bw + dx < bw * bh) by (nonlinear_arith)
                requires
                    dy < bh,
                    dx < bw,
            ;
        }
        pairs.push((sy * aw_u + sx, dy * bw_u + dx));
        k = k + 1;
    }
    Ok(pairs)
}

/// The data index of `position` in a row-major surface of the given size, if the position lies
/// inside the surface.
pub open spec fn spec_index(size: Size, position: Point) -> Option<usize> {
    if position.x.0 < size.width.0 && position.y.0 < size.height.0 {
        Some((position.y.0 * size.width.0 + position.x.0) as usize)
    } else {
        None
    }
}

/// Computes the data index of `position` in a row-major surface of the given size.
pub fn index_in(size: Size, position: Point) -> (r: Option<usize>)
    requires
        size.width.0 * size.height.0 <= usize::MAX,
    ensures
        r == spec_index(size, position),
        r matches Some(i) ==> i < size.width.0 * size.height.0,
{
    if position.x.0 < size.width.0 && position.y.0 < size.height.0 {
        proof {
            lemma_row_fits(position.y.0 as int, size.width.0 as int, size.height.0 as int);
        }
        Some(position.y.0 as usize * size.width.0 as usize + position.x.0 as usize)
    } else {
        None
    }
}

/// A 2-dimensional surface: a row-major buffer of pixels.
pub trait Surface {
    type DataType;

    /// The size of the surface.
    spec fn spec_size(&self) -> Size;

    /// The pixels, row by row.
    spec fn spec_data(&self) -> Seq<Self::DataType>;

    /// The size.
    fn size(&self) -> (r: Size)
        ensures
            r == self.spec_size(),
    ;

    /// Retrieves a slice of the raw data.
    fn data(&self) -> (r: &[Self::DataType])
        ensures
            r@ == self.spec_data(),
    ;

    /// Retrieves a mutable slice of the raw data.
    fn data_mut(&mut self) -> (r: &mut [Self::DataType])
        ensures
            r@ == old(self).spec_data(),
            final(self).spec_data() == final(r)@,
            final(self).spec_size() == old(self).spec_size(),
    ;

    /// Retrieves the index into the data for the provided position, or `None` if the position
    /// lies outside of the surface.
    fn index(&self, position: Point) -> (r: Option<usize>)
        requires
            self.spec_size().width.0 * self.spec_size().height.0 <= usize::MAX,
        ensures
            r == spec_index(self.spec_size(), position),
    ;

    /// Retrieves a view of the surface.
    ///
    /// The area must lie inside the surface.
    fn view(&self, area: Rect) -> (r: SurfaceView)
        requires
            area.max.x.0 < self.spec_size().width.0,
            area.max.y.0 < self.spec_size().height.0,
        ensures
            r.spec_surface_width() == self.spec_size().width.0,
            r.spec_area() == area,
    {
        SurfaceView::new(self.size(), area)
    }

    /// Retrieves the data of a row.
    fn row_data(&self, row: &SurfaceRow) -> (r: &[Self::DataType])
        requires
            row.spec_indices().start <= row.spec_indices().end <= self.spec_data().len(),
        ensures
            r@ == self.spec_data().subrange(
                row.spec_indices().start as int,
                row.spec_indices().end as int,
            ),
    {
        let indices = row.indices();
        let data = self.data();
        slice_subrange(data, indices.start, indices.end)
    }

    /// Retrieves a reference to the pixel at the provided position, or `None` if the position lies
    /// outside of the surface.
    fn pixel(&self, position: Point) -> (r: Option<&Self::DataType>)
        requires
            self.spec_size().width.0 * self.spec_size().height.0 <= usize::MAX,
            self.spec_data().len() == self.spec_size().width.0 * self.spec_size().height.0,
        ensures
            spec_index(self.spec_size(), position) is None ==> r is None,
            spec_index(self.spec_size(), position) matches Some(i) ==> r == Some(
                &self.spec_data()[i as int],
            ),
    {
        match self.index(position) {
            Some(i) => {
                proof {
                    lemma_row_fits(
                        position.y.0 as int,
                        self.spec_size().width.0 as int,
                        self.spec_size().height.0 as int,
                    );
                }
                Some(&self.data()[i])
            },
            None => None,
        }
    }

    /// Retrieves a mutable reference to the pixel at the provided position, or `None` if the
    /// position lies outside of the surface.
    fn pixel_mut(&mut self, position: Point) -> (r: Option<&mut Self::DataType>)
        requires
            old(self).spec_size().width.0 * old(self).spec_size().height.0 <= usize::MAX,
            old(self).spec_data().len() == old(self).spec_size().width.0 * old(self).spec_size().height.0,
        ensures
            final(self).spec_size() == old(self).spec_size(),
            spec_index(old(self).spec_size(), position) is None ==> r is None
                && final(self).spec_data() == old(self).spec_data(),
            spec_index(old(self).spec_size(), position) matches Some(i) ==> (r matches Some(v)
                && *v == old(self).spec_data()[i as int]
                && final(self).spec_data() == old(self).spec_data().update(i as int, *final(v))),
    {
        match self.index(position) {
            Some(i) => {
                proof {
                    lemma_row_fits(
                        position.y.0 as int,
                        old(self).spec_size().width.0 as int,
                        old(self).spec_size().height.0 as int,
                    );
                }
                let data = self.data_mut();
                Some(&mut data[i])
            },
            None => None,
        }
    }
}

/// The elements `start..end` of a slice.
pub(crate) fn slice_subrange<T>(data: &[T], start: usize, end: usize) -> (r: &[T])
    requires
        start <= end <= data@.len(),
    ensures
        r@ == data@.subrange(start as int, end as int),
{
    &data[start..end]
}

/// A row inside a [`Surface`]: the range of data indices it covers.
#[derive(Debug, PartialEq, Eq)]
pub struct SurfaceRow {
    indices: core::ops::Range<usize>,
}

impl SurfaceRow {
    /// The covered data indices.
    pub closed spec fn spec_indices(&self) -> core::ops::Range<usize> {
        self.indices
    }

    /// Creates a new instance.
    pub fn new(indices: core::ops::Range<usize>) -> (r: SurfaceRow)
        ensures
            r.spec_indices() == indices,
    {
        SurfaceRow { indices }
    }

    /// The covered data indices.
    pub fn indices(&self) -> (r: &core::ops::Range<usize>)
        ensures
            *r == self.spec_indices(),
    {
        &self.indices
    }
}

/// A view into a [`Surface`]: an area that lies inside a surface of a known width.
///
/// A view does not refer to the surface it originates from; applying it to another surface is
/// up to the caller.
pub struct SurfaceView {
    surface_width: ArtworkSpaceUnit,
    area: Rect,
}

impl SurfaceView {
    /// The width of the surface the view was made for.
    pub closed spec fn spec_surface_width(&self) -> u32 {
        self.surface_width.0
    }

    /// The viewed area.
    pub closed spec fn spec_area(&self) -> Rect {
        self.area
    }

    /// Creates a view of `area` inside a surface of the given size.
    ///
    /// The area must lie inside the surface.
    pub fn new(size: Size, area: Rect) -> (r: SurfaceView)
        requires
            area.max.x.0 < size.width.0,
            area.max.y.0 < size.height.0,
        ensures
            r.spec_surface_width() == size.width.0,
            r.spec_area() == area,
    {
        SurfaceView { surface_width: size.width, area }
    }

    /// Creates an iterator over the rows of the view.
    ///
    /// The view's area must be proper, and the data indices of a surface of its height must fit in
    /// `usize`.
    pub fn row_iter(&self) -> (r: SurfaceRowIter)
        requires
            self.spec_area().is_proper(),
            self.spec_surface_width() * (self.spec_area().max.y.0 + 1) + self.spec_surface_width()
                <= usize::MAX,
            self.spec_area().max.x.0 < self.spec_surface_width(),
            self.spec_area().spec_height() <= u32::MAX,
        ensures
            r.well_formed(),
            r@ == row_starts(
                self.spec_surface_width() * self.spec_area().min.y.0 + self.spec_area().min.x.0,
                self.spec_area().spec_height(),
                self.spec_surface_width() as int,
            ),
            r.spec_row_width() == self.spec_area().spec_width(),
    {
        SurfaceRowIter::new(self.surface_width, &self.area)
    }
}

/// The first data index of each of `count` rows, `stride` apart, starting at `start`.
pub open spec fn row_starts(start: int, count: int, stride: int) -> Seq<int> {
    Seq::new(if count < 0 { 0 } else { count as nat }, |k: int| start + k * stride)
}

/// An iterator over the [`SurfaceRow`]s of a view.
#[derive(Debug, Copy, Clone, PartialEq)]
pub struct SurfaceRowIter {
    /// The width of the surface the rows belong to.
    surface_width: usize,
    /// The width of an output row (normally the width of the view).
    row_width: usize,
    /// The start offset in the surface data.
    start_offset: usize,
    /// The end offset in the surface data.
    end_offset: usize,
    /// The current offset.
    offset: usize,
}

impl View for SurfaceRowIter {
    type V = Seq<int>;

    /// The first data index of every row still to be yielded.
    closed spec fn view(&self) -> Seq<int> {
        row_starts(self.offset as int, self.spec_rows_left(), self.surface_width as int)
    }
}

impl SurfaceRowIter {
    /// The number of rows still to be yielded.
    closed spec fn spec_rows_left(&self) -> int {
        if self.offset > self.end_offset {
            0
        } else {
            (self.end_offset - self.offset) / (self.surface_width as int) + 1
        }
    }

    /// The number of data indices in each row.
    pub closed spec fn spec_row_width(&self) -> int {
        self.row_width as int
    }

    /// The iterator's internal state is consistent.
    pub closed spec fn well_formed(&self) -> bool {
        &&& self.surface_width > 0
        &&& self.offset <= self.end_offset + self.surface_width
        &&& self.end_offset + self.surface_width + self.row_width <= usize::MAX
        &&& self.offset <= self.end_offset ==> (self.end_offset - self.offset) % (
        self.surface_width as int) == 0
    }

    /// Creates an iterator over the rows of `area` in a surface of width `surface_width`.
    ///
    /// A surface without columns would never finish; it is excluded, as are areas whose data
    /// indices do not fit in `usize`.
    pub fn new(surface_width: ArtworkSpaceUnit, area: &Rect) -> (r: SurfaceRowIter)
        requires
            surface_width.0 > 0,
            area.is_proper(),
            surface_width.0 * (area.max.y.0 + 1) + surface_width.0 <= usize::MAX,
            area.max.x.0 < surface_width.0,
            area.spec_height() <= u32::MAX,
        ensures
            r.well_formed(),
            r@ == row_starts(
                surface_width.0 * area.min.y.0 + area.min.x.0,
                area.spec_height(),
                surface_width.0 as int,
            ),
            r.spec_row_width() == area.spec_width(),
    {
        let sw = surface_width.into_usize();
        let min_y = area.min_y().into_usize();
        let min_x = area.min.x.into_usize();
        let h = area.height().into_usize();
        let ghost max_y = area.max.y.0 as int;
        proof {
            assert(sw * min_y + sw * (h - 1) == sw * max_y) by (nonlinear_arith)
                requires
                    h == max_y - min_y + 1,
            ;
            assert(sw * min_y <= sw * max_y && sw * max_y + sw == sw * (max_y + 1)) by (
            nonlinear_arith)
                requires
                    min_y <= max_y,
                    sw >= 0,
            ;
            assert(sw * (h - 1) >= 0) by (nonlinear_arith)
                requires
                    h >= 1,
                    sw >= 0,
            ;
        }
        let start_offset = sw * min_y + min_x;
        let end_offset = start_offset + sw * (h - 1);
        let row_width = area.width().into_usize();
        let r = SurfaceRowIter { surface_width: sw, row_width, start_offset, end_offset, offset: start_offset };
        proof {
            assert((sw * (h - 1)) % (sw as int) == 0 && (sw * (h - 1)) / (sw as int) == h - 1) by (
            nonlinear_arith)
                requires
                    sw > 0,
                    h >= 1,
            ;
            assert(r@ =~= row_starts(sw * min_y + min_x, h as int, sw as int));
        }
        r
    }

    /// Yields the next row.
    pub fn next(&mut self) -> (r: Option<SurfaceRow>)
        requires
            old(self).well_formed(),
        ensures
            final(self).well_formed(),
            final(self).spec_row_width() == old(self).spec_row_width(),
            old(self)@.len() == 0 ==> r is None && final(self)@ == old(self)@,
            old(self)@.len() > 0 ==> (r matches Some(row) && row.spec_indices().start == old(self)@[0]
                && row.spec_indices().end == old(self)@[0] + old(self).spec_row_width() && final(self)@
                == old(self)@.drop_first()),
    {
        if self.offset > self.end_offset {
            return None;
        }
        let ghost before = self@;
        let ghost d = (self.end_offset - self.offset) as int;
        let ghost sw = self.surface_width as int;
        let range = self.offset..self.offset + self.row_width;
        self.offset = self.offset + self.surface_width;
        proof {
            if d >= sw {
                assert((d - sw) % sw == 0 && (d - sw) / sw == d / sw - 1) by (nonlinear_arith)
                    requires
                        d % sw == 0,
                        d >= sw,
                        sw > 0,
                ;
            } else {
                assert(d / sw == 0) by (nonlinear_arith)
                    requires
                        0 <= d < sw,
                ;
            }
            assert forall|k: int| 0 <= k < self@.len() implies #[trigger] self@[k] == before[k + 1] by {
                assert(self.offset + k * sw == (self.offset - sw) + (k + 1) * sw) by (nonlinear_arith);
            }
            assert(self@ =~= before.drop_first());
        }
        Some(SurfaceRow::new(range))
    }
}

} // verus!
