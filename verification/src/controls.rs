//! The state machines behind the viewer's controls: a bounded cursor, selection states and
//! ranges, mouse interaction tracking, and UV correction for flipped textures.

use vstd::prelude::*;

verus! {

/// A position in a range of `length` positions that can be moved forward and backward but never
/// exceeds the bounds of the range.
pub struct Cursor {
    length: usize,
    position: usize,
}

impl Cursor {
    #[verifier::type_invariant]
    closed spec fn bounded(self) -> bool {
        self.position < self.length
    }

    /// The number of positions.
    pub closed spec fn spec_length(&self) -> int {
        self.length as int
    }

    /// The current position.
    pub closed spec fn spec_position(&self) -> int {
        self.position as int
    }

    /// Creates a new instance at position 0.
    ///
    /// The length must not be zero.
    pub fn new(length: usize) -> (r: Cursor)
        requires
            length != 0,
        ensures
            r.spec_length() == length,
            r.spec_position() == 0,
    {
        Cursor { length, position: 0 }
    }

    /// Retrieves the current position.
    pub fn position(&self) -> (r: usize)
        ensures
            r == self.spec_position(),
            r < self.spec_length(),
    {
        proof {
            use_type_invariant(self);
        }
        self.position
    }

    /// Resets the cursor to the initial position.
    pub fn reset(&mut self)
        ensures
            final(self).spec_position() < final(self).spec_length(),
            final(self).spec_length() == old(self).spec_length(),
            final(self).spec_position() == 0,
    {
        proof {
            use_type_invariant(&*self);
        }
        self.position = 0;
    }

    /// Moves the cursor backward at most `count` steps and returns the number of steps moved.
    pub fn move_backward(&mut self, count: usize) -> (r: usize)
        ensures
            final(self).spec_position() < final(self).spec_length(),
            final(self).spec_length() == old(self).spec_length(),
            r == backward_distance(old(self).spec_position(), count as int),
            final(self).spec_position() == old(self).spec_position() - r,
            r <= count && r <= old(self).spec_position(),
            final(self).spec_position() == if count >= old(self).spec_position() {
                0
            } else {
                old(self).spec_position() - count
            },
    {
        proof {
            use_type_invariant(&*self);
        }
        let distance = if self.position < count {
            self.position
        } else {
            count
        };
        self.position = self.position - distance;
        distance
    }

    /// Moves the cursor forward at most `count` steps and returns the number of steps moved.
    pub fn move_forward(&mut self, count: usize) -> (r: usize)
        ensures
            final(self).spec_position() < final(self).spec_length(),
            final(self).spec_length() == old(self).spec_length(),
            r == forward_distance(
                old(self).spec_position(),
                old(self).spec_length(),
                count as int,
            ),
            final(self).spec_position() == old(self).spec_position() + r,
            r <= count,
            final(self).spec_position() == if old(self).spec_position() + count >= old(
                self,
            ).spec_length() - 1 {
                old(self).spec_length() - 1
            } else {
                old(self).spec_position() + count
            },
    {
        proof {
            use_type_invariant(&*self);
        }
        let room = (self.length - 1) - self.position;
        let distance = if room < count {
            room
        } else {
            count
        };
        self.position = self.position + distance;
        distance
    }

    /// Moves the cursor forward one step and returns the new position, or `None` (without
    /// moving) if the cursor is at the upper bound.
    pub fn next(&mut self) -> (r: Option<usize>)
        ensures
            final(self).spec_position() < final(self).spec_length(),
            final(self).spec_length() == old(self).spec_length(),
            old(self).spec_position() == old(self).spec_length() - 1 ==> r is None && final(self).spec_position() == old(self).spec_position(),
            old(self).spec_position() < old(self).spec_length() - 1 ==> r == Some(
                (old(self).spec_position() + 1) as usize,
            ) && final(self).spec_position() == old(self).spec_position() + 1,
    {
        proof {
            use_type_invariant(&*self);
        }
        if self.move_forward(1) == 0 {
            None
        } else {
            Some(self.position)
        }
    }
}

/// How far a cursor at `position` moves forward when asked for `count` steps in a range of
/// `length` positions: `count`, but no further than the last position.
pub open spec fn forward_distance(position: int, length: int, count: int) -> int {
    if count < length - 1 - position {
        count
    } else {
        length - 1 - position
    }
}

/// How far a cursor at `position` moves backward when asked for `count` steps: `count`, but no
/// further than the first position.
pub open spec fn backward_distance(position: int, count: int) -> int {
    if count < position {
        count
    } else {
        position
    }
}

/// A cursor never leaves its range, and moving it backward by the distance it just moved forward
/// returns it to where it started.
pub proof fn lemma_cursor_round_trip(position: int, length: int, count: int)
    requires
        0 <= position < length,
        0 <= count,
    ensures
        ({
            let forward = forward_distance(position, length, count);
            let mid = position + forward;
            &&& 0 <= forward
            &&& 0 <= mid < length
            &&& backward_distance(mid, forward) == forward
            &&& mid - backward_distance(mid, forward) == position
            &&& 0 <= position - backward_distance(position, count) < length
        }),
{
}

/// Moving a cursor is clamped to its range: moving backward `count` steps from `position` moves
/// `min(position, count)` steps and so reaches `max(position - count, 0)`; moving forward moves
/// `min(length - 1 - position, count)` steps and so reaches `min(position + count, length - 1)`.
/// A step count of at least the distance to an end always reaches that end.
pub proof fn lemma_cursor_moves_clamped(position: int, length: int, count: int)
    requires
        0 <= position < length,
        0 <= count,
    ensures
        0 <= backward_distance(position, count) <= count,
        backward_distance(position, count) <= position,
        count >= position ==> position - backward_distance(position, count) == 0,
        count < position ==> position - backward_distance(position, count) == position - count,
        0 <= forward_distance(position, length, count) <= count,
        position + forward_distance(position, length, count) <= length - 1,
        position + count >= length - 1 ==> position + forward_distance(position, length, count)
            == length - 1,
        position + count < length - 1 ==> position + forward_distance(position, length, count)
            == position + count,
{
}

/// Whether an element is selected.
#[derive(Copy, Clone, Debug, PartialEq, Eq, Structural)]
pub enum SelectionState {
    /// Not selected.
    Unselected,
    /// Selected.
    Selected,
}

impl SelectionState {
    /// The state for the flag `selected`.
    pub open spec fn of(selected: bool) -> SelectionState {
        if selected {
            SelectionState::Selected
        } else {
            SelectionState::Unselected
        }
    }

    /// Flips the state.
    pub fn toggle(&mut self)
        ensures
            *final(self) == SelectionState::of(*old(self) == SelectionState::Unselected),
    {
        match self {
            SelectionState::Unselected => *self = SelectionState::Selected,
            SelectionState::Selected => *self = SelectionState::Unselected,
        }
    }

    /// Sets the state from a flag.
    pub fn set(&mut self, selected: bool)
        ensures
            *final(self) == SelectionState::of(selected),
    {
        if selected {
            self.select();
        } else {
            self.unselect();
        }
    }

    /// Selects.
    pub fn select(&mut self)
        ensures
            *final(self) == SelectionState::Selected,
    {
        *self = SelectionState::Selected;
    }

    /// Unselects.
    pub fn unselect(&mut self)
        ensures
            *final(self) == SelectionState::Unselected,
    {
        *self = SelectionState::Unselected;
    }

    /// Whether the state is "selected".
    pub fn selected(&self) -> (r: bool)
        ensures
            r == (*self == SelectionState::Selected),
    {
        *self == SelectionState::Selected
    }
}

/// Toggling twice restores a selection state, and setting a flag makes `selected` report it.
pub proof fn lemma_selection_laws(s: SelectionState, b: bool)
    ensures
        SelectionState::of(SelectionState::of(s == SelectionState::Unselected)
            == SelectionState::Unselected) == s,
        (SelectionState::of(b) == SelectionState::Selected) == b,
{
}

/// An item with a selection state.
#[derive(Clone, Debug, PartialEq, Eq)]
pub struct Selectable<T> {
    /// The item.
    pub item: T,
    /// Its selection state.
    pub state: SelectionState,
}

impl<T> Selectable<T> {
    /// Creates a new instance.
    pub fn new(item: T, state: SelectionState) -> (r: Selectable<T>)
        ensures
            r.item == item,
            r.state == state,
    {
        Selectable { item, state }
    }
}

/// What is selected among a list of items: nothing, exactly one item (by index), or more than
/// one.
#[derive(Copy, Clone, Debug, PartialEq, Eq, Structural)]
pub enum SelectionSummary {
    /// No item is selected.
    Nothing,
    /// Exactly the item at this index is selected.
    One(usize),
    /// More than one item is selected.
    Many,
}

/// The number of selected items among the first `n` of `items`.
pub open spec fn selected_count<T>(items: Seq<Selectable<T>>, n: int) -> nat
    decreases n,
{
    if n <= 0 {
        0
    } else {
        selected_count(items, n - 1) + if items[n - 1].state == SelectionState::Selected {
            1nat
        } else {
            0nat
        }
    }
}

/// Summarizes which of `items` are selected, for showing the details of a single selected item.
pub fn selection_summary<T>(items: &[Selectable<T>]) -> (r: SelectionSummary)
    ensures
        r == SelectionSummary::Nothing <==> selected_count(items@, items@.len() as int) == 0,
        r == SelectionSummary::Many <==> selected_count(items@, items@.len() as int) > 1,
        r matches SelectionSummary::One(i) ==> i < items@.len() && items@[i as int].state
            == SelectionState::Selected && selected_count(items@, items@.len() as int) == 1,
{
    let mut found: Option<usize> = None;
    let mut many = false;
    let mut i: usize = 0;
    while i < items.len()
        invariant
            i <= items@.len(),
            !many ==> (found is None <==> selected_count(items@, i as int) == 0),
            !many ==> (found matches Some(j) ==> j < i && items@[j as int].state
                == SelectionState::Selected && selected_count(items@, i as int) == 1),
            many <==> selected_count(items@, i as int) > 1,
        decreases items@.len() - i,
    {
        if items[i].state == SelectionState::Selected {
            if found.is_some() {
                many = true;
            } else {
                found = Some(i);
            }
        }
        i = i + 1;
    }
    if many {
        SelectionSummary::Many
    } else {
        match found {
            Some(j) => SelectionSummary::One(j),
            None => SelectionSummary::Nothing,
        }
    }
}

/// Whether the sprite table ends its grid row after the item at `index`, with `columns` items to a
/// row: after index 1, then after every further `columns` items.
///
/// The number of columns must not be zero.
pub fn ends_table_row(index: usize, columns: usize) -> (r: bool)
    requires
        columns > 0,
    ensures
        r == (index > 0 && (index - 1) % (columns as int) == 0),
{
    index > 0 && (index - 1) % columns == 0
}

/// A range of elements with a [`SelectionState`], selected by clicks with the shift and control
/// modifiers in the usual way.
#[derive(Copy, Clone, Debug, PartialEq, Eq)]
pub struct SelectionRange {
    selection_root: Option<usize>,
}

/// `i` lies between `a` and `b` (inclusive, in either order).
pub open spec fn between(i: int, a: int, b: int) -> bool {
    if a < b {
        a <= i <= b
    } else {
        b <= i <= a
    }
}

impl SelectionRange {
    /// The element a range selection starts from: the last one clicked without shift.
    pub closed spec fn spec_root(&self) -> Option<usize> {
        self.selection_root
    }

    /// Creates a range without a root.
    pub fn new() -> (r: SelectionRange)
        ensures
            r.spec_root() is None,
    {
        SelectionRange { selection_root: None }
    }

    /// Updates the selection states of `values` for a click on element `clicked_idx`; the items
    /// themselves stay as they are.
    ///
    /// * Without shift the clicked element becomes the root; with control it is toggled, without
    ///   it becomes the only selected element.
    /// * With shift the elements between the root and the clicked element form the range (empty
    ///   without a root); with control they are selected in addition, without it they become the
    ///   only selected elements.
    ///
    /// Every element that a click toggles or selects must lie in `values`.
    pub fn update<T>(
        &mut self,
        shift: bool,
        ctrl: bool,
        clicked_idx: usize,
        values: &mut [Selectable<T>],
    )
        requires
            !shift && ctrl ==> clicked_idx < old(values)@.len(),
            shift && ctrl ==> (old(self).spec_root() matches Some(root) ==> root < old(
                values,
            )@.len() && clicked_idx < old(values)@.len()),
        ensures
            final(values)@.len() == old(values)@.len(),
            !shift ==> final(self).spec_root() == Some(clicked_idx),
            shift ==> final(self).spec_root() == old(self).spec_root(),
            forall|i: int|
                0 <= i < old(values)@.len() ==> (#[trigger] final(values)@[i]).item == old(
                    values,
                )@[i].item && final(values)@[i].state == {
                    let in_range = match old(self).spec_root() {
                        Some(root) => between(i, root as int, clicked_idx as int),
                        None => false,
                    };
                    let before = old(values)@[i].state;
                    if shift && ctrl {
                        if in_range {
                            SelectionState::Selected
                        } else {
                            before
                        }
                    } else if shift {
                        SelectionState::of(in_range)
                    } else if ctrl {
                        if i == clicked_idx {
                            SelectionState::of(before == SelectionState::Unselected)
                        } else {
                            before
                        }
                    } else {
                        SelectionState::of(i == clicked_idx)
                    }
                },
    {
        let n = values.len();
        if shift {
            let (first, last, nonempty) = match self.selection_root {
                Some(root) => {
                    if root < clicked_idx {
                        (root, clicked_idx, true)
                    } else {
                        (clicked_idx, root, true)
                    }
                },
                None => (1, 0, false),
            };
            if ctrl {
                if nonempty {
                    let mut idx = first;
                    while idx <= last
                        invariant
                            first <= idx <= last + 1,
                            last < n,
                            values@.len() == n,
                            forall|i: int|
                                0 <= i < n ==> (#[trigger] values@[i]).item == old(values)@[i].item
                                    && values@[i].state == if first <= i < idx {
                                    SelectionState::Selected
                                } else {
                                    old(values)@[i].state
                                },
                        decreases last + 1 - idx,
                    {
                        values[idx].state = SelectionState::Selected;
                        idx = idx + 1;
                    }
                }
            } else {
                let mut idx: usize = 0;
                while idx < n
                    invariant
                        idx <= n,
                        values@.len() == n,
                        forall|i: int|
                            0 <= i < n ==> (#[trigger] values@[i]).item == old(values)@[i].item
                                && values@[i].state == if i < idx {
                                SelectionState::of(nonempty && first <= i <= last)
                            } else {
                                old(values)@[i].state
                            },
                    decreases n - idx,
                {
                    let in_range = nonempty && first <= idx && idx <= last;
                    values[idx].state.set(in_range);
                    idx = idx + 1;
                }
            }
        } else {
            self.selection_root = Some(clicked_idx);
            if ctrl {
                values[clicked_idx].state.toggle();
            } else {
                let mut idx: usize = 0;
                while idx < n
                    invariant
                        idx <= n,
                        values@.len() == n,
                        forall|i: int|
                            0 <= i < n ==> (#[trigger] values@[i]).item == old(values)@[i].item
                                && values@[i].state == if i < idx {
                                SelectionState::of(i == clicked_idx)
                            } else {
                                old(values)@[i].state
                            },
                    decreases n - idx,
                {
                    values[idx].state.set(idx == clicked_idx);
                    idx = idx + 1;
                }
            }
        }
    }
}

/// The corners `(min, max)` of a UV rectangle with the X-coordinates swapped when `hflip` and the
/// Y-coordinates swapped when `vflip`.
pub open spec fn corrected_uv<T>(min: (T, T), max: (T, T), hflip: bool, vflip: bool) -> (
    (T, T),
    (T, T),
) {
    (
        (if hflip {
            max.0
        } else {
            min.0
        }, if vflip {
            max.1
        } else {
            min.1
        }),
        (if hflip {
            min.0
        } else {
            max.0
        }, if vflip {
            min.1
        } else {
            max.1
        }),
    )
}

/// Correcting a UV rectangle twice for the same flips gives the rectangle back.
pub proof fn lemma_correct_uv_involution<T>(min: (T, T), max: (T, T), hflip: bool, vflip: bool)
    ensures
        ({
            let (c_min, c_max) = corrected_uv(min, max, hflip, vflip);
            corrected_uv(c_min, c_max, hflip, vflip) == (min, max)
        }),
{
}

/// Swaps the corners of a texture's UV rectangle on the flipped axes, so that drawing it mirrors
/// the texture horizontally (`hflip`) and/or vertically (`vflip`).
///
/// The rectangle is given by its corners `min` and `max` as `(x, y)` pairs; the result is the new
/// `(min, max)`.
pub fn correct_uv<T: Copy>(min: (T, T), max: (T, T), hflip: bool, vflip: bool) -> (r: (
    (T, T),
    (T, T),
))
    ensures
        r == corrected_uv(min, max, hflip, vflip),
{
    if hflip {
        if vflip {
            (max, min)
        } else {
            ((max.0, min.1), (min.0, max.1))
        }
    } else {
        if vflip {
            ((min.0, max.1), (max.0, min.1))
        } else {
            (min, max)
        }
    }
}

/// An event of a drag with the primary pointer button.
#[derive(Copy, Clone, Debug, PartialEq, Eq)]
pub enum DragEvent<P> {
    /// The drag started at the position.
    Start(P),
    /// The drag continues; the positions are its start and the current position.
    Update(P, P),
    /// The drag ended; the positions are its start and the last known position.
    Finished(P, P),
}

/// A mouse interaction: a click or a drag event.
#[derive(Copy, Clone, Debug, PartialEq, Eq)]
pub enum MouseInteraction<P> {
    /// A click at the position.
    Click(P),
    /// A drag event.
    Drag(DragEvent<P>),
}

/// The state of a drag: its start and last known position while dragging.
#[derive(Copy, Clone, Debug)]
pub struct DragState<P> {
    positions: Option<(P, P)>,
}

impl<P: Copy> DragState<P> {
    /// The start and last known position of an ongoing drag.
    pub closed spec fn spec_positions(&self) -> Option<(P, P)> {
        self.positions
    }

    /// A state without a drag.
    pub fn new() -> (r: DragState<P>)
        ensures
            r.spec_positions() is None,
    {
        DragState { positions: None }
    }

    /// Forgets an ongoing drag.
    pub fn reset(&mut self)
        ensures
            final(self).spec_positions() is None,
    {
        self.positions = None;
    }

    /// Updates the state for a frame in which the primary button is `dragged` with the pointer at
    /// `pointer`, and returns the resulting event, if any.
    ///
    /// A drag must come with a pointer position.
    pub fn update(&mut self, dragged: bool, pointer: Option<P>) -> (r: Option<DragEvent<P>>)
        requires
            dragged ==> pointer is Some,
        ensures
            dragged ==> match old(self).spec_positions() {
                None => r == Some(DragEvent::Start(pointer->0)) && final(self).spec_positions()
                    == Some((pointer->0, pointer->0)),
                Some((start, _)) => r == Some(DragEvent::Update(start, pointer->0)) && final(self).spec_positions() == Some((start, pointer->0)),
            },
            !dragged ==> final(self).spec_positions() is None && match old(self).spec_positions() {
                None => r is None,
                Some((start, end)) => r == Some(DragEvent::Finished(start, end)),
            },
    {
        if dragged {
            let new_pos = pointer.unwrap();
            match self.positions {
                None => {
                    self.positions = Some((new_pos, new_pos));
                    Some(DragEvent::Start(new_pos))
                },
                Some((start, _)) => {
                    self.positions = Some((start, new_pos));
                    Some(DragEvent::Update(start, new_pos))
                },
            }
        } else {
            let taken = self.positions;
            self.positions = None;
            match taken {
                Some((start, end)) => Some(DragEvent::Finished(start, end)),
                None => None,
            }
        }
    }
}

/// The drag positions and the interaction after a frame in which the pointer is `clicked` or
/// `dragged` (with the primary button) at `pointer`, from the drag positions `positions`: a
/// click ends any drag and is reported; a drag starts or continues from its start position; a
/// frame without either finishes an ongoing drag.
pub open spec fn interaction_step<P>(
    positions: Option<(P, P)>,
    clicked: bool,
    dragged: bool,
    pointer: Option<P>,
) -> (Option<(P, P)>, Option<MouseInteraction<P>>) {
    if clicked {
        (None, Some(MouseInteraction::Click(pointer->0)))
    } else if dragged {
        match positions {
            None => (
                Some((pointer->0, pointer->0)),
                Some(MouseInteraction::Drag(DragEvent::Start(pointer->0))),
            ),
            Some((start, _)) => (
                Some((start, pointer->0)),
                Some(MouseInteraction::Drag(DragEvent::Update(start, pointer->0))),
            ),
        }
    } else {
        match positions {
            None => (None, None),
            Some((start, end)) => (
                None,
                Some(MouseInteraction::Drag(DragEvent::Finished(start, end))),
            ),
        }
    }
}

/// The interactions reported for the `frames`, each a triple of `clicked`, `dragged` and the
/// pointer position, one after the other from the drag positions `start`; with the drag
/// positions after the last frame.
pub open spec fn interactions<P>(start: Option<(P, P)>, frames: Seq<(bool, bool, Option<P>)>) -> (
    Option<(P, P)>,
    Seq<Option<MouseInteraction<P>>>,
)
    decreases frames.len(),
{
    if frames.len() == 0 {
        (start, Seq::empty())
    } else {
        let (before, events) = interactions(start, frames.drop_last());
        let f = frames.last();
        let (after, event) = interaction_step(before, f.0, f.1, f.2);
        (after, events.push(event))
    }
}

/// Frames in which the pointer is dragged at each of `positions` in turn.
pub open spec fn drag_frames<P>(positions: Seq<P>) -> Seq<(bool, bool, Option<P>)> {
    positions.map_values(|p: P| (false, true, Some(p)))
}

/// The events of a drag through `positions`: a start at the first position, then an update from
/// the first to each later position.
pub open spec fn drag_events<P>(positions: Seq<P>) -> Seq<Option<MouseInteraction<P>>> {
    Seq::new(
        positions.len(),
        |i: int|
            Some(
                MouseInteraction::Drag(
                    if i == 0 {
                        DragEvent::Start(positions[0])
                    } else {
                        DragEvent::Update(positions[0], positions[i])
                    },
                ),
            ),
    )
}

/// Dragging through the first `k` positions from no drag gives their drag events and leaves the
/// drag between the first and the `k`-th position.
proof fn lemma_drag_prefix<P>(positions: Seq<P>, k: nat)
    requires
        1 <= k <= positions.len(),
    ensures
        interactions(None, drag_frames(positions.take(k as int))) == (
            Some((positions[0], positions[k - 1])),
            drag_events(positions.take(k as int)),
        ),
    decreases k,
{
    let frames = drag_frames(positions.take(k as int));
    assert(frames.len() == k);
    assert(frames.last() == (false, true, Some(positions[k - 1])));
    if k == 1 {
        let empty = Seq::<(bool, bool, Option<P>)>::empty();
        assert(frames.drop_last() =~= empty);
        assert(interactions(None::<(P, P)>, empty) == (None::<(P, P)>, Seq::<Option<MouseInteraction<P>>>::empty()));
        assert(drag_events(positions.take(1)) =~= Seq::<Option<MouseInteraction<P>>>::empty().push(
            Some(MouseInteraction::Drag(DragEvent::Start(positions[0]))),
        ));
    } else {
        lemma_drag_prefix(positions, (k - 1) as nat);
        assert(frames.drop_last() =~= drag_frames(positions.take(k - 1)));
        assert(drag_events(positions.take(k as int)) =~= drag_events(positions.take(k - 1)).push(
            Some(MouseInteraction::Drag(DragEvent::Update(positions[0], positions[k - 1]))),
        ));
    }
}

/// A drag through `positions` (at least one) followed by a frame without click or drag reports a
/// start at the first position, an update from the first to each later position, and at the end
/// its finish between the first and the last position; afterwards no drag is ongoing.
pub proof fn lemma_drag_sequence<P>(positions: Seq<P>, release_pointer: Option<P>)
    requires
        positions.len() >= 1,
    ensures
        interactions(None, drag_frames(positions).push((false, false, release_pointer))) == (
            None::<(P, P)>,
            drag_events(positions).push(
                Some(
                    MouseInteraction::Drag(
                        DragEvent::Finished(positions[0], positions[positions.len() - 1]),
                    ),
                ),
            ),
        ),
{
    let n = positions.len();
    lemma_drag_prefix(positions, n);
    assert(positions.take(n as int) =~= positions);
    let frames = drag_frames(positions).push((false, false, release_pointer));
    assert(frames.drop_last() =~= drag_frames(positions));
}

/// A click at `pointer` is reported as such and ends any drag, so that a drag after it starts
/// anew.
pub proof fn lemma_click_ends_drag<P>(positions: Option<(P, P)>, pointer: P, dragged: bool, next: P)
    ensures
        interaction_step(positions, true, dragged, Some(pointer)) == (
            None::<(P, P)>,
            Some(MouseInteraction::Click(pointer)),
        ),
        interaction_step(
            interaction_step(positions, true, dragged, Some(pointer)).0,
            false,
            true,
            Some(next),
        ).1 == Some(MouseInteraction::Drag(DragEvent::Start(next))),
{
}

/// Tracks clicks and drags of the pointer over a widget.
#[derive(Copy, Clone, Debug)]
pub struct MouseInteractionTracker<P> {
    drag_state: DragState<P>,
}

impl<P: Copy> MouseInteractionTracker<P> {
    /// The state of the drag being tracked.
    pub closed spec fn spec_drag(&self) -> DragState<P> {
        self.drag_state
    }

    /// A tracker without a drag.
    pub fn new() -> (r: MouseInteractionTracker<P>)
        ensures
            r.spec_drag().spec_positions() is None,
    {
        MouseInteractionTracker { drag_state: DragState::new() }
    }

    /// Updates the tracker for a frame: a click ends any drag and is reported as such; otherwise
    /// the drag state decides.
    ///
    /// A click or a drag must come with a pointer position.
    pub fn update(&mut self, clicked: bool, dragged: bool, pointer: Option<P>) -> (r: Option<
        MouseInteraction<P>,
    >)
        requires
            clicked || dragged ==> pointer is Some,
        ensures
            (final(self).spec_drag().spec_positions(), r) == interaction_step(
                old(self).spec_drag().spec_positions(),
                clicked,
                dragged,
                pointer,
            ),
    {
        if clicked {
            self.drag_state.reset();
            let pos = pointer.unwrap();
            Some(MouseInteraction::Click(pos))
        } else {
            match self.drag_state.update(dragged, pointer) {
                Some(event) => Some(MouseInteraction::Drag(event)),
                None => None,
            }
        }
    }
}

} // verus!
