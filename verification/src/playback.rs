//! Movie playback: a cursor over the frames of a movie, driven by elapsed time and by the
//! messages of the playback controls.
//!
//! Time is measured in nanoseconds from an origin of the caller's choosing; the caller reads the
//! clock and hands the reading in.

use crate::controls::{backward_distance, forward_distance, Cursor};
use crate::geom::{point, Point, Rect, Size};
use crate::movie::{Movie as MovieData, MovieFrame};
use crate::sprite::{Color, Palette, PaletteIndex, Sprite, Tile};
use crate::surface::Surface;
use vstd::arithmetic::div_mod::{
    lemma_add_mod_noop_right, lemma_div_is_ordered, lemma_fundamental_div_mod,
    lemma_fundamental_div_mod_converse, lemma_hoist_over_denominator,
};
use vstd::prelude::*;

verus! {

/// One second, in nanoseconds.
pub const NANOS_PER_SECOND: u64 = 1_000_000_000;

/// Whether a movie is playing.
#[derive(Copy, Clone, Debug, PartialEq, Eq, Structural)]
pub enum PlaybackState {
    /// The "paused" state.
    Paused,
    /// The "playing" state. The argument is the instant (in nanoseconds) at which the current
    /// frame was set.
    Playing(u64),
}

/// Where a jump goes.
#[derive(Copy, Clone, Debug, PartialEq, Eq, Structural)]
pub enum JumpMessage {
    /// To the first frame.
    Start,
    /// To the last frame.
    End,
}

/// A message from the playback controls.
#[derive(Copy, Clone, Debug, PartialEq, Eq, Structural)]
pub enum MovieControlMessage {
    /// Start playing (no effect while playing).
    Play,
    /// Pause.
    Pause,
    /// Move back at most the given number of frames.
    SkipBackward(usize),
    /// Move forward at most the given number of frames.
    SkipForward(usize),
    /// Jump to the start or the end.
    Jump(JumpMessage),
    /// Set whether playback starts over after the last frame.
    SetRepeat(bool),
}

/// The frame position after `msg`, in a movie of `length` frames.
pub open spec fn position_after_message(position: int, length: int, msg: MovieControlMessage) -> int {
    match msg {
        MovieControlMessage::SkipBackward(count) => position - backward_distance(position, count as int),
        MovieControlMessage::SkipForward(count) => position + forward_distance(
            position,
            length,
            count as int,
        ),
        MovieControlMessage::Jump(JumpMessage::Start) => 0,
        MovieControlMessage::Jump(JumpMessage::End) => length - 1,
        _ => position,
    }
}

/// The playback state after `msg`, handled at instant `now`.
pub open spec fn state_after_message(
    state: PlaybackState,
    msg: MovieControlMessage,
    now: u64,
) -> PlaybackState {
    match msg {
        MovieControlMessage::Play => match state {
            PlaybackState::Paused => PlaybackState::Playing(now),
            PlaybackState::Playing(since) => PlaybackState::Playing(since),
        },
        MovieControlMessage::Pause => PlaybackState::Paused,
        _ => state,
    }
}

/// The repeat flag after `msg`.
pub open spec fn repeat_after_message(repeat: bool, msg: MovieControlMessage) -> bool {
    match msg {
        MovieControlMessage::SetRepeat(value) => value,
        _ => repeat,
    }
}

/// The frame position after the pending messages `msgs`, handled last-queued first.
pub open spec fn position_after_pending(
    position: int,
    length: int,
    msgs: Seq<MovieControlMessage>,
) -> int
    decreases msgs.len(),
{
    if msgs.len() == 0 {
        position
    } else {
        position_after_pending(
            position_after_message(position, length, msgs.last()),
            length,
            msgs.drop_last(),
        )
    }
}

/// The playback state after the pending messages `msgs`, handled last-queued first at `now`.
pub open spec fn state_after_pending(
    state: PlaybackState,
    msgs: Seq<MovieControlMessage>,
    now: u64,
) -> PlaybackState
    decreases msgs.len(),
{
    if msgs.len() == 0 {
        state
    } else {
        state_after_pending(state_after_message(state, msgs.last(), now), msgs.drop_last(), now)
    }
}

/// The repeat flag after the pending messages `msgs`, handled last-queued first.
pub open spec fn repeat_after_pending(repeat: bool, msgs: Seq<MovieControlMessage>) -> bool
    decreases msgs.len(),
{
    if msgs.len() == 0 {
        repeat
    } else {
        repeat_after_pending(repeat_after_message(repeat, msgs.last()), msgs.drop_last())
    }
}

/// The time from `since` to `now`, or zero if `now` comes first.
pub open spec fn elapsed(now: u64, since: u64) -> int {
    if since <= now {
        now - since
    } else {
        0
    }
}

/// Whether playing from `position` at the instant `since` runs past the last frame by `now`
/// without repeating, `duration` being the time each frame is shown.
pub open spec fn runs_out(
    position: int,
    length: int,
    repeat: bool,
    since: u64,
    now: u64,
    duration: int,
) -> bool {
    !repeat && position + elapsed(now, since) / duration >= length
}

/// The frame position reached playing from `position` at the instant `since` until `now`, if
/// playback does not run out.
pub open spec fn position_when_playing(
    position: int,
    length: int,
    repeat: bool,
    since: u64,
    now: u64,
    duration: int,
) -> int {
    let steps = elapsed(now, since) / duration;
    if repeat {
        (position + steps) % length
    } else {
        position + steps
    }
}

/// The instant at which the frame reached playing from the instant `since` until `now` was set:
/// `now`, less the time that did not add up to a whole frame.
pub open spec fn frame_instant(now: u64, since: u64, duration: int) -> int {
    now - elapsed(now, since) % duration
}

/// Stepping a position modulo `n` by one wraps to zero exactly from `n - 1`.
proof fn lemma_mod_step(a: int, n: int)
    requires
        n > 0,
        a >= 0,
    ensures
        a % n < n - 1 ==> (a + 1) % n == a % n + 1,
        a % n == n - 1 ==> (a + 1) % n == 0,
{
    lemma_fundamental_div_mod(a, n);
    assert(n * (a / n) == (a / n) * n) by (nonlinear_arith);
    if a % n < n - 1 {
        lemma_fundamental_div_mod_converse(a + 1, n, a / n, a % n + 1);
    } else if a % n == n - 1 {
        assert(a + 1 == (a / n + 1) * n + 0) by (nonlinear_arith)
            requires
                a == n * (a / n) + a % n,
                a % n == n - 1,
        ;
        lemma_fundamental_div_mod_converse(a + 1, n, a / n + 1, 0);
    }
}

/// Time left over after `steps` whole frames that still holds a whole frame means more than
/// `steps` frames are due.
proof fn lemma_more_frames_due(total: int, duration: int, steps: int, rest: int)
    requires
        duration > 0,
        steps >= 0,
        rest >= duration,
        total == steps * duration + rest,
    ensures
        total / duration >= steps + 1,
{
    lemma_fundamental_div_mod(total, duration);
    let q = total / duration;
    if q <= steps {
        assert(duration * q <= duration * steps) by (nonlinear_arith)
            requires
                q <= steps,
                duration > 0,
        ;
        assert(steps * duration == duration * steps) by (nonlinear_arith);
    }
}

/// Playback time adds up: playing from the instant `since` until `t1`, and then on from the
/// instant at which the reached frame was set until `t2`, reaches the same frame, set at the same
/// instant, as playing from `since` until `t2` at once. In particular a second advance at the same
/// instant changes nothing.
pub proof fn lemma_advance_additive(
    position: int,
    length: int,
    repeat: bool,
    since: u64,
    t1: u64,
    t2: u64,
    duration: int,
)
    requires
        0 <= position < length,
        duration > 0,
        since <= t1 <= t2,
        !runs_out(position, length, repeat, since, t2, duration),
    ensures
        ({
            let p1 = position_when_playing(position, length, repeat, since, t1, duration);
            let s1 = frame_instant(t1, since, duration);
            &&& since <= s1 <= t1
            &&& !runs_out(position, length, repeat, since, t1, duration)
            &&& !runs_out(p1, length, repeat, s1 as u64, t2, duration)
            &&& position_when_playing(p1, length, repeat, s1 as u64, t2, duration)
                == position_when_playing(position, length, repeat, since, t2, duration)
            &&& frame_instant(t2, s1 as u64, duration) == frame_instant(t2, since, duration)
        }),
{
    let e1 = t1 - since;
    let e = t2 - since;
    let k1 = e1 / duration;
    lemma_fundamental_div_mod(e1, duration);
    lemma_div_is_ordered(e1, e, duration);
    let s1 = frame_instant(t1, since, duration);
    assert(s1 == since + duration * k1);
    let e2 = t2 - s1;
    assert(e2 == e + (-k1) * duration) by (nonlinear_arith)
        requires
            e2 == t2 - s1,
            s1 == since + duration * k1,
            e == t2 - since,
    ;
    lemma_hoist_over_denominator(e, -k1, duration as nat);
    lemma_fundamental_div_mod(e, duration);
    lemma_fundamental_div_mod(e2, duration);
    assert(e2 % duration == e % duration) by (nonlinear_arith)
        requires
            e == duration * (e / duration) + e % duration,
            e2 == duration * (e2 / duration) + e2 % duration,
            e2 / duration == e / duration - k1,
            e2 == e - k1 * duration,
    ;
    if repeat {
        lemma_add_mod_noop_right(e / duration - k1, position + k1, length);
        assert((e / duration - k1) + (position + k1) == position + e / duration);
    }
}

/// The playback of a movie.
pub struct Movie {
    movie: MovieData,
    frame_cursor: Cursor,
    frame_duration: u64,
    playback_state: PlaybackState,
    playback_repeat: bool,
    current_frame: Option<usize>,
    control_messages: Vec<MovieControlMessage>,
}

impl Movie {
    /// The cursor spans the movie's frames and each frame is shown for a positive time.
    pub closed spec fn well_formed(&self) -> bool {
        &&& self.frame_duration > 0
        &&& self.frame_cursor.spec_length() == self.movie.spec_frames().len()
        &&& 0 <= self.frame_cursor.spec_position() < self.frame_cursor.spec_length() <= usize::MAX
    }

    /// The movie played.
    pub closed spec fn spec_movie(&self) -> MovieData {
        self.movie
    }

    /// The number of frames.
    pub closed spec fn spec_length(&self) -> int {
        self.frame_cursor.spec_length()
    }

    /// The position of the current frame.
    pub closed spec fn spec_position(&self) -> int {
        self.frame_cursor.spec_position()
    }

    /// How long each frame is shown, in nanoseconds.
    pub closed spec fn spec_frame_duration(&self) -> int {
        self.frame_duration as int
    }

    /// Whether the movie is playing.
    pub closed spec fn spec_state(&self) -> PlaybackState {
        self.playback_state
    }

    /// Whether playback starts over after the last frame.
    pub closed spec fn spec_repeat(&self) -> bool {
        self.playback_repeat
    }

    /// The position of the frame that was last rendered, if any.
    pub closed spec fn spec_rendered(&self) -> Option<usize> {
        self.current_frame
    }

    /// The control messages not handled yet, in the order they were queued.
    pub closed spec fn spec_pending(&self) -> Seq<MovieControlMessage> {
        self.control_messages@
    }

    /// Creates a paused playback at the first frame, without repeat.
    ///
    /// The movie must have frames.
    pub fn new(movie: MovieData) -> (r: Movie)
        requires
            movie.spec_frames().len() > 0,
        ensures
            r.well_formed(),
            r.spec_movie() == movie,
            r.spec_length() == movie.spec_frames().len(),
            r.spec_position() == 0,
            r.spec_frame_duration() == NANOS_PER_SECOND / movie.spec_frame_rate().spec_fps(),
            r.spec_state() == PlaybackState::Paused,
            !r.spec_repeat(),
            r.spec_rendered() is None,
            r.spec_pending().len() == 0,
    {
        let frame_cursor = Cursor::new(movie.frames().len());
        let frame_duration = NANOS_PER_SECOND / movie.frame_rate().fps();
        Movie {
            movie,
            frame_cursor,
            frame_duration,
            playback_state: PlaybackState::Paused,
            playback_repeat: false,
            current_frame: None,
            control_messages: Vec::new(),
        }
    }

    /// Retrieves the movie played.
    pub fn movie(&self) -> (r: &MovieData)
        ensures
            *r == self.spec_movie(),
    {
        &self.movie
    }

    /// Retrieves the position of the current frame.
    pub fn position(&self) -> (r: usize)
        ensures
            r == self.spec_position(),
            r < self.spec_length(),
    {
        self.frame_cursor.position()
    }

    /// Retrieves the time each frame is shown, in nanoseconds.
    pub fn frame_duration(&self) -> (r: u64)
        ensures
            r == self.spec_frame_duration(),
    {
        self.frame_duration
    }

    /// Retrieves the playback state.
    pub fn playback_state(&self) -> (r: PlaybackState)
        ensures
            r == self.spec_state(),
    {
        self.playback_state
    }

    /// Retrieves whether playback starts over after the last frame.
    pub fn playback_repeat(&self) -> (r: bool)
        ensures
            r == self.spec_repeat(),
    {
        self.playback_repeat
    }

    /// Retrieves the current frame.
    pub fn current_frame(&self) -> (r: &MovieFrame)
        requires
            self.well_formed(),
        ensures
            *r == self.spec_movie().spec_frames()[self.spec_position()],
    {
        let pos = self.frame_cursor.position();
        &self.movie.frames()[pos]
    }

    /// Starts playing at the instant `now`; no effect while playing.
    pub fn play(&mut self, now: u64)
        requires
            old(self).well_formed(),
        ensures
            final(self).well_formed(),
            final(self).spec_state() == state_after_message(
                old(self).spec_state(),
                MovieControlMessage::Play,
                now,
            ),
            final(self).spec_movie() == old(self).spec_movie(),
            final(self).spec_length() == old(self).spec_length(),
            final(self).spec_position() == old(self).spec_position(),
            final(self).spec_frame_duration() == old(self).spec_frame_duration(),
            final(self).spec_repeat() == old(self).spec_repeat(),
            final(self).spec_rendered() == old(self).spec_rendered(),
            final(self).spec_pending() == old(self).spec_pending(),
    {
        match self.playback_state {
            PlaybackState::Paused => {
                self.playback_state = PlaybackState::Playing(now);
            },
            PlaybackState::Playing(_) => {},
        }
    }

    /// Pauses playback.
    pub fn pause(&mut self)
        requires
            old(self).well_formed(),
        ensures
            final(self).well_formed(),
            final(self).spec_state() == PlaybackState::Paused,
            final(self).spec_movie() == old(self).spec_movie(),
            final(self).spec_length() == old(self).spec_length(),
            final(self).spec_position() == old(self).spec_position(),
            final(self).spec_frame_duration() == old(self).spec_frame_duration(),
            final(self).spec_repeat() == old(self).spec_repeat(),
            final(self).spec_rendered() == old(self).spec_rendered(),
            final(self).spec_pending() == old(self).spec_pending(),
    {
        self.playback_state = PlaybackState::Paused;
    }

    /// Queues a control message; it is handled by the next [`Movie::update`].
    pub fn push_control_message(&mut self, msg: MovieControlMessage)
        requires
            old(self).well_formed(),
        ensures
            final(self).well_formed(),
            final(self).spec_pending() == old(self).spec_pending().push(msg),
            final(self).spec_state() == old(self).spec_state(),
            final(self).spec_movie() == old(self).spec_movie(),
            final(self).spec_length() == old(self).spec_length(),
            final(self).spec_position() == old(self).spec_position(),
            final(self).spec_frame_duration() == old(self).spec_frame_duration(),
            final(self).spec_repeat() == old(self).spec_repeat(),
            final(self).spec_rendered() == old(self).spec_rendered(),
    {
        self.control_messages.push(msg);
    }

    /// Handles one control message at the instant `now`.
    fn handle_control_message(&mut self, msg: MovieControlMessage, now: u64)
        requires
            old(self).well_formed(),
        ensures
            final(self).well_formed(),
            final(self).spec_position() == position_after_message(
                old(self).spec_position(),
                old(self).spec_length(),
                msg,
            ),
            final(self).spec_state() == state_after_message(old(self).spec_state(), msg, now),
            final(self).spec_repeat() == repeat_after_message(old(self).spec_repeat(), msg),
            final(self).spec_movie() == old(self).spec_movie(),
            final(self).spec_length() == old(self).spec_length(),
            final(self).spec_frame_duration() == old(self).spec_frame_duration(),
            final(self).spec_rendered() == old(self).spec_rendered(),
            final(self).spec_pending() == old(self).spec_pending(),
    {
        match msg {
            MovieControlMessage::Play => {
                self.play(now);
            },
            MovieControlMessage::Pause => {
                self.pause();
            },
            MovieControlMessage::SkipBackward(count) => {
                self.frame_cursor.move_backward(count);
            },
            MovieControlMessage::SkipForward(count) => {
                self.frame_cursor.move_forward(count);
            },
            MovieControlMessage::Jump(jump) => match jump {
                JumpMessage::Start => self.frame_cursor.reset(),
                JumpMessage::End => {
                    self.frame_cursor.move_forward(usize::MAX);
                },
            },
            MovieControlMessage::SetRepeat(value) => {
                self.playback_repeat = value;
            },
        }
    }

    /// Marks the current frame as rendered; returns whether it differs from the frame rendered
    /// last.
    fn render_frame(&mut self) -> (r: bool)
        requires
            old(self).well_formed(),
        ensures
            final(self).well_formed(),
            r == (old(self).spec_rendered() != Some(old(self).spec_position() as usize)),
            final(self).spec_rendered() == Some(old(self).spec_position() as usize),
            final(self).spec_position() == old(self).spec_position(),
            final(self).spec_state() == old(self).spec_state(),
            final(self).spec_repeat() == old(self).spec_repeat(),
            final(self).spec_movie() == old(self).spec_movie(),
            final(self).spec_length() == old(self).spec_length(),
            final(self).spec_frame_duration() == old(self).spec_frame_duration(),
            final(self).spec_pending() == old(self).spec_pending(),
    {
        let pos = self.frame_cursor.position();
        if let Some(last) = self.current_frame {
            if last == pos {
                return false;
            }
        }
        self.current_frame = Some(pos);
        true
    }

    /// Handles the queued control messages, last queued first, then advances playback to the
    /// instant `now`, skipping one frame for each frame time that passed since the current frame
    /// was set.
    ///
    /// Playback that runs past the last frame without repeat stops at the last frame, pauses and
    /// returns `false`. Otherwise the result tells whether the frame to show differs from the one
    /// rendered last (which it then becomes).
    pub fn update(&mut self, now: u64) -> (r: bool)
        requires
            old(self).well_formed(),
        ensures
            final(self).well_formed(),
            final(self).spec_movie() == old(self).spec_movie(),
            final(self).spec_length() == old(self).spec_length(),
            final(self).spec_frame_duration() == old(self).spec_frame_duration(),
            final(self).spec_pending().len() == 0,
            final(self).spec_repeat() == repeat_after_pending(
                old(self).spec_repeat(),
                old(self).spec_pending(),
            ),
            ({
                let length = old(self).spec_length();
                let duration = old(self).spec_frame_duration();
                let position = position_after_pending(
                    old(self).spec_position(),
                    length,
                    old(self).spec_pending(),
                );
                let repeat = repeat_after_pending(old(self).spec_repeat(), old(self).spec_pending());
                match state_after_pending(old(self).spec_state(), old(self).spec_pending(), now) {
                    PlaybackState::Paused => {
                        &&& final(self).spec_state() == PlaybackState::Paused
                        &&& final(self).spec_position() == position
                        &&& r == (old(self).spec_rendered() != Some(position as usize))
                        &&& final(self).spec_rendered() == Some(position as usize)
                    },
                    PlaybackState::Playing(since) => {
                        if runs_out(position, length, repeat, since, now, duration) {
                            &&& final(self).spec_state() == PlaybackState::Paused
                            &&& final(self).spec_position() == length - 1
                            &&& !r
                            &&& final(self).spec_rendered() == old(self).spec_rendered()
                        } else {
                            let reached = position_when_playing(
                                position,
                                length,
                                repeat,
                                since,
                                now,
                                duration,
                            );
                            &&& final(self).spec_state() == PlaybackState::Playing(
                                frame_instant(now, since, duration) as u64,
                            )
                            &&& final(self).spec_position() == reached
                            &&& r == (old(self).spec_rendered() != Some(reached as usize))
                            &&& final(self).spec_rendered() == Some(reached as usize)
                        }
                    },
                }
            }),
    {
        let ghost length = old(self).spec_length();
        let ghost position = position_after_pending(
            old(self).spec_position(),
            length,
            old(self).spec_pending(),
        );
        let ghost repeat = repeat_after_pending(old(self).spec_repeat(), old(self).spec_pending());
        let ghost state = state_after_pending(old(self).spec_state(), old(self).spec_pending(), now);
        while self.control_messages.len() > 0
            invariant
                self.well_formed(),
                self.spec_movie() == old(self).spec_movie(),
                self.spec_length() == length,
                length == old(self).spec_length(),
                self.spec_frame_duration() == old(self).spec_frame_duration(),
                self.spec_rendered() == old(self).spec_rendered(),
                position == position_after_pending(
                    old(self).spec_position(),
                    length,
                    old(self).spec_pending(),
                ),
                repeat == repeat_after_pending(old(self).spec_repeat(), old(self).spec_pending()),
                state == state_after_pending(old(self).spec_state(), old(self).spec_pending(), now),
                position_after_pending(self.spec_position(), length, self.spec_pending())
                    == position,
                repeat_after_pending(self.spec_repeat(), self.spec_pending()) == repeat,
                state_after_pending(self.spec_state(), self.spec_pending(), now) == state,
            decreases self.spec_pending().len(),
        {
            let msg = self.control_messages.pop().unwrap();
            self.handle_control_message(msg, now);
        }
        match self.playback_state {
            PlaybackState::Paused => {},
            PlaybackState::Playing(since) => {
                let d = self.frame_duration;
                let mut delta: u64 = if since <= now {
                    now - since
                } else {
                    0
                };
                let ghost total: int = delta as int;
                let ghost mut steps: int = 0;
                proof {
                    lemma_fundamental_div_mod_converse(position, length, 0, position);
                }
                while delta >= d
                    invariant
                        self.well_formed(),
                        self.spec_movie() == old(self).spec_movie(),
                        self.spec_length() == length,
                        length == old(self).spec_length(),
                        self.spec_frame_duration() == old(self).spec_frame_duration(),
                        self.spec_rendered() == old(self).spec_rendered(),
                        self.spec_pending().len() == 0,
                        self.spec_state() == PlaybackState::Playing(since),
                        self.spec_repeat() == repeat,
                        d == self.spec_frame_duration(),
                        d > 0,
                        total == elapsed(now, since),
                        position == position_after_pending(
                            old(self).spec_position(),
                            length,
                            old(self).spec_pending(),
                        ),
                        repeat == repeat_after_pending(
                            old(self).spec_repeat(),
                            old(self).spec_pending(),
                        ),
                        state == state_after_pending(
                            old(self).spec_state(),
                            old(self).spec_pending(),
                            now,
                        ),
                        state == PlaybackState::Playing(since),
                        0 <= position < length,
                        steps >= 0,
                        total == steps * d + delta,
                        repeat ==> self.spec_position() == (position + steps) % length,
                        !repeat ==> self.spec_position() == position + steps && position + steps
                            < length,
                    decreases delta,
                {
                    let ghost before = self.spec_position();
                    proof {
                        if repeat {
                            lemma_mod_step(position + steps, length);
                        }
                    }
                    if self.frame_cursor.next().is_none() {
                        if !self.playback_repeat {
                            proof {
                                lemma_more_frames_due(total, d as int, steps, delta as int);
                            }
                            self.pause();
                            return false;
                        }
                        self.frame_cursor.reset();
                    }
                    delta = delta - d;
                    proof {
                        steps = steps + 1;
                        assert(total == steps * d + delta) by (nonlinear_arith)
                            requires
                                total == (steps - 1) * d + (delta + d),
                        ;
                    }
                }
                proof {
                    lemma_fundamental_div_mod_converse(total, d as int, steps, delta as int);
                }
                self.playback_state = PlaybackState::Playing(now - delta);
            },
        }
        self.render_frame()
    }
}


/// The RGBA bytes of the pixels `data` colored through `palette`: four bytes per pixel, in pixel
/// order, holding red, green, blue and an opaque alpha.
pub open spec fn rgba_bytes(palette: Seq<Color>, data: Seq<PaletteIndex>) -> Seq<u8> {
    Seq::new(
        4 * data.len(),
        |i: int|
            {
                let c = palette[data[i / 4].0 as int];
                if i % 4 == 0 {
                    c.r
                } else if i % 4 == 1 {
                    c.g
                } else if i % 4 == 2 {
                    c.b
                } else {
                    0xffu8
                }
            },
    )
}

/// Whether every pixel of `data` indexes into `palette`.
pub open spec fn indexes_within(palette: Seq<Color>, data: Seq<PaletteIndex>) -> bool {
    forall|i: int| 0 <= i < data.len() ==> (#[trigger] data[i]).0 < palette.len()
}

/// Colors the pixels of `tile` through `palette`, giving their RGBA bytes in pixel order.
///
/// Every pixel of the tile must index into the palette.
pub fn tile_rgba(palette: &Palette<Color>, tile: &Tile) -> (r: Vec<u8>)
    requires
        indexes_within(palette@, tile.spec_surface().spec_data()),
        4 * tile.spec_surface().spec_data().len() <= usize::MAX,
    ensures
        r@ == rgba_bytes(palette@, tile.spec_surface().spec_data()),
{
    let data = tile.surface().data();
    let mut out: Vec<u8> = Vec::new();
    let mut i: usize = 0;
    while i < data.len()
        invariant
            data@ == tile.spec_surface().spec_data(),
            indexes_within(palette@, data@),
            4 * data@.len() <= usize::MAX,
            i <= data.len(),
            out@ == rgba_bytes(palette@, data@.take(i as int)),
        decreases data.len() - i,
    {
        let color = *palette.get(data[i]).unwrap();
        out.push(color.r);
        out.push(color.g);
        out.push(color.b);
        out.push(0xff);
        i = i + 1;
        proof {
            assert(out@ =~= rgba_bytes(palette@, data@.take(i as int)));
        }
    }
    proof {
        assert(data@.take(data@.len() as int) =~= data@);
    }
    out
}

/// A sprite ready to be drawn: the rectangle it covers, its pixels as RGBA bytes (unflipped, in
/// pixel order) and its flipping flags.
pub struct SpriteImage {
    /// The covered rectangle.
    pub rect: Rect,
    /// The pixels as RGBA bytes.
    pub rgba: Vec<u8>,
    /// Whether the sprite is flipped horizontally.
    pub hflip: bool,
    /// Whether the sprite is flipped vertically.
    pub vflip: bool,
}

/// The rectangle covered by a tile of size `size` placed at `origin`.
pub open spec fn covered_rect(origin: Point, size: Size) -> Rect {
    Rect {
        min: origin,
        max: Point {
            x: crate::unit::ArtworkSpaceUnit((origin.x.0 + size.width.0 - 1) as u32),
            y: crate::unit::ArtworkSpaceUnit((origin.y.0 + size.height.0 - 1) as u32),
        },
    }
}

/// Whether `movie` holds what it takes to draw `sprite`: its palette and its tile exist, the
/// tile's pixels index into the palette, its bytes fit in memory, and the tile placed at the
/// sprite's position covers a rectangle inside the coordinate range.
pub open spec fn drawable(movie: MovieData, sprite: Sprite) -> bool {
    let p = sprite.spec_palette().0 as int;
    let t = sprite.spec_tile().0 as int;
    &&& p < movie.spec_palettes().len()
    &&& t < movie.spec_tiles().len()
    &&& indexes_within(movie.spec_palettes()[p]@, movie.spec_tiles()[t].spec_surface().spec_data())
    &&& 4 * movie.spec_tiles()[t].spec_surface().spec_data().len() <= usize::MAX
    &&& {
        let origin = sprite.spec_position();
        let size = movie.spec_tiles()[t].spec_surface().spec_size();
        &&& origin.x.0 + size.width.0 <= u32::MAX
        &&& origin.y.0 + size.height.0 <= u32::MAX
        &&& origin.x.0 + size.width.0 >= 1
        &&& origin.y.0 + size.height.0 >= 1
        &&& (size.width.0 >= 1 || size.height.0 >= 1)
    }
}

/// The image of `sprite` drawn from `movie`.
pub open spec fn sprite_image_matches(image: SpriteImage, movie: MovieData, sprite: Sprite) -> bool {
    let tile = movie.spec_tiles()[sprite.spec_tile().0 as int];
    &&& image.rect == covered_rect(sprite.spec_position(), tile.spec_surface().spec_size())
    &&& image.rgba@ == rgba_bytes(
        movie.spec_palettes()[sprite.spec_palette().0 as int]@,
        tile.spec_surface().spec_data(),
    )
    &&& image.hflip == sprite.spec_h_flip()
    &&& image.vflip == sprite.spec_v_flip()
}

/// Whether `movie` can draw every sprite of `frame`.
pub open spec fn frame_drawable(movie: MovieData, frame: MovieFrame) -> bool {
    forall|i: int|
        0 <= i < frame.spec_sprites().len() ==> drawable(movie, #[trigger] frame.spec_sprites()[i])
}

/// Tells whether `movie` can draw `sprite`.
pub fn can_draw(movie: &MovieData, sprite: &Sprite) -> (r: bool)
    ensures
        r == drawable(*movie, *sprite),
{
    let p = sprite.palette().0 as usize;
    let t = sprite.tile().0 as usize;
    if p >= movie.palettes().len() || t >= movie.tiles().len() {
        return false;
    }
    let palette = &movie.palettes()[p];
    let surface = movie.tiles()[t].surface();
    let data = surface.data();
    if data.len() > usize::MAX / 4 {
        return false;
    }
    let mut i: usize = 0;
    while i < data.len()
        invariant
            p == sprite.spec_palette().0,
            t == sprite.spec_tile().0,
            p < movie.spec_palettes().len(),
            t < movie.spec_tiles().len(),
            data@ == movie.spec_tiles()[t as int].spec_surface().spec_data(),
            *palette == movie.spec_palettes()[p as int],
            i <= data.len(),
            forall|k: int| 0 <= k < i ==> (#[trigger] data@[k]).0 < palette@.len(),
        decreases data.len() - i,
    {
        if data[i].as_usize() >= palette.len() {
            return false;
        }
        i = i + 1;
    }
    let origin = sprite.position();
    let size = surface.size();
    let x_end = origin.x.0 as u64 + size.width.0 as u64;
    let y_end = origin.y.0 as u64 + size.height.0 as u64;
    x_end <= u32::MAX as u64 && y_end <= u32::MAX as u64 && x_end >= 1 && y_end >= 1 && (
    size.width.0 >= 1 || size.height.0 >= 1)
}

/// The images of the sprites of `frame`, in the frame's order.
///
/// The movie must be able to draw every sprite of the frame.
pub fn extract_sprites(movie: &MovieData, frame: &MovieFrame) -> (r: Vec<SpriteImage>)
    requires
        frame_drawable(*movie, *frame),
    ensures
        r@.len() == frame.spec_sprites().len(),
        forall|i: int|
            0 <= i < r@.len() ==> sprite_image_matches(
                #[trigger] r@[i],
                *movie,
                frame.spec_sprites()[i],
            ),
{
    let sprites = frame.sprites();
    let mut out: Vec<SpriteImage> = Vec::new();
    let mut i: usize = 0;
    while i < sprites.len()
        invariant
            sprites@ == frame.spec_sprites(),
            frame_drawable(*movie, *frame),
            i <= sprites.len(),
            out@.len() == i,
            forall|k: int|
                0 <= k < i ==> sprite_image_matches(#[trigger] out@[k], *movie, sprites@[k]),
        decreases sprites.len() - i,
    {
        let sprite = &sprites[i];
        assert(drawable(*movie, frame.spec_sprites()[i as int]));
        let palette = &movie.palettes()[sprite.palette().0 as usize];
        let tile = &movie.tiles()[sprite.tile().0 as usize];
        let rgba = tile_rgba(palette, tile);
        let rect = Rect::new_from_size(sprite.position(), tile.surface().size());
        out.push(SpriteImage { rect, rgba, hflip: sprite.h_flip(), vflip: sprite.v_flip() });
        i = i + 1;
    }
    out
}

/// A button of the playback controls.
#[derive(Copy, Clone, Debug, PartialEq, Eq, Structural)]
pub enum ControlButton {
    /// Jump to the first frame.
    JumpStart,
    /// Pause and step one frame back.
    StepBackward,
    /// Pause while playing, play while paused.
    PlayPause,
    /// Pause and jump to the first frame.
    Stop,
    /// Pause and step one frame forward.
    StepForward,
    /// Jump to the last frame.
    JumpEnd,
    /// Flip whether playback repeats.
    ToggleRepeat,
}

/// The messages a click on `button` queues, in order, while the controls show `state` and
/// `repeat`.
pub open spec fn spec_button_messages(
    button: ControlButton,
    state: PlaybackState,
    repeat: bool,
) -> Seq<MovieControlMessage> {
    match button {
        ControlButton::JumpStart => seq![MovieControlMessage::Jump(JumpMessage::Start)],
        ControlButton::StepBackward => seq![
            MovieControlMessage::Pause,
            MovieControlMessage::SkipBackward(1),
        ],
        ControlButton::PlayPause => match state {
            PlaybackState::Playing(_) => seq![MovieControlMessage::Pause],
            PlaybackState::Paused => seq![MovieControlMessage::Play],
        },
        ControlButton::Stop => seq![
            MovieControlMessage::Pause,
            MovieControlMessage::Jump(JumpMessage::Start),
        ],
        ControlButton::StepForward => seq![
            MovieControlMessage::Pause,
            MovieControlMessage::SkipForward(1),
        ],
        ControlButton::JumpEnd => seq![MovieControlMessage::Jump(JumpMessage::End)],
        ControlButton::ToggleRepeat => seq![MovieControlMessage::SetRepeat(!repeat)],
    }
}

/// The playback controls: the state they show, and the messages their buttons send.
pub struct MovieControls {
    /// The playback state shown.
    pub playback_state: PlaybackState,
    /// The repeat flag shown.
    pub playback_repeat: bool,
}

impl MovieControls {
    /// Creates controls showing `playback_state` and `playback_repeat`.
    pub fn new(playback_state: PlaybackState, playback_repeat: bool) -> (r: MovieControls)
        ensures
            r.playback_state == playback_state,
            r.playback_repeat == playback_repeat,
    {
        MovieControls { playback_state, playback_repeat }
    }

    /// The messages a click on `button` sends, in order.
    pub fn click(&self, button: ControlButton) -> (r: Vec<MovieControlMessage>)
        ensures
            r@ == spec_button_messages(button, self.playback_state, self.playback_repeat),
    {
        let mut out: Vec<MovieControlMessage> = Vec::new();
        match button {
            ControlButton::JumpStart => {
                out.push(MovieControlMessage::Jump(JumpMessage::Start));
            },
            ControlButton::StepBackward => {
                out.push(MovieControlMessage::Pause);
                out.push(MovieControlMessage::SkipBackward(1));
            },
            ControlButton::PlayPause => match self.playback_state {
                PlaybackState::Playing(_) => {
                    out.push(MovieControlMessage::Pause);
                },
                PlaybackState::Paused => {
                    out.push(MovieControlMessage::Play);
                },
            },
            ControlButton::Stop => {
                out.push(MovieControlMessage::Pause);
                out.push(MovieControlMessage::Jump(JumpMessage::Start));
            },
            ControlButton::StepForward => {
                out.push(MovieControlMessage::Pause);
                out.push(MovieControlMessage::SkipForward(1));
            },
            ControlButton::JumpEnd => {
                out.push(MovieControlMessage::Jump(JumpMessage::End));
            },
            ControlButton::ToggleRepeat => {
                out.push(MovieControlMessage::SetRepeat(!self.playback_repeat));
            },
        }
        proof {
            assert(out@ =~= spec_button_messages(button, self.playback_state, self.playback_repeat));
        }
        out
    }
}

/// The screen rectangle that the piece `piece` of a sprite is drawn to: the piece moved so that
/// its corner wraps around the screen of size `screen`.
pub open spec fn wrapped_piece(piece: Rect, screen: Size) -> Rect {
    covered_rect(
        point(
            (piece.min.x.0 % screen.width.0) as u32,
            (piece.min.y.0 % screen.height.0) as u32,
        ),
        Size {
            width: crate::unit::ArtworkSpaceUnit(piece.spec_width() as u32),
            height: crate::unit::ArtworkSpaceUnit(piece.spec_height() as u32),
        },
    )
}

/// The pieces of the sprite rectangle `sprite` cut along the last column and row of a screen of
/// size `screen`.
pub open spec fn screen_pieces(sprite: Rect, screen: Size) -> Seq<Rect> {
    sprite.spec_intersect_point(
        point((screen.width.0 - 1) as u32, (screen.height.0 - 1) as u32),
    ).spec_parts()
}

/// Where the sprite rectangle `sprite` is drawn on a screen of size `screen`, as pairs of a piece
/// of the sprite and the screen rectangle it goes to: the whole sprite in place when it does not
/// cross the last column or row of the screen, else each piece wrapped around the screen.
pub open spec fn spec_placements(sprite: Rect, screen: Size) -> Seq<(Rect, Rect)> {
    let pieces = screen_pieces(sprite, screen);
    if pieces.len() == 0 {
        seq![(sprite, sprite)]
    } else {
        pieces.map_values(|piece: Rect| (piece, wrapped_piece(piece, screen)))
    }
}

/// Whether every wrapped piece of `sprite` stays inside the coordinate range.
pub open spec fn placements_fit(sprite: Rect, screen: Size) -> bool {
    forall|i: int|
        0 <= i < screen_pieces(sprite, screen).len() ==> {
            let piece = #[trigger] screen_pieces(sprite, screen)[i];
            &&& piece.min.x.0 % screen.width.0 + piece.spec_width() <= u32::MAX
            &&& piece.min.y.0 % screen.height.0 + piece.spec_height() <= u32::MAX
        }
}

/// Computes where a sprite covering `sprite` is drawn on a screen of size `screen`, wrapping the
/// parts that cross the screen's last column or row around to the opposite edges.
///
/// The sprite's width and height must fit in `u32`, and every wrapped piece must stay inside the
/// coordinate range.
pub fn screen_placements(sprite: Rect, screen: Size) -> (r: Vec<(Rect, Rect)>)
    requires
        sprite.is_proper(),
        sprite.spec_width() <= u32::MAX,
        sprite.spec_height() <= u32::MAX,
        screen.width.0 >= 1,
        screen.height.0 >= 1,
        placements_fit(sprite, screen),
    ensures
        r@ == spec_placements(sprite, screen),
{
    let corner = screen.as_rect().max;
    let pieces = sprite.intersect_point(corner).parts();
    proof {
        crate::geom::lemma_intersect_point_partitions(sprite, corner);
    }
    let mut out: Vec<(Rect, Rect)> = Vec::new();
    if pieces.len() == 0 {
        out.push((sprite, sprite));
        proof {
            assert(out@ =~= spec_placements(sprite, screen));
        }
        return out;
    }
    let ghost all = screen_pieces(sprite, screen);
    let mut i: usize = 0;
    while i < pieces.len()
        invariant
            pieces@ == all,
            all == screen_pieces(sprite, screen),
            placements_fit(sprite, screen),
            forall|k: int| 0 <= k < all.len() ==> (#[trigger] all[k]).is_proper(),
            sprite.is_proper(),
            sprite.spec_width() <= u32::MAX,
            sprite.spec_height() <= u32::MAX,
            screen.width.0 >= 1,
            screen.height.0 >= 1,
            forall|k: int|
                0 <= k < all.len() ==> (#[trigger] all[k]).spec_width() <= sprite.spec_width()
                    && all[k].spec_height() <= sprite.spec_height(),
            i <= pieces@.len(),
            out@ == all.take(i as int).map_values(
                |piece: Rect| (piece, wrapped_piece(piece, screen)),
            ),
        decreases pieces@.len() - i,
    {
        let piece = pieces[i];
        let size = piece.size();
        let origin = Point::new(piece.min.x.0 % screen.width.0, piece.min.y.0 % screen.height.0);
        assert(all[i as int] == piece);
        let dest = Rect::new_from_size(origin, size);
        out.push((piece, dest));
        i = i + 1;
        proof {
            assert(out@ =~= all.take(i as int).map_values(
                |piece: Rect| (piece, wrapped_piece(piece, screen)),
            ));
        }
    }
    proof {
        assert(all.take(all.len() as int) =~= all);
    }
    out
}

/// Whether a sprite covering `rect` can be placed on a screen of size `screen` by
/// [`screen_placements`].
pub open spec fn placeable(rect: Rect, screen: Size) -> bool {
    &&& rect.is_proper()
    &&& rect.spec_width() <= u32::MAX
    &&& rect.spec_height() <= u32::MAX
    &&& placements_fit(rect, screen)
}

/// Computes where the sprites of a frame are drawn on a screen of size `screen`, in drawing
/// order: the last sprite first and the first sprite last, so that the first sprite ends up on
/// top. Each entry holds the index of the sprite in `sprites` and its placements as
/// [`screen_placements`] gives them.
pub fn frame_placements(sprites: &[SpriteImage], screen: Size) -> (r: Vec<(usize, Vec<(Rect, Rect)>)>)
    requires
        screen.width.0 >= 1,
        screen.height.0 >= 1,
        forall|i: int| 0 <= i < sprites@.len() ==> placeable(#[trigger] sprites@[i].rect, screen),
    ensures
        r@.len() == sprites@.len(),
        forall|k: int|
            0 <= k < r@.len() ==> (#[trigger] r@[k]).0 == sprites@.len() - 1 - k && r@[k].1@
                == spec_placements(sprites@[sprites@.len() - 1 - k].rect, screen),
{
    let n = sprites.len();
    let mut out: Vec<(usize, Vec<(Rect, Rect)>)> = Vec::new();
    let mut k: usize = 0;
    while k < n
        invariant
            n == sprites@.len(),
            screen.width.0 >= 1,
            screen.height.0 >= 1,
            forall|i: int| 0 <= i < n ==> placeable(#[trigger] sprites@[i].rect, screen),
            k <= n,
            out@.len() == k,
            forall|j: int|
                0 <= j < k ==> (#[trigger] out@[j]).0 == n - 1 - j && out@[j].1@
                    == spec_placements(sprites@[n - 1 - j].rect, screen),
        decreases n - k,
    {
        let index = n - 1 - k;
        assert(placeable(sprites@[index as int].rect, screen));
        let placements = screen_placements(sprites[index].rect, screen);
        out.push((index, placements));
        k = k + 1;
    }
    out
}

} // verus!
