//! A minimal movie player that loops over the frames of a movie without end.
//!
//! Once playing, every update at least one frame time after the instant playing started shows the
//! next frame, starting over after the last one.

use crate::geom::{Point, Rect};
use crate::movie::Movie as MovieData;
use crate::movie::MovieFrame;
use crate::playback::{
    covered_rect, drawable, indexes_within, rgba_bytes, PlaybackState, NANOS_PER_SECOND,
};
use crate::render::tile_sources;
use crate::sprite::{Color, Palette, PaletteIndex, Sprite, Tile};
use crate::surface::{surface_iterate_2, Surface};
use vstd::prelude::*;

verus! {

/// The frame shown after `frame` in a loop over `length` frames (the first frame after none).
pub open spec fn next_in_loop(frame: Option<usize>, length: int) -> Option<usize> {
    if length == 0 {
        None
    } else {
        match frame {
            None => Some(0usize),
            Some(i) => Some(((i + 1) % length) as usize),
        }
    }
}

/// The frame shown after `steps` further frames from `frame`.
pub open spec fn after_steps(frame: Option<usize>, length: int, steps: nat) -> Option<usize>
    decreases steps,
{
    if steps == 0 {
        frame
    } else {
        next_in_loop(after_steps(frame, length, (steps - 1) as nat), length)
    }
}

/// The loop cycles through the frames in order: the `k`-th frame shown (counting from zero) is
/// frame `k % length`.
pub proof fn lemma_loop_cycles(length: int, k: nat)
    requires
        0 < length <= usize::MAX,
    ensures
        after_steps(None, length, k + 1) == Some(((k as int) % length) as usize),
    decreases k,
{
    if k == 0 {
        vstd::arithmetic::div_mod::lemma_small_mod(0, length as nat);
    } else {
        lemma_loop_cycles(length, (k - 1) as nat);
        let prev = (k - 1) as int % length;
        let q = (k - 1) as int / length;
        vstd::arithmetic::div_mod::lemma_fundamental_div_mod((k - 1) as int, length);
        assert(length * q == q * length) by (nonlinear_arith);
        if prev + 1 < length {
            vstd::arithmetic::div_mod::lemma_fundamental_div_mod_converse(k as int, length, q, prev + 1);
            vstd::arithmetic::div_mod::lemma_small_mod((prev + 1) as nat, length as nat);
        } else {
            assert(k == (q + 1) * length + 0) by (nonlinear_arith)
                requires
                    k - 1 == q * length + prev,
                    prev + 1 == length,
            ;
            vstd::arithmetic::div_mod::lemma_fundamental_div_mod_converse(k as int, length, q + 1, 0);
            vstd::arithmetic::div_mod::lemma_mod_self_0(length);
        }
        assert(after_steps(None, length, k) == Some(prev as usize));
        assert((prev as usize + 1) % length == (k as int) % length);
    }
}

/// A player that loops over the frames of a movie.
pub struct Movie {
    movie: MovieData,
    next_frame: usize,
    frame_duration: u64,
    playback_state: PlaybackState,
    current_frame: Option<usize>,
}

impl Movie {
    /// The movie played.
    pub closed spec fn spec_movie(&self) -> MovieData {
        self.movie
    }

    /// The number of frames.
    pub closed spec fn spec_length(&self) -> int {
        self.movie.spec_frames().len() as int
    }

    /// How long each frame is shown, in nanoseconds.
    pub closed spec fn spec_frame_duration(&self) -> int {
        self.frame_duration as int
    }

    /// Whether the movie is playing, and since when.
    pub closed spec fn spec_state(&self) -> PlaybackState {
        self.playback_state
    }

    /// The frame shown, if any.
    pub closed spec fn spec_current(&self) -> Option<usize> {
        self.current_frame
    }

    /// The frame shown lies in the movie, and the next frame follows it in the loop.
    pub closed spec fn well_formed(&self) -> bool {
        &&& self.frame_duration > 0
        &&& self.next_frame <= self.movie.spec_frames().len()
        &&& match self.current_frame {
            None => self.next_frame == 0,
            Some(i) => i < self.movie.spec_frames().len() && self.next_frame == i + 1,
        }
    }

    /// Creates a paused player that shows no frame yet.
    pub fn new(movie: MovieData) -> (r: Movie)
        ensures
            r.well_formed(),
            r.spec_movie() == movie,
            r.spec_frame_duration() == NANOS_PER_SECOND / movie.spec_frame_rate().spec_fps(),
            r.spec_state() == PlaybackState::Paused,
            r.spec_current() is None,
    {
        let frame_duration = NANOS_PER_SECOND / movie.frame_rate().fps();
        Movie {
            movie,
            next_frame: 0,
            frame_duration,
            playback_state: PlaybackState::Paused,
            current_frame: None,
        }
    }

    /// Retrieves the frame shown, if any.
    pub fn current_frame(&self) -> (r: Option<usize>)
        ensures
            r == self.spec_current(),
    {
        self.current_frame
    }

    /// Retrieves the playback state.
    pub fn playback_state(&self) -> (r: PlaybackState)
        ensures
            r == self.spec_state(),
    {
        self.playback_state
    }

    /// Shows the next frame of the loop; returns whether there is one (a movie without frames has
    /// none).
    fn next_frame(&mut self) -> (r: bool)
        requires
            old(self).well_formed(),
        ensures
            final(self).well_formed(),
            final(self).spec_movie() == old(self).spec_movie(),
            final(self).spec_frame_duration() == old(self).spec_frame_duration(),
            final(self).spec_state() == old(self).spec_state(),
            r == (old(self).spec_length() > 0),
            r ==> final(self).spec_current() == next_in_loop(
                old(self).spec_current(),
                old(self).spec_length(),
            ),
            !r ==> final(self).spec_current() == old(self).spec_current(),
    {
        let length = self.movie.frames().len();
        if length == 0 {
            return false;
        }
        let index = if self.next_frame < length {
            self.next_frame
        } else {
            0
        };
        self.current_frame = Some(index);
        self.next_frame = index + 1;
        proof {
            match old(self).spec_current() {
                None => {},
                Some(i) => {
                    if i + 1 < length {
                        vstd::arithmetic::div_mod::lemma_small_mod((i + 1) as nat, length as nat);
                    } else {
                        vstd::arithmetic::div_mod::lemma_mod_self_0(length as int);
                    }
                },
            }
        }
        true
    }

    /// Starts playing at the instant `now` and shows the next frame; no effect while playing.
    /// Returns whether a frame was shown.
    pub fn play(&mut self, now: u64) -> (r: bool)
        requires
            old(self).well_formed(),
        ensures
            final(self).well_formed(),
            final(self).spec_movie() == old(self).spec_movie(),
            final(self).spec_frame_duration() == old(self).spec_frame_duration(),
            old(self).spec_state() is Playing ==> !r && final(self).spec_state()
                == old(self).spec_state() && final(self).spec_current() == old(self).spec_current(),
            old(self).spec_state() is Paused ==> final(self).spec_state() == PlaybackState::Playing(
                now,
            ) && r == (old(self).spec_length() > 0) && (r ==> final(self).spec_current()
                == next_in_loop(old(self).spec_current(), old(self).spec_length())),
    {
        match self.playback_state {
            PlaybackState::Paused => {
                self.playback_state = PlaybackState::Playing(now);
                self.next_frame()
            },
            PlaybackState::Playing(_) => false,
        }
    }

    /// Shows the next frame when playing and at least one frame time has passed since playing
    /// started; returns whether a frame was shown.
    pub fn update(&mut self, now: u64) -> (r: bool)
        requires
            old(self).well_formed(),
        ensures
            final(self).well_formed(),
            final(self).spec_movie() == old(self).spec_movie(),
            final(self).spec_frame_duration() == old(self).spec_frame_duration(),
            final(self).spec_state() == old(self).spec_state(),
            ({
                let due = match old(self).spec_state() {
                    PlaybackState::Paused => false,
                    PlaybackState::Playing(since) => since + old(self).spec_frame_duration()
                        <= now,
                };
                &&& r == (due && old(self).spec_length() > 0)
                &&& r ==> final(self).spec_current() == next_in_loop(
                    old(self).spec_current(),
                    old(self).spec_length(),
                )
                &&& !r ==> final(self).spec_current() == old(self).spec_current()
            }),
    {
        match self.playback_state {
            PlaybackState::Paused => false,
            PlaybackState::Playing(since) => {
                if since <= now && now - since >= self.frame_duration {
                    self.next_frame()
                } else {
                    false
                }
            },
        }
    }
}


/// The pixels of `data` in the order that `order` lists their indices.
pub open spec fn reordered(data: Seq<PaletteIndex>, order: Seq<int>) -> Seq<PaletteIndex> {
    order.map_values(|i: int| data[i])
}

/// The RGBA bytes of `tile` colored through `palette`, its pixels visited with the flips asked
/// (right to left for `hflip`, bottom to top for `vflip`).
pub open spec fn flipped_rgba(palette: Seq<Color>, tile: Tile, hflip: bool, vflip: bool) -> Seq<
    u8,
> {
    let surf = tile.spec_surface();
    rgba_bytes(palette, reordered(surf.spec_data(), tile_sources(surf.spec_size(), hflip, vflip)))
}

/// Whether all the pixels of `tile` can be visited: it has pixels, its data fills its size, and
/// four bytes per pixel fit in memory.
pub open spec fn tile_shaped(tile: Tile) -> bool {
    let size = tile.spec_surface().spec_size();
    &&& size.width.0 >= 1
    &&& size.height.0 >= 1
    &&& tile.spec_surface().spec_data().len() == size.width.0 * size.height.0
    &&& 4 * (size.width.0 * size.height.0) <= usize::MAX
}

/// Colors the pixels of `tile` through `palette`, visiting them flipped as asked, and gives their
/// RGBA bytes in visiting order.
pub fn flipped_tile_rgba(palette: &Palette<Color>, tile: &Tile, hflip: bool, vflip: bool) -> (r:
    Vec<u8>)
    requires
        tile_shaped(*tile),
        indexes_within(palette@, tile.spec_surface().spec_data()),
    ensures
        r@ == flipped_rgba(palette@, *tile, hflip, vflip),
{
    let surf = tile.surface();
    let size = surf.size();
    let data = surf.data();
    let ghost srcs = tile_sources(size, hflip, vflip);
    let ghost pixels = reordered(data@, srcs);
    assert(size.width.0 * size.height.0 <= usize::MAX);
    let pairs = surface_iterate_2(size, size.as_rect(), size, Point::new(0, 0), hflip, vflip).unwrap();
    let mut out: Vec<u8> = Vec::new();
    let mut k: usize = 0;
    while k < pairs.len()
        invariant
            data@ == tile.spec_surface().spec_data(),
            indexes_within(palette@, data@),
            pairs@.len() == srcs.len(),
            srcs.len() == data@.len(),
            pixels == reordered(data@, srcs),
            4 * data@.len() <= usize::MAX,
            forall|j: int|
                0 <= j < pairs@.len() ==> (#[trigger] pairs@[j]).0 == srcs[j] && pairs@[j].0
                    < data@.len(),
            k <= pairs@.len(),
            out@ == rgba_bytes(palette@, pixels.take(k as int)),
        decreases pairs@.len() - k,
    {
        let src = pairs[k].0;
        let color = *palette.get(data[src]).unwrap();
        out.push(color.r);
        out.push(color.g);
        out.push(color.b);
        out.push(0xff);
        k = k + 1;
        proof {
            assert(out@ =~= rgba_bytes(palette@, pixels.take(k as int)));
        }
    }
    proof {
        assert(pixels.take(pixels.len() as int) =~= pixels);
    }
    out
}

/// A sprite's texture: the rectangle it covers and its pixels as RGBA bytes, flipped as the
/// sprite asks.
pub struct SpriteTexture {
    /// The covered rectangle.
    pub rect: Rect,
    /// The flipped pixels as RGBA bytes.
    pub rgba: Vec<u8>,
}

/// Whether `movie` can make the texture of `sprite`: it can draw the sprite, and the sprite's
/// tile has pixels with data that fills its size.
pub open spec fn texturable(movie: MovieData, sprite: Sprite) -> bool {
    let tile = movie.spec_tiles()[sprite.spec_tile().0 as int];
    let size = tile.spec_surface().spec_size();
    &&& drawable(movie, sprite)
    &&& tile.spec_surface().spec_data().len() == size.width.0 * size.height.0
    &&& size.width.0 >= 1
    &&& size.height.0 >= 1
}

/// The texture of `sprite` made from `movie`.
pub open spec fn texture_matches(texture: SpriteTexture, movie: MovieData, sprite: Sprite) -> bool {
    let tile = movie.spec_tiles()[sprite.spec_tile().0 as int];
    &&& texture.rect == covered_rect(sprite.spec_position(), tile.spec_surface().spec_size())
    &&& texture.rgba@ == flipped_rgba(
        movie.spec_palettes()[sprite.spec_palette().0 as int]@,
        tile,
        sprite.spec_h_flip(),
        sprite.spec_v_flip(),
    )
}

/// The textures of the frame's sprites, last sprite first, each flipped as its sprite asks.
///
/// The movie must be able to make the texture of every sprite of the frame.
pub fn frame_textures(movie: &MovieData, frame: &MovieFrame) -> (r: Vec<SpriteTexture>)
    requires
        forall|i: int|
            0 <= i < frame.spec_sprites().len() ==> texturable(
                *movie,
                #[trigger] frame.spec_sprites()[i],
            ),
    ensures
        r@.len() == frame.spec_sprites().len(),
        forall|k: int|
            0 <= k < r@.len() ==> texture_matches(
                #[trigger] r@[k],
                *movie,
                frame.spec_sprites()[r@.len() - 1 - k],
            ),
{
    let sprites = frame.sprites();
    let n = sprites.len();
    let mut out: Vec<SpriteTexture> = Vec::new();
    let mut k: usize = 0;
    while k < n
        invariant
            sprites@ == frame.spec_sprites(),
            n == sprites@.len(),
            forall|i: int| 0 <= i < n ==> texturable(*movie, #[trigger] sprites@[i]),
            k <= n,
            out@.len() == k,
            forall|m: int|
                0 <= m < k ==> texture_matches(#[trigger] out@[m], *movie, sprites@[n - 1 - m]),
        decreases n - k,
    {
        let sprite = &sprites[n - 1 - k];
        assert(texturable(*movie, sprites@[n - 1 - k]));
        let palette = &movie.palettes()[sprite.palette().0 as usize];
        let tile = &movie.tiles()[sprite.tile().0 as usize];
        let rgba = flipped_tile_rgba(palette, tile, sprite.h_flip(), sprite.v_flip());
        let rect = Rect::new_from_size(sprite.position(), tile.surface().size());
        out.push(SpriteTexture { rect, rgba });
        k = k + 1;
    }
    out
}

} // verus!
