//! Movies: sequences of frames of sprites, with the palettes and tiles the sprites refer to.

use crate::geom::Size;
use crate::sprite::{Color, Palette, Sprite, Tile};
use vstd::prelude::*;

verus! {

/// The frame rate of a movie.
#[derive(Copy, Clone, Debug, PartialEq, Eq, Structural)]
pub enum FrameRate {
    /// 60 frames per second.
    Ntsc,
    /// 50 frames per second.
    Pal,
}

impl FrameRate {
    /// The number of frames per second.
    pub open spec fn spec_fps(self) -> u64 {
        match self {
            FrameRate::Ntsc => 60,
            FrameRate::Pal => 50,
        }
    }

    /// Retrieves the number of frames per second.
    pub fn fps(&self) -> (r: u64)
        ensures
            r == self.spec_fps(),
    {
        match self {
            FrameRate::Ntsc => 60,
            FrameRate::Pal => 50,
        }
    }
}

/// A movie.
pub struct Movie {
    screen_size: Size,
    palettes: Vec<Palette<Color>>,
    tiles: Vec<Tile>,
    frames: Vec<MovieFrame>,
    frame_rate: FrameRate,
}

impl Movie {
    /// The screen size.
    pub closed spec fn spec_screen_size(&self) -> Size {
        self.screen_size
    }

    /// The palettes.
    pub closed spec fn spec_palettes(&self) -> Seq<Palette<Color>> {
        self.palettes@
    }

    /// The tiles.
    pub closed spec fn spec_tiles(&self) -> Seq<Tile> {
        self.tiles@
    }

    /// The frames.
    pub closed spec fn spec_frames(&self) -> Seq<MovieFrame> {
        self.frames@
    }

    /// The frame rate.
    pub closed spec fn spec_frame_rate(&self) -> FrameRate {
        self.frame_rate
    }

    /// Creates a new instance.
    pub fn new(
        screen_size: Size,
        palettes: Vec<Palette<Color>>,
        tiles: Vec<Tile>,
        frames: Vec<MovieFrame>,
        frame_rate: FrameRate,
    ) -> (r: Movie)
        ensures
            r.spec_screen_size() == screen_size,
            r.spec_palettes() == palettes@,
            r.spec_tiles() == tiles@,
            r.spec_frames() == frames@,
            r.spec_frame_rate() == frame_rate,
    {
        Movie { screen_size, palettes, tiles, frames, frame_rate }
    }

    /// Retrieves the screen size.
    pub fn screen_size(&self) -> (r: Size)
        ensures
            r == self.spec_screen_size(),
    {
        self.screen_size
    }

    /// Retrieves the palettes.
    pub fn palettes(&self) -> (r: &[Palette<Color>])
        ensures
            r@ == self.spec_palettes(),
    {
        self.palettes.as_slice()
    }

    /// Retrieves the tiles.
    pub fn tiles(&self) -> (r: &[Tile])
        ensures
            r@ == self.spec_tiles(),
    {
        self.tiles.as_slice()
    }

    /// Retrieves the frames.
    pub fn frames(&self) -> (r: &[MovieFrame])
        ensures
            r@ == self.spec_frames(),
    {
        self.frames.as_slice()
    }

    /// Retrieves the frame rate.
    pub fn frame_rate(&self) -> (r: FrameRate)
        ensures
            r == self.spec_frame_rate(),
    {
        self.frame_rate
    }
}

/// A frame of a movie: its number and the sprites shown.
pub struct MovieFrame {
    frame_number: u64,
    sprites: Vec<Sprite>,
}

impl MovieFrame {
    /// The frame number.
    pub closed spec fn spec_frame_number(&self) -> u64 {
        self.frame_number
    }

    /// The sprites.
    pub closed spec fn spec_sprites(&self) -> Seq<Sprite> {
        self.sprites@
    }

    /// Creates a new instance.
    pub fn new(frame_number: u64, sprites: Vec<Sprite>) -> (r: MovieFrame)
        ensures
            r.spec_frame_number() == frame_number,
            r.spec_sprites() == sprites@,
    {
        MovieFrame { frame_number, sprites }
    }

    /// Retrieves the frame number.
    pub fn frame_number(&self) -> (r: u64)
        ensures
            r == self.spec_frame_number(),
    {
        self.frame_number
    }

    /// Retrieves the sprites.
    pub fn sprites(&self) -> (r: &[Sprite])
        ensures
            r@ == self.spec_sprites(),
    {
        self.sprites.as_slice()
    }
}

} // verus!
