//! The looping movie player.

use ves::geom::{Point, Rect, Size};
use ves::looping::{flipped_tile_rgba, frame_textures, Movie};
use ves::movie::{FrameRate, Movie as MovieData, MovieFrame};
use ves::playback::PlaybackState;
use ves::sprite::{Color, IndexedSurface, Palette, PaletteIndex, PaletteRef, Sprite, Tile, TileRef};
use ves::surface::Surface;

const FRAME: u64 = 16_666_666;

fn movie(frames: u64) -> MovieData {
    let frames = (0..frames).map(|n| MovieFrame::new(n, Vec::new())).collect();
    MovieData::new(Size::new(256, 224), Vec::new(), Vec::new(), frames, FrameRate::Ntsc)
}

#[test]
fn looping_player_cycles_through_the_frames() {
    let mut player = Movie::new(movie(3));
    assert_eq!(player.current_frame(), None);
    assert!(!player.update(10 * FRAME));
    assert!(player.play(0));
    assert_eq!(player.current_frame(), Some(0));
    assert_eq!(player.playback_state(), PlaybackState::Playing(0));
    assert!(!player.update(FRAME - 1));
    let shown: Vec<usize> = (0..5)
        .map(|_| {
            assert!(player.update(FRAME));
            player.current_frame().unwrap()
        })
        .collect();
    assert_eq!(shown, vec![1, 2, 0, 1, 2]);
    assert!(!player.play(5 * FRAME));
}

#[test]
fn looping_player_without_frames_shows_nothing() {
    let mut player = Movie::new(movie(0));
    assert!(!player.play(0));
    assert!(!player.update(FRAME));
    assert_eq!(player.current_frame(), None);
}

fn palette4() -> Palette<Color> {
    let mut palette = Palette::new_filled(4, Color::new(0, 0, 0));
    palette.set(PaletteIndex::new(1), Color::new(1, 1, 1));
    palette.set(PaletteIndex::new(2), Color::new(2, 2, 2));
    palette.set(PaletteIndex::new(3), Color::new(3, 3, 3));
    palette
}

/// A 2x2 tile whose pixels hold the indices 0, 1, 2, 3 in row order.
fn counting_tile() -> Tile {
    let mut surface = IndexedSurface::new(Size::new(2, 2));
    for i in 0..4u16 {
        surface.data_mut()[i as usize] = PaletteIndex::new(i);
    }
    Tile::new(surface)
}

fn grey_levels(rgba: &[u8]) -> Vec<u8> {
    rgba.chunks(4)
        .map(|px| {
            assert_eq!(px[3], 255);
            px[0]
        })
        .collect()
}

#[test]
fn flipped_tile_rgba_visits_the_pixels_in_flipped_order() {
    let palette = palette4();
    let tile = counting_tile();
    let plain = flipped_tile_rgba(&palette, &tile, false, false);
    assert_eq!(plain, vec![0, 0, 0, 255, 1, 1, 1, 255, 2, 2, 2, 255, 3, 3, 3, 255]);
    assert_eq!(grey_levels(&flipped_tile_rgba(&palette, &tile, true, false)), vec![1, 0, 3, 2]);
    assert_eq!(grey_levels(&flipped_tile_rgba(&palette, &tile, false, true)), vec![2, 3, 0, 1]);
    assert_eq!(grey_levels(&flipped_tile_rgba(&palette, &tile, true, true)), vec![3, 2, 1, 0]);
}

#[test]
fn flipped_tile_rgba_handles_a_tile_one_column_or_row_wide() {
    let palette = palette4();
    let mut surface = IndexedSurface::new(Size::new(1, 3));
    for i in 0..3u16 {
        surface.data_mut()[i as usize] = PaletteIndex::new(i + 1);
    }
    let column = Tile::new(surface);
    assert_eq!(grey_levels(&flipped_tile_rgba(&palette, &column, false, false)), vec![1, 2, 3]);
    assert_eq!(grey_levels(&flipped_tile_rgba(&palette, &column, true, true)), vec![3, 2, 1]);
    let mut surface = IndexedSurface::new(Size::new(3, 1));
    for i in 0..3u16 {
        surface.data_mut()[i as usize] = PaletteIndex::new(i + 1);
    }
    let row = Tile::new(surface);
    assert_eq!(grey_levels(&flipped_tile_rgba(&palette, &row, true, false)), vec![3, 2, 1]);
    assert_eq!(grey_levels(&flipped_tile_rgba(&palette, &row, false, true)), vec![1, 2, 3]);
}

#[test]
fn frame_textures_lists_the_last_sprite_first() {
    let first = Sprite::new(TileRef(0), PaletteRef(0), Point::new(10, 20), true, false);
    let second = Sprite::new(TileRef(0), PaletteRef(0), Point::new(0, 0), false, false);
    let frame = MovieFrame::new(0, vec![first, second]);
    let movie = MovieData::new(Size::new(256, 224), vec![palette4()], vec![counting_tile()], Vec::new(), FrameRate::Ntsc);
    let textures = frame_textures(&movie, &frame);
    assert_eq!(textures.len(), 2);
    assert_eq!(textures[0].rect, Rect::new(Point::new(0, 0), Point::new(1, 1)));
    assert_eq!(grey_levels(&textures[0].rgba), vec![0, 1, 2, 3]);
    assert_eq!(textures[1].rect, Rect::new(Point::new(10, 20), Point::new(11, 21)));
    assert_eq!(grey_levels(&textures[1].rgba), vec![1, 0, 3, 2]);
}
