//! Movie playback: frame skipping over elapsed time, repeat, and the playback controls.

use ves::geom::{Point, Rect, Size};
use ves::movie::{FrameRate, Movie as MovieData, MovieFrame};
use ves::playback::{
    can_draw, extract_sprites, tile_rgba, ControlButton, JumpMessage, Movie,
    MovieControlMessage, MovieControls, PlaybackState,
};
use ves::sprite::{Color, IndexedSurface, Palette, PaletteIndex, PaletteRef, Sprite, Tile, TileRef};
use ves::surface::Surface;

/// The time each frame is shown at 60 frames per second, in nanoseconds.
const FRAME: u64 = 16_666_666;

fn movie_with_frames(count: u64) -> MovieData {
    let frames = (0..count).map(|n| MovieFrame::new(100 + n, Vec::new())).collect();
    MovieData::new(Size::new(256, 224), Vec::new(), Vec::new(), frames, FrameRate::Ntsc)
}

#[test]
fn new_playback_is_paused_at_the_first_frame() {
    let movie = Movie::new(movie_with_frames(3));
    assert_eq!(movie.position(), 0);
    assert_eq!(movie.frame_duration(), FRAME);
    assert_eq!(movie.playback_state(), PlaybackState::Paused);
    assert!(!movie.playback_repeat());
    assert_eq!(movie.current_frame().frame_number(), 100);

    let pal = Movie::new(MovieData::new(
        Size::new(1, 1),
        Vec::new(),
        Vec::new(),
        vec![MovieFrame::new(0, Vec::new())],
        FrameRate::Pal,
    ));
    assert_eq!(pal.frame_duration(), 20_000_000);
}

#[test]
fn paused_playback_renders_the_first_frame_once() {
    let mut movie = Movie::new(movie_with_frames(3));
    assert!(movie.update(1_000));
    assert!(!movie.update(5 * FRAME));
    assert_eq!(movie.position(), 0);
}

#[test]
fn playing_skips_one_frame_per_frame_time() {
    let mut movie = Movie::new(movie_with_frames(5));
    movie.play(1_000);
    assert_eq!(movie.playback_state(), PlaybackState::Playing(1_000));
    // Less than a frame time: the first frame stays.
    assert!(movie.update(1_000 + FRAME - 1));
    assert_eq!(movie.position(), 0);
    // Two and a half frame times after starting: two frames on, keeping the remainder.
    let now = 1_000 + 2 * FRAME + FRAME / 2;
    assert!(movie.update(now));
    assert_eq!(movie.position(), 2);
    assert_eq!(movie.playback_state(), PlaybackState::Playing(now - FRAME / 2));
    // A second update at the same instant changes nothing.
    assert!(!movie.update(now));
    assert_eq!(movie.position(), 2);
}

#[test]
fn playing_past_the_end_without_repeat_pauses_at_the_last_frame() {
    let mut movie = Movie::new(movie_with_frames(3));
    movie.play(0);
    assert!(movie.update(0));
    assert!(!movie.update(10 * FRAME));
    assert_eq!(movie.position(), 2);
    assert_eq!(movie.playback_state(), PlaybackState::Paused);
}

#[test]
fn playing_with_repeat_wraps_around() {
    let mut movie = Movie::new(movie_with_frames(3));
    movie.push_control_message(MovieControlMessage::SetRepeat(true));
    movie.push_control_message(MovieControlMessage::Play);
    assert!(movie.update(0));
    assert!(movie.playback_repeat());
    // Seven frame times: (0 + 7) % 3 == 1.
    assert!(movie.update(7 * FRAME));
    assert_eq!(movie.position(), 1);
    assert_eq!(movie.playback_state(), PlaybackState::Playing(7 * FRAME));
}

#[test]
fn messages_are_handled_last_queued_first() {
    let mut movie = Movie::new(movie_with_frames(10));
    movie.push_control_message(MovieControlMessage::SkipForward(5));
    movie.push_control_message(MovieControlMessage::Jump(JumpMessage::End));
    movie.push_control_message(MovieControlMessage::SkipBackward(2));
    // Backward 2 from 0 stays at 0, then the jump to 9, then forward 5 stays at 9.
    movie.update(0);
    assert_eq!(movie.position(), 9);

    movie.push_control_message(MovieControlMessage::Jump(JumpMessage::Start));
    movie.push_control_message(MovieControlMessage::SkipBackward(3));
    // Back 3 to 6, then the jump to the start.
    movie.update(0);
    assert_eq!(movie.position(), 0);
}

#[test]
fn stepping_through_the_controls() {
    let mut movie = Movie::new(movie_with_frames(4));
    let controls = MovieControls::new(movie.playback_state(), movie.playback_repeat());
    for msg in controls.click(ControlButton::StepForward) {
        movie.push_control_message(msg);
    }
    assert!(movie.update(0));
    assert_eq!(movie.position(), 1);
    assert_eq!(movie.playback_state(), PlaybackState::Paused);

    let controls = MovieControls::new(movie.playback_state(), movie.playback_repeat());
    assert_eq!(controls.click(ControlButton::PlayPause), vec![MovieControlMessage::Play]);
    assert_eq!(
        controls.click(ControlButton::Stop),
        vec![MovieControlMessage::Pause, MovieControlMessage::Jump(JumpMessage::Start)]
    );
    assert_eq!(
        controls.click(ControlButton::ToggleRepeat),
        vec![MovieControlMessage::SetRepeat(true)]
    );
    let playing = MovieControls::new(PlaybackState::Playing(5), true);
    assert_eq!(playing.click(ControlButton::PlayPause), vec![MovieControlMessage::Pause]);
    assert_eq!(
        playing.click(ControlButton::StepBackward),
        vec![MovieControlMessage::Pause, MovieControlMessage::SkipBackward(1)]
    );
    assert_eq!(
        playing.click(ControlButton::JumpEnd),
        vec![MovieControlMessage::Jump(JumpMessage::End)]
    );
}

#[test]
fn play_while_playing_keeps_the_frame_instant() {
    let mut movie = Movie::new(movie_with_frames(2));
    movie.play(10);
    movie.play(500);
    assert_eq!(movie.playback_state(), PlaybackState::Playing(10));
    movie.pause();
    assert_eq!(movie.playback_state(), PlaybackState::Paused);
}

fn two_color_tile() -> Tile {
    let mut surface = IndexedSurface::new(Size::new(2, 2));
    surface.data_mut()[1] = PaletteIndex::new(1);
    surface.data_mut()[2] = PaletteIndex::new(1);
    Tile::new(surface)
}

#[test]
fn tile_rgba_colors_every_pixel_opaquely() {
    let mut palette = Palette::new_filled(2, Color::new(1, 2, 3));
    palette.set(PaletteIndex::new(1), Color::new(9, 8, 7));
    let tile = two_color_tile();
    let rgba = tile_rgba(&palette, &tile);
    assert_eq!(rgba, vec![1, 2, 3, 255, 9, 8, 7, 255, 9, 8, 7, 255, 1, 2, 3, 255]);
}

#[test]
fn extract_sprites_places_and_colors_each_sprite() {
    let palette = Palette::new_filled(1, Color::new(10, 20, 30));
    let tile = Tile::new(IndexedSurface::new(Size::new(2, 1)));
    let sprite = Sprite::new(TileRef(0), PaletteRef(0), Point::new(5, 6), true, false);
    let frame = MovieFrame::new(0, vec![sprite]);
    let movie = MovieData::new(Size::new(256, 224), vec![palette], vec![tile], Vec::new(), FrameRate::Ntsc);
    assert!(can_draw(&movie, &sprite));
    let images = extract_sprites(&movie, &frame);
    assert_eq!(images.len(), 1);
    assert_eq!(images[0].rect, Rect::new(Point::new(5, 6), Point::new(6, 6)));
    assert_eq!(images[0].rgba, vec![10, 20, 30, 255, 10, 20, 30, 255]);
    assert!(images[0].hflip);
    assert!(!images[0].vflip);

    let missing_palette = Sprite::new(TileRef(0), PaletteRef(1), Point::new(0, 0), false, false);
    assert!(!can_draw(&movie, &missing_palette));
    let missing_tile = Sprite::new(TileRef(3), PaletteRef(0), Point::new(0, 0), false, false);
    assert!(!can_draw(&movie, &missing_tile));
    let outside = Sprite::new(TileRef(0), PaletteRef(0), Point::new(u32::MAX, 0), false, false);
    assert!(!can_draw(&movie, &outside));
    assert_eq!(movie.tiles()[0].surface().size(), Size::new(2, 1));
}

#[test]
fn playback_time_adds_up() {
    let start = 1_000u64;
    let t1 = start + 3 * FRAME + 123;
    let t2 = start + 7 * FRAME + 4_567;

    let mut stepwise = Movie::new(movie_with_frames(10));
    stepwise.play(start);
    stepwise.update(t1);
    stepwise.update(t2);

    let mut at_once = Movie::new(movie_with_frames(10));
    at_once.play(start);
    at_once.update(t2);

    assert_eq!(stepwise.position(), 7);
    assert_eq!(stepwise.position(), at_once.position());
    assert_eq!(stepwise.playback_state(), at_once.playback_state());
}
