//! Drawing tiles onto the prototype core's RGBA screen buffer.

use crate::geom::{Point, Size};
use crate::sprite::{Color, PaletteIndex, Tile};
use crate::surface::{axis_offsets, grid, second_selection_outside_message, surface_iterate_2, Surface};
use vstd::prelude::*;

verus! {

/// The width of the visible part of the screen.
pub const SCREEN_VISIBLE_WIDTH: u32 = 256;

/// The height of the visible part of the screen.
pub const SCREEN_VISIBLE_HEIGHT: u32 = 224;

/// The width of the screen buffer, into which drawing wraps around.
pub const SCREEN_BUFFER_WIDTH: u32 = 512;

/// The height of the screen buffer, into which drawing wraps around.
pub const SCREEN_BUFFER_HEIGHT: u32 = 256;

/// The number of bytes of the screen buffer: four (RGBA) per pixel.
pub open spec fn screen_buffer_len() -> int {
    4 * SCREEN_BUFFER_WIDTH * SCREEN_BUFFER_HEIGHT
}

/// `screen` with the pixel `dest` set to the opaque color `c`.
pub open spec fn paint(screen: Seq<u8>, dest: int, c: Color) -> Seq<u8> {
    screen.update(4 * dest, c.r).update(4 * dest + 1, c.g).update(4 * dest + 2, c.b).update(
        4 * dest + 3,
        255u8,
    )
}

/// `screen` after the first `count` pixels of a tile have been drawn: pixel `k` of the drawing
/// order reads tile pixel `srcs[k]` and, unless it holds the transparent index 0, paints screen
/// pixel `dests[k]` with its color from `colors`.
pub open spec fn blit(
    screen: Seq<u8>,
    srcs: Seq<int>,
    dests: Seq<int>,
    data: Seq<PaletteIndex>,
    colors: Seq<Color>,
    count: nat,
) -> Seq<u8>
    decreases count,
{
    if count == 0 {
        screen
    } else {
        let before = blit(screen, srcs, dests, data, colors, (count - 1) as nat);
        let k = count - 1;
        let index = data[srcs[k]].0;
        if index == 0 {
            before
        } else {
            paint(before, dests[k], colors[index as int])
        }
    }
}

/// The tile pixels of a tile of size `size`, in drawing order.
pub open spec fn tile_sources(size: Size, hflip: bool, vflip: bool) -> Seq<int> {
    let (w, h) = (size.width.0 as int, size.height.0 as int);
    grid(axis_offsets(0, h - 1, vflip, h), axis_offsets(0, w - 1, hflip, w), w)
}

/// The screen pixels covered by a tile of size `size` drawn at `(x, y)`, in drawing order,
/// wrapping around the edges of the screen buffer.
pub open spec fn screen_targets(size: Size, x: int, y: int) -> Seq<int> {
    let (w, h) = (size.width.0 as int, size.height.0 as int);
    let (bw, bh) = (SCREEN_BUFFER_WIDTH as int, SCREEN_BUFFER_HEIGHT as int);
    grid(axis_offsets(y, y + h - 1, false, bh), axis_offsets(x, x + w - 1, false, bw), bw)
}

/// The message of the error for a tile placed entirely outside the screen buffer.
pub open spec fn render_error_text() -> Seq<char> {
    "Could not render object onto screen buffer: "@ + second_selection_outside_message()
}

/// Whether `tile` can be drawn with `colors`: it has pixels, its data fills its size, and
/// every pixel but the transparent index 0 has a color.
pub open spec fn tile_renderable(tile: Tile, colors: Seq<Color>) -> bool {
    let size = tile.spec_surface().spec_size();
    let data = tile.spec_surface().spec_data();
    &&& size.width.0 >= 1
    &&& size.height.0 >= 1
    &&& data.len() == size.width.0 * size.height.0
    &&& forall|i: int|
        0 <= i < data.len() ==> (#[trigger] data[i]).0 == 0 || data[i].0 < colors.len()
}

/// Draws `tile` onto the RGBA `screen` buffer with its upper left corner at `position`, flipped
/// as asked, skipping pixels of the transparent index 0 and wrapping around the buffer's edges.
///
/// A position entirely outside the buffer is refused with an error and the screen left unchanged.
pub fn render_tile(
    screen: &mut Vec<u8>,
    tile: &Tile,
    colors: &[Color],
    position: (u16, u16),
    hflip: bool,
    vflip: bool,
) -> (r: Result<(), String>)
    requires
        old(screen)@.len() == screen_buffer_len(),
        tile_renderable(*tile, colors@),
        position.0 + tile.spec_surface().spec_size().width.0 <= u32::MAX,
        position.1 + tile.spec_surface().spec_size().height.0 <= u32::MAX,
    ensures
        ({
            let size = tile.spec_surface().spec_size();
            let srcs = tile_sources(size, hflip, vflip);
            let dests = screen_targets(size, position.0 as int, position.1 as int);
            if position.0 < SCREEN_BUFFER_WIDTH && position.1 < SCREEN_BUFFER_HEIGHT {
                &&& r is Ok
                &&& final(screen)@ == blit(
                    old(screen)@,
                    srcs,
                    dests,
                    tile.spec_surface().spec_data(),
                    colors@,
                    (size.width.0 * size.height.0) as nat,
                )
            } else {
                &&& r matches Err(m) && m@ == render_error_text()
                &&& final(screen)@ == old(screen)@
            }
        }),
{
    let surf = tile.surface();
    let size = surf.size();
    let data = surf.data();
    let origin = Point::new(position.0 as u32, position.1 as u32);
    let buffer = Size::new(SCREEN_BUFFER_WIDTH, SCREEN_BUFFER_HEIGHT);
    let ghost srcs = tile_sources(size, hflip, vflip);
    let ghost dests = screen_targets(size, position.0 as int, position.1 as int);
    let ghost n: nat = (size.width.0 * size.height.0) as nat;
    let data_len = data.len();
    assert(size.width.0 * size.height.0 <= usize::MAX);
    match surface_iterate_2(size, size.as_rect(), buffer, origin, hflip, vflip) {
        Ok(pairs) => {
            let mut k: usize = 0;
            while k < pairs.len()
                invariant
                    data@ == tile.spec_surface().spec_data(),
                    size == tile.spec_surface().spec_size(),
                    tile_renderable(*tile, colors@),
                    pairs@.len() == n,
                    srcs.len() == n,
                    dests.len() == n,
                    n == data@.len(),
                    forall|j: int|
                        0 <= j < pairs@.len() ==> (#[trigger] pairs@[j]).0 == srcs[j]
                            && pairs@[j].1 == dests[j] && pairs@[j].0 < data@.len()
                            && pairs@[j].1 < SCREEN_BUFFER_WIDTH * SCREEN_BUFFER_HEIGHT,
                    k <= pairs@.len(),
                    screen@.len() == screen_buffer_len(),
                    screen@ == blit(old(screen)@, srcs, dests, data@, colors@, k as nat),
                decreases pairs@.len() - k,
            {
                let (src_idx, dest_idx) = pairs[k];
                let pal_idx = data[src_idx].as_usize();
                if pal_idx != 0 {
                    let c = colors[pal_idx];
                    let i = 4 * dest_idx;
                    screen.set(i, c.r);
                    screen.set(i + 1, c.g);
                    screen.set(i + 2, c.b);
                    screen.set(i + 3, 255);
                }
                k = k + 1;
            }
            Ok(())
        },
        Err(err) => {
            let mut msg = "Could not render object onto screen buffer: ".to_owned();
            msg.append(err.as_str());
            proof {
                reveal_strlit("Could not render object onto screen buffer: ");
            }
            Err(msg)
        },
    }
}

} // verus!
