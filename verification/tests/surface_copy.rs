//! Copies between surfaces driven by the surface iterators: every case copies a selection of a
//! 12 x 8 source surface into an empty surface of the same size, with flipping and wrapping.

use ves::geom::{Point, Rect, Size};
use ves::sprite::GenericSurface;
use ves::surface::{surface_iterate_2, AxisKind, Surface, SurfaceIter};

type Surfy = GenericSurface<u8>;

const SOURCE_DATA: [u8; 12 * 8] = [
    0, 0, 0, 1, 1, 1, 1, 1, 0, 0, 0, 0,
    0, 0, 1, 1, 1, 1, 1, 1, 1, 1, 1, 0,
    0, 0, 2, 2, 2, 3, 3, 2, 3, 0, 0, 0,
    0, 2, 3, 2, 3, 3, 3, 2, 3, 3, 3, 0,
    0, 2, 3, 2, 2, 3, 3, 3, 2, 3, 3, 3,
    0, 2, 2, 3, 3, 3, 3, 2, 2, 2, 2, 0,
    0, 0, 0, 3, 3, 3, 3, 3, 3, 3, 0, 0,
    0, 0, 1, 1, 4, 1, 1, 1, 1, 0, 0, 0,
];

const EMPTY_DATA: [u8; 12 * 8] = [0; 12 * 8];

/// The rectangle with corners `(min_x, min_y)` and `(max_x, max_y)`.
fn rect(min_x: u32, min_y: u32, max_x: u32, max_y: u32) -> Rect {
    Rect::new(Point::new(min_x, min_y), Point::new(max_x, max_y))
}

/// The rectangle at `(x, y)` of the given width and height.
fn rect_size(x: u32, y: u32, width: u32, height: u32) -> Rect {
    Rect::new_from_size(Point::new(x, y), Size::new(width, height))
}

/// The data indices of a selection, visited right to left with `hflip` and bottom to top with
/// `vflip`, wrapping around the surface's edges.
fn surface_iter(size: Size, rect: Rect, hflip: bool, vflip: bool) -> Vec<usize> {
    let x_kind = if hflip { AxisKind::DescendingWrap } else { AxisKind::AscendingWrap };
    let y_kind = if vflip { AxisKind::DescendingWrap } else { AxisKind::AscendingWrap };
    let mut iter = SurfaceIter::new(size, rect, x_kind, y_kind).unwrap();
    let mut out = Vec::new();
    while let Some(index) = iter.next() {
        out.push(index);
    }
    out
}

fn copy_data(src_surf: &Surfy, dest_surf: &mut Surfy, src_iter: Vec<usize>, dest_iter: Vec<usize>) {
    let src = src_surf.data();
    let dest = dest_surf.data_mut();
    for (src_idx, dest_idx) in src_iter.into_iter().zip(dest_iter) {
        dest[dest_idx] = src[src_idx];
    }
}

fn copy_data_2(
    src_surf: &Surfy,
    dest_surf: &mut Surfy,
    (src_rect, hflip, vflip): (Rect, bool, bool),
    dest_point: Point,
) {
    let src_size = src_surf.size();
    let dest_size = dest_surf.size();
    let src = src_surf.data();
    let dest = dest_surf.data_mut();
    let pairs = surface_iterate_2(src_size, src_rect, dest_size, dest_point, hflip, vflip).unwrap();
    for (src_idx, dest_idx) in pairs {
        dest[dest_idx] = src[src_idx];
    }
}

fn create_source() -> Surfy {
    let mut src = Surfy::new(Size::new(12, 8), 0);
    assert_eq!(&EMPTY_DATA, src.data());

    src.data_mut().copy_from_slice(&SOURCE_DATA);
    assert_eq!(&SOURCE_DATA, src.data());
    src
}

/// Test with a copy of the entire source surface.
#[test]
fn surface_test_full_copy_no_flip() {
    // No flipping
    {
        let src = create_source();
        let mut dest = Surfy::new(src.size(), 0);
        let src_iter = surface_iter(src.size(), Rect::new_from_size(Point::new(0, 0), src.size()), false, false);
        let dest_iter = surface_iter(dest.size(), Rect::new_from_size(Point::new(0, 0), dest.size()), false, false);
        copy_data(&src, &mut dest, src_iter, dest_iter);
        assert_eq!(&SOURCE_DATA, dest.data());
    }

    // H-flip on both
    {
        let src = create_source();
        let mut dest = Surfy::new(src.size(), 0);
        let src_iter = surface_iter(src.size(), Rect::new_from_size(Point::new(0, 0), src.size()), true, false);
        let dest_iter = surface_iter(dest.size(), Rect::new_from_size(Point::new(0, 0), dest.size()), true, false);
        copy_data(&src, &mut dest, src_iter, dest_iter);
        assert_eq!(&SOURCE_DATA, dest.data());
    }

    // V-flip on both
    {
        let src = create_source();
        let mut dest = Surfy::new(src.size(), 0);
        let src_iter = surface_iter(src.size(), Rect::new_from_size(Point::new(0, 0), src.size()), false, true);
        let dest_iter = surface_iter(dest.size(), Rect::new_from_size(Point::new(0, 0), dest.size()), false, true);
        copy_data(&src, &mut dest, src_iter, dest_iter);
        assert_eq!(&SOURCE_DATA, dest.data());
    }

    // H-flip and v-flip on both
    {
        let src = create_source();
        let mut dest = Surfy::new(src.size(), 0);
        let src_iter = surface_iter(src.size(), Rect::new_from_size(Point::new(0, 0), src.size()), true, true);
        let dest_iter = surface_iter(dest.size(), Rect::new_from_size(Point::new(0, 0), dest.size()), true, true);
        copy_data(&src, &mut dest, src_iter, dest_iter);
        assert_eq!(&SOURCE_DATA, dest.data());
    }
}

/// Test with a copy of the entire source surface using horizontal flipping.
#[test]
fn surface_test_full_copy_hflip() {
    const EXPECTED: [u8; 12 * 8] = [
        0, 0, 0, 0, 1, 1, 1, 1, 1, 0, 0, 0,
        0, 1, 1, 1, 1, 1, 1, 1, 1, 1, 0, 0,
        0, 0, 0, 3, 2, 3, 3, 2, 2, 2, 0, 0,
        0, 3, 3, 3, 2, 3, 3, 3, 2, 3, 2, 0,
        3, 3, 3, 2, 3, 3, 3, 2, 2, 3, 2, 0,
        0, 2, 2, 2, 2, 3, 3, 3, 3, 2, 2, 0,
        0, 0, 3, 3, 3, 3, 3, 3, 3, 0, 0, 0,
        0, 0, 0, 1, 1, 1, 1, 4, 1, 1, 0, 0,
    ];

    // H-flip on src
    {
        let src = create_source();
        let mut dest = Surfy::new(src.size(), 0);
        let src_iter = surface_iter(src.size(), Rect::new_from_size(Point::new(0, 0), src.size()), true, false);
        let dest_iter = surface_iter(dest.size(), Rect::new_from_size(Point::new(0, 0), dest.size()), false, false);
        copy_data(&src, &mut dest, src_iter, dest_iter);
        assert_eq!(&EXPECTED, dest.data());
    }

    // H-flip on dest
    {
        let src = create_source();
        let mut dest = Surfy::new(src.size(), 0);
        let src_iter = surface_iter(src.size(), Rect::new_from_size(Point::new(0, 0), src.size()), false, false);
        let dest_iter = surface_iter(dest.size(), Rect::new_from_size(Point::new(0, 0), dest.size()), true, false);
        copy_data(&src, &mut dest, src_iter, dest_iter);
        assert_eq!(&EXPECTED, dest.data());
    }
}

/// Test with a copy of the entire source surface using vertical flipping.
#[test]
fn surface_test_full_copy_vflip() {
    const EXPECTED: [u8; 12 * 8] = [
        0, 0, 1, 1, 4, 1, 1, 1, 1, 0, 0, 0,
        0, 0, 0, 3, 3, 3, 3, 3, 3, 3, 0, 0,
        0, 2, 2, 3, 3, 3, 3, 2, 2, 2, 2, 0,
        0, 2, 3, 2, 2, 3, 3, 3, 2, 3, 3, 3,
        0, 2, 3, 2, 3, 3, 3, 2, 3, 3, 3, 0,
        0, 0, 2, 2, 2, 3, 3, 2, 3, 0, 0, 0,
        0, 0, 1, 1, 1, 1, 1, 1, 1, 1, 1, 0,
        0, 0, 0, 1, 1, 1, 1, 1, 0, 0, 0, 0,
    ];

    // V-flip on src
    {
        let src = create_source();
        let mut dest = Surfy::new(src.size(), 0);
        let src_iter = surface_iter(src.size(), Rect::new_from_size(Point::new(0, 0), src.size()), false, true);
        let dest_iter = surface_iter(dest.size(), Rect::new_from_size(Point::new(0, 0), dest.size()), false, false);
        copy_data(&src, &mut dest, src_iter, dest_iter);
        assert_eq!(&EXPECTED, dest.data());
    }

    // V-flip on dest
    {
        let src = create_source();
        let mut dest = Surfy::new(src.size(), 0);
        let src_iter = surface_iter(src.size(), Rect::new_from_size(Point::new(0, 0), src.size()), false, false);
        let dest_iter = surface_iter(dest.size(), Rect::new_from_size(Point::new(0, 0), dest.size()), false, true);
        copy_data(&src, &mut dest, src_iter, dest_iter);
        assert_eq!(&EXPECTED, dest.data());
    }
}

/// Test with a copy of the entire source surface using both horizontal and vertical flipping.
#[test]
fn surface_test_full_copy_hflip_vflip() {
    const EXPECTED: [u8; 12 * 8] = [
        0, 0, 0, 1, 1, 1, 1, 4, 1, 1, 0, 0,
        0, 0, 3, 3, 3, 3, 3, 3, 3, 0, 0, 0,
        0, 2, 2, 2, 2, 3, 3, 3, 3, 2, 2, 0,
        3, 3, 3, 2, 3, 3, 3, 2, 2, 3, 2, 0,
        0, 3, 3, 3, 2, 3, 3, 3, 2, 3, 2, 0,
        0, 0, 0, 3, 2, 3, 3, 2, 2, 2, 0, 0,
        0, 1, 1, 1, 1, 1, 1, 1, 1, 1, 0, 0,
        0, 0, 0, 0, 1, 1, 1, 1, 1, 0, 0, 0,
    ];

    // H-flip and v-flip on src
    {
        let src = create_source();
        let mut dest = Surfy::new(src.size(), 0);
        let src_iter = surface_iter(src.size(), Rect::new_from_size(Point::new(0, 0), src.size()), true, true);
        let dest_iter = surface_iter(dest.size(), Rect::new_from_size(Point::new(0, 0), dest.size()), false, false);
        copy_data(&src, &mut dest, src_iter, dest_iter);
        assert_eq!(&EXPECTED, dest.data());
    }

    // H-flip and v-flip on dest
    {
        let src = create_source();
        let mut dest = Surfy::new(src.size(), 0);
        let src_iter = surface_iter(src.size(), Rect::new_from_size(Point::new(0, 0), src.size()), false, false);
        let dest_iter = surface_iter(dest.size(), Rect::new_from_size(Point::new(0, 0), dest.size()), true, true);
        copy_data(&src, &mut dest, src_iter, dest_iter);
        assert_eq!(&EXPECTED, dest.data());
    }

    // H-flip on src and v-flip on dest
    {
        let src = create_source();
        let mut dest = Surfy::new(src.size(), 0);
        let src_iter = surface_iter(src.size(), Rect::new_from_size(Point::new(0, 0), src.size()), true, false);
        let dest_iter = surface_iter(dest.size(), Rect::new_from_size(Point::new(0, 0), dest.size()), false, true);
        copy_data(&src, &mut dest, src_iter, dest_iter);
        assert_eq!(&EXPECTED, dest.data());
    }

    // H-flip on dest and v-flip on src
    {
        let src = create_source();
        let mut dest = Surfy::new(src.size(), 0);
        let src_iter = surface_iter(src.size(), Rect::new_from_size(Point::new(0, 0), src.size()), false, true);
        let dest_iter = surface_iter(dest.size(), Rect::new_from_size(Point::new(0, 0), dest.size()), true, false);
        copy_data(&src, &mut dest, src_iter, dest_iter);
        assert_eq!(&EXPECTED, dest.data());
    }
}

/// Test with a copy of a partial surface with no wrapping.
#[test]
fn surface_test_partial_no_wrap() {
    // No flipping
    {
        const EXPECTED: [u8; 12 * 8] = [
        0, 0, 0, 0, 0, 0, 0, 0, 0, 0, 0, 0,
        0, 0, 0, 0, 0, 0, 0, 0, 0, 0, 0, 0,
        0, 0, 0, 0, 0, 0, 0, 0, 0, 0, 0, 0,
        0, 0, 0, 0, 0, 0, 2, 3, 2, 2, 0, 0,
        0, 0, 0, 0, 0, 0, 2, 2, 3, 3, 0, 0,
        0, 0, 0, 0, 0, 0, 0, 0, 3, 3, 0, 0,
        0, 0, 0, 0, 0, 0, 0, 1, 1, 4, 0, 0,
        0, 0, 0, 0, 0, 0, 0, 0, 0, 0, 0, 0,
    ];
        let src = create_source();
        let mut dest = Surfy::new(src.size(), 0);
        let src_iter = surface_iter(src.size(), rect_size(1, 4, 4, 4), false, false);
        let dest_iter = surface_iter(dest.size(), rect_size(6, 3, 4, 4), false, false);
        copy_data(&src, &mut dest, src_iter, dest_iter);
        assert_eq!(&EXPECTED, dest.data());
    }

    // H-flip
    {
        const EXPECTED: [u8; 12 * 8] = [
        0, 0, 0, 0, 0, 0, 0, 0, 0, 0, 0, 0,
        0, 0, 0, 0, 0, 0, 0, 0, 0, 0, 0, 0,
        0, 0, 0, 0, 0, 0, 0, 0, 0, 0, 0, 0,
        0, 0, 0, 0, 0, 0, 2, 2, 3, 2, 0, 0,
        0, 0, 0, 0, 0, 0, 3, 3, 2, 2, 0, 0,
        0, 0, 0, 0, 0, 0, 3, 3, 0, 0, 0, 0,
        0, 0, 0, 0, 0, 0, 4, 1, 1, 0, 0, 0,
        0, 0, 0, 0, 0, 0, 0, 0, 0, 0, 0, 0,
    ];
        let src = create_source();
        let mut dest = Surfy::new(src.size(), 0);
        let src_iter = surface_iter(src.size(), rect_size(1, 4, 4, 4), true, false);
        let dest_iter = surface_iter(dest.size(), rect_size(6, 3, 4, 4), false, false);
        copy_data(&src, &mut dest, src_iter, dest_iter);
        assert_eq!(&EXPECTED, dest.data());
    }

    // V-flip
    {
        const EXPECTED: [u8; 12 * 8] = [
        0, 0, 0, 0, 0, 0, 0, 0, 0, 0, 0, 0,
        0, 0, 0, 0, 0, 0, 0, 0, 0, 0, 0, 0,
        0, 0, 0, 0, 0, 0, 0, 0, 0, 0, 0, 0,
        0, 0, 0, 0, 0, 0, 0, 1, 1, 4, 0, 0,
        0, 0, 0, 0, 0, 0, 0, 0, 3, 3, 0, 0,
        0, 0, 0, 0, 0, 0, 2, 2, 3, 3, 0, 0,
        0, 0, 0, 0, 0, 0, 2, 3, 2, 2, 0, 0,
        0, 0, 0, 0, 0, 0, 0, 0, 0, 0, 0, 0,
    ];
        let src = create_source();
        let mut dest = Surfy::new(src.size(), 0);
        let src_iter = surface_iter(src.size(), rect_size(1, 4, 4, 4), false, true);
        let dest_iter = surface_iter(dest.size(), rect_size(6, 3, 4, 4), false, false);
        copy_data(&src, &mut dest, src_iter, dest_iter);
        assert_eq!(&EXPECTED, dest.data());
    }

    // H-flip and v-flip
    {
        const EXPECTED: [u8; 12 * 8] = [
        0, 0, 0, 0, 0, 0, 0, 0, 0, 0, 0, 0,
        0, 0, 0, 0, 0, 0, 0, 0, 0, 0, 0, 0,
        0, 0, 0, 0, 0, 0, 0, 0, 0, 0, 0, 0,
        0, 0, 0, 0, 0, 0, 4, 1, 1, 0, 0, 0,
        0, 0, 0, 0, 0, 0, 3, 3, 0, 0, 0, 0,
        0, 0, 0, 0, 0, 0, 3, 3, 2, 2, 0, 0,
        0, 0, 0, 0, 0, 0, 2, 2, 3, 2, 0, 0,
        0, 0, 0, 0, 0, 0, 0, 0, 0, 0, 0, 0,
    ];
        let src = create_source();
        let mut dest = Surfy::new(src.size(), 0);
        let src_iter = surface_iter(src.size(), rect_size(1, 4, 4, 4), true, true);
        let dest_iter = surface_iter(dest.size(), rect_size(6, 3, 4, 4), false, false);
        copy_data(&src, &mut dest, src_iter, dest_iter);
        assert_eq!(&EXPECTED, dest.data());
    }
}

/// Test with a copy of a partial surface with horizontal wrapping.
#[test]
fn surface_test_partial_h_wrap() {
    // H-wrap on src
    {
        const EXPECTED: [u8; 12 * 8] = [
        0, 0, 0, 0, 0, 0, 0, 0, 0, 0, 0, 0,
        0, 0, 0, 0, 0, 0, 0, 0, 0, 0, 0, 0,
        0, 0, 0, 0, 0, 0, 0, 0, 0, 0, 0, 0,
        0, 0, 0, 0, 0, 0, 3, 3, 0, 2, 0, 0,
        0, 0, 0, 0, 0, 0, 2, 0, 0, 2, 0, 0,
        0, 0, 0, 0, 0, 0, 0, 0, 0, 0, 0, 0,
        0, 0, 0, 0, 0, 0, 0, 0, 0, 0, 0, 0,
        0, 0, 0, 0, 0, 0, 0, 0, 0, 0, 0, 0,
    ];
        let src = create_source();
        let mut dest = Surfy::new(src.size(), 0);
        let src_iter = surface_iter(src.size(), rect_size(10, 4, 4, 4), false, false);
        let dest_iter = surface_iter(dest.size(), rect_size(6, 3, 4, 4), false, false);
        copy_data(&src, &mut dest, src_iter, dest_iter);
        assert_eq!(&EXPECTED, dest.data());
    }

    // H-wrap on dest
    {
        const EXPECTED: [u8; 12 * 8] = [
        0, 0, 0, 0, 0, 0, 0, 0, 0, 0, 0, 0,
        0, 0, 0, 0, 0, 0, 0, 0, 0, 0, 0, 0,
        0, 0, 0, 0, 0, 0, 0, 0, 0, 0, 0, 0,
        2, 2, 0, 0, 0, 0, 0, 0, 0, 0, 2, 3,
        3, 3, 0, 0, 0, 0, 0, 0, 0, 0, 2, 2,
        3, 3, 0, 0, 0, 0, 0, 0, 0, 0, 0, 0,
        1, 4, 0, 0, 0, 0, 0, 0, 0, 0, 0, 1,
        0, 0, 0, 0, 0, 0, 0, 0, 0, 0, 0, 0,
    ];
        let src = create_source();
        let mut dest = Surfy::new(src.size(), 0);
        let src_iter = surface_iter(src.size(), rect_size(1, 4, 4, 4), false, false);
        let dest_iter = surface_iter(dest.size(), rect_size(10, 3, 4, 4), false, false);
        copy_data(&src, &mut dest, src_iter, dest_iter);
        assert_eq!(&EXPECTED, dest.data());
    }
}

/// Test with a copy of a partial surface with vertical wrapping.
#[test]
fn surface_test_partial_v_wrap() {
    // V-wrap on src
    {
        const EXPECTED: [u8; 12 * 8] = [
        0, 0, 0, 0, 0, 0, 0, 0, 0, 0, 0, 0,
        0, 0, 0, 0, 0, 0, 0, 0, 0, 0, 0, 0,
        0, 0, 0, 0, 0, 0, 0, 0, 0, 0, 0, 0,
        0, 0, 0, 0, 0, 0, 0, 0, 3, 3, 0, 0,
        0, 0, 0, 0, 0, 0, 0, 1, 1, 4, 0, 0,
        0, 0, 0, 0, 0, 0, 0, 0, 1, 1, 0, 0,
        0, 0, 0, 0, 0, 0, 0, 1, 1, 1, 0, 0,
        0, 0, 0, 0, 0, 0, 0, 0, 0, 0, 0, 0,
    ];
        let src = create_source();
        let mut dest = Surfy::new(src.size(), 0);
        let src_iter = surface_iter(src.size(), rect_size(1, 6, 4, 4), false, false);
        let dest_iter = surface_iter(dest.size(), rect_size(6, 3, 4, 4), false, false);
        copy_data(&src, &mut dest, src_iter, dest_iter);
        assert_eq!(&EXPECTED, dest.data());
    }

    // V-wrap on dest
    {
        const EXPECTED: [u8; 12 * 8] = [
        0, 0, 0, 0, 0, 0, 0, 0, 3, 3, 0, 0,
        0, 0, 0, 0, 0, 0, 0, 1, 1, 4, 0, 0,
        0, 0, 0, 0, 0, 0, 0, 0, 0, 0, 0, 0,
        0, 0, 0, 0, 0, 0, 0, 0, 0, 0, 0, 0,
        0, 0, 0, 0, 0, 0, 0, 0, 0, 0, 0, 0,
        0, 0, 0, 0, 0, 0, 0, 0, 0, 0, 0, 0,
        0, 0, 0, 0, 0, 0, 2, 3, 2, 2, 0, 0,
        0, 0, 0, 0, 0, 0, 2, 2, 3, 3, 0, 0,
    ];
        let src = create_source();
        let mut dest = Surfy::new(src.size(), 0);
        let src_iter = surface_iter(src.size(), rect_size(1, 4, 4, 4), false, false);
        let dest_iter = surface_iter(dest.size(), rect_size(6, 6, 4, 4), false, false);
        copy_data(&src, &mut dest, src_iter, dest_iter);
        assert_eq!(&EXPECTED, dest.data());
    }
}

/// Test with a copy of a partial surface with both horizontal and vertical wrapping.
#[test]
fn surface_test_partial_hv_wrap() {
    // H-wrap and v-wrap on src
    {
        const EXPECTED: [u8; 12 * 8] = [
        0, 0, 0, 0, 0, 0, 0, 0, 0, 0, 0, 0,
        0, 0, 0, 0, 0, 0, 0, 0, 0, 0, 0, 0,
        0, 0, 0, 0, 0, 0, 0, 0, 0, 0, 0, 0,
        0, 0, 0, 0, 0, 0, 0, 0, 0, 0, 0, 0,
        0, 0, 0, 0, 0, 0, 0, 0, 0, 0, 0, 0,
        0, 0, 0, 0, 0, 0, 0, 0, 0, 0, 0, 0,
        0, 0, 0, 0, 0, 0, 1, 0, 0, 0, 0, 0,
        0, 0, 0, 0, 0, 0, 0, 0, 0, 0, 0, 0,
    ];
        let src = create_source();
        let mut dest = Surfy::new(src.size(), 0);
        let src_iter = surface_iter(src.size(), rect_size(10, 6, 4, 4), false, false);
        let dest_iter = surface_iter(dest.size(), rect_size(6, 3, 4, 4), false, false);
        copy_data(&src, &mut dest, src_iter, dest_iter);
        assert_eq!(&EXPECTED, dest.data());
    }

    // H-wrap and v-wrap on dest
    {
        const EXPECTED: [u8; 12 * 8] = [
        3, 3, 0, 0, 0, 0, 0, 0, 0, 0, 0, 0,
        1, 4, 0, 0, 0, 0, 0, 0, 0, 0, 0, 1,
        0, 0, 0, 0, 0, 0, 0, 0, 0, 0, 0, 0,
        0, 0, 0, 0, 0, 0, 0, 0, 0, 0, 0, 0,
        0, 0, 0, 0, 0, 0, 0, 0, 0, 0, 0, 0,
        0, 0, 0, 0, 0, 0, 0, 0, 0, 0, 0, 0,
        2, 2, 0, 0, 0, 0, 0, 0, 0, 0, 2, 3,
        3, 3, 0, 0, 0, 0, 0, 0, 0, 0, 2, 2,
    ];
        let src = create_source();
        let mut dest = Surfy::new(src.size(), 0);
        let src_iter = surface_iter(src.size(), rect_size(1, 4, 4, 4), false, false);
        let dest_iter = surface_iter(dest.size(), rect_size(10, 6, 4, 4), false, false);
        copy_data(&src, &mut dest, src_iter, dest_iter);
        assert_eq!(&EXPECTED, dest.data());
    }
}

/// Test with a copy of the entire source surface.
#[test]
fn test_surface_iter_test_full_copy_no_flip() {
    // No flipping
    {
        let src = create_source();
        let mut dest = Surfy::new(Size::new(12, 8), 0);
        let src_iter = surface_iter(src.size(), Rect::new_from_size(Point::new(0, 0), src.size()), false, false);
        let dest_iter = surface_iter(dest.size(), Rect::new_from_size(Point::new(0, 0), dest.size()), false, false);
        copy_data(&src, &mut dest, src_iter, dest_iter);
        assert_eq!(&SOURCE_DATA, dest.data());
    }

    // H-flip on both
    {
        let src = create_source();
        let mut dest = Surfy::new(Size::new(12, 8), 0);
        let src_iter = surface_iter(src.size(), Rect::new_from_size(Point::new(0, 0), src.size()), true, false);
        let dest_iter = surface_iter(dest.size(), Rect::new_from_size(Point::new(0, 0), dest.size()), true, false);
        copy_data(&src, &mut dest, src_iter, dest_iter);
        assert_eq!(&SOURCE_DATA, dest.data());
    }

    // V-flip on both
    {
        let src = create_source();
        let mut dest = Surfy::new(Size::new(12, 8), 0);
        let src_iter = surface_iter(src.size(), Rect::new_from_size(Point::new(0, 0), src.size()), false, true);
        let dest_iter = surface_iter(dest.size(), Rect::new_from_size(Point::new(0, 0), dest.size()), false, true);
        copy_data(&src, &mut dest, src_iter, dest_iter);
        assert_eq!(&SOURCE_DATA, dest.data());
    }

    // H-flip and v-flip on both
    {
        let src = create_source();
        let mut dest = Surfy::new(Size::new(12, 8), 0);
        let src_iter = surface_iter(src.size(), Rect::new_from_size(Point::new(0, 0), src.size()), true, true);
        let dest_iter = surface_iter(dest.size(), Rect::new_from_size(Point::new(0, 0), dest.size()), true, true);
        copy_data(&src, &mut dest, src_iter, dest_iter);
        assert_eq!(&SOURCE_DATA, dest.data());
    }
}

/// Test with a copy of the entire source surface using horizontal flipping.
#[test]
fn test_surface_iter_test_full_copy_hflip() {
    const EXPECTED: [u8; 12 * 8] = [
            0, 0, 0, 0, 1, 1, 1, 1, 1, 0, 0, 0,
            0, 1, 1, 1, 1, 1, 1, 1, 1, 1, 0, 0,
            0, 0, 0, 3, 2, 3, 3, 2, 2, 2, 0, 0,
            0, 3, 3, 3, 2, 3, 3, 3, 2, 3, 2, 0,
            3, 3, 3, 2, 3, 3, 3, 2, 2, 3, 2, 0,
            0, 2, 2, 2, 2, 3, 3, 3, 3, 2, 2, 0,
            0, 0, 3, 3, 3, 3, 3, 3, 3, 0, 0, 0,
            0, 0, 0, 1, 1, 1, 1, 4, 1, 1, 0, 0,
        ];

    // H-flip on src
    {
        let src = create_source();
        let mut dest = Surfy::new(Size::new(12, 8), 0);
        let src_iter = surface_iter(src.size(), Rect::new_from_size(Point::new(0, 0), src.size()), true, false);
        let dest_iter = surface_iter(dest.size(), Rect::new_from_size(Point::new(0, 0), dest.size()), false, false);
        copy_data(&src, &mut dest, src_iter, dest_iter);
        assert_eq!(&EXPECTED, dest.data());
    }

    // H-flip on dest
    {
        let src = create_source();
        let mut dest = Surfy::new(Size::new(12, 8), 0);
        let src_iter = surface_iter(src.size(), Rect::new_from_size(Point::new(0, 0), src.size()), false, false);
        let dest_iter = surface_iter(dest.size(), Rect::new_from_size(Point::new(0, 0), dest.size()), true, false);
        copy_data(&src, &mut dest, src_iter, dest_iter);
        assert_eq!(&EXPECTED, dest.data());
    }
}

/// Test with a copy of the entire source surface using vertical flipping.
#[test]
fn test_surface_iter_test_full_copy_vflip() {
    const EXPECTED: [u8; 12 * 8] = [
            0, 0, 1, 1, 4, 1, 1, 1, 1, 0, 0, 0,
            0, 0, 0, 3, 3, 3, 3, 3, 3, 3, 0, 0,
            0, 2, 2, 3, 3, 3, 3, 2, 2, 2, 2, 0,
            0, 2, 3, 2, 2, 3, 3, 3, 2, 3, 3, 3,
            0, 2, 3, 2, 3, 3, 3, 2, 3, 3, 3, 0,
            0, 0, 2, 2, 2, 3, 3, 2, 3, 0, 0, 0,
            0, 0, 1, 1, 1, 1, 1, 1, 1, 1, 1, 0,
            0, 0, 0, 1, 1, 1, 1, 1, 0, 0, 0, 0,
        ];

    // V-flip on src
    {
        let src = create_source();
        let mut dest = Surfy::new(Size::new(12, 8), 0);
        let src_iter = surface_iter(src.size(), Rect::new_from_size(Point::new(0, 0), src.size()), false, true);
        let dest_iter = surface_iter(dest.size(), Rect::new_from_size(Point::new(0, 0), dest.size()), false, false);
        copy_data(&src, &mut dest, src_iter, dest_iter);
        assert_eq!(&EXPECTED, dest.data());
    }

    // V-flip on dest
    {
        let src = create_source();
        let mut dest = Surfy::new(Size::new(12, 8), 0);
        let src_iter = surface_iter(src.size(), Rect::new_from_size(Point::new(0, 0), src.size()), false, false);
        let dest_iter = surface_iter(dest.size(), Rect::new_from_size(Point::new(0, 0), dest.size()), false, true);
        copy_data(&src, &mut dest, src_iter, dest_iter);
        assert_eq!(&EXPECTED, dest.data());
    }
}

/// Test with a copy of the entire source surface using both horizontal and vertical flipping.
#[test]
fn test_surface_iter_test_full_copy_hflip_vflip() {
    const EXPECTED: [u8; 12 * 8] = [
            0, 0, 0, 1, 1, 1, 1, 4, 1, 1, 0, 0,
            0, 0, 3, 3, 3, 3, 3, 3, 3, 0, 0, 0,
            0, 2, 2, 2, 2, 3, 3, 3, 3, 2, 2, 0,
            3, 3, 3, 2, 3, 3, 3, 2, 2, 3, 2, 0,
            0, 3, 3, 3, 2, 3, 3, 3, 2, 3, 2, 0,
            0, 0, 0, 3, 2, 3, 3, 2, 2, 2, 0, 0,
            0, 1, 1, 1, 1, 1, 1, 1, 1, 1, 0, 0,
            0, 0, 0, 0, 1, 1, 1, 1, 1, 0, 0, 0,
        ];

    // H-flip and v-flip on src
    {
        let src = create_source();
        let mut dest = Surfy::new(Size::new(12, 8), 0);
        let src_iter = surface_iter(src.size(), Rect::new_from_size(Point::new(0, 0), src.size()), true, true);
        let dest_iter = surface_iter(dest.size(), Rect::new_from_size(Point::new(0, 0), dest.size()), false, false);
        copy_data(&src, &mut dest, src_iter, dest_iter);
        assert_eq!(&EXPECTED, dest.data());
    }

    // H-flip and v-flip on dest
    {
        let src = create_source();
        let mut dest = Surfy::new(Size::new(12, 8), 0);
        let src_iter = surface_iter(src.size(), Rect::new_from_size(Point::new(0, 0), src.size()), false, false);
        let dest_iter = surface_iter(dest.size(), Rect::new_from_size(Point::new(0, 0), dest.size()), true, true);
        copy_data(&src, &mut dest, src_iter, dest_iter);
        assert_eq!(&EXPECTED, dest.data());
    }

    // H-flip on src and v-flip on dest
    {
        let src = create_source();
        let mut dest = Surfy::new(Size::new(12, 8), 0);
        let src_iter = surface_iter(src.size(), Rect::new_from_size(Point::new(0, 0), src.size()), true, false);
        let dest_iter = surface_iter(dest.size(), Rect::new_from_size(Point::new(0, 0), dest.size()), false, true);
        copy_data(&src, &mut dest, src_iter, dest_iter);
        assert_eq!(&EXPECTED, dest.data());
    }

    // H-flip on dest and v-flip on src
    {
        let src = create_source();
        let mut dest = Surfy::new(Size::new(12, 8), 0);
        let src_iter = surface_iter(src.size(), Rect::new_from_size(Point::new(0, 0), src.size()), false, true);
        let dest_iter = surface_iter(dest.size(), Rect::new_from_size(Point::new(0, 0), dest.size()), true, false);
        copy_data(&src, &mut dest, src_iter, dest_iter);
        assert_eq!(&EXPECTED, dest.data());
    }
}

/// Test with a copy of a partial surface with no wrapping.
#[test]
fn test_surface_iter_test_partial_no_wrap() {
    // No flipping
    {
        const EXPECTED: [u8; 12 * 8] = [
            0, 0, 0, 0, 0, 0, 0, 0, 0, 0, 0, 0,
            0, 0, 0, 0, 0, 0, 0, 0, 0, 0, 0, 0,
            0, 0, 0, 0, 0, 0, 0, 0, 0, 0, 0, 0,
            0, 0, 0, 0, 0, 0, 2, 3, 2, 2, 0, 0,
            0, 0, 0, 0, 0, 0, 2, 2, 3, 3, 0, 0,
            0, 0, 0, 0, 0, 0, 0, 0, 3, 3, 0, 0,
            0, 0, 0, 0, 0, 0, 0, 1, 1, 4, 0, 0,
            0, 0, 0, 0, 0, 0, 0, 0, 0, 0, 0, 0,
        ];
        let src = create_source();
        let mut dest = Surfy::new(Size::new(12, 8), 0);
        let src_iter = surface_iter(src.size(), rect(1, 4, 4, 7), false, false);
        let dest_iter = surface_iter(dest.size(), rect(6, 3, 9, 6), false, false);
        copy_data(&src, &mut dest, src_iter, dest_iter);
        assert_eq!(&EXPECTED, dest.data());
    }

    // H-flip
    {
        const EXPECTED: [u8; 12 * 8] = [
            0, 0, 0, 0, 0, 0, 0, 0, 0, 0, 0, 0,
            0, 0, 0, 0, 0, 0, 0, 0, 0, 0, 0, 0,
            0, 0, 0, 0, 0, 0, 0, 0, 0, 0, 0, 0,
            0, 0, 0, 0, 0, 0, 2, 2, 3, 2, 0, 0,
            0, 0, 0, 0, 0, 0, 3, 3, 2, 2, 0, 0,
            0, 0, 0, 0, 0, 0, 3, 3, 0, 0, 0, 0,
            0, 0, 0, 0, 0, 0, 4, 1, 1, 0, 0, 0,
            0, 0, 0, 0, 0, 0, 0, 0, 0, 0, 0, 0,
        ];
        let src = create_source();
        let mut dest = Surfy::new(Size::new(12, 8), 0);
        let src_iter = surface_iter(src.size(), rect(1, 4, 4, 7), true, false);
        let dest_iter = surface_iter(dest.size(), rect(6, 3, 9, 6), false, false);
        copy_data(&src, &mut dest, src_iter, dest_iter);
        assert_eq!(&EXPECTED, dest.data());
    }

    // V-flip
    {
        const EXPECTED: [u8; 12 * 8] = [
            0, 0, 0, 0, 0, 0, 0, 0, 0, 0, 0, 0,
            0, 0, 0, 0, 0, 0, 0, 0, 0, 0, 0, 0,
            0, 0, 0, 0, 0, 0, 0, 0, 0, 0, 0, 0,
            0, 0, 0, 0, 0, 0, 0, 1, 1, 4, 0, 0,
            0, 0, 0, 0, 0, 0, 0, 0, 3, 3, 0, 0,
            0, 0, 0, 0, 0, 0, 2, 2, 3, 3, 0, 0,
            0, 0, 0, 0, 0, 0, 2, 3, 2, 2, 0, 0,
            0, 0, 0, 0, 0, 0, 0, 0, 0, 0, 0, 0,
        ];
        let src = create_source();
        let mut dest = Surfy::new(Size::new(12, 8), 0);
        let src_iter = surface_iter(src.size(), rect(1, 4, 4, 7), false, true);
        let dest_iter = surface_iter(dest.size(), rect(6, 3, 9, 6), false, false);
        copy_data(&src, &mut dest, src_iter, dest_iter);
        assert_eq!(&EXPECTED, dest.data());
    }

    // H-flip and v-flip
    {
        const EXPECTED: [u8; 12 * 8] = [
            0, 0, 0, 0, 0, 0, 0, 0, 0, 0, 0, 0,
            0, 0, 0, 0, 0, 0, 0, 0, 0, 0, 0, 0,
            0, 0, 0, 0, 0, 0, 0, 0, 0, 0, 0, 0,
            0, 0, 0, 0, 0, 0, 4, 1, 1, 0, 0, 0,
            0, 0, 0, 0, 0, 0, 3, 3, 0, 0, 0, 0,
            0, 0, 0, 0, 0, 0, 3, 3, 2, 2, 0, 0,
            0, 0, 0, 0, 0, 0, 2, 2, 3, 2, 0, 0,
            0, 0, 0, 0, 0, 0, 0, 0, 0, 0, 0, 0,
        ];
        let src = create_source();
        let mut dest = Surfy::new(Size::new(12, 8), 0);
        let src_iter = surface_iter(src.size(), rect(1, 4, 4, 7), true, true);
        let dest_iter = surface_iter(dest.size(), rect(6, 3, 9, 6), false, false);
        copy_data(&src, &mut dest, src_iter, dest_iter);
        assert_eq!(&EXPECTED, dest.data());
    }
}

/// Test with a copy of a partial surface with horizontal wrapping.
#[test]
fn test_surface_iter_test_partial_h_wrap() {
    // H-wrap on src
    {
        const EXPECTED: [u8; 12 * 8] = [
            0, 0, 0, 0, 0, 0, 0, 0, 0, 0, 0, 0,
            0, 0, 0, 0, 0, 0, 0, 0, 0, 0, 0, 0,
            0, 0, 0, 0, 0, 0, 0, 0, 0, 0, 0, 0,
            0, 0, 0, 0, 0, 0, 3, 3, 0, 2, 0, 0,
            0, 0, 0, 0, 0, 0, 2, 0, 0, 2, 0, 0,
            0, 0, 0, 0, 0, 0, 0, 0, 0, 0, 0, 0,
            0, 0, 0, 0, 0, 0, 0, 0, 0, 0, 0, 0,
            0, 0, 0, 0, 0, 0, 0, 0, 0, 0, 0, 0,
        ];
        let src = create_source();
        let mut dest = Surfy::new(Size::new(12, 8), 0);
        let src_iter = surface_iter(src.size(), rect(10, 4, 13, 7), false, false);
        let dest_iter = surface_iter(dest.size(), rect(6, 3, 9, 6), false, false);
        copy_data(&src, &mut dest, src_iter, dest_iter);
        assert_eq!(&EXPECTED, dest.data());
    }

    // H-wrap on dest
    {
        const EXPECTED: [u8; 12 * 8] = [
            0, 0, 0, 0, 0, 0, 0, 0, 0, 0, 0, 0,
            0, 0, 0, 0, 0, 0, 0, 0, 0, 0, 0, 0,
            0, 0, 0, 0, 0, 0, 0, 0, 0, 0, 0, 0,
            2, 2, 0, 0, 0, 0, 0, 0, 0, 0, 2, 3,
            3, 3, 0, 0, 0, 0, 0, 0, 0, 0, 2, 2,
            3, 3, 0, 0, 0, 0, 0, 0, 0, 0, 0, 0,
            1, 4, 0, 0, 0, 0, 0, 0, 0, 0, 0, 1,
            0, 0, 0, 0, 0, 0, 0, 0, 0, 0, 0, 0,
        ];
        let src = create_source();
        let mut dest = Surfy::new(Size::new(12, 8), 0);
        let src_iter = surface_iter(src.size(), rect(1, 4, 4, 7), false, false);
        let dest_iter = surface_iter(dest.size(), rect(10, 3, 13, 6), false, false);
        copy_data(&src, &mut dest, src_iter, dest_iter);
        assert_eq!(&EXPECTED, dest.data());
    }
}

/// Test with a copy of a partial surface with vertical wrapping.
#[test]
fn test_surface_iter_test_partial_v_wrap() {
    // V-wrap on src
    {
        const EXPECTED: [u8; 12 * 8] = [
            0, 0, 0, 0, 0, 0, 0, 0, 0, 0, 0, 0,
            0, 0, 0, 0, 0, 0, 0, 0, 0, 0, 0, 0,
            0, 0, 0, 0, 0, 0, 0, 0, 0, 0, 0, 0,
            0, 0, 0, 0, 0, 0, 0, 0, 3, 3, 0, 0,
            0, 0, 0, 0, 0, 0, 0, 1, 1, 4, 0, 0,
            0, 0, 0, 0, 0, 0, 0, 0, 1, 1, 0, 0,
            0, 0, 0, 0, 0, 0, 0, 1, 1, 1, 0, 0,
            0, 0, 0, 0, 0, 0, 0, 0, 0, 0, 0, 0,
        ];
        let src = create_source();
        let mut dest = Surfy::new(Size::new(12, 8), 0);
        let src_iter = surface_iter(src.size(), rect(1, 6, 4, 9), false, false);
        let dest_iter = surface_iter(dest.size(), rect(6, 3, 9, 6), false, false);
        copy_data(&src, &mut dest, src_iter, dest_iter);
        assert_eq!(&EXPECTED, dest.data());
    }

    // V-wrap on dest
    {
        const EXPECTED: [u8; 12 * 8] = [
            0, 0, 0, 0, 0, 0, 0, 0, 3, 3, 0, 0,
            0, 0, 0, 0, 0, 0, 0, 1, 1, 4, 0, 0,
            0, 0, 0, 0, 0, 0, 0, 0, 0, 0, 0, 0,
            0, 0, 0, 0, 0, 0, 0, 0, 0, 0, 0, 0,
            0, 0, 0, 0, 0, 0, 0, 0, 0, 0, 0, 0,
            0, 0, 0, 0, 0, 0, 0, 0, 0, 0, 0, 0,
            0, 0, 0, 0, 0, 0, 2, 3, 2, 2, 0, 0,
            0, 0, 0, 0, 0, 0, 2, 2, 3, 3, 0, 0,
        ];
        let src = create_source();
        let mut dest = Surfy::new(Size::new(12, 8), 0);
        let src_iter = surface_iter(src.size(), rect(1, 4, 4, 7), false, false);
        let dest_iter = surface_iter(dest.size(), rect(6, 6, 9, 9), false, false);
        copy_data(&src, &mut dest, src_iter, dest_iter);
        assert_eq!(&EXPECTED, dest.data());
    }
}

/// Test with a copy of a partial surface with both horizontal and vertical wrapping.
#[test]
fn test_surface_iter_test_partial_hv_wrap() {
    // H-wrap and v-wrap on src
    {
        const EXPECTED: [u8; 12 * 8] = [
            0, 0, 0, 0, 0, 0, 0, 0, 0, 0, 0, 0,
            0, 0, 0, 0, 0, 0, 0, 0, 0, 0, 0, 0,
            0, 0, 0, 0, 0, 0, 0, 0, 0, 0, 0, 0,
            0, 0, 0, 0, 0, 0, 0, 0, 0, 0, 0, 0,
            0, 0, 0, 0, 0, 0, 0, 0, 0, 0, 0, 0,
            0, 0, 0, 0, 0, 0, 0, 0, 0, 0, 0, 0,
            0, 0, 0, 0, 0, 0, 1, 0, 0, 0, 0, 0,
            0, 0, 0, 0, 0, 0, 0, 0, 0, 0, 0, 0,
        ];
        let src = create_source();
        let mut dest = Surfy::new(Size::new(12, 8), 0);
        let src_iter = surface_iter(src.size(), rect(10, 6, 13, 9), false, false);
        let dest_iter = surface_iter(dest.size(), rect(6, 3, 9, 6), false, false);
        copy_data(&src, &mut dest, src_iter, dest_iter);
        assert_eq!(&EXPECTED, dest.data());
    }

    // H-wrap and v-wrap on dest
    {
        const EXPECTED: [u8; 12 * 8] = [
            3, 3, 0, 0, 0, 0, 0, 0, 0, 0, 0, 0,
            1, 4, 0, 0, 0, 0, 0, 0, 0, 0, 0, 1,
            0, 0, 0, 0, 0, 0, 0, 0, 0, 0, 0, 0,
            0, 0, 0, 0, 0, 0, 0, 0, 0, 0, 0, 0,
            0, 0, 0, 0, 0, 0, 0, 0, 0, 0, 0, 0,
            0, 0, 0, 0, 0, 0, 0, 0, 0, 0, 0, 0,
            2, 2, 0, 0, 0, 0, 0, 0, 0, 0, 2, 3,
            3, 3, 0, 0, 0, 0, 0, 0, 0, 0, 2, 2,
        ];
        let src = create_source();
        let mut dest = Surfy::new(Size::new(12, 8), 0);
        let src_iter = surface_iter(src.size(), rect(1, 4, 4, 7), false, false);
        let dest_iter = surface_iter(dest.size(), rect(10, 6, 13, 9), false, false);
        copy_data(&src, &mut dest, src_iter, dest_iter);
        assert_eq!(&EXPECTED, dest.data());
    }
}

/// Test with a copy of the entire source surface without any flipping.
#[test]
fn test_fn_surface_iterate_2_test_full_copy_no_flip() {
    let src = create_source();
    let mut dest = Surfy::new(Size::new(12, 8), 0);
    let src_spec = (Rect::new_from_size(Point::new(0, 0), src.size()), false, false);
    let dest_point = Point::new(0, 0);
    copy_data_2(&src, &mut dest, src_spec, dest_point);

    assert_eq!(&SOURCE_DATA, dest.data());
}

/// Test with a copy of the entire source surface with horizontal flipping.
#[test]
fn test_fn_surface_iterate_2_test_full_copy_hflip() {
    const EXPECTED: [u8; 12 * 8] = [
            0, 0, 0, 0, 1, 1, 1, 1, 1, 0, 0, 0,
            0, 1, 1, 1, 1, 1, 1, 1, 1, 1, 0, 0,
            0, 0, 0, 3, 2, 3, 3, 2, 2, 2, 0, 0,
            0, 3, 3, 3, 2, 3, 3, 3, 2, 3, 2, 0,
            3, 3, 3, 2, 3, 3, 3, 2, 2, 3, 2, 0,
            0, 2, 2, 2, 2, 3, 3, 3, 3, 2, 2, 0,
            0, 0, 3, 3, 3, 3, 3, 3, 3, 0, 0, 0,
            0, 0, 0, 1, 1, 1, 1, 4, 1, 1, 0, 0,
        ];

    let src = create_source();
    let mut dest = Surfy::new(Size::new(12, 8), 0);
    let src_spec = (Rect::new_from_size(Point::new(0, 0), src.size()), true, false);
    let dest_point = Point::new(0, 0);
    copy_data_2(&src, &mut dest, src_spec, dest_point);

    assert_eq!(&EXPECTED, dest.data());
}

/// Test with a copy of the entire source surface with vertical flipping.
#[test]
fn test_fn_surface_iterate_2_test_full_copy_vflip() {
    const EXPECTED: [u8; 12 * 8] = [
            0, 0, 1, 1, 4, 1, 1, 1, 1, 0, 0, 0,
            0, 0, 0, 3, 3, 3, 3, 3, 3, 3, 0, 0,
            0, 2, 2, 3, 3, 3, 3, 2, 2, 2, 2, 0,
            0, 2, 3, 2, 2, 3, 3, 3, 2, 3, 3, 3,
            0, 2, 3, 2, 3, 3, 3, 2, 3, 3, 3, 0,
            0, 0, 2, 2, 2, 3, 3, 2, 3, 0, 0, 0,
            0, 0, 1, 1, 1, 1, 1, 1, 1, 1, 1, 0,
            0, 0, 0, 1, 1, 1, 1, 1, 0, 0, 0, 0,
        ];

    let src = create_source();
    let mut dest = Surfy::new(Size::new(12, 8), 0);
    let src_spec = (Rect::new_from_size(Point::new(0, 0), src.size()), false, true);
    let dest_point = Point::new(0, 0);
    copy_data_2(&src, &mut dest, src_spec, dest_point);

    assert_eq!(&EXPECTED, dest.data());
}

/// Test with a copy of the entire source surface with both horizontal and vertical flipping.
#[test]
fn test_fn_surface_iterate_2_test_full_copy_hflip_vflip() {
    const EXPECTED: [u8; 12 * 8] = [
            0, 0, 0, 1, 1, 1, 1, 4, 1, 1, 0, 0,
            0, 0, 3, 3, 3, 3, 3, 3, 3, 0, 0, 0,
            0, 2, 2, 2, 2, 3, 3, 3, 3, 2, 2, 0,
            3, 3, 3, 2, 3, 3, 3, 2, 2, 3, 2, 0,
            0, 3, 3, 3, 2, 3, 3, 3, 2, 3, 2, 0,
            0, 0, 0, 3, 2, 3, 3, 2, 2, 2, 0, 0,
            0, 1, 1, 1, 1, 1, 1, 1, 1, 1, 0, 0,
            0, 0, 0, 0, 1, 1, 1, 1, 1, 0, 0, 0,
        ];

    let src = create_source();
    let mut dest = Surfy::new(Size::new(12, 8), 0);
    let src_spec = (Rect::new_from_size(Point::new(0, 0), src.size()), true, true);
    let dest_point = Point::new(0, 0);
    copy_data_2(&src, &mut dest, src_spec, dest_point);

    assert_eq!(&EXPECTED, dest.data());
}

/// Test with a copy of a partial surface with no wrapping.
#[test]
fn test_fn_surface_iterate_2_test_partial_no_wrap() {
    // No flipping
    {
        const EXPECTED: [u8; 12 * 8] = [
            0, 0, 0, 0, 0, 0, 0, 0, 0, 0, 0, 0,
            0, 0, 0, 0, 0, 0, 0, 0, 0, 0, 0, 0,
            0, 0, 0, 0, 0, 0, 0, 0, 0, 0, 0, 0,
            0, 0, 0, 0, 0, 0, 2, 3, 2, 2, 0, 0,
            0, 0, 0, 0, 0, 0, 2, 2, 3, 3, 0, 0,
            0, 0, 0, 0, 0, 0, 0, 0, 3, 3, 0, 0,
            0, 0, 0, 0, 0, 0, 0, 1, 1, 4, 0, 0,
            0, 0, 0, 0, 0, 0, 0, 0, 0, 0, 0, 0,
        ];

        let src = create_source();
        let mut dest = Surfy::new(Size::new(12, 8), 0);
        let src_spec = (rect(1, 4, 4, 7), false, false);
        let dest_point = Point::new(6, 3);
        copy_data_2(&src, &mut dest, src_spec, dest_point);

        assert_eq!(&EXPECTED, dest.data());
    }

    // H-flip
    {
        const EXPECTED: [u8; 12 * 8] = [
            0, 0, 0, 0, 0, 0, 0, 0, 0, 0, 0, 0,
            0, 0, 0, 0, 0, 0, 0, 0, 0, 0, 0, 0,
            0, 0, 0, 0, 0, 0, 0, 0, 0, 0, 0, 0,
            0, 0, 0, 0, 0, 0, 2, 2, 3, 2, 0, 0,
            0, 0, 0, 0, 0, 0, 3, 3, 2, 2, 0, 0,
            0, 0, 0, 0, 0, 0, 3, 3, 0, 0, 0, 0,
            0, 0, 0, 0, 0, 0, 4, 1, 1, 0, 0, 0,
            0, 0, 0, 0, 0, 0, 0, 0, 0, 0, 0, 0,
        ];

        let src = create_source();
        let mut dest = Surfy::new(Size::new(12, 8), 0);
        let src_spec = (rect(1, 4, 4, 7), true, false);
        let dest_point = Point::new(6, 3);
        copy_data_2(&src, &mut dest, src_spec, dest_point);

        assert_eq!(&EXPECTED, dest.data());
    }

    // V-flip
    {
        const EXPECTED: [u8; 12 * 8] = [
            0, 0, 0, 0, 0, 0, 0, 0, 0, 0, 0, 0,
            0, 0, 0, 0, 0, 0, 0, 0, 0, 0, 0, 0,
            0, 0, 0, 0, 0, 0, 0, 0, 0, 0, 0, 0,
            0, 0, 0, 0, 0, 0, 0, 1, 1, 4, 0, 0,
            0, 0, 0, 0, 0, 0, 0, 0, 3, 3, 0, 0,
            0, 0, 0, 0, 0, 0, 2, 2, 3, 3, 0, 0,
            0, 0, 0, 0, 0, 0, 2, 3, 2, 2, 0, 0,
            0, 0, 0, 0, 0, 0, 0, 0, 0, 0, 0, 0,
        ];

        let src = create_source();
        let mut dest = Surfy::new(Size::new(12, 8), 0);
        let src_spec = (rect(1, 4, 4, 7), false, true);
        let dest_point = Point::new(6, 3);
        copy_data_2(&src, &mut dest, src_spec, dest_point);

        assert_eq!(&EXPECTED, dest.data());
    }

    // H-flip and v-flip
    {
        const EXPECTED: [u8; 12 * 8] = [
            0, 0, 0, 0, 0, 0, 0, 0, 0, 0, 0, 0,
            0, 0, 0, 0, 0, 0, 0, 0, 0, 0, 0, 0,
            0, 0, 0, 0, 0, 0, 0, 0, 0, 0, 0, 0,
            0, 0, 0, 0, 0, 0, 4, 1, 1, 0, 0, 0,
            0, 0, 0, 0, 0, 0, 3, 3, 0, 0, 0, 0,
            0, 0, 0, 0, 0, 0, 3, 3, 2, 2, 0, 0,
            0, 0, 0, 0, 0, 0, 2, 2, 3, 2, 0, 0,
            0, 0, 0, 0, 0, 0, 0, 0, 0, 0, 0, 0,
        ];

        let src = create_source();
        let mut dest = Surfy::new(Size::new(12, 8), 0);
        let src_spec = (rect(1, 4, 4, 7), true, true);
        let dest_point = Point::new(6, 3);
        copy_data_2(&src, &mut dest, src_spec, dest_point);

        assert_eq!(&EXPECTED, dest.data());
    }
}

/// Test with a copy of a partial surface with horizontal wrapping.
#[test]
fn test_fn_surface_iterate_2_test_partial_h_wrap() {
    // H-wrap on src
    {
        const EXPECTED: [u8; 12 * 8] = [
            0, 0, 0, 0, 0, 0, 0, 0, 0, 0, 0, 0,
            0, 0, 0, 0, 0, 0, 0, 0, 0, 0, 0, 0,
            0, 0, 0, 0, 0, 0, 0, 0, 0, 0, 0, 0,
            0, 0, 0, 0, 0, 0, 3, 3, 0, 2, 0, 0,
            0, 0, 0, 0, 0, 0, 2, 0, 0, 2, 0, 0,
            0, 0, 0, 0, 0, 0, 0, 0, 0, 0, 0, 0,
            0, 0, 0, 0, 0, 0, 0, 0, 0, 0, 0, 0,
            0, 0, 0, 0, 0, 0, 0, 0, 0, 0, 0, 0,
        ];

        let src = create_source();
        let mut dest = Surfy::new(Size::new(12, 8), 0);
        let src_spec = (rect(10, 4, 13, 7), false, false);
        let dest_point = Point::new(6, 3);
        copy_data_2(&src, &mut dest, src_spec, dest_point);

        assert_eq!(&EXPECTED, dest.data());
    }

    // H-wrap on dest
    {
        const EXPECTED: [u8; 12 * 8] = [
            0, 0, 0, 0, 0, 0, 0, 0, 0, 0, 0, 0,
            0, 0, 0, 0, 0, 0, 0, 0, 0, 0, 0, 0,
            0, 0, 0, 0, 0, 0, 0, 0, 0, 0, 0, 0,
            2, 2, 0, 0, 0, 0, 0, 0, 0, 0, 2, 3,
            3, 3, 0, 0, 0, 0, 0, 0, 0, 0, 2, 2,
            3, 3, 0, 0, 0, 0, 0, 0, 0, 0, 0, 0,
            1, 4, 0, 0, 0, 0, 0, 0, 0, 0, 0, 1,
            0, 0, 0, 0, 0, 0, 0, 0, 0, 0, 0, 0,
        ];

        let src = create_source();
        let mut dest = Surfy::new(Size::new(12, 8), 0);
        let src_spec = (rect(1, 4, 4, 7), false, false);
        let dest_point = Point::new(10, 3);
        copy_data_2(&src, &mut dest, src_spec, dest_point);

        assert_eq!(&EXPECTED, dest.data());
    }
}

/// Test with a copy of a partial surface with vertical wrapping.
#[test]
fn test_fn_surface_iterate_2_test_partial_v_wrap() {
    // V-wrap on src
    {
        const EXPECTED: [u8; 12 * 8] = [
            0, 0, 0, 0, 0, 0, 0, 0, 0, 0, 0, 0,
            0, 0, 0, 0, 0, 0, 0, 0, 0, 0, 0, 0,
            0, 0, 0, 0, 0, 0, 0, 0, 0, 0, 0, 0,
            0, 0, 0, 0, 0, 0, 0, 0, 3, 3, 0, 0,
            0, 0, 0, 0, 0, 0, 0, 1, 1, 4, 0, 0,
            0, 0, 0, 0, 0, 0, 0, 0, 1, 1, 0, 0,
            0, 0, 0, 0, 0, 0, 0, 1, 1, 1, 0, 0,
            0, 0, 0, 0, 0, 0, 0, 0, 0, 0, 0, 0,
        ];

        let src = create_source();
        let mut dest = Surfy::new(Size::new(12, 8), 0);
        let src_spec = (rect(1, 6, 4, 9), false, false);
        let dest_point = Point::new(6, 3);
        copy_data_2(&src, &mut dest, src_spec, dest_point);

        assert_eq!(&EXPECTED, dest.data());
    }

    // V-wrap on dest
    {
        const EXPECTED: [u8; 12 * 8] = [
            0, 0, 0, 0, 0, 0, 0, 0, 3, 3, 0, 0,
            0, 0, 0, 0, 0, 0, 0, 1, 1, 4, 0, 0,
            0, 0, 0, 0, 0, 0, 0, 0, 0, 0, 0, 0,
            0, 0, 0, 0, 0, 0, 0, 0, 0, 0, 0, 0,
            0, 0, 0, 0, 0, 0, 0, 0, 0, 0, 0, 0,
            0, 0, 0, 0, 0, 0, 0, 0, 0, 0, 0, 0,
            0, 0, 0, 0, 0, 0, 2, 3, 2, 2, 0, 0,
            0, 0, 0, 0, 0, 0, 2, 2, 3, 3, 0, 0,
        ];

        let src = create_source();
        let mut dest = Surfy::new(Size::new(12, 8), 0);
        let src_spec = (rect(1, 4, 4, 7), false, false);
        let dest_point = Point::new(6, 6);
        copy_data_2(&src, &mut dest, src_spec, dest_point);

        assert_eq!(&EXPECTED, dest.data());
    }
}

/// Test with a copy of a partial surface with both horizontal and vertical wrapping.
#[test]
fn test_fn_surface_iterate_2_test_partial_hv_wrap() {
    // H-wrap and v-wrap on src
    {
        const EXPECTED: [u8; 12 * 8] = [
            0, 0, 0, 0, 0, 0, 0, 0, 0, 0, 0, 0,
            0, 0, 0, 0, 0, 0, 0, 0, 0, 0, 0, 0,
            0, 0, 0, 0, 0, 0, 0, 0, 0, 0, 0, 0,
            0, 0, 0, 0, 0, 0, 0, 0, 0, 0, 0, 0,
            0, 0, 0, 0, 0, 0, 0, 0, 0, 0, 0, 0,
            0, 0, 0, 0, 0, 0, 0, 0, 0, 0, 0, 0,
            0, 0, 0, 0, 0, 0, 1, 0, 0, 0, 0, 0,
            0, 0, 0, 0, 0, 0, 0, 0, 0, 0, 0, 0,
        ];

        let src = create_source();
        let mut dest = Surfy::new(Size::new(12, 8), 0);
        let src_spec = (rect(10, 6, 13, 9), false, false);
        let dest_point = Point::new(6, 3);
        copy_data_2(&src, &mut dest, src_spec, dest_point);

        assert_eq!(&EXPECTED, dest.data());
    }

    // H-wrap and v-wrap on dest
    {
        const EXPECTED: [u8; 12 * 8] = [
            3, 3, 0, 0, 0, 0, 0, 0, 0, 0, 0, 0,
            1, 4, 0, 0, 0, 0, 0, 0, 0, 0, 0, 1,
            0, 0, 0, 0, 0, 0, 0, 0, 0, 0, 0, 0,
            0, 0, 0, 0, 0, 0, 0, 0, 0, 0, 0, 0,
            0, 0, 0, 0, 0, 0, 0, 0, 0, 0, 0, 0,
            0, 0, 0, 0, 0, 0, 0, 0, 0, 0, 0, 0,
            2, 2, 0, 0, 0, 0, 0, 0, 0, 0, 2, 3,
            3, 3, 0, 0, 0, 0, 0, 0, 0, 0, 2, 2,
        ];

        let src = create_source();
        let mut dest = Surfy::new(Size::new(12, 8), 0);
        let src_spec = (rect(1, 4, 4, 7), false, false);
        let dest_point = Point::new(10, 6);
        copy_data_2(&src, &mut dest, src_spec, dest_point);

        assert_eq!(&EXPECTED, dest.data());
    }
}

#[test]
fn whole_surface_traversal_visits_every_pixel_once() {
    let size = Size::new(12, 8);
    for (hflip, vflip) in [(false, false), (true, false), (false, true), (true, true)] {
        let mut visited = surface_iter(size, Rect::new_from_size(Point::new(0, 0), size), hflip, vflip);
        assert_eq!(visited.len(), 96);
        visited.sort_unstable();
        assert_eq!(visited, (0..96).collect::<Vec<usize>>());
    }
}

#[test]
fn surface_iterate_2_pairs_a_selection_one_column_wide() {
    // Column x = 3, rows 1 to 3 of a 12 x 8 surface, copied to (11, 7) of another: the rows wrap.
    let pairs = surface_iterate_2(Size::new(12, 8), rect(3, 1, 3, 3), Size::new(12, 8), Point::new(11, 7), false, true).unwrap();
    assert_eq!(pairs, vec![(3 * 12 + 3, 7 * 12 + 11), (2 * 12 + 3, 11), (12 + 3, 12 + 11)]);
    let single = surface_iterate_2(Size::new(12, 8), rect(5, 5, 5, 5), Size::new(4, 4), Point::new(2, 1), true, true).unwrap();
    assert_eq!(single, vec![(5 * 12 + 5, 4 + 2)]);
}

#[test]
fn surface_iterate_2_refuses_a_selection_entirely_outside_a_surface() {
    assert_eq!(
        surface_iterate_2(Size::new(12, 8), rect(12, 0, 13, 1), Size::new(12, 8), Point::new(0, 0), false, false),
        Err(String::from("The selection lies entirely outside the first surface."))
    );
    assert_eq!(
        surface_iterate_2(Size::new(12, 8), rect(0, 0, 1, 1), Size::new(12, 8), Point::new(0, 8), false, false),
        Err(String::from("The selection lies entirely outside the second surface."))
    );
}
