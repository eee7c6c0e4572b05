//! Rows of a selection in a surface.

use ves::geom::{Point, Rect, Size};
use ves::surface::{SurfaceRow, SurfaceRowIter, SurfaceView};
use ves::unit::ArtworkSpaceUnit;

#[test]
fn iteration() {
    const SURFACE_WIDTH: ArtworkSpaceUnit = ArtworkSpaceUnit(256);
    const AREA_X: ArtworkSpaceUnit = ArtworkSpaceUnit(24);
    const AREA_Y: ArtworkSpaceUnit = ArtworkSpaceUnit(32);
    const AREA_WIDTH: ArtworkSpaceUnit = ArtworkSpaceUnit(16);
    const AREA_HEIGHT: ArtworkSpaceUnit = ArtworkSpaceUnit(8);
    let area = Rect::new_from_size(
        Point::new(AREA_X.raw(), AREA_Y.raw()),
        Size::new(AREA_WIDTH.raw(), AREA_HEIGHT.raw()),
    );
    let mut iter = SurfaceRowIter::new(SURFACE_WIDTH, &area);
    let mut offset = SURFACE_WIDTH.into_usize() * AREA_Y.into_usize() + AREA_X.into_usize();
    for _ in 0..AREA_HEIGHT.raw() {
        assert_eq!(Some(SurfaceRow::new(offset..offset + AREA_WIDTH.into_usize())), iter.next());
        offset += SURFACE_WIDTH.into_usize();
    }
    assert_eq!(None, iter.next());
    assert_eq!(None, iter.next());
}

#[test]
fn view_rows_cover_the_area() {
    let view = SurfaceView::new(Size::new(10, 6), Rect::new(Point::new(2, 1), Point::new(4, 2)));
    let mut rows = view.row_iter();
    assert_eq!(rows.next().map(|r| r.indices().clone()), Some(12..15));
    assert_eq!(rows.next().map(|r| r.indices().clone()), Some(22..25));
    assert_eq!(rows.next(), None);
}
