//! Artwork data: colors, palettes, indexed surfaces, tiles, sprites, cels and animations.
//!
//! Rather than referring to contained elements by Rust reference, objects refer to each other by
//! index into a collection (usually a global cache).

use crate::geom::{Point, Rect, Size};
use crate::surface::{index_in, spec_index, Surface, SurfaceView};
use vstd::prelude::*;
use vstd::std_specs::convert::FromSpecImpl;

verus! {

/// An index type that is the same across platforms (for serialization stability).
pub type Index = u16;

/// An RGB color with 8 bits per component.
#[derive(Copy, Clone, Debug, PartialEq, Eq, Hash, Structural)]
pub struct Color {
    /// The red component.
    pub r: u8,
    /// The green component.
    pub g: u8,
    /// The blue component.
    pub b: u8,
}

impl Color {
    /// Creates a new instance.
    pub fn new(r: u8, g: u8, b: u8) -> (c: Color)
        ensures
            c == (Color { r, g, b }),
    {
        Color { r, g, b }
    }
}

/// An index into a [`Palette`].
#[derive(Copy, Clone, Debug, PartialEq, Eq, Hash, Structural)]
pub struct PaletteIndex(pub Index);

impl PaletteIndex {
    /// Creates a new instance.
    pub fn new(index: Index) -> (r: PaletteIndex)
        ensures
            r.0 == index,
    {
        PaletteIndex(index)
    }

    /// Retrieves the underlying value.
    pub fn value(&self) -> (r: Index)
        ensures
            r == self.0,
    {
        self.as_index()
    }

    /// Sets the underlying value.
    pub fn set_value(&mut self, value: Index)
        ensures
            final(self).0 == value,
    {
        self.0 = value;
    }

    /// Retrieves the value as an [`Index`].
    pub fn as_index(&self) -> (r: Index)
        ensures
            r == self.0,
    {
        self.0
    }

    /// Retrieves the value as a `usize`.
    pub fn as_usize(&self) -> (r: usize)
        ensures
            r == self.0,
    {
        self.0 as usize
    }
}

impl From<u16> for PaletteIndex {
    fn from(val: u16) -> (r: PaletteIndex) {
        PaletteIndex::new(val)
    }
}

impl FromSpecImpl<u16> for PaletteIndex {
    open spec fn obeys_from_spec() -> bool {
        true
    }

    open spec fn from_spec(v: u16) -> PaletteIndex {
        PaletteIndex(v)
    }
}

impl From<u8> for PaletteIndex {
    fn from(val: u8) -> (r: PaletteIndex) {
        PaletteIndex::new(val as u16)
    }
}

impl FromSpecImpl<u8> for PaletteIndex {
    open spec fn obeys_from_spec() -> bool {
        true
    }

    open spec fn from_spec(v: u8) -> PaletteIndex {
        PaletteIndex(v as u16)
    }
}

/// A palette of colors.
#[derive(Clone, Debug, PartialEq, Eq, Hash)]
pub struct Palette<C> {
    colors: Vec<C>,
}

impl<C> View for Palette<C> {
    type V = Seq<C>;

    /// The colors, by index.
    closed spec fn view(&self) -> Seq<C> {
        self.colors@
    }
}

impl<C: Clone> Palette<C> {
    /// Creates a new instance with the specified length, every entry a clone of `default`.
    pub fn new_filled(length: usize, default: C) -> (r: Palette<C>)
        ensures
            r@.len() == length,
            forall|i: int| 0 <= i < length ==> cloned(default, #[trigger] r@[i]),
    {
        Palette { colors: vec![default; length] }
    }
}

impl<C> Palette<C> {
    /// Retrieves the number of entries in the palette.
    pub fn len(&self) -> (r: usize)
        ensures
            r == self@.len(),
    {
        self.colors.len()
    }

    /// Retrieves the color with the specified index, if any.
    pub fn get(&self, index: PaletteIndex) -> (r: Option<&C>)
        ensures
            index.0 < self@.len() ==> r == Some(&self@[index.0 as int]),
            index.0 >= self@.len() ==> r is None,
    {
        let i = index.as_usize();
        if i < self.colors.len() {
            Some(&self.colors[i])
        } else {
            None
        }
    }

    /// Sets a color at the specified index.
    ///
    /// The index must lie inside the palette.
    pub fn set(&mut self, index: PaletteIndex, color: C)
        requires
            index.0 < old(self)@.len(),
        ensures
            final(self)@ == old(self)@.update(index.0 as int, color),
    {
        let i = index.as_usize();
        self.colors.set(i, color);
    }

    /// All slots with their indices, in index order.
    ///
    /// Every index of the palette must fit in an [`Index`].
    pub fn iter(&self) -> (r: Vec<(PaletteIndex, &C)>)
        requires
            self@.len() <= u16::MAX + 1,
        ensures
            r@.len() == self@.len(),
            forall|i: int|
                0 <= i < r@.len() ==> (#[trigger] r@[i]).0 == PaletteIndex(i as u16) && r@[i].1
                    == &self@[i],
    {
        let mut out: Vec<(PaletteIndex, &C)> = Vec::new();
        let mut i: usize = 0;
        while i < self.colors.len()
            invariant
                i <= self@.len() <= u16::MAX + 1,
                out@.len() == i,
                forall|k: int|
                    0 <= k < i ==> (#[trigger] out@[k]).0 == PaletteIndex(k as u16) && out@[k].1
                        == &self@[k],
            decreases self@.len() - i,
        {
            out.push((PaletteIndex::new(i as u16), &self.colors[i]));
            i = i + 1;
        }
        out
    }
}

/// A surface of pixels of any copyable type.
#[derive(Clone, Debug, PartialEq, Eq)]
pub struct GenericSurface<T> {
    size: Size,
    data: Vec<T>,
}

impl<T: Copy> GenericSurface<T> {
    /// Creates a surface of the given size, every pixel set to `value`.
    ///
    /// Sizes whose area does not fit in `usize` are excluded.
    pub fn new(size: Size, value: T) -> (r: GenericSurface<T>)
        requires
            size.width.0 * size.height.0 <= usize::MAX,
        ensures
            r.spec_size() == size,
            r.spec_data() == Seq::new((size.width.0 * size.height.0) as nat, |i: int| value),
    {
        let n = size.width.into_usize() * size.height.into_usize();
        let mut data: Vec<T> = Vec::new();
        let mut i: usize = 0;
        while i < n
            invariant
                i <= n,
                data@ == Seq::new(i as nat, |k: int| value),
            decreases n - i,
        {
            data.push(value);
            i = i + 1;
            proof {
                assert(data@ =~= Seq::new(i as nat, |k: int| value));
            }
        }
        GenericSurface { size, data }
    }
}

impl<T> Surface for GenericSurface<T> {
    type DataType = T;

    closed spec fn spec_size(&self) -> Size {
        self.size
    }

    closed spec fn spec_data(&self) -> Seq<T> {
        self.data@
    }

    fn size(&self) -> (r: Size) {
        self.size
    }

    fn data(&self) -> (r: &[T]) {
        self.data.as_slice()
    }

    fn data_mut(&mut self) -> (r: &mut [T]) {
        self.data.as_mut_slice()
    }

    fn index(&self, position: Point) -> (r: Option<usize>) {
        index_in(self.size, position)
    }
}

/// An indexed graphical surface: its pixels are [`Palette`] indices rather than colors.
pub struct IndexedSurface {
    data: Vec<PaletteIndex>,
    size: Size,
}

impl IndexedSurface {
    /// Creates a new instance of the given size with every pixel set to index 0.
    ///
    /// The area of the size must fit in `u32`.
    pub fn new(size: Size) -> (r: IndexedSurface)
        requires
            size.width.0 * size.height.0 <= u32::MAX,
        ensures
            r.spec_size() == size,
            r.spec_data() == Seq::new(
                (size.width.0 * size.height.0) as nat,
                |i: int| PaletteIndex(0),
            ),
    {
        let capacity = (size.width.0 * size.height.0) as usize;
        let mut data: Vec<PaletteIndex> = Vec::with_capacity(capacity);
        let mut i: usize = 0;
        while i < capacity
            invariant
                i <= capacity,
                data@ == Seq::new(i as nat, |k: int| PaletteIndex(0)),
            decreases capacity - i,
        {
            data.push(PaletteIndex::new(0));
            i = i + 1;
            proof {
                assert(data@ =~= Seq::new(i as nat, |k: int| PaletteIndex(0)));
            }
        }
        IndexedSurface { data, size }
    }
}

impl Surface for IndexedSurface {
    type DataType = PaletteIndex;

    closed spec fn spec_size(&self) -> Size {
        self.size
    }

    closed spec fn spec_data(&self) -> Seq<PaletteIndex> {
        self.data@
    }

    fn size(&self) -> (r: Size) {
        self.size
    }

    fn data(&self) -> (r: &[PaletteIndex]) {
        self.data.as_slice()
    }

    fn data_mut(&mut self) -> (r: &mut [PaletteIndex]) {
        self.data.as_mut_slice()
    }

    fn index(&self, position: Point) -> (r: Option<usize>) {
        index_in(self.size, position)
    }
}

/// A tile: the smallest graphical element.
pub struct Tile {
    surface: IndexedSurface,
}

impl Tile {
    /// Creates a tile from its surface.
    pub fn new(surface: IndexedSurface) -> (r: Tile)
        ensures
            r.spec_surface() == surface,
    {
        Tile { surface }
    }

    /// The tile's surface.
    pub closed spec fn spec_surface(&self) -> IndexedSurface {
        self.surface
    }

    /// Retrieves the tile's surface.
    pub fn surface(&self) -> (r: &IndexedSurface)
        ensures
            *r == self.spec_surface(),
    {
        &self.surface
    }
}

/// A reference to a [`Tile`].
#[derive(Copy, Clone, Debug, PartialEq, Eq, Hash, Structural)]
pub struct TileRef(pub Index);

/// A reference to a [`Palette`].
#[derive(Copy, Clone, Debug, PartialEq, Eq, Hash, Structural)]
pub struct PaletteRef(pub Index);

/// A sprite: a [`Tile`] inside a container with a position and flipping flags.
#[derive(Copy, Clone, Debug, PartialEq, Eq)]
pub struct Sprite {
    /// The tile.
    tile: TileRef,
    /// The palette the tile's indices refer to.
    palette: PaletteRef,
    /// The position of the origin of the tile inside its container.
    position: Point,
    /// Whether the tile is flipped horizontally.
    h_flip: bool,
    /// Whether the tile is flipped vertically.
    v_flip: bool,
}

impl Sprite {
    /// Creates a new instance.
    pub fn new(tile: TileRef, palette: PaletteRef, position: Point, h_flip: bool, v_flip: bool) -> (r:
        Sprite)
        ensures
            r.spec_tile() == tile,
            r.spec_palette() == palette,
            r.spec_position() == position,
            r.spec_h_flip() == h_flip,
            r.spec_v_flip() == v_flip,
    {
        Sprite { tile, palette, position, h_flip, v_flip }
    }

    /// The tile.
    pub closed spec fn spec_tile(&self) -> TileRef {
        self.tile
    }

    /// The tile.
    pub fn tile(&self) -> (r: TileRef)
        ensures
            r == self.spec_tile(),
    {
        self.tile
    }

    /// The palette.
    pub closed spec fn spec_palette(&self) -> PaletteRef {
        self.palette
    }

    /// The palette.
    pub fn palette(&self) -> (r: PaletteRef)
        ensures
            r == self.spec_palette(),
    {
        self.palette
    }

    /// The position.
    pub closed spec fn spec_position(&self) -> Point {
        self.position
    }

    /// The position.
    pub fn position(&self) -> (r: Point)
        ensures
            r == self.spec_position(),
    {
        self.position
    }

    /// The horizontal flip flag.
    pub closed spec fn spec_h_flip(&self) -> bool {
        self.h_flip
    }

    /// The horizontal flip flag.
    pub fn h_flip(&self) -> (r: bool)
        ensures
            r == self.spec_h_flip(),
    {
        self.h_flip
    }

    /// The vertical flip flag.
    pub closed spec fn spec_v_flip(&self) -> bool {
        self.v_flip
    }

    /// The vertical flip flag.
    pub fn v_flip(&self) -> (r: bool)
        ensures
            r == self.spec_v_flip(),
    {
        self.v_flip
    }
}

/// A cel: zero or more [`Sprite`]s that together form one image.
pub struct Cel {
    /// The sprites.
    pub sprites: Vec<Sprite>,
}

/// A reference to a [`Cel`].
#[derive(Copy, Clone, Debug, PartialEq, Eq, Hash, Structural)]
pub struct CelRef(pub Index);

/// A single frame in an [`Animation`].
pub struct AnimationFrame {
    /// The cel shown.
    pub cel: CelRef,
    /// How long the cel is shown.
    pub duration: core::time::Duration,
}

/// An animation: a sequence of [`AnimationFrame`]s.
pub struct Animation {
    /// The frames, in playback order.
    pub frames: Vec<AnimationFrame>,
}

} // verus!
