//! Decoding of raw SNES object data: colors and palettes (CGRAM), object sizes, object attribute
//! memory (OAM) and the object name tables (4bpp interleaved CHR data).
//!
//! Generally the raw data of the SNES is little-endian.

use crate::geom::{point, Point, Size};
use crate::surface::{index_in, slice_subrange, spec_index, Surface};
use crate::unit::ArtworkSpaceUnit;
use crate::sprite::{Color, Index, Palette, PaletteIndex};
use crate::text::{decimal, push_decimal};
use vstd::prelude::*;
use vstd::string::StringExecFns;

verus! {

/// A data import error.
#[derive(Clone, Debug, PartialEq, Eq)]
pub enum DataImportError {
    /// Invalid input data. The string describes the problem.
    InvalidData(String),
}

/// Constructing objects from (raw) SNES data.
pub trait FromSnesData<T>: Sized {
    /// Creates an instance from the provided data.
    fn from_snes_data(data: T) -> Result<Self, DataImportError>;
}

/// The text of the error for input of the wrong length.
pub open spec fn length_error_text(expected: int, actual: int) -> Seq<char> {
    "Invalid data length. Expected "@ + decimal(expected as nat) + " but got "@ + decimal(
        actual as nat,
    ) + "."@
}

/// Builds the error for input of the wrong length.
fn length_error(expected: usize, actual: usize) -> (r: DataImportError)
    ensures
        r matches DataImportError::InvalidData(m) && m@ == length_error_text(
            expected as int,
            actual as int,
        ),
{
    let mut text = "Invalid data length. Expected ".to_owned();
    push_decimal(&mut text, expected as u64);
    text.append(" but got ");
    push_decimal(&mut text, actual as u64);
    text.append(".");
    DataImportError::InvalidData(text)
}

/// Expands a 5-bit color value to 8 bits by repeating its top bits below it.
pub open spec fn expand_5bit(v: int) -> int {
    v * 8 + v / 4
}

/// Makes an 8-bit color component from the least-significant 5 bits of `bits`, repeating the bit
/// pattern across the 8 bits to get the most accurate color.
pub fn make_color_component_5bit(bits: u8) -> (r: u8)
    ensures
        r == expand_5bit(bits as int % 32),
{
    let r = bits << 3 | (bits >> 2) & 0b00000111;
    assert(r == (bits % 32) * 8 + (bits % 32) / 4) by (bit_vector)
        requires
            r == bits << 3 | (bits >> 2) & 0b00000111,
    ;
    r
}

/// Expanding a 5-bit component keeps its value in the top five bits, maps the darkest and
/// brightest values to 0 and 255, and keeps the order of values.
pub proof fn lemma_expand_5bit(v: int, w: int)
    requires
        0 <= v < 32,
        0 <= w < 32,
    ensures
        expand_5bit(v) / 8 == v,
        0 <= expand_5bit(v) <= 255,
        expand_5bit(0) == 0,
        expand_5bit(31) == 255,
        v < w ==> expand_5bit(v) < expand_5bit(w),
{
}

/// The color of the 15-bit SNES color word `c` (5 bits each of red, green and blue, red lowest).
pub open spec fn snes_color(c: int) -> Color {
    Color {
        r: expand_5bit(c % 32) as u8,
        g: expand_5bit((c / 32) % 32) as u8,
        b: expand_5bit((c / 1024) % 32) as u8,
    }
}

impl Color {
    /// The color of the little-endian color word `(low, high)`; see section A-17 of the SNES
    /// developer manual.
    pub open spec fn spec_from_snes(low: u8, high: u8) -> Color {
        snes_color(low + 256 * high)
    }
}

/// The input is a pair where the first byte is the lower byte and the second the higher byte of
/// the color word.
impl FromSnesData<(u8, u8)> for Color {
    fn from_snes_data(data: (u8, u8)) -> (r: Result<Color, DataImportError>)
        ensures
            r == Ok::<Color, DataImportError>(Color::spec_from_snes(data.0, data.1)),
    {
        let (low, high) = data;
        let gbits = high << 3 | low >> 5;
        let bbits = high >> 2;
        let r = make_color_component_5bit(low);
        let g = make_color_component_5bit(gbits);
        let b = make_color_component_5bit(bbits);
        assert(low % 32 == (low + 256 * high) % 32 && gbits % 32 == ((low + 256 * high) / 32) % 32
            && bbits % 32 == ((low + 256 * high) / 1024) % 32) by (bit_vector)
            requires
                gbits == high << 3 | low >> 5,
                bbits == high >> 2,
        ;
        Ok(Color::new(r, g, b))
    }
}

/// The number of bytes for a color in SNES data.
pub const BYTES_PER_COLOR: usize = 2;

/// The number of colors in an OBJ palette.
pub const OBJ_PALETTE_NR_COLORS: usize = 16;

/// The number of bytes in an OBJ palette (input SNES data).
pub const OBJ_PALETTE_SIZE: usize = 32;

/// The palette decoded from `16` consecutive color words in `data`, starting at `offset`.
pub open spec fn spec_palette_colors(data: Seq<u8>, offset: int) -> Seq<Color> {
    Seq::new(
        OBJ_PALETTE_NR_COLORS as nat,
        |i: int| Color::spec_from_snes(data[offset + 2 * i], data[offset + 2 * i + 1]),
    )
}

/// The input is a slice of color entries of two bytes each; see section A-17 of the SNES
/// developer manual.
impl FromSnesData<&[u8]> for Palette<Color> {
    fn from_snes_data(data: &[u8]) -> (r: Result<Palette<Color>, DataImportError>)
        ensures
            data@.len() == OBJ_PALETTE_SIZE ==> (r matches Ok(p) && p@ == spec_palette_colors(
                data@,
                0,
            )),
            data@.len() != OBJ_PALETTE_SIZE ==> (r matches Err(DataImportError::InvalidData(m))
                && m@ == length_error_text(OBJ_PALETTE_SIZE as int, data@.len() as int)),
    {
        if data.len() != OBJ_PALETTE_SIZE {
            return Err(length_error(OBJ_PALETTE_SIZE, data.len()));
        }
        let mut palette = Palette::new_filled(OBJ_PALETTE_NR_COLORS, Color::new(0, 0, 0));
        let mut i: usize = 0;
        while i < OBJ_PALETTE_NR_COLORS
            invariant
                data@.len() == OBJ_PALETTE_SIZE,
                i <= OBJ_PALETTE_NR_COLORS,
                palette@.len() == OBJ_PALETTE_NR_COLORS,
                forall|k: int|
                    0 <= k < i ==> #[trigger] palette@[k] == spec_palette_colors(data@, 0)[k],
            decreases OBJ_PALETTE_NR_COLORS - i,
        {
            let low = data[2 * i];
            let high = data[2 * i + 1];
            let color = match Color::from_snes_data((low, high)) {
                Ok(c) => c,
                Err(e) => {
                    return Err(e);
                },
            };
            palette.set(PaletteIndex::new(i as u16), color);
            i = i + 1;
        }
        proof {
            assert(palette@ =~= spec_palette_colors(data@, 0));
        }
        Ok(palette)
    }
}

/// The number of palettes for objects.
pub const OBJ_PALETTE_COUNT: usize = 8;

/// The palettes for objects.
pub struct ObjPalettes {
    palettes: Vec<Palette<Color>>,
}

impl ObjPalettes {
    /// The palettes, in order.
    pub closed spec fn spec_palettes(&self) -> Seq<Palette<Color>> {
        self.palettes@
    }

    /// Creates a new instance.
    fn new(palettes: Vec<Palette<Color>>) -> (r: ObjPalettes)
        ensures
            r.spec_palettes() == palettes@,
    {
        ObjPalettes { palettes }
    }

    /// Retrieves the palettes.
    pub fn palettes(&self) -> (r: &[Palette<Color>])
        ensures
            r@ == self.spec_palettes(),
    {
        self.palettes.as_slice()
    }
}

/// The input is the object half of CGRAM: eight palettes of 32 bytes.
impl FromSnesData<&[u8]> for ObjPalettes {
    fn from_snes_data(data: &[u8]) -> (r: Result<ObjPalettes, DataImportError>)
        ensures
            data@.len() == OBJ_PALETTE_SIZE * OBJ_PALETTE_COUNT ==> (r matches Ok(p) && p.spec_palettes().len()
                == OBJ_PALETTE_COUNT && forall|i: int|
                0 <= i < OBJ_PALETTE_COUNT ==> (#[trigger] p.spec_palettes()[i])@
                    == spec_palette_colors(data@, i * OBJ_PALETTE_SIZE)),
            data@.len() != OBJ_PALETTE_SIZE * OBJ_PALETTE_COUNT ==> (r matches Err(
                DataImportError::InvalidData(m),
            ) && m@ == length_error_text(
                (OBJ_PALETTE_SIZE * OBJ_PALETTE_COUNT) as int,
                data@.len() as int,
            )),
    {
        let expected_len = OBJ_PALETTE_SIZE * OBJ_PALETTE_COUNT;
        if data.len() != expected_len {
            return Err(length_error(expected_len, data.len()));
        }
        let mut palettes: Vec<Palette<Color>> = Vec::with_capacity(OBJ_PALETTE_COUNT);
        let mut i: usize = 0;
        while i < OBJ_PALETTE_COUNT
            invariant
                data@.len() == OBJ_PALETTE_SIZE * OBJ_PALETTE_COUNT,
                i <= OBJ_PALETTE_COUNT,
                palettes@.len() == i,
                forall|k: int|
                    0 <= k < i ==> (#[trigger] palettes@[k])@ == spec_palette_colors(
                        data@,
                        k * OBJ_PALETTE_SIZE,
                    ),
            decreases OBJ_PALETTE_COUNT - i,
        {
            let chunk = slice_subrange(data, i * OBJ_PALETTE_SIZE, (i + 1) * OBJ_PALETTE_SIZE);
            let palette = match Palette::<Color>::from_snes_data(chunk) {
                Ok(p) => p,
                Err(e) => {
                    return Err(e);
                },
            };
            proof {
                assert(palette@ =~= spec_palette_colors(data@, i * OBJ_PALETTE_SIZE));
            }
            palettes.push(palette);
            i = i + 1;
        }
        Ok(ObjPalettes::new(palettes))
    }
}

/// An OBJ size.
#[derive(Copy, Clone, Debug, PartialEq, Eq, Structural)]
pub enum ObjSize {
    /// Small OBJ size: 8x8 pixels.
    Small,
    /// Medium OBJ size: 16x16 pixels.
    Medium,
    /// Large OBJ size: 32x32 pixels.
    Large,
    /// Extra large OBJ size: 64x64 pixels.
    ExtraLarge,
}

impl ObjSize {
    /// The length of a side in pixels.
    pub open spec fn spec_pixel_size(self) -> u32 {
        match self {
            ObjSize::Small => 8,
            ObjSize::Medium => 16,
            ObjSize::Large => 32,
            ObjSize::ExtraLarge => 64,
        }
    }

    /// Retrieves the [`Size`]: a square of the pixel size.
    pub fn size(&self) -> (r: Size)
        ensures
            r.width.0 == self.spec_pixel_size(),
            r.height.0 == self.spec_pixel_size(),
    {
        let pixel_size = self.pixel_size();
        Size::new(pixel_size, pixel_size)
    }

    /// The length of a side in pixels.
    pub fn pixel_size(&self) -> (r: u32)
        ensures
            r == self.spec_pixel_size(),
    {
        match self {
            ObjSize::Small => 8,
            ObjSize::Medium => 16,
            ObjSize::Large => 32,
            ObjSize::ExtraLarge => 64,
        }
    }
}

/// An `OBJ SIZE SELECT`: the pair of object sizes in use; see chapter 27 of the SNES developer
/// manual.
#[derive(Copy, Clone, Debug, PartialEq, Eq, Structural)]
pub enum ObjSizeSelect {
    /// Small: [`ObjSize::Small`], large: [`ObjSize::Medium`].
    SM,
    /// Small: [`ObjSize::Small`], large: [`ObjSize::Large`].
    SL,
    /// Small: [`ObjSize::Small`], large: [`ObjSize::ExtraLarge`].
    SXL,
    /// Small: [`ObjSize::Medium`], large: [`ObjSize::Large`].
    ML,
    /// Small: [`ObjSize::Medium`], large: [`ObjSize::ExtraLarge`].
    MXL,
    /// Small: [`ObjSize::Large`], large: [`ObjSize::ExtraLarge`].
    LXL,
}

/// The text of the error for an unknown `OBJ SIZE SELECT` value.
pub open spec fn size_select_error_text(value: u8) -> Seq<char> {
    "Unexpected OBJ SIZE SELECT value: "@ + decimal(value as nat) + "."@
}

impl ObjSizeSelect {
    /// The selection encoded by `value`, if any.
    pub open spec fn spec_from_value(value: u8) -> Option<ObjSizeSelect> {
        if value == 0 {
            Some(ObjSizeSelect::SM)
        } else if value == 1 {
            Some(ObjSizeSelect::SL)
        } else if value == 2 {
            Some(ObjSizeSelect::SXL)
        } else if value == 3 {
            Some(ObjSizeSelect::ML)
        } else if value == 4 {
            Some(ObjSizeSelect::MXL)
        } else if value == 5 {
            Some(ObjSizeSelect::LXL)
        } else {
            None
        }
    }

    /// The "small" size of the selection.
    pub open spec fn spec_small(self) -> ObjSize {
        match self {
            ObjSizeSelect::SM | ObjSizeSelect::SL | ObjSizeSelect::SXL => ObjSize::Small,
            ObjSizeSelect::ML | ObjSizeSelect::MXL => ObjSize::Medium,
            ObjSizeSelect::LXL => ObjSize::Large,
        }
    }

    /// The "large" size of the selection.
    pub open spec fn spec_large(self) -> ObjSize {
        match self {
            ObjSizeSelect::SM => ObjSize::Medium,
            ObjSizeSelect::ML | ObjSizeSelect::SL => ObjSize::Large,
            ObjSizeSelect::SXL | ObjSizeSelect::MXL | ObjSizeSelect::LXL => ObjSize::ExtraLarge,
        }
    }

    /// Retrieves the "small" variant.
    pub fn small(&self) -> (r: ObjSize)
        ensures
            r == self.spec_small(),
    {
        match self {
            ObjSizeSelect::SM | ObjSizeSelect::SL | ObjSizeSelect::SXL => ObjSize::Small,
            ObjSizeSelect::ML | ObjSizeSelect::MXL => ObjSize::Medium,
            ObjSizeSelect::LXL => ObjSize::Large,
        }
    }

    /// Retrieves the "large" variant.
    pub fn large(&self) -> (r: ObjSize)
        ensures
            r == self.spec_large(),
    {
        match self {
            ObjSizeSelect::SM => ObjSize::Medium,
            ObjSizeSelect::ML | ObjSizeSelect::SL => ObjSize::Large,
            ObjSizeSelect::SXL | ObjSizeSelect::MXL | ObjSizeSelect::LXL => ObjSize::ExtraLarge,
        }
    }
}

/// Every `OBJ SIZE SELECT` pairs a small size with a strictly larger large size, and the six
/// selections are exactly the six such pairs of object sizes; the values 0 to 5 encode them.
pub proof fn lemma_size_select_pairs(select: ObjSizeSelect, small: ObjSize, large: ObjSize)
    ensures
        select.spec_small().spec_pixel_size() < select.spec_large().spec_pixel_size(),
        small.spec_pixel_size() < large.spec_pixel_size() ==> exists|s: ObjSizeSelect|
            s.spec_small() == small && s.spec_large() == large,
        exists|v: u8| v < 6 && ObjSizeSelect::spec_from_value(v) == Some(select),
{
    let witness = match (small, large) {
        (ObjSize::Small, ObjSize::Medium) => ObjSizeSelect::SM,
        (ObjSize::Small, ObjSize::Large) => ObjSizeSelect::SL,
        (ObjSize::Small, _) => ObjSizeSelect::SXL,
        (ObjSize::Medium, ObjSize::Large) => ObjSizeSelect::ML,
        (ObjSize::Medium, _) => ObjSizeSelect::MXL,
        _ => ObjSizeSelect::LXL,
    };
    if small.spec_pixel_size() < large.spec_pixel_size() {
        assert(witness.spec_small() == small && witness.spec_large() == large);
    }
    let code: u8 = match select {
        ObjSizeSelect::SM => 0,
        ObjSizeSelect::SL => 1,
        ObjSizeSelect::SXL => 2,
        ObjSizeSelect::ML => 3,
        ObjSizeSelect::MXL => 4,
        ObjSizeSelect::LXL => 5,
    };
    assert(ObjSizeSelect::spec_from_value(code) == Some(select));
}

impl FromSnesData<u8> for ObjSizeSelect {
    fn from_snes_data(data: u8) -> (r: Result<ObjSizeSelect, DataImportError>)
        ensures
            ObjSizeSelect::spec_from_value(data) matches Some(s) ==> r == Ok::<
                ObjSizeSelect,
                DataImportError,
            >(s),
            ObjSizeSelect::spec_from_value(data) is None ==> (r matches Err(
                DataImportError::InvalidData(m),
            ) && m@ == size_select_error_text(data)),
    {
        match data {
            0 => Ok(ObjSizeSelect::SM),
            1 => Ok(ObjSizeSelect::SL),
            2 => Ok(ObjSizeSelect::SXL),
            3 => Ok(ObjSizeSelect::ML),
            4 => Ok(ObjSizeSelect::MXL),
            5 => Ok(ObjSizeSelect::LXL),
            _ => {
                let mut text = "Unexpected OBJ SIZE SELECT value: ".to_owned();
                push_decimal(&mut text, data as u64);
                text.append(".");
                Err(DataImportError::InvalidData(text))
            },
        }
    }
}

/// An index into the object name table: the `NAME` part of the `OBJECT DATA` (page A-3 of the
/// SNES developer manual).
#[derive(Copy, Clone, Debug, PartialEq, Eq, Structural)]
pub struct ObjNameTableIndex {
    /// Whether this is an entry in the `OBJ NAME BASE` table (else in `OBJ NAME SELECT`).
    pub is_base: bool,
    /// The index into the specified table.
    pub index: u8,
}

impl ObjNameTableIndex {
    /// An index into the `OBJ NAME BASE` table.
    pub fn for_base(index: u8) -> (r: ObjNameTableIndex)
        ensures
            r == (ObjNameTableIndex { is_base: true, index }),
    {
        ObjNameTableIndex { is_base: true, index }
    }

    /// An index into the `OBJ NAME SELECT` table.
    pub fn for_select(index: u8) -> (r: ObjNameTableIndex)
        ensures
            r == (ObjNameTableIndex { is_base: false, index }),
    {
        ObjNameTableIndex { is_base: false, index }
    }
}

/// The input is the 9-bit `NAME` field: bit 8 selects the table, bits 0-7 are the index.
impl FromSnesData<u16> for ObjNameTableIndex {
    fn from_snes_data(data: u16) -> (r: Result<ObjNameTableIndex, DataImportError>)
        ensures
            r == Ok::<ObjNameTableIndex, DataImportError>(
                ObjNameTableIndex { is_base: (data / 256) % 2 == 0, index: (data % 256) as u8 },
            ),
    {
        let is_base = (0x100 & data) == 0;
        let index = (0xFF & data) as u8;
        assert(((0x100 & data) == 0) == ((data / 256) % 2 == 0) && (0xFF & data) == data % 256)
            by (bit_vector);
        Ok(ObjNameTableIndex { is_base, index })
    }
}

/// The `OBJECT DATA` of one object (page A-3 of the SNES developer manual).
#[derive(Copy, Clone, Debug, PartialEq, Eq)]
pub struct ObjData {
    /// The `NAME` field: an index into the object name table.
    pub name: ObjNameTableIndex,
    /// The `COLOR PALETTE SELECT` field: an index into the object palettes.
    pub color: u8,
    /// The horizontal flip flag.
    pub h_flip: bool,
    /// The vertical flip flag.
    pub v_flip: bool,
    /// The position on the screen (`OBJ H-POSITION`, `OBJ V-POSITION`).
    pub position: Point,
    /// The size flag: `true` for "large", `false` for "small".
    pub size_large: bool,
}

/// The object described by the four OAM low-table bytes and the two relevant bits of `high`.
pub open spec fn spec_obj_data(low1: u8, low2: u8, low3: u8, low4: u8, high: u8) -> ObjData {
    ObjData {
        name: ObjNameTableIndex { is_base: low2 % 2 == 0, index: low1 },
        color: ((low2 / 2) % 8) as u8,
        h_flip: (low2 / 64) % 2 == 1,
        v_flip: low2 / 128 == 1,
        position: point(low3 as u32, ((high % 2) * 256 + low4) as u32),
        size_large: (high / 2) % 2 == 1,
    }
}

/// The input is `(low1, low2, low3, low4, high)`: the object's four bytes of the OAM low table and
/// the byte of the high table whose two least-significant bits belong to the object.
impl FromSnesData<(u8, u8, u8, u8, u8)> for ObjData {
    fn from_snes_data(data: (u8, u8, u8, u8, u8)) -> (r: Result<ObjData, DataImportError>)
        ensures
            r == Ok::<ObjData, DataImportError>(
                spec_obj_data(data.0, data.1, data.2, data.3, data.4),
            ),
    {
        let (low1, low2, low3, low4, high) = data;
        let mut low2 = low2;
        let name_bits = ((low2 & 0b1) as u16) << 8 | (low1 as u16);
        assert(name_bits / 256 % 2 == low2 % 2 && name_bits % 256 == low1) by (bit_vector)
            requires
                name_bits == ((low2 & 0b1) as u16) << 8 | (low1 as u16),
        ;
        let name = match ObjNameTableIndex::from_snes_data(name_bits) {
            Ok(n) => n,
            Err(e) => {
                return Err(e);
            },
        };
        let ghost orig = low2;
        low2 = low2 >> 1;
        let color = low2 & 0b111;
        low2 = low2 >> 5;
        let h_flip = low2 & 0b1 != 0;
        let v_flip = low2 & 0b10 != 0;
        assert(color == (orig / 2) % 8 && h_flip == ((orig / 64) % 2 == 1) && v_flip == (orig / 128
            == 1)) by (bit_vector)
            requires
                color == (orig >> 1) & 0b111,
                low2 == (orig >> 1) >> 5,
                h_flip == (low2 & 0b1 != 0),
                v_flip == (low2 & 0b10 != 0),
        ;
        let pos_x = low3 as u32;
        let pos_y = ((high & 0b1) as u32) << 8 | (low4 as u32);
        assert(pos_y == (high % 2) * 256 + low4) by (bit_vector)
            requires
                pos_y == ((high & 0b1) as u32) << 8 | (low4 as u32),
        ;
        let position = Point::new(pos_x, pos_y);
        let size_large = high & 0b10 != 0;
        assert(size_large == ((high / 2) % 2 == 1)) by (bit_vector)
            requires
                size_large == (high & 0b10 != 0),
        ;
        Ok(ObjData { name, color, h_flip, v_flip, position, size_large })
    }
}

/// The number of bytes of the OAM table.
pub const OAM_TABLE_SIZE: usize = 0x220;

/// The number of objects in the OAM table.
pub const OAM_OBJECT_COUNT: usize = 0x80;

/// The object `i` of the OAM table `data`: four bytes of the low table, and two bits of byte
/// `i / 4` of the high table (the lowest two bits for object 0, the next two for object 1, ...).
pub open spec fn spec_oam_object(data: Seq<u8>, i: int) -> ObjData {
    spec_obj_data(
        data[4 * i],
        data[4 * i + 1],
        data[4 * i + 2],
        data[4 * i + 3],
        (data[0x200 + i / 4] as int / pow4(i % 4)) as u8,
    )
}

/// Four to the power `n`, for `n < 4`.
pub open spec fn pow4(n: int) -> int {
    if n == 0 {
        1
    } else if n == 1 {
        4
    } else if n == 2 {
        16
    } else {
        64
    }
}

/// The OAM table (page A-3 of the SNES developer manual): 128 objects.
#[derive(Clone, Debug, PartialEq, Eq)]
pub struct OamTable {
    /// The objects.
    pub objects: Vec<ObjData>,
}

impl FromSnesData<&[u8]> for OamTable {
    fn from_snes_data(data: &[u8]) -> (r: Result<OamTable, DataImportError>)
        ensures
            data@.len() == OAM_TABLE_SIZE ==> (r matches Ok(t) && t.objects@.len()
                == OAM_OBJECT_COUNT && forall|i: int|
                0 <= i < OAM_OBJECT_COUNT ==> #[trigger] t.objects@[i] == spec_oam_object(
                    data@,
                    i,
                )),
            data@.len() != OAM_TABLE_SIZE ==> (r matches Err(DataImportError::InvalidData(m))
                && m@ == length_error_text(OAM_TABLE_SIZE as int, data@.len() as int)),
    {
        if data.len() != OAM_TABLE_SIZE {
            return Err(length_error(OAM_TABLE_SIZE, data.len()));
        }
        let mut high: u8 = 0;
        let mut objects: Vec<ObjData> = Vec::with_capacity(OAM_OBJECT_COUNT);
        let mut i: usize = 0;
        while i < OAM_OBJECT_COUNT
            invariant
                data@.len() == OAM_TABLE_SIZE,
                i <= OAM_OBJECT_COUNT,
                objects@.len() == i,
                i > 0 ==> high as int == data@[0x200 + (i - 1) / 4] as int / pow4((i - 1) % 4),
                forall|k: int| 0 <= k < i ==> #[trigger] objects@[k] == spec_oam_object(data@, k),
            decreases OAM_OBJECT_COUNT - i,
        {
            let low1 = data[4 * i];
            let low2 = data[4 * i + 1];
            let low3 = data[4 * i + 2];
            let low4 = data[4 * i + 3];
            // Every object uses 2 bits of a "high table" byte: a new byte every 4 objects.
            if i % 4 == 0 {
                high = data[0x200 + i / 4];
            } else {
                let ghost prev = high;
                high = high >> 2;
                proof {
                    let b = data@[0x200 + i / 4] as int;
                    assert((i - 1) / 4 == i / 4 && (i - 1) % 4 == i % 4 - 1);
                    let h = high;
                    let p = prev;
                    assert(h == p >> 2);
                    assert(h == p / 4) by (bit_vector)
                        requires
                            h == p >> 2,
                    ;
                    if i % 4 == 1 {
                    } else if i % 4 == 2 {
                        assert(b / 4 / 4 == b / 16);
                    } else {
                        assert(b / 16 / 4 == b / 64);
                    }
                }
            }
            let obj = match ObjData::from_snes_data((low1, low2, low3, low4, high)) {
                Ok(o) => o,
                Err(e) => {
                    return Err(e);
                },
            };
            objects.push(obj);
            i = i + 1;
        }
        Ok(OamTable { objects })
    }
}

/// Bit `r` of `b`, as a `u16` (0 outside `0..8`).
pub open spec fn plane_bit(b: u8, r: int) -> u16 {
    if 0 <= r < 8 {
        ((b >> (r as u8)) & 1) as u16
    } else {
        0
    }
}

/// The 2-bit value formed by bit `r` of `plane1` (low) and of `plane2` (high), shifted left by
/// `offset`.
pub open spec fn plane_mask(plane1: u8, plane2: u8, r: int, offset: int) -> u16 {
    ((plane_bit(plane2, r) << 1u16) | plane_bit(plane1, r)) << (offset as u16)
}

proof fn lemma_shift_step(b: u8, k: u8)
    requires
        k < 8,
    ensures
        (b >> k) >> 1u8 == (if k < 7 {
            b >> ((k + 1) as u8)
        } else {
            0u8
        }),
{
    assert((b >> k) >> 1u8 == (if k < 7 {
        b >> ((k + 1) as u8)
    } else {
        0u8
    })) by (bit_vector)
        requires
            k < 8,
    ;
}

proof fn lemma_mask_value(p1: u8, p2: u8, off: usize, mask: u16)
    requires
        off < 16,
        mask == ((((p2 & 0x1) << 1u8) as u16) | ((p1 & 0x1) as u16)) << (off as u16),
    ensures
        mask == ((((p2 & 1) as u16) << 1u16) | ((p1 & 1) as u16)) << (off as u16),
{
    assert(mask == ((((p2 & 1) as u16) << 1u16) | ((p1 & 1) as u16)) << (off as u16)) by (
    bit_vector)
        requires
            off < 16,
            mask == ((((p2 & 0x1) << 1u8) as u16) | ((p1 & 0x1) as u16)) << (off as u16),
    ;
}

impl ObjNameTable {
    /// Applies one row of SNES interleaved CHR data (two bit planes) to a buffer of palette indices.
    ///
    /// Pixel `j` counted from the right receives bit `j` of `plane1` at bit `bit_offset` and bit `j`
    /// of `plane2` at bit `bit_offset + 1` (pixels beyond the eighth from the right receive nothing).
    /// The offset must be below 16 (the width of an index).
    pub fn apply_planes_to_row(target_row_data: &mut [PaletteIndex], bit_offset: usize, plane1: u8, plane2: u8)
        requires
            bit_offset < 16,
        ensures
            final(target_row_data)@.len() == old(target_row_data)@.len(),
            forall|i: int|
                0 <= i < old(target_row_data)@.len() ==> #[trigger] final(target_row_data)@[i].0 == old(
                    target_row_data,
                )@[i].0 | plane_mask(
                    plane1,
                    plane2,
                    old(target_row_data)@.len() - 1 - i,
                    bit_offset as int,
                ),
    {
        let n = target_row_data.len();
        let mut j = n;
        let mut p1 = plane1;
        let mut p2 = plane2;
        assert(plane1 >> 0u8 == plane1 && plane2 >> 0u8 == plane2) by (bit_vector);
        // Iterate from right to left: the right-most pixel is the least-significant bit.
        while j > 0
            invariant
                bit_offset < 16,
                n == old(target_row_data)@.len(),
                target_row_data@.len() == n,
                j <= n,
                n - j < 8 ==> p1 == plane1 >> ((n - j) as u8) && p2 == plane2 >> ((n - j) as u8),
                n - j >= 8 ==> p1 == 0 && p2 == 0,
                forall|i: int| 0 <= i < j ==> #[trigger] target_row_data@[i] == old(target_row_data)@[i],
                forall|i: int|
                    j <= i < n ==> #[trigger] target_row_data@[i].0 == old(target_row_data)@[i].0
                        | plane_mask(plane1, plane2, n - 1 - i, bit_offset as int),
            decreases j,
        {
            j = j - 1;
            let ghost k = n - 1 - j;
            let mask: u16 = ((((p2 & 0x1) << 1) as u16) | ((p1 & 0x1) as u16)) << bit_offset;
            proof {
                lemma_mask_value(p1, p2, bit_offset, mask);
                if k < 8 {
                    assert(p1 & 1 == plane_bit(plane1, k) && p2 & 1 == plane_bit(plane2, k));
                } else {
                    assert((0u8 & 1) == 0u8) by (bit_vector);
                    assert(mask == 0) by (bit_vector)
                        requires
                            bit_offset < 16,
                            mask == ((((0u8 & 1) as u16) << 1u16) | ((0u8 & 1) as u16)) << (
                            bit_offset as u16),
                    ;
                }
            }
            let pixel = target_row_data[j];
            target_row_data[j] = PaletteIndex(pixel.0 | mask);
            proof {
                if k < 8 {
                    lemma_shift_step(plane1, k as u8);
                    lemma_shift_step(plane2, k as u8);
                }
            }
            p1 = p1 >> 1;
            p2 = p2 >> 1;
            proof {
                if k >= 8 {
                    assert((0u8 >> 1u8) == 0u8) by (bit_vector);
                }
            }
        }
    }
}

/// The width of the object name table surface in pixels.
pub const OBJ_NAME_TABLE_WIDTH: u32 = 128;

/// The height of the object name table surface in pixels (two tables of 128 rows).
pub const OBJ_NAME_TABLE_HEIGHT: u32 = 256;

/// The number of pixels of the object name table surface.
pub const OBJ_NAME_TABLE_PIXELS: usize = 32768;

/// The number of bytes of CHR data of one name table.
pub const OBJ_NAME_DATA_LEN: usize = 0x2000;

/// The number of two-byte steps of CHR data in one name table (one row of 8 pixels of one pair
/// of bit planes each).
pub const CHR_STEPS: usize = 4096;

/// The step of CHR data that holds bit-plane pair `pair` of pixel `(x, y)` of a 128 x 128 table:
/// tiles of 8 x 8 pixels, 16 per row of tiles, 32 bytes per tile, both rows of the first pair of
/// planes before those of the second.
pub open spec fn chr_step(x: int, y: int, pair: int) -> int {
    (y / 8) * 256 + (x / 8) * 16 + pair * 8 + y % 8
}

/// The bits that bit-plane pair `pair` contributes to pixel `(x, y)` of a 128 x 128 table.
pub open spec fn chr_pair_mask(data: Seq<u8>, x: int, y: int, pair: int) -> u16 {
    let s = chr_step(x, y, pair);
    plane_mask(data[2 * s], data[2 * s + 1], 7 - x % 8, 2 * pair)
}

/// The palette index of pixel `(x, y)` of a 128 x 128 table decoded from 4bpp interleaved CHR data:
/// bit `p` of the index is bit `7 - x % 8` of the row's byte of bit plane `p`.
pub open spec fn chr_pixel(data: Seq<u8>, x: int, y: int) -> u16 {
    chr_pair_mask(data, x, y, 0) | chr_pair_mask(data, x, y, 1)
}

/// Decoded CHR pixels are 4-bit palette indices: every index lies below 16.
pub proof fn lemma_chr_pixel_is_4bpp(data: Seq<u8>, x: int, y: int)
    ensures
        chr_pixel(data, x, y) < 16,
{
    let r = 7 - x % 8;
    let (s0, s1) = (chr_step(x, y, 0), chr_step(x, y, 1));
    let (b0, b1) = (plane_bit(data[2 * s0], r), plane_bit(data[2 * s0 + 1], r));
    let (b2, b3) = (plane_bit(data[2 * s1], r), plane_bit(data[2 * s1 + 1], r));
    if 0 <= r < 8 {
        let (d0, d1, d2, d3) = (data[2 * s0], data[2 * s0 + 1], data[2 * s1], data[2 * s1 + 1]);
        let rr = r as u8;
        assert(((d0 >> rr) & 1) <= 1 && ((d1 >> rr) & 1) <= 1 && ((d2 >> rr) & 1) <= 1 && ((d3
            >> rr) & 1) <= 1) by (bit_vector);
    }
    assert(b0 <= 1 && b1 <= 1 && b2 <= 1 && b3 <= 1);
    assert((((b1 << 1u16) | b0) << 0u16) | (((b3 << 1u16) | b2) << 2u16) < 16) by (bit_vector)
        requires
            b0 <= 1,
            b1 <= 1,
            b2 <= 1,
            b3 <= 1,
    ;
}

/// A pixel value of which the bit-plane pairs of the steps before `done` have been merged.
pub open spec fn chr_partial(old: u16, data: Seq<u8>, x: int, y: int, done: int) -> u16 {
    old | (if chr_step(x, y, 0) < done {
        chr_pair_mask(data, x, y, 0)
    } else {
        0
    }) | (if chr_step(x, y, 1) < done {
        chr_pair_mask(data, x, y, 1)
    } else {
        0
    })
}

/// A step number determines the tile row, tile column, plane pair and pixel row it belongs to.
proof fn lemma_step_decode(s: u32, a: u32, b: u32, c: u32, d: u32)
    requires
        a < 16,
        b < 16,
        c < 2,
        d < 8,
        s < 4096,
    ensures
        (s == a * 256 + b * 16 + c * 8 + d) <==> (s / 256 == a && (s / 16) % 16 == b && (s / 8) % 2
            == c && s % 8 == d),
{
    assert((s == a * 256 + b * 16 + c * 8 + d) <==> (s / 256 == a && (s / 16) % 16 == b && (s / 8)
        % 2 == c && s % 8 == d)) by (bit_vector)
        requires
            a < 16,
            b < 16,
            c < 2,
            d < 8,
            s < 4096,
    ;
}

/// A data index of the 128-pixel-wide surface splits into its row and column.
proof fn lemma_pixel_decode(i: u32, x: u32, y: u32)
    requires
        x < 128,
        y < 256,
    ensures
        (i == y * 128 + x) <==> (i / 128 == y && i % 128 == x),
{
    assert((i == y * 128 + x) <==> (i / 128 == y && i % 128 == x)) by (bit_vector)
        requires
            x < 128,
            y < 256,
    ;
}

proof fn lemma_merge_masks(a: u16, m0: u16, m1: u16)
    ensures
        (a | 0u16 | 0u16) | m0 == a | m0 | 0u16,
        (a | m0 | 0u16) | m1 == a | m0 | m1,
{
    assert((a | 0u16 | 0u16) | m0 == a | m0 | 0u16) by (bit_vector);
    assert((a | m0 | 0u16) | m1 == a | m0 | m1) by (bit_vector);
}

/// The state of pixel `i` of the name table surface after the steps before `done`: inside the
/// table's rows its value has the decoded bit-plane pairs of those steps merged in, outside it is
/// unchanged.
pub open spec fn pixel_state(
    cur: PaletteIndex,
    orig: PaletteIndex,
    data: Seq<u8>,
    i: int,
    base: int,
    done: int,
) -> bool {
    let (x, y) = (i % 128, i / 128 - base);
    if 0 <= y < 128 {
        cur.0 == chr_partial(orig.0, data, x, y, done)
    } else {
        cur == orig
    }
}

/// Every pixel of the surface is in the state after the steps before `done`.
pub open spec fn table_state(
    cur: Seq<PaletteIndex>,
    orig: Seq<PaletteIndex>,
    data: Seq<u8>,
    base: int,
    done: int,
) -> bool {
    &&& cur.len() == OBJ_NAME_TABLE_PIXELS
    &&& orig.len() == OBJ_NAME_TABLE_PIXELS
    &&& forall|i: int|
        0 <= i < OBJ_NAME_TABLE_PIXELS ==> #[trigger] pixel_state(cur[i], orig[i], data, i, base, done)
}

/// The data index of the first pixel that step `s` of a table at row `base` writes.
pub open spec fn step_offset(s: int, base: int) -> int {
    (base + (s / 256) * 8 + s % 8) * 128 + ((s / 16) % 16) * 8
}

/// Merging the bit planes of step `s` into its eight pixels advances the table state by one step.
#[verifier::rlimit(50)]
proof fn lemma_step_merges(
    orig: Seq<PaletteIndex>,
    before: Seq<PaletteIndex>,
    after: Seq<PaletteIndex>,
    data: Seq<u8>,
    base: int,
    s: int,
    offset: int,
)
    requires
        table_state(before, orig, data, base, s),
        0 <= s < 4096,
        data.len() == OBJ_NAME_DATA_LEN,
        0 <= base <= 128,
        base % 8 == 0,
        offset == step_offset(s, base),
        after.len() == before.len(),
        forall|i: int|
            0 <= i < OBJ_NAME_TABLE_PIXELS && !(offset <= i < offset + 8) ==> #[trigger] after[i]
                == before[i],
        forall|j: int|
            0 <= j < 8 ==> #[trigger] after[offset + j].0 == before[offset + j].0 | plane_mask(
                data[2 * s],
                data[2 * s + 1],
                7 - j,
                2 * ((s / 8) % 2),
            ),
    ensures
        table_state(after, orig, data, base, s + 1),
{
    let ty = s / 256;
    let tx = (s / 16) % 16;
    let pair = (s / 8) % 2;
    let py = s % 8;
    let row_y = base + ty * 8 + py;
    assert(0 <= ty < 16 && 0 <= tx < 16 && 0 <= py < 8 && 0 <= pair < 2);
    lemma_step_decode(s as u32, ty as u32, tx as u32, pair as u32, py as u32);
    assert(s == ty * 256 + tx * 16 + pair * 8 + py);
    assert forall|i: int| 0 <= i < OBJ_NAME_TABLE_PIXELS implies #[trigger] pixel_state(
        after[i],
        orig[i],
        data,
        i,
        base,
        s + 1,
    ) by {
        let x = i % 128;
        let yy = i / 128;
        let y = yy - base;
        assert(pixel_state(before[i], orig[i], data, i, base, s));
        if offset <= i < offset + 8 {
            let j = i - offset;
            assert(after[offset + j] == after[i]);
            lemma_pixel_decode(i as u32, (tx * 8 + j) as u32, row_y as u32);
            assert(x == tx * 8 + j && yy == row_y);
            assert(x / 8 == tx && x % 8 == j) by (nonlinear_arith)
                requires
                    x == tx * 8 + j,
                    0 <= j < 8,
                    0 <= tx,
            ;
            assert(y / 8 == ty && y % 8 == py) by (nonlinear_arith)
                requires
                    y == ty * 8 + py,
                    0 <= py < 8,
                    0 <= ty,
            ;
            assert(chr_step(x, y, pair) == s);
            assert(chr_step(x, y, 1 - pair) == if pair == 0 {
                s + 8
            } else {
                s - 8
            });
            lemma_merge_masks(orig[i].0, chr_pair_mask(data, x, y, 0), chr_pair_mask(data, x, y, 1));
        } else {
            assert(after[i] == before[i]);
            if 0 <= y < 128 {
                assert(0 <= x < 128);
                lemma_step_decode(s as u32, (y / 8) as u32, (x / 8) as u32, 0, (y % 8) as u32);
                lemma_step_decode(s as u32, (y / 8) as u32, (x / 8) as u32, 1, (y % 8) as u32);
                if chr_step(x, y, 0) == s || chr_step(x, y, 1) == s {
                    assert(y / 8 == ty && x / 8 == tx && y % 8 == py);
                    assert(y == ty * 8 + py && x == tx * 8 + x % 8);
                    lemma_pixel_decode(i as u32, x as u32, yy as u32);
                    assert(i == yy * 128 + x);
                    assert(false);
                }
            }
        }
    }
}

/// The surface holding the decoded object name tables: 128 x 256 palette indices.
pub struct ObjNameTableSurface {
    data: Vec<PaletteIndex>,
}

impl ObjNameTableSurface {
    /// Creates a new instance with every pixel set to index 0.
    pub fn new() -> (r: ObjNameTableSurface)
        ensures
            r.spec_data() == Seq::new(OBJ_NAME_TABLE_PIXELS as nat, |i: int| PaletteIndex(0)),
    {
        let mut data: Vec<PaletteIndex> = Vec::with_capacity(OBJ_NAME_TABLE_PIXELS);
        let mut i: usize = 0;
        while i < OBJ_NAME_TABLE_PIXELS
            invariant
                i <= OBJ_NAME_TABLE_PIXELS,
                data@ == Seq::new(i as nat, |k: int| PaletteIndex(0)),
            decreases OBJ_NAME_TABLE_PIXELS - i,
        {
            data.push(PaletteIndex::new(0));
            i = i + 1;
            proof {
                assert(data@ =~= Seq::new(i as nat, |k: int| PaletteIndex(0)));
            }
        }
        ObjNameTableSurface { data }
    }

    /// The data index of `value`, or `None` if it lies outside the surface.
    pub fn offset(&self, value: Point) -> (r: Option<usize>)
        ensures
            r == spec_index(
                Size { width: ArtworkSpaceUnit(OBJ_NAME_TABLE_WIDTH), height: ArtworkSpaceUnit(OBJ_NAME_TABLE_HEIGHT) },
                value,
            ),
    {
        index_in(Size::new(OBJ_NAME_TABLE_WIDTH, OBJ_NAME_TABLE_HEIGHT), value)
    }

    /// Decodes one name table of 4bpp interleaved CHR data into the rows starting at tile row
    /// `y_offset`: every pixel of those 128 rows gets the decoded palette index merged in (bitwise
    /// or); other pixels are unchanged.
    ///
    /// The data must have exactly 0x2000 bytes and the table must fit in the surface.
    pub fn read_name_table_into_surface(&mut self, obj_name_data: &[u8], y_offset: u32)
        requires
            old(self).spec_data().len() == OBJ_NAME_TABLE_PIXELS,
            obj_name_data@.len() == OBJ_NAME_DATA_LEN,
            y_offset <= 16,
        ensures
            final(self).spec_data().len() == OBJ_NAME_TABLE_PIXELS,
            forall|i: int|
                0 <= i < OBJ_NAME_TABLE_PIXELS ==> {
                    let (x, y) = (i % 128, i / 128 - y_offset * 8);
                    if 0 <= y < 128 {
                        (#[trigger] final(self).spec_data()[i]).0 == old(self).spec_data()[i].0
                            | chr_pixel(obj_name_data@, x, y)
                    } else {
                        final(self).spec_data()[i] == old(self).spec_data()[i]
                    }
                },
    {
        let ghost data = obj_name_data@;
        let ghost orig = self.data@;
        let ghost base = y_offset * 8;
        proof {
            assert forall|i: int| 0 <= i < OBJ_NAME_TABLE_PIXELS implies #[trigger] pixel_state(
                self.data@[i],
                orig[i],
                data,
                i,
                base as int,
                0,
            ) by {
                let a = orig[i].0;
                assert(a | 0u16 | 0u16 == a) by (bit_vector);
            }
        }
        let mut s: usize = 0;
        while s < CHR_STEPS
            invariant
                s <= CHR_STEPS,
                y_offset <= 16,
                obj_name_data@ == data,
                data.len() == OBJ_NAME_DATA_LEN,
                base == y_offset * 8,
                self.data@.len() == OBJ_NAME_TABLE_PIXELS,
                orig.len() == OBJ_NAME_TABLE_PIXELS,
                table_state(self.data@, orig, data, base as int, s as int),
            decreases CHR_STEPS - s,
        {
            let ty = (s / 256) as u32;
            let tx = ((s / 16) % 16) as u32;
            let pair = (s / 8) % 2;
            let py = (s % 8) as u32;
            let plane1 = obj_name_data[2 * s];
            let plane2 = obj_name_data[2 * s + 1];
            let row_y = (y_offset + ty) * 8 + py;
            let offset = (row_y * 128 + tx * 8) as usize;
            let ghost before = self.data@;
            {
                let slice = self.data.as_mut_slice();
                let (_left, rest) = slice.split_at_mut(offset);
                let (row, _right) = rest.split_at_mut(8);
                ObjNameTable::apply_planes_to_row(row, pair * 2, plane1, plane2);
            }
            proof {
                lemma_step_merges(orig, before, self.data@, data, base as int, s as int, offset as int);
            }
            s = s + 1;
        }
        proof {
            assert forall|i: int| 0 <= i < OBJ_NAME_TABLE_PIXELS implies {
                let (x, y) = (i % 128, i / 128 - y_offset * 8);
                if 0 <= y < 128 {
                    (#[trigger] self.data@[i]).0 == orig[i].0 | chr_pixel(obj_name_data@, x, y)
                } else {
                    self.data@[i] == orig[i]
                }
            } by {
                let x = i % 128;
                let y = i / 128 - base;
                assert(pixel_state(self.data@[i], orig[i], data, i, base as int, 4096));
                if 0 <= y < 128 {
                    assert(chr_step(x, y, 0) < 4096 && chr_step(x, y, 1) < 4096) by (nonlinear_arith)
                        requires
                            0 <= x < 128,
                            0 <= y < 128,
                    ;
                    let (a, m0, m1) = (orig[i].0, chr_pair_mask(data, x, y, 0), chr_pair_mask(data, x, y, 1));
                    assert(a | m0 | m1 == a | (m0 | m1)) by (bit_vector);
                }
            }
        }
    }
}

impl Surface for ObjNameTableSurface {
    type DataType = PaletteIndex;

    closed spec fn spec_size(&self) -> Size {
        Size { width: ArtworkSpaceUnit(OBJ_NAME_TABLE_WIDTH), height: ArtworkSpaceUnit(OBJ_NAME_TABLE_HEIGHT) }
    }

    closed spec fn spec_data(&self) -> Seq<PaletteIndex> {
        self.data@
    }

    fn size(&self) -> (r: Size) {
        Size::new(OBJ_NAME_TABLE_WIDTH, OBJ_NAME_TABLE_HEIGHT)
    }

    fn data(&self) -> (r: &[PaletteIndex]) {
        self.data.as_slice()
    }

    fn data_mut(&mut self) -> (r: &mut [PaletteIndex]) {
        self.data.as_mut_slice()
    }

    fn index(&self, position: Point) -> (r: Option<usize>) {
        self.offset(position)
    }
}

/// The palette index at data index `i` of the surface decoded from the two name tables: the rows
/// of `OBJ NAME BASE` above those of `OBJ NAME SELECT`.
pub open spec fn name_table_pixel(base: Seq<u8>, select: Seq<u8>, i: int) -> u16 {
    let (x, y) = (i % 128, i / 128);
    if y < 128 {
        chr_pixel(base, x, y)
    } else {
        chr_pixel(select, x, y - 128)
    }
}

/// The text of the error for a name table of the wrong length.
pub open spec fn table_length_error_text(table: Seq<char>, expected: int, actual: int) -> Seq<char> {
    "Expected "@ + table + " length "@ + decimal(expected as nat) + ", but found "@ + decimal(
        actual as nat,
    )
}

/// Builds the error for a name table of the wrong length.
fn table_length_error(table: &str, expected: usize, actual: usize) -> (r: DataImportError)
    ensures
        r matches DataImportError::InvalidData(m) && m@ == table_length_error_text(
            table@,
            expected as int,
            actual as int,
        ),
{
    let mut text = "Expected ".to_owned();
    text.append(table);
    text.append(" length ");
    push_decimal(&mut text, expected as u64);
    text.append(", but found ");
    push_decimal(&mut text, actual as u64);
    DataImportError::InvalidData(text)
}

/// An `OBJ NAME` table: all graphics data for objects. In VRAM it is stored in two tables,
/// `OBJ NAME BASE` and `OBJ NAME SELECT`, which the SNES treats as one (sections A-1 through A-4 of
/// the SNES developer manual).
pub struct ObjNameTable {
    surface: ObjNameTableSurface,
}

impl ObjNameTable {
    /// The number of 8x8 tiles on the X-axis.
    pub const TILES_X: u32 = 0x10;

    /// The number of 8x8 tiles on the Y-axis.
    pub const TILES_Y: u32 = 0x10;

    /// The decoded surface.
    pub closed spec fn spec_surface(&self) -> ObjNameTableSurface {
        self.surface
    }

    /// Retrieves the decoded surface.
    pub fn surface(&self) -> (r: &ObjNameTableSurface)
        ensures
            *r == self.spec_surface(),
    {
        &self.surface
    }

    /// Decodes the two name tables of 4bpp interleaved CHR data.
    ///
    /// Each of the two tables must hold exactly 0x2000 bytes.
    fn read_interleaved_chr(obj_name_base: &[u8], obj_name_select: &[u8]) -> (r: Result<
        ObjNameTableSurface,
        DataImportError,
    >)
        requires
            obj_name_base@.len() == OBJ_NAME_DATA_LEN,
            obj_name_select@.len() == OBJ_NAME_DATA_LEN,
        ensures
            (r matches Ok(surface) && surface.spec_size() == (Size {
                width: ArtworkSpaceUnit(OBJ_NAME_TABLE_WIDTH),
                height: ArtworkSpaceUnit(OBJ_NAME_TABLE_HEIGHT),
            }) && surface.spec_data().len() == OBJ_NAME_TABLE_PIXELS && forall|i: int|
                0 <= i < OBJ_NAME_TABLE_PIXELS ==> (#[trigger] surface.spec_data()[i]).0
                    == name_table_pixel(obj_name_base@, obj_name_select@, i)),
    {
        let mut surface = ObjNameTableSurface::new();
        let ghost zero = surface.spec_data();
        surface.read_name_table_into_surface(obj_name_base, 0);
        let ghost mid = surface.spec_data();
        surface.read_name_table_into_surface(obj_name_select, ObjNameTable::TILES_Y);
        proof {
            assert forall|i: int| 0 <= i < OBJ_NAME_TABLE_PIXELS implies (
            #[trigger] surface.spec_data()[i]).0 == name_table_pixel(
                obj_name_base@,
                obj_name_select@,
                i,
            ) by {
                let x = i % 128;
                let y = i / 128;
                assert(zero[i].0 == 0);
                if y < 128 {
                    let v = chr_pixel(obj_name_base@, x, y);
                    assert(0u16 | v == v) by (bit_vector);
                    assert(mid[i].0 == v);
                } else {
                    let v = chr_pixel(obj_name_select@, x, y - 128);
                    assert(0u16 | v == v) by (bit_vector);
                    assert(mid[i] == zero[i]);
                }
            }
        }
        Ok(surface)
    }
}

/// The input is `(OBJ NAME BASE, OBJ NAME SELECT)`.
impl FromSnesData<(&[u8], &[u8])> for ObjNameTable {
    fn from_snes_data(data: (&[u8], &[u8])) -> (r: Result<ObjNameTable, DataImportError>)
        ensures
            data.0@.len() == OBJ_NAME_DATA_LEN && data.1@.len() == OBJ_NAME_DATA_LEN ==> (r matches Ok(
                t,
            ) && t.spec_surface().spec_size() == Size {
                width: ArtworkSpaceUnit(OBJ_NAME_TABLE_WIDTH),
                height: ArtworkSpaceUnit(OBJ_NAME_TABLE_HEIGHT),
            } && t.spec_surface().spec_data().len() == OBJ_NAME_TABLE_PIXELS && forall|i: int|
                0 <= i < OBJ_NAME_TABLE_PIXELS ==> (#[trigger] t.spec_surface().spec_data()[i]).0
                    == name_table_pixel(data.0@, data.1@, i)),
            data.0@.len() != OBJ_NAME_DATA_LEN ==> (r matches Err(DataImportError::InvalidData(m))
                && m@ == table_length_error_text(
                "OBJ NAME BASE"@,
                OBJ_NAME_DATA_LEN as int,
                data.0@.len() as int,
            )),
            data.0@.len() == OBJ_NAME_DATA_LEN && data.1@.len() != OBJ_NAME_DATA_LEN ==> (r matches Err(
                DataImportError::InvalidData(m),
            ) && m@ == table_length_error_text(
                "OBJ NAME SELECT"@,
                OBJ_NAME_DATA_LEN as int,
                data.1@.len() as int,
            )),
    {
        let (obj_name_base, obj_name_select) = data;
        if obj_name_base.len() != OBJ_NAME_DATA_LEN {
            return Err(table_length_error("OBJ NAME BASE", OBJ_NAME_DATA_LEN, obj_name_base.len()));
        }
        if obj_name_select.len() != OBJ_NAME_DATA_LEN {
            return Err(
                table_length_error("OBJ NAME SELECT", OBJ_NAME_DATA_LEN, obj_name_select.len()),
            );
        }
        match ObjNameTable::read_interleaved_chr(obj_name_base, obj_name_select) {
            Ok(surface) => Ok(ObjNameTable { surface }),
            Err(e) => Err(e),
        }
    }
}

} // verus!
