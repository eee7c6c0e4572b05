//! Decoding of SNES video data: colors, palettes, object sizes, object data, the OAM table and
//! the object name (CHR) tables.

use ves::geom::{Point, Size};
use ves::snes::{
    DataImportError, FromSnesData, ObjData, ObjNameTable, ObjNameTableIndex, ObjPalettes, ObjSize,
    ObjSizeSelect, OamTable,
};
use ves::sprite::{Color, Palette, PaletteIndex};
use ves::surface::Surface;

#[test]
fn color_test_from_snes_data() {
    let color = Color::from_snes_data((0b11011010, 0b00100100)).unwrap();
    assert_eq!(Color::new(0b11010110, 0b00110001, 0b01001010), color);
    // A negative test for equality on Color to avoid false positives from the previous statement
    assert_ne!(Color::new(0b11010111, 0b00110001, 0b01001010), color);

    let color = Color::from_snes_data((0b10011111, 0b01001011)).unwrap();
    assert_eq!(Color::new(0b11111111, 0b11100111, 0b10010100), color);
    // A negative test for equality on Color to avoid false positives from the previous statement
    assert_ne!(Color::new(0b11111111, 0b11101111, 0b10010100), color);
}

#[test]
fn palette_test_from_snes_data() {
    const INPUT: [u8; 32] = [
        0, 0, 159, 75, 28, 59, 179, 37, 0, 0, 159, 75, 223, 99, 255, 115, 0, 0, 255, 127, 255,
        127, 255, 127, 27, 115, 255, 127, 255, 127, 255, 127,
    ];
    let palette = Palette::from_snes_data(&INPUT[..]).unwrap();

    for (offset, color) in palette.iter().into_iter().map(|(i, c)| (i.as_usize() * 2, c)) {
        let expected = Color::from_snes_data((INPUT[offset], INPUT[offset + 1])).unwrap();
        assert_eq!(&expected, color);
    }
}

#[test]
fn palette_from_snes_data_refuses_a_wrong_length() {
    let input = [0u8; 30];
    assert_eq!(
        Palette::<Color>::from_snes_data(&input[..]).err(),
        Some(DataImportError::InvalidData(String::from(
            "Invalid data length. Expected 32 but got 30."
        )))
    );
}

#[test]
fn obj_palettes_decode_eight_palettes() {
    let mut input = vec![0u8; 256];
    // Color 1 of palette 5: pure red at full intensity (low 5 bits set).
    input[5 * 32 + 2] = 0b0001_1111;
    let palettes = ObjPalettes::from_snes_data(&input[..]).unwrap();
    assert_eq!(palettes.palettes().len(), 8);
    assert_eq!(palettes.palettes()[5].get(PaletteIndex::new(1)), Some(&Color::new(0xFF, 0, 0)));
    assert_eq!(palettes.palettes()[5].get(PaletteIndex::new(0)), Some(&Color::new(0, 0, 0)));
    assert!(ObjPalettes::from_snes_data(&input[..255]).is_err());
}

#[test]
fn test_apply_planes_to_row() {
    let plane1 = 0b11010010u8;
    let plane2 = 0b00010111u8;
    let plane3 = 0b10111011u8;
    let plane4 = 0b00011010u8;

    let expected: [PaletteIndex; 8] = [
        0b00000101u8, // most-significant bits of plane1-4
        0b00000001u8,
        0b00000100u8,
        0b00001111u8,
        0b00001100u8,
        0b00000010u8,
        0b00001111u8,
        0b00000110u8, // least-significant bits of plane1-4
    ]
    .map(PaletteIndex::from);

    let mut actual = [PaletteIndex::new(0); 8];
    ObjNameTable::apply_planes_to_row(&mut actual, 0, plane1, plane2);
    ObjNameTable::apply_planes_to_row(&mut actual, 2, plane3, plane4);

    assert_eq!(&expected, &actual);
}

#[test]
fn test_size() {
    assert_eq!(Size::new(8, 8), ObjSize::Small.size());
    assert_eq!(Size::new(16, 16), ObjSize::Medium.size());
    assert_eq!(Size::new(32, 32), ObjSize::Large.size());
    assert_eq!(Size::new(64, 64), ObjSize::ExtraLarge.size());
}

#[test]
fn test_small() {
    assert_eq!(ObjSizeSelect::SM.small(), ObjSize::Small);
    assert_eq!(ObjSizeSelect::SL.small(), ObjSize::Small);
    assert_eq!(ObjSizeSelect::SXL.small(), ObjSize::Small);
    assert_eq!(ObjSizeSelect::ML.small(), ObjSize::Medium);
    assert_eq!(ObjSizeSelect::MXL.small(), ObjSize::Medium);
    assert_eq!(ObjSizeSelect::LXL.small(), ObjSize::Large);
}

#[test]
fn test_large() {
    assert_eq!(ObjSizeSelect::SM.large(), ObjSize::Medium);
    assert_eq!(ObjSizeSelect::SL.large(), ObjSize::Large);
    assert_eq!(ObjSizeSelect::SXL.large(), ObjSize::ExtraLarge);
    assert_eq!(ObjSizeSelect::ML.large(), ObjSize::Large);
    assert_eq!(ObjSizeSelect::MXL.large(), ObjSize::ExtraLarge);
    assert_eq!(ObjSizeSelect::LXL.large(), ObjSize::ExtraLarge);
}

#[test]
fn extract_test_from_snes_data() {
    assert_eq!(Ok(ObjSizeSelect::SM), ObjSizeSelect::from_snes_data(0));
    assert_eq!(Ok(ObjSizeSelect::SL), ObjSizeSelect::from_snes_data(1));
    assert_eq!(Ok(ObjSizeSelect::SXL), ObjSizeSelect::from_snes_data(2));
    assert_eq!(Ok(ObjSizeSelect::ML), ObjSizeSelect::from_snes_data(3));
    assert_eq!(Ok(ObjSizeSelect::MXL), ObjSizeSelect::from_snes_data(4));
    assert_eq!(Ok(ObjSizeSelect::LXL), ObjSizeSelect::from_snes_data(5));
    for i in 6..=255 {
        assert_eq!(
            Err(DataImportError::InvalidData(format!(
                "Unexpected OBJ SIZE SELECT value: {}.",
                i
            ))),
            ObjSizeSelect::from_snes_data(i)
        );
    }
}

#[test]
fn obj_data_test_from_snes_data() {
    let obj =
        ObjData::from_snes_data((0b01011101, 0b10100101, 0b01100101, 0b01101111, 0b11100011))
            .unwrap();
    assert_eq!(ObjNameTableIndex::for_select(93), obj.name);
    assert_eq!(2, obj.color);
    assert_eq!(false, obj.h_flip);
    assert_eq!(true, obj.v_flip);
    assert_eq!(true, obj.size_large);
    assert_eq!(Point::new(101, 367), obj.position);

    let obj =
        ObjData::from_snes_data((0b01000101, 0b01111110, 0b01110100, 0b01101000, 0b11000100))
            .unwrap();
    assert_eq!(ObjNameTableIndex::for_base(69), obj.name);
    assert_eq!(7, obj.color);
    assert_eq!(true, obj.h_flip);
    assert_eq!(false, obj.v_flip);
    assert_eq!(false, obj.size_large);
    assert_eq!(Point::new(116, 104), obj.position);
}

#[test]
fn obj_name_table_index_from_snes_data_reads_the_select_bit() {
    assert_eq!(ObjNameTableIndex::from_snes_data(0x0042), Ok(ObjNameTableIndex::for_base(0x42)));
    assert_eq!(ObjNameTableIndex::from_snes_data(0x01FF), Ok(ObjNameTableIndex::for_select(0xFF)));
    // Bits above the ninth are ignored.
    assert_eq!(ObjNameTableIndex::from_snes_data(0xFE07), Ok(ObjNameTableIndex::for_base(0x07)));
}

#[test]
fn oam_table_decodes_every_object_and_its_high_bits() {
    let mut data = vec![0u8; 0x220];
    // Object 5: name 0x12 (select table), low position bytes (7, 3), large; the high table's
    // first bit of the object adds 256 to the vertical position.
    data[5 * 4] = 0x12;
    data[5 * 4 + 1] = 0b0000_0001;
    data[5 * 4 + 2] = 7;
    data[5 * 4 + 3] = 3;
    // Object 5 takes bits 2 and 3 of high byte 1 (objects 4..8).
    data[0x200 + 1] = 0b0000_1100;
    let table = OamTable::from_snes_data(&data[..]).unwrap();
    assert_eq!(table.objects.len(), 128);
    let obj = table.objects[5];
    assert_eq!(obj.name, ObjNameTableIndex::for_select(0x12));
    assert_eq!(obj.position, Point::new(7, 259));
    assert!(obj.size_large);
    assert_eq!(table.objects[4].size_large, false);
    assert_eq!(
        OamTable::from_snes_data(&data[..0x21F]).err(),
        Some(DataImportError::InvalidData(String::from(
            "Invalid data length. Expected 544 but got 543."
        )))
    );
}

#[test]
fn obj_name_table_decodes_interleaved_chr() {
    let mut base = vec![0u8; 0x2000];
    let select = vec![0u8; 0x2000];
    // First tile, first row: plane 0 sets the left-most pixel, plane 3 the right-most one.
    base[0] = 0b1000_0000;
    base[17] = 0b0000_0001;
    let table = ObjNameTable::from_snes_data((&base[..], &select[..])).unwrap();
    let surface = table.surface();
    assert_eq!(surface.size(), Size::new(128, 256));
    assert_eq!(surface.pixel(Point::new(0, 0)), Some(&PaletteIndex::new(0b0001)));
    assert_eq!(surface.pixel(Point::new(7, 0)), Some(&PaletteIndex::new(0b1000)));
    assert_eq!(surface.pixel(Point::new(1, 0)), Some(&PaletteIndex::new(0)));
    assert!(ObjNameTable::from_snes_data((&base[..10], &select[..])).is_err());
}

#[test]
fn every_size_select_pairs_a_smaller_with_a_larger_size() {
    for value in 0..6u8 {
        let select = ObjSizeSelect::from_snes_data(value).unwrap();
        assert!(select.small().pixel_size() < select.large().pixel_size());
    }
}

#[test]
fn five_bit_components_expand_to_the_full_byte_range() {
    // Red takes the lowest five bits of the color word.
    for red in 0..32u8 {
        let color = Color::from_snes_data((red, 0)).unwrap();
        assert_eq!(color.r >> 3, red);
        if red > 0 {
            let darker = Color::from_snes_data((red - 1, 0)).unwrap();
            assert!(darker.r < color.r);
        }
    }
    assert_eq!(Color::from_snes_data((0, 0)).unwrap(), Color::new(0, 0, 0));
    assert_eq!(Color::from_snes_data((0xFF, 0x7F)).unwrap(), Color::new(255, 255, 255));
}

#[test]
fn decoded_chr_pixels_are_four_bit_indices() {
    let base = vec![0xFFu8; 0x2000];
    let select = vec![0xA5u8; 0x2000];
    let table = ObjNameTable::from_snes_data((&base[..], &select[..])).unwrap();
    let data = table.surface().data();
    assert_eq!(data.len(), 128 * 256);
    assert!(data[..128 * 128].iter().all(|p| p.value() == 15));
    assert!(data.iter().all(|p| p.value() < 16));
}
