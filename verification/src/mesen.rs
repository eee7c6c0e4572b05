//! Captures of the Mesen-S emulator: one record per game frame with the video memory that
//! describes the objects (sprites) on screen.

use vstd::prelude::*;

verus! {

/// One game frame of a capture session: its number, the `OBJ SIZE SELECT` setting and copies of
/// the CGRAM, the OAM and the two object name tables.
pub struct Frame {
    /// The frame number, useful for determining animation timings and movement speeds.
    pub frame_nr: u64,
    /// The `OBJ SIZE SELECT` from PPU register 0x2100.
    pub obj_size_select: u8,
    /// The entire CGRAM table; should be 0x200 bytes, of which objects use the latter half.
    pub cgram: Vec<u8>,
    /// The entire OAM table; should be 0x220 bytes.
    pub oam: Vec<u8>,
    /// The `OBJ NAME BASE` table from VRAM; should be 0x2000 bytes.
    pub obj_name_base_table: Vec<u8>,
    /// The `OBJ NAME SELECT` table from VRAM; should be 0x2000 bytes.
    pub obj_name_select_table: Vec<u8>,
}

} // verus!
