use vstd::prelude::*;

verus! {

/// Number of bytes in the internal name of a cartridge.
pub const TITLE_LENGTH: usize = 21;

/// Where the internal name starts in an image with the LoROM layout.
pub const LOROM_TITLE_OFFSET: usize = 32704;

/// Where the internal name starts in an image with the HiROM layout.
pub const HIROM_TITLE_OFFSET: usize = 65472;

/// Where the field block starts in an image, whatever its layout.
pub const FIELD_BLOCK_OFFSET: usize = 0;

/// Number of bytes in the field block.
pub const SNES_BUFFER_SIZE: usize = 6;

/// Position of the mapping type within the field block.
pub const ROM_MAKEUP_TYPE_INDEX: usize = 0;

/// Position of the cartridge type within the field block.
pub const ROM_TYPE_INDEX: usize = 1;

/// Position of the ROM size code within the field block.
pub const ROM_SIZE_INDEX: usize = 2;

/// Position of the SRAM size code within the field block.
pub const SRAM_SIZE_INDEX: usize = 3;

/// Position of the region code within the field block.
pub const VIDEO_MODE_INDEX: usize = 4;

/// Position of the license code within the field block.
pub const LICENSES_INDEX: usize = 5;

} // verus!
