//! Reads the header of a Super Nintendo cartridge image: the internal name,
//! the mapping and cartridge types, the ROM and SRAM size codes, the region
//! and the publisher.
//!
//! [`SnesUtils::new`] decodes a whole image. The title is looked for at the
//! LoROM offset first and, where the bytes there are not printable, taken
//! from the HiROM offset; the six bytes of the field block are decoded one by
//! one, and a code that stands for nothing decodes to `Unknown`.
pub mod cartridge;
pub mod error;
pub mod header;
pub mod layout;
pub mod license;
pub mod mapping;
pub mod region;
pub mod source;
pub mod text;
pub mod title;

pub use cartridge::{get_rom_type, RomType};
pub use error::HeaderError;
pub use header::SnesUtils;
pub use license::get_license;
pub use mapping::{get_rom_makeup_type, RomMarkupType};
pub use region::{get_video_mode, VideoMode};
