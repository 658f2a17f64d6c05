use snesutilities::cartridge::RomType;
use snesutilities::error::HeaderError;
use snesutilities::header::{read_buffer, SnesUtils};
use snesutilities::layout::{FIELD_BLOCK_OFFSET, SNES_BUFFER_SIZE};
use snesutilities::mapping::RomMarkupType;

fn image_of(block: [u8; 6], length: usize, lorom: &[u8], hirom: &[u8]) -> Vec<u8> {
    let mut image = vec![0u8; length];
    for (i, byte) in lorom.iter().enumerate() {
        image[32704 + i] = *byte;
    }
    for (i, byte) in hirom.iter().enumerate() {
        image[65472 + i] = *byte;
    }
    for (i, byte) in block.iter().enumerate() {
        image[i] = *byte;
    }
    image
}

#[test]
fn field_block_layout() {
    assert_eq!(FIELD_BLOCK_OFFSET, 0);
    assert_eq!(SNES_BUFFER_SIZE, 6);
}

#[test]
fn field_block_is_the_first_six_bytes() {
    assert_eq!(read_buffer(&[32, 2, 8, 3, 1, 1]), Ok([32, 2, 8, 3, 1, 1]));
    assert_eq!(read_buffer(&[32, 2, 8, 3, 1, 1, 9, 9, 9]), Ok([32, 2, 8, 3, 1, 1]));
}

#[test]
fn field_block_of_a_short_image_is_truncated() {
    assert_eq!(read_buffer(&[]), Err(HeaderError::TruncatedRead));
    assert_eq!(read_buffer(&[32, 2, 8, 3, 1]), Err(HeaderError::TruncatedRead));
}

#[test]
fn lorom_cartridge_decodes() {
    let image = image_of([32, 2, 8, 3, 1, 1], 40000, b"THE LEGEND OF ZELDA  ", b"");
    let header = SnesUtils::new(&image).unwrap();
    assert_eq!(header.internal_name, "THE LEGEND OF ZELDA  ");
    assert_eq!(header.rom_makeup_type, RomMarkupType::LoROM);
    assert_eq!(header.rom_type, RomType::ROMSRAM);
    assert_eq!(header.rom_size, 8);
    assert_eq!(header.sram_size, 3);
    assert_eq!(header.video_mode.country, "USA");
    assert_eq!(header.video_mode.mode, "NTSC");
    assert_eq!(header.license, "Nintendo");
}

#[test]
fn unknown_codes_decode_to_unknown() {
    let image = image_of([99, 200, 0, 0, 250, 0], 40000, b"SOME HOMEBREW        ", b"");
    let header = SnesUtils::new(&image).unwrap();
    assert_eq!(header.internal_name, "SOME HOMEBREW        ");
    assert_eq!(header.rom_makeup_type, RomMarkupType::Unknown);
    assert_eq!(header.rom_type, RomType::Unknown);
    assert_eq!(header.rom_size, 0);
    assert_eq!(header.sram_size, 0);
    assert_eq!(header.video_mode.country, "Unknown");
    assert_eq!(header.video_mode.mode, "Unknown");
    assert_eq!(header.license, "Invalid");
}

#[test]
fn hirom_cartridge_decodes() {
    let image = image_of([0x31, 5, 11, 5, 0, 195], 70000, &[0xff; 21], b"FINAL FANTASY 5      ");
    let header = SnesUtils::new(&image).unwrap();
    assert_eq!(header.internal_name, "FINAL FANTASY 5      ");
    assert_eq!(header.rom_makeup_type, RomMarkupType::HiROMFastROM);
    assert_eq!(header.rom_type, RomType::ROMDSP1SRAM);
    assert_eq!(header.rom_size, 11);
    assert_eq!(header.sram_size, 5);
    assert_eq!(header.video_mode.country, "Japan");
    assert_eq!(header.video_mode.mode, "NTSC");
    assert_eq!(header.license, "TECMO (2)");
}

#[test]
fn size_codes_are_kept_as_they_are() {
    for code in [0u8, 1, 7, 12, 128, 255] {
        let image = image_of([32, 0, code, 255 - code, 0, 0], 32725, &[65; 21], b"");
        let header = SnesUtils::new(&image).unwrap();
        assert_eq!(header.rom_size, code);
        assert_eq!(header.sram_size, 255 - code);
    }
}

#[test]
fn vacant_license_is_no_failure() {
    let image = image_of([32, 0, 8, 0, 2, 2], 32725, &[65; 21], b"");
    let header = SnesUtils::new(&image).unwrap();
    assert_eq!(header.license, "");
    assert_eq!(header.video_mode.country, "Europe");
}

#[test]
fn image_shorter_than_the_field_block_is_refused() {
    for length in 0..6 {
        let image = vec![32u8; length];
        assert_eq!(SnesUtils::new(&image).err(), Some(HeaderError::TruncatedRead));
    }
}

#[test]
fn image_that_ends_within_the_title_is_refused() {
    let mut image = image_of([32, 2, 8, 3, 1, 1], 32725, b"THE LEGEND OF ZELDA  ", b"");
    assert!(SnesUtils::new(&image).is_ok());
    image.pop();
    assert_eq!(SnesUtils::new(&image).err(), Some(HeaderError::TruncatedRead));
    image.truncate(32704);
    assert_eq!(SnesUtils::new(&image).err(), Some(HeaderError::TruncatedRead));
    image.truncate(6);
    assert_eq!(SnesUtils::new(&image).err(), Some(HeaderError::TruncatedRead));
}

#[test]
fn image_that_ends_before_the_hirom_title_is_refused() {
    let mut image = image_of([33, 2, 8, 3, 1, 1], 65493, &[0; 21], b"FINAL FANTASY 5      ");
    assert_eq!(SnesUtils::new(&image).unwrap().internal_name, "FINAL FANTASY 5      ");
    image.pop();
    assert_eq!(SnesUtils::new(&image).err(), Some(HeaderError::TruncatedRead));
}

#[test]
fn image_whose_title_is_no_text_is_refused() {
    let image = image_of([33, 2, 8, 3, 1, 1], 65493, &[0; 21], &[0x80; 21]);
    assert_eq!(SnesUtils::new(&image).err(), Some(HeaderError::InvalidText));
}

#[test]
fn unvalidated_hirom_title_is_taken_as_it_is() {
    let image = image_of([33, 2, 8, 3, 1, 1], 65493, &[0; 21], &[0; 21]);
    assert_eq!(SnesUtils::new(&image).unwrap().internal_name, "\0".repeat(21));
}
