use crate::cartridge::{get_rom_type, RomType};
use crate::error::HeaderError;
use crate::layout::{
    FIELD_BLOCK_OFFSET, LICENSES_INDEX, LOROM_TITLE_OFFSET, ROM_MAKEUP_TYPE_INDEX,
    ROM_SIZE_INDEX, ROM_TYPE_INDEX, SNES_BUFFER_SIZE, SRAM_SIZE_INDEX, TITLE_LENGTH,
    VIDEO_MODE_INDEX,
};
use crate::license::{get_license, license_name};
use crate::mapping::{get_rom_makeup_type, RomMarkupType};
use crate::region::{get_video_mode, video_mode_of, VideoMode, VideoModeView};
use crate::source::{bytes_at, read_at};
use crate::title::{
    plausible_title, plausible_title_is_text, read_title, title_bytes, title_offset, title_text,
};
use vstd::prelude::*;
use vstd::utf8::{decode_utf8, decode_utf8_encode_utf8, encode_utf8, valid_utf8};

verus! {

/// What the header of a cartridge image says.
#[derive(Debug)]
pub struct SnesUtils {
    pub internal_name: String,
    pub rom_makeup_type: RomMarkupType,
    pub rom_type: RomType,
    pub rom_size: u8,
    pub sram_size: u8,
    pub video_mode: VideoMode,
    pub license: String,
}

/// The content of a `SnesUtils`, with each text as a sequence of characters.
pub struct SnesUtilsView {
    pub internal_name: Seq<char>,
    pub rom_makeup_type: RomMarkupType,
    pub rom_type: RomType,
    pub rom_size: u8,
    pub sram_size: u8,
    pub video_mode: VideoModeView,
    pub license: Seq<char>,
}

impl View for SnesUtils {
    type V = SnesUtilsView;

    open spec fn view(&self) -> SnesUtilsView {
        SnesUtilsView {
            internal_name: self.internal_name@,
            rom_makeup_type: self.rom_makeup_type,
            rom_type: self.rom_type,
            rom_size: self.rom_size,
            sram_size: self.sram_size,
            video_mode: self.video_mode@,
            license: self.license@,
        }
    }
}

/// The field block of an image.
pub open spec fn field_block(image: Seq<u8>) -> Result<Seq<u8>, HeaderError> {
    bytes_at(image, FIELD_BLOCK_OFFSET as int, SNES_BUFFER_SIZE as int)
}

/// The header that a title and a field block of six bytes make.
pub open spec fn header_of(internal_name: Seq<char>, block: Seq<u8>) -> SnesUtilsView
    recommends
        block.len() == SNES_BUFFER_SIZE,
{
    SnesUtilsView {
        internal_name,
        rom_makeup_type: RomMarkupType::of_code(block[ROM_MAKEUP_TYPE_INDEX as int]),
        rom_type: RomType::of_code(block[ROM_TYPE_INDEX as int]),
        rom_size: block[ROM_SIZE_INDEX as int],
        sram_size: block[SRAM_SIZE_INDEX as int],
        video_mode: video_mode_of(block[VIDEO_MODE_INDEX as int]),
        license: license_name(block[LICENSES_INDEX as int]),
    }
}

/// What an image decodes to: its header, or the first failure met on the
/// way. The field block is read first, then the title.
pub open spec fn decode(image: Seq<u8>) -> Result<SnesUtilsView, HeaderError> {
    match field_block(image) {
        Err(e) => Err(e),
        Ok(block) => match title_text(image) {
            Err(e) => Err(e),
            Ok(internal_name) => Ok(header_of(internal_name, block)),
        },
    }
}

/// Which images decode, and how the others fail. An image is refused as
/// truncated when it ends before the field block, before the LoROM candidate
/// or before the title at the chosen offset, and as no text when the bytes
/// of its title are not well-formed UTF-8. Every other image decodes, to the
/// header of its title and its field block.
pub proof fn decode_outcomes(image: Seq<u8>)
    ensures
        field_block(image) is Err ==> decode(image) == Err::<SnesUtilsView, _>(
            HeaderError::TruncatedRead,
        ),
        decode(image) == Err::<SnesUtilsView, _>(HeaderError::TruncatedRead) <==> image.len()
            < LOROM_TITLE_OFFSET + TITLE_LENGTH || image.len() < title_offset(image)
            + TITLE_LENGTH,
        decode(image) == Err::<SnesUtilsView, _>(HeaderError::InvalidText) <==> (title_bytes(
            image,
        ) matches Ok(bytes) && !valid_utf8(bytes)),
        decode(image) is Ok <==> (title_bytes(image) matches Ok(bytes) && valid_utf8(bytes)),
        decode(image) is Ok ==> decode(image) == Ok::<_, HeaderError>(
            header_of(decode_utf8(title_bytes(image).unwrap()), field_block(image).unwrap()),
        ),
{
}

/// The name of a decoded image is its title region read as text: encoded
/// again, it gives back the 21 bytes that were read, none added and none
/// dropped.
pub proof fn name_holds_the_title(image: Seq<u8>)
    requires
        decode(image) is Ok,
    ensures
        title_bytes(image) is Ok,
        encode_utf8(decode(image).unwrap().internal_name) == title_bytes(image).unwrap(),
        encode_utf8(decode(image).unwrap().internal_name).len() == TITLE_LENGTH,
{
    decode_utf8_encode_utf8(title_bytes(image).unwrap());
}

/// An image that holds a plausible title at the LoROM offset always decodes:
/// its name is that title, character by character, and its fields are those
/// of its first six bytes.
pub proof fn plausible_image_decodes(image: Seq<u8>)
    requires
        LOROM_TITLE_OFFSET + TITLE_LENGTH <= image.len(),
        plausible_title(
            image.subrange(LOROM_TITLE_OFFSET as int, LOROM_TITLE_OFFSET + TITLE_LENGTH),
        ),
    ensures
        decode(image) == Ok::<_, HeaderError>(
            header_of(
                Seq::new(TITLE_LENGTH as nat, |i: int| image[LOROM_TITLE_OFFSET + i] as char),
                field_block(image).unwrap(),
            ),
        ),
{
    let candidate = image.subrange(
        LOROM_TITLE_OFFSET as int,
        LOROM_TITLE_OFFSET + TITLE_LENGTH,
    );
    plausible_title_is_text(candidate);
    assert(decode_utf8(candidate) =~= Seq::new(
        TITLE_LENGTH as nat,
        |i: int| image[LOROM_TITLE_OFFSET + i] as char,
    ));
}

/// Reads the field block of an image.
pub fn read_buffer(image: &[u8]) -> (buffer: Result<[u8; SNES_BUFFER_SIZE], HeaderError>)
    ensures
        match field_block(image@) {
            Ok(expected) => buffer matches Ok(block) && block@ == expected,
            Err(e) => buffer matches Err(failure) && failure == e,
        },
{
    match read_at(image, FIELD_BLOCK_OFFSET, SNES_BUFFER_SIZE) {
        Ok(bytes) => {
            let buffer = [bytes[0], bytes[1], bytes[2], bytes[3], bytes[4], bytes[5]];
            assert(buffer@ =~= bytes@);
            Ok(buffer)
        },
        Err(e) => Err(e),
    }
}

impl SnesUtils {
    /// Decodes the header of a cartridge image. There is no partial result:
    /// either every field is decoded, or the image is refused.
    pub fn new(image: &[u8]) -> (header: Result<SnesUtils, HeaderError>)
        ensures
            match decode(image@) {
                Ok(expected) => header matches Ok(decoded) && decoded@ == expected,
                Err(e) => header matches Err(failure) && failure == e,
            },
    {
        let buffer = read_buffer(image)?;
        let internal_name = read_title(image)?;
        Ok(
            SnesUtils {
                internal_name,
                rom_makeup_type: get_rom_makeup_type(buffer),
                rom_type: get_rom_type(buffer),
                rom_size: buffer[ROM_SIZE_INDEX],
                sram_size: buffer[SRAM_SIZE_INDEX],
                video_mode: get_video_mode(buffer),
                license: get_license(buffer),
            },
        )
    }
}

} // verus!
