use crate::error::HeaderError;
use crate::layout::{HIROM_TITLE_OFFSET, LOROM_TITLE_OFFSET, TITLE_LENGTH};
use crate::source::{bytes_at, read_at};
use vstd::prelude::*;
use vstd::utf8::{
    decode_utf8, encode_utf8, encode_utf8_decode_utf8, encode_utf8_valid_utf8, is_ascii_chars,
    is_ascii_chars_encode_utf8, valid_utf8,
};

verus! {

/// A byte that may stand in a title: a printable ASCII code.
pub open spec fn printable(byte: u8) -> bool {
    32 <= byte <= 127
}

/// A region reads as a title when every byte of it is printable.
pub open spec fn plausible_title(region: Seq<u8>) -> bool {
    forall|i: int| 0 <= i < region.len() ==> printable(#[trigger] region[i])
}

/// The offset at which the title is taken from an image that holds the whole
/// LoROM candidate: that of the candidate if it is plausible, else the HiROM
/// offset, whatever stands there.
pub open spec fn title_offset(image: Seq<u8>) -> int
    recommends
        LOROM_TITLE_OFFSET + TITLE_LENGTH <= image.len(),
{
    if plausible_title(
        image.subrange(LOROM_TITLE_OFFSET as int, LOROM_TITLE_OFFSET + TITLE_LENGTH),
    ) {
        LOROM_TITLE_OFFSET as int
    } else {
        HIROM_TITLE_OFFSET as int
    }
}

/// The bytes of the title of an image.
pub open spec fn title_bytes(image: Seq<u8>) -> Result<Seq<u8>, HeaderError> {
    if bytes_at(image, LOROM_TITLE_OFFSET as int, TITLE_LENGTH as int) is Err {
        Err(HeaderError::TruncatedRead)
    } else {
        bytes_at(image, title_offset(image), TITLE_LENGTH as int)
    }
}

/// The title of an image as text.
pub open spec fn title_text(image: Seq<u8>) -> Result<Seq<char>, HeaderError> {
    match title_bytes(image) {
        Err(e) => Err(e),
        Ok(bytes) => if valid_utf8(bytes) {
            Ok(decode_utf8(bytes))
        } else {
            Err(HeaderError::InvalidText)
        },
    }
}

/// The title is looked for at one of two offsets, and the LoROM candidate
/// alone decides which: the LoROM offset when each of its bytes is
/// printable, the HiROM offset as soon as one is not. What stands at the
/// HiROM offset is then taken as it is.
pub proof fn offset_follows_candidate(image: Seq<u8>)
    requires
        LOROM_TITLE_OFFSET + TITLE_LENGTH <= image.len(),
    ensures
        title_offset(image) == LOROM_TITLE_OFFSET || title_offset(image) == HIROM_TITLE_OFFSET,
        title_offset(image) == LOROM_TITLE_OFFSET <==> forall|i: int|
            LOROM_TITLE_OFFSET <= i < LOROM_TITLE_OFFSET + TITLE_LENGTH ==> 32 <= #[trigger] image[i]
                <= 127,
        title_offset(image) == HIROM_TITLE_OFFSET <==> exists|i: int|
            LOROM_TITLE_OFFSET <= i < LOROM_TITLE_OFFSET + TITLE_LENGTH && !(32
                <= #[trigger] image[i] <= 127),
        title_bytes(image) == bytes_at(image, title_offset(image), TITLE_LENGTH as int),
{
    let candidate = image.subrange(
        LOROM_TITLE_OFFSET as int,
        LOROM_TITLE_OFFSET + TITLE_LENGTH,
    );
    assert forall|i: int|
        LOROM_TITLE_OFFSET <= i < LOROM_TITLE_OFFSET + TITLE_LENGTH implies #[trigger] image[i]
        == candidate[i - LOROM_TITLE_OFFSET] by {}
    if plausible_title(candidate) {
        assert forall|i: int|
            LOROM_TITLE_OFFSET <= i < LOROM_TITLE_OFFSET + TITLE_LENGTH implies 32
            <= #[trigger] image[i] <= 127 by {
            assert(printable(candidate[i - LOROM_TITLE_OFFSET]));
        }
    } else {
        let j = choose|j: int| 0 <= j < candidate.len() && !printable(#[trigger] candidate[j]);
        assert(!(32 <= image[LOROM_TITLE_OFFSET + j] <= 127));
    }
}

/// A plausible title is always text: it is well-formed UTF-8, and reads as
/// the characters whose codes are its bytes.
pub proof fn plausible_title_is_text(region: Seq<u8>)
    requires
        plausible_title(region),
    ensures
        valid_utf8(region),
        decode_utf8(region) == Seq::new(region.len(), |i: int| region[i] as char),
{
    let chars = Seq::new(region.len(), |i: int| region[i] as char);
    assert(is_ascii_chars(chars)) by {
        assert forall|i: int| 0 <= i < chars.len() implies '\0' <= #[trigger] chars[i]
            <= '\u{7f}' by {
            assert(printable(region[i]));
        }
    }
    is_ascii_chars_encode_utf8(chars);
    assert(encode_utf8(chars) =~= region) by {
        assert forall|i: int| 0 <= i < region.len() implies encode_utf8(chars)[i]
            == region[i] by {
            assert(printable(region[i]));
            assert(chars[i] as u8 == encode_utf8(chars)[i]);
        }
    }
    encode_utf8_valid_utf8(chars);
    encode_utf8_decode_utf8(chars);
}

/// Tells whether every byte of a region is printable.
pub fn is_plausible_title(region: &[u8]) -> (plausible: bool)
    ensures
        plausible == plausible_title(region@),
{
    let mut i: usize = 0;
    while i < region.len()
        invariant
            i <= region.len(),
            forall|j: int| 0 <= j < i ==> printable(#[trigger] region@[j]),
        decreases region.len() - i,
    {
        let byte = region[i];
        if byte <= 31 || byte > 127 {
            return false;
        }
        i += 1;
    }
    true
}

/// Chooses the offset of the title: the LoROM offset when the region there is
/// plausible, the HiROM offset otherwise. Fails when the image is too short
/// to hold the LoROM candidate.
pub fn locate_title(image: &[u8]) -> (offset: Result<usize, HeaderError>)
    ensures
        match offset {
            Ok(o) => LOROM_TITLE_OFFSET + TITLE_LENGTH <= image@.len() && o == title_offset(image@),
            Err(e) => image@.len() < LOROM_TITLE_OFFSET + TITLE_LENGTH && e
                == HeaderError::TruncatedRead,
        },
{
    match read_at(image, LOROM_TITLE_OFFSET, TITLE_LENGTH) {
        Ok(candidate) => {
            if is_plausible_title(candidate) {
                Ok(LOROM_TITLE_OFFSET)
            } else {
                Ok(HIROM_TITLE_OFFSET)
            }
        },
        Err(e) => Err(e),
    }
}

/// Reads the internal name of a cartridge image.
pub fn read_title(image: &[u8]) -> (title: Result<String, HeaderError>)
    ensures
        match title_text(image@) {
            Ok(expected) => title matches Ok(text) && text@ == expected,
            Err(e) => title matches Err(failure) && failure == e,
        },
{
    let offset = locate_title(image)?;
    let bytes = read_at(image, offset, TITLE_LENGTH)?;
    match core::str::from_utf8(bytes) {
        Ok(text) => Ok(text.to_string()),
        Err(_) => Err(HeaderError::InvalidText),
    }
}

} // verus!
