use crate::layout::{ROM_MAKEUP_TYPE_INDEX, SNES_BUFFER_SIZE};
use vstd::prelude::*;

verus! {

/// How a cartridge maps its ROM into the address space.
#[derive(Debug, Clone, Copy, PartialEq, Eq, Structural)]
pub enum RomMarkupType {
    LoROM,
    HiROM,
    LoROMFastROM,
    HiROMFastROM,
    ExLoROM,
    ExHiROM,
    Unknown,
}

/// The named mapping types, in the order in which a code is held against them.
pub const ROM_MARKUP_TYPES: [RomMarkupType; 6] = [
    RomMarkupType::LoROM,
    RomMarkupType::HiROM,
    RomMarkupType::LoROMFastROM,
    RomMarkupType::HiROMFastROM,
    RomMarkupType::ExLoROM,
    RomMarkupType::ExHiROM,
];

impl RomMarkupType {
    /// The byte that stands for this mapping type in a header; `Unknown` has
    /// none.
    pub open spec fn tag(self) -> Option<u8> {
        match self {
            RomMarkupType::LoROM => Some(0x20u8),
            RomMarkupType::HiROM => Some(0x21u8),
            RomMarkupType::LoROMFastROM => Some(0x30u8),
            RomMarkupType::HiROMFastROM => Some(0x31u8),
            RomMarkupType::ExLoROM => Some(0x32u8),
            RomMarkupType::ExHiROM => Some(0x35u8),
            RomMarkupType::Unknown => None,
        }
    }

    /// The mapping type that a byte stands for.
    pub open spec fn of_code(code: u8) -> RomMarkupType {
        match code {
            32 => RomMarkupType::LoROM,
            33 => RomMarkupType::HiROM,
            48 => RomMarkupType::LoROMFastROM,
            49 => RomMarkupType::HiROMFastROM,
            50 => RomMarkupType::ExLoROM,
            53 => RomMarkupType::ExHiROM,
            _ => RomMarkupType::Unknown,
        }
    }

    /// Decoding is the inverse of tagging: a byte decodes to a named type
    /// exactly when it is that type's tag, and to `Unknown` exactly when it
    /// is the tag of none.
    pub proof fn decoding_inverts_tagging(code: u8, mapping: RomMarkupType)
        ensures
            mapping.tag() == Some(code) <==> RomMarkupType::of_code(code) == mapping && mapping
                != RomMarkupType::Unknown,
            RomMarkupType::of_code(code) != RomMarkupType::Unknown <==> code == 0x20 || code
                == 0x21 || code == 0x30 || code == 0x31 || code == 0x32 || code == 0x35,
            RomMarkupType::of_code(code) == RomMarkupType::Unknown <==> forall|t: RomMarkupType|
                t.tag() != Some(code),
    {
        if RomMarkupType::of_code(code) != RomMarkupType::Unknown {
            assert(RomMarkupType::of_code(code).tag() == Some(code));
        }
    }

    /// The byte that stands for this mapping type.
    pub fn code(self) -> (code: Option<u8>)
        ensures
            code == self.tag(),
    {
        match self {
            RomMarkupType::LoROM => Some(0x20),
            RomMarkupType::HiROM => Some(0x21),
            RomMarkupType::LoROMFastROM => Some(0x30),
            RomMarkupType::HiROMFastROM => Some(0x31),
            RomMarkupType::ExLoROM => Some(0x32),
            RomMarkupType::ExHiROM => Some(0x35),
            RomMarkupType::Unknown => None,
        }
    }

    /// Decodes a byte: the first named type whose tag is the byte, or
    /// `Unknown` when no tag matches.
    pub fn from_code(code: u8) -> (mapping: RomMarkupType)
        ensures
            mapping == RomMarkupType::of_code(code),
    {
        let mut i: usize = 0;
        while i < 6
            invariant
                i <= 6,
                forall|j: int|
                    0 <= j < i ==> (#[trigger] ROM_MARKUP_TYPES[j]).tag() != Some(code),
            decreases 6 - i,
        {
            let candidate = ROM_MARKUP_TYPES[i];
            match candidate.code() {
                Some(tag) => {
                    if tag == code {
                        return candidate;
                    }
                },
                None => {},
            }
            i += 1;
        }
        RomMarkupType::Unknown
    }
}

/// Decodes the mapping type of a field block.
pub fn get_rom_makeup_type(buffer: [u8; SNES_BUFFER_SIZE]) -> (mapping: RomMarkupType)
    ensures
        mapping == RomMarkupType::of_code(buffer[ROM_MAKEUP_TYPE_INDEX as int]),
{
    RomMarkupType::from_code(buffer[ROM_MAKEUP_TYPE_INDEX])
}

} // verus!
