use crate::layout::{ROM_TYPE_INDEX, SNES_BUFFER_SIZE};
use vstd::prelude::*;

verus! {

/// The hardware on a cartridge.
#[derive(Debug, Clone, Copy, PartialEq, Eq, Structural)]
pub enum RomType {
    ROM,
    ROMRAM,
    ROMSRAM,
    ROMDSP1,
    ROMDSP1RAM,
    ROMDSP1SRAM,
    FX,
    Unknown,
}

/// The named cartridge types, in the order in which a code is held against them.
pub const ROM_TYPES: [RomType; 7] = [
    RomType::ROM,
    RomType::ROMRAM,
    RomType::ROMSRAM,
    RomType::ROMDSP1,
    RomType::ROMDSP1RAM,
    RomType::ROMDSP1SRAM,
    RomType::FX,
];

impl RomType {
    /// The byte that stands for this cartridge type in a header; `Unknown`
    /// has none.
    pub open spec fn tag(self) -> Option<u8> {
        match self {
            RomType::ROM => Some(0u8),
            RomType::ROMRAM => Some(1u8),
            RomType::ROMSRAM => Some(2u8),
            RomType::ROMDSP1 => Some(3u8),
            RomType::ROMDSP1RAM => Some(4u8),
            RomType::ROMDSP1SRAM => Some(5u8),
            RomType::FX => Some(6u8),
            RomType::Unknown => None,
        }
    }

    /// The cartridge type that a byte stands for.
    pub open spec fn of_code(code: u8) -> RomType {
        match code {
            0 => RomType::ROM,
            1 => RomType::ROMRAM,
            2 => RomType::ROMSRAM,
            3 => RomType::ROMDSP1,
            4 => RomType::ROMDSP1RAM,
            5 => RomType::ROMDSP1SRAM,
            6 => RomType::FX,
            _ => RomType::Unknown,
        }
    }

    /// Decoding is the inverse of tagging: a byte decodes to a named type
    /// exactly when it is that type's tag, and to `Unknown` exactly when it
    /// is the tag of none, which is the case for every byte above 6.
    pub proof fn decoding_inverts_tagging(code: u8, rom_type: RomType)
        ensures
            rom_type.tag() == Some(code) <==> RomType::of_code(code) == rom_type && rom_type
                != RomType::Unknown,
            RomType::of_code(code) != RomType::Unknown <==> code <= 6,
            RomType::of_code(code) == RomType::Unknown <==> forall|t: RomType|
                t.tag() != Some(code),
    {
        if code <= 6 {
            assert(RomType::of_code(code).tag() == Some(code));
        }
    }

    /// The byte that stands for this cartridge type.
    pub fn code(self) -> (code: Option<u8>)
        ensures
            code == self.tag(),
    {
        match self {
            RomType::ROM => Some(0),
            RomType::ROMRAM => Some(1),
            RomType::ROMSRAM => Some(2),
            RomType::ROMDSP1 => Some(3),
            RomType::ROMDSP1RAM => Some(4),
            RomType::ROMDSP1SRAM => Some(5),
            RomType::FX => Some(6),
            RomType::Unknown => None,
        }
    }

    /// Decodes a byte: the first named type whose tag is the byte, or
    /// `Unknown` when no tag matches.
    pub fn from_code(code: u8) -> (rom_type: RomType)
        ensures
            rom_type == RomType::of_code(code),
    {
        let mut i: usize = 0;
        while i < 7
            invariant
                i <= 7,
                forall|j: int| 0 <= j < i ==> (#[trigger] ROM_TYPES[j]).tag() != Some(code),
            decreases 7 - i,
        {
            let candidate = ROM_TYPES[i];
            match candidate.code() {
                Some(tag) => {
                    if tag == code {
                        return candidate;
                    }
                },
                None => {},
            }
            i += 1;
        }
        RomType::Unknown
    }
}

/// Decodes the cartridge type of a field block.
pub fn get_rom_type(buffer: [u8; SNES_BUFFER_SIZE]) -> (rom_type: RomType)
    ensures
        rom_type == RomType::of_code(buffer[ROM_TYPE_INDEX as int]),
{
    RomType::from_code(buffer[ROM_TYPE_INDEX])
}

} // verus!
