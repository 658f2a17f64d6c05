use vstd::prelude::*;

verus! {

/// Why a cartridge image could not be decoded.
#[derive(Debug, Clone, Copy, PartialEq, Eq, Structural)]
pub enum HeaderError {
    /// The image ends before the last byte of a region that had to be read.
    TruncatedRead,
    /// The bytes of the title are not well-formed UTF-8.
    InvalidText,
}

} // verus!
